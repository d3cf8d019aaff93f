use vstd::prelude::*;
use vstd::string::StrSliceExecFns;

verus! {

/// A parsed JSON document. Numbers keep the text they were written with, so
/// that integers of any width survive parsing.
#[derive(Debug)]
pub enum JsonValue {
    Null,
    Bool(bool),
    Number(String),
    Str(String),
    Array(Vec<JsonValue>),
    Object(Vec<(String, JsonValue)>),
}

/// The document that a JSON text denotes, or `None` when the text is not
/// valid JSON. For an object with a repeated key only the last entry is kept.
pub uninterp spec fn json_parsed(text: Seq<char>) -> Option<JsonValue>;

/// Relies on serde_json::from_str into serde_json::Value (built with
/// arbitrary precision, so a number keeps its literal text): `None` exactly
/// when the text is not valid JSON.
#[verifier::external_body]
pub(crate) fn parse_json(text: &str) -> (r: Option<JsonValue>)
    ensures
        r == json_parsed(text@),
{
    serde_json::from_str::<serde_json::Value>(text).ok().map(from_serde_value)
}

/// serde_json's document type, carried through unopened.
#[verifier::external_type_specification]
#[verifier::external_body]
pub struct ExValue(serde_json::Value);

/// Moves a serde_json document into the library's own representation, one
/// variant for one variant.
#[verifier::external_body]
fn from_serde_value(v: serde_json::Value) -> JsonValue {
    match v {
        serde_json::Value::Null => JsonValue::Null,
        serde_json::Value::Bool(b) => JsonValue::Bool(b),
        serde_json::Value::Number(n) => JsonValue::Number(n.as_str().to_string()),
        serde_json::Value::String(s) => JsonValue::Str(s),
        serde_json::Value::Array(a) => JsonValue::Array(a.into_iter().map(from_serde_value).collect()),
        serde_json::Value::Object(o) => JsonValue::Object(o.into_iter().map(|(k, v)| (k, from_serde_value(v))).collect()),
    }
}

/// The value stored under `key` among `entries`, the last such entry winning.
pub open spec fn entry_lookup(entries: Seq<(String, JsonValue)>, key: Seq<char>) -> Option<JsonValue>
    decreases entries.len(),
{
    if entries.len() == 0 {
        None
    } else if entries.last().0@ == key {
        Some(entries.last().1)
    } else {
        entry_lookup(entries.drop_last(), key)
    }
}

/// The member `key` of `v`, when `v` is an object that has one.
pub open spec fn member(v: JsonValue, key: Seq<char>) -> Option<JsonValue> {
    match v {
        JsonValue::Object(entries) => entry_lookup(entries@, key),
        _ => None,
    }
}

/// Whether two strings hold the same characters.
pub fn str_equal(a: &str, b: &str) -> (r: bool)
    ensures
        r == (a@ == b@),
{
    let n = a.unicode_len();
    let m = b.unicode_len();
    if n != m {
        return false;
    }
    let mut i: usize = 0;
    while i < n
        invariant
            n == a@.len(),
            m == b@.len(),
            n == m,
            i <= n,
            forall|k: int| 0 <= k < i ==> a@[k] == b@[k],
        decreases n - i,
    {
        if a.get_char(i) != b.get_char(i) {
            return false;
        }
        i = i + 1;
    }
    assert(a@ =~= b@);
    true
}

/// The characters of `s`.
pub fn chars_of(s: &str) -> (r: Vec<char>)
    ensures
        r@ == s@,
{
    let n = s.unicode_len();
    let mut r: Vec<char> = Vec::new();
    let mut i: usize = 0;
    while i < n
        invariant
            n == s@.len(),
            i <= n,
            r@ == s@.take(i as int),
        decreases n - i,
    {
        r.push(s.get_char(i));
        i = i + 1;
        assert(r@ =~= s@.take(i as int));
    }
    assert(s@.take(n as int) =~= s@);
    r
}

impl JsonValue {
    /// The member `key` of this value, when it is an object that has one.
    pub fn get(&self, key: &str) -> (r: Option<&JsonValue>)
        ensures
            match r {
                Some(v) => member(*self, key@) == Some(*v),
                None => member(*self, key@) is None,
            },
    {
        match self {
            JsonValue::Object(entries) => {
                let mut i: usize = entries.len();
                assert(entries@.take(i as int) =~= entries@);
                while i > 0
                    invariant
                        i <= entries@.len(),
                        member(*self, key@) == entry_lookup(entries@, key@),
                        entry_lookup(entries@, key@) == entry_lookup(entries@.take(i as int), key@),
                    decreases i,
                {
                    assert(entries@.take(i as int).drop_last() =~= entries@.take(i - 1));
                    assert(entries@.take(i as int).last() == entries@[i - 1]);
                    if str_equal(entries[i - 1].0.as_str(), key) {
                        assert(entry_lookup(entries@.take(i as int), key@) == Some(entries@[i - 1].1));
                        return Some(&entries[i - 1].1);
                    }
                    i = i - 1;
                }
                None
            },
            _ => None,
        }
    }
}

} // verus!
