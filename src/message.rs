use vstd::prelude::*;

use crate::error::AuthenticateError;
use crate::ip::{IpAddress, ip_address_of, parse_ip_address};
use crate::json::{JsonValue, chars_of, json_parsed, member, parse_json, str_equal};
use crate::text::{bounded_decimal, parse_decimal};
use crate::timing::{NANOS_PER_SEC, TimeSpan};

verus! {

/// The HTTP method of the observed request.
#[derive(Debug, Clone, Copy, PartialEq, Eq, Structural)]
pub enum Method {
    GET,
    PUT,
    POST,
    DELETE,
    OPTIONS,
    HEAD,
    TRACE,
    CONNECT,
    PATCH,
}

/// The network 4-tuple of the observed request.
#[derive(Debug, Clone, Copy, PartialEq, Eq, Structural)]
pub struct TCPIP {
    pub src: IpAddress,
    pub dst: IpAddress,
    pub sport: u16,
    pub dport: u16,
}

/// One telemetry record, forwarded unchanged once its envelope is accepted.
#[derive(Debug)]
pub struct Metrics {
    pub time: u128,
    pub duration: u64,
    pub gateway: bool,
    pub method: Method,
    pub uri: String,
    pub name: String,
    pub id: u128,
    pub tcpip: TCPIP,
}

/// Records compare by their timestamp alone.
impl PartialEq for Metrics {
    fn eq(&self, other: &Metrics) -> (r: bool)
        ensures
            r == (self.time == other.time),
    {
        self.time == other.time
    }
}

impl vstd::std_specs::cmp::PartialEqSpecImpl for Metrics {
    open spec fn obeys_eq_spec() -> bool {
        true
    }

    open spec fn eq_spec(&self, other: &Metrics) -> bool {
        self.time == other.time
    }
}

impl Eq for Metrics {
}

/// Records are ordered by their timestamp alone.
impl PartialOrd for Metrics {
    fn partial_cmp(&self, other: &Metrics) -> (r: Option<core::cmp::Ordering>)
        ensures
            r == Some(if self.time < other.time {
                core::cmp::Ordering::Less
            } else if self.time == other.time {
                core::cmp::Ordering::Equal
            } else {
                core::cmp::Ordering::Greater
            }),
    {
        if self.time < other.time {
            Some(core::cmp::Ordering::Less)
        } else if self.time == other.time {
            Some(core::cmp::Ordering::Equal)
        } else {
            Some(core::cmp::Ordering::Greater)
        }
    }
}

impl vstd::std_specs::cmp::PartialOrdSpecImpl for Metrics {
    open spec fn obeys_partial_cmp_spec() -> bool {
        true
    }

    open spec fn partial_cmp_spec(&self, other: &Metrics) -> Option<core::cmp::Ordering> {
        Some(if self.time < other.time {
            core::cmp::Ordering::Less
        } else if self.time == other.time {
            core::cmp::Ordering::Equal
        } else {
            core::cmp::Ordering::Greater
        })
    }
}

/// A decoded envelope.
#[derive(Debug)]
pub struct Message {
    pub nonce: u128,
    pub expires: TimeSpan,
    pub payload: Metrics,
}

/// `v` as an unsigned integer of at most `max`.
pub open spec fn json_uint(v: JsonValue, max: int) -> Option<int> {
    match v {
        JsonValue::Number(t) => bounded_decimal(t@, max),
        _ => None,
    }
}

pub open spec fn field_uint(v: JsonValue, key: Seq<char>, max: int) -> Option<int> {
    match member(v, key) {
        Some(f) => json_uint(f, max),
        None => None,
    }
}

pub open spec fn field_bool(v: JsonValue, key: Seq<char>) -> Option<bool> {
    match member(v, key) {
        Some(JsonValue::Bool(b)) => Some(b),
        _ => None,
    }
}

pub open spec fn field_text(v: JsonValue, key: Seq<char>) -> Option<Seq<char>> {
    match member(v, key) {
        Some(JsonValue::Str(s)) => Some(s@),
        _ => None,
    }
}

/// The method whose name is `s`, spelled in capitals.
pub open spec fn method_named(s: Seq<char>) -> Option<Method> {
    if s == "GET"@ {
        Some(Method::GET)
    } else if s == "PUT"@ {
        Some(Method::PUT)
    } else if s == "POST"@ {
        Some(Method::POST)
    } else if s == "DELETE"@ {
        Some(Method::DELETE)
    } else if s == "OPTIONS"@ {
        Some(Method::OPTIONS)
    } else if s == "HEAD"@ {
        Some(Method::HEAD)
    } else if s == "TRACE"@ {
        Some(Method::TRACE)
    } else if s == "CONNECT"@ {
        Some(Method::CONNECT)
    } else if s == "PATCH"@ {
        Some(Method::PATCH)
    } else {
        None
    }
}

pub open spec fn field_method(v: JsonValue, key: Seq<char>) -> Option<Method> {
    match field_text(v, key) {
        Some(s) => method_named(s),
        None => None,
    }
}

pub open spec fn field_ip(v: JsonValue, key: Seq<char>) -> Option<IpAddress> {
    match field_text(v, key) {
        Some(s) => ip_address_of(s),
        None => None,
    }
}

/// The span of `s` seconds and `n` nanoseconds, when `s + n / 10^9` still
/// fits in 64 bits.
pub open spec fn span_of(secs: Option<int>, nanos: Option<int>) -> Option<TimeSpan> {
    match (secs, nanos) {
        (Some(s), Some(n)) => if s + n / (NANOS_PER_SEC as int) <= u64::MAX {
            Some(TimeSpan { secs: s as u64, nanos: n as u32 })
        } else {
            None
        },
        _ => None,
    }
}

/// A span written as whole seconds, as `{"secs": s, "nanos": n}` or as
/// `[s, n]`.
pub open spec fn duration_of(v: JsonValue) -> Option<TimeSpan> {
    match v {
        JsonValue::Number(_) => match json_uint(v, u64::MAX as int) {
            Some(s) => Some(TimeSpan { secs: s as u64, nanos: 0 }),
            None => None,
        },
        JsonValue::Object(_) => span_of(field_uint(v, "secs"@, u64::MAX as int), field_uint(v, "nanos"@, u32::MAX as int)),
        JsonValue::Array(items) => if items@.len() == 2 {
            span_of(json_uint(items@[0], u64::MAX as int), json_uint(items@[1], u32::MAX as int))
        } else {
            None
        },
        _ => None,
    }
}

pub open spec fn field_duration(v: JsonValue, key: Seq<char>) -> Option<TimeSpan> {
    match member(v, key) {
        Some(f) => duration_of(f),
        None => None,
    }
}

/// The 4-tuple that `v` describes.
pub open spec fn tcpip_of(v: JsonValue) -> Option<TCPIP> {
    match (field_ip(v, "src"@), field_ip(v, "dst"@), field_uint(v, "sport"@, u16::MAX as int), field_uint(v, "dport"@, u16::MAX as int)) {
        (Some(src), Some(dst), Some(sport), Some(dport)) => Some(TCPIP { src, dst, sport: sport as u16, dport: dport as u16 }),
        _ => None,
    }
}

pub open spec fn field_tcpip(v: JsonValue, key: Seq<char>) -> Option<TCPIP> {
    match member(v, key) {
        Some(f) => tcpip_of(f),
        None => None,
    }
}

/// Whether `v` describes a telemetry record: every field present with its type.
pub open spec fn metrics_valid(v: JsonValue) -> bool {
    &&& field_uint(v, "time"@, u128::MAX as int) is Some
    &&& field_uint(v, "duration"@, u64::MAX as int) is Some
    &&& field_bool(v, "gateway"@) is Some
    &&& field_method(v, "method"@) is Some
    &&& field_text(v, "uri"@) is Some
    &&& field_text(v, "name"@) is Some
    &&& field_uint(v, "id"@, u128::MAX as int) is Some
    &&& field_tcpip(v, "tcpip"@) is Some
}

/// Whether `m` holds exactly what `v` describes.
pub open spec fn metrics_match(v: JsonValue, m: Metrics) -> bool {
    &&& field_uint(v, "time"@, u128::MAX as int) == Some(m.time as int)
    &&& field_uint(v, "duration"@, u64::MAX as int) == Some(m.duration as int)
    &&& field_bool(v, "gateway"@) == Some(m.gateway)
    &&& field_method(v, "method"@) == Some(m.method)
    &&& field_text(v, "uri"@) == Some(m.uri@)
    &&& field_text(v, "name"@) == Some(m.name@)
    &&& field_uint(v, "id"@, u128::MAX as int) == Some(m.id as int)
    &&& field_tcpip(v, "tcpip"@) == Some(m.tcpip)
}

/// Whether `v` describes an envelope.
pub open spec fn message_valid(v: JsonValue) -> bool {
    &&& field_uint(v, "nonce"@, u128::MAX as int) is Some
    &&& field_duration(v, "expires"@) is Some
    &&& member(v, "payload"@) matches Some(p) && metrics_valid(p)
}

/// Whether `m` is exactly the payload that the envelope document `v` holds.
pub open spec fn payload_match(v: JsonValue, m: Metrics) -> bool {
    member(v, "payload"@) matches Some(p) && metrics_match(p, m)
}

/// Whether `m` holds exactly what `v` describes.
pub open spec fn message_match(v: JsonValue, m: Message) -> bool {
    &&& field_uint(v, "nonce"@, u128::MAX as int) == Some(m.nonce as int)
    &&& field_duration(v, "expires"@) == Some(m.expires)
    &&& payload_match(v, m.payload)
}

fn uint_field(v: &JsonValue, key: &str, max: u128) -> (r: Option<u128>)
    ensures
        match field_uint(*v, key@, max as int) {
            Some(n) => r == Some(n as u128) && 0 <= n <= max,
            None => r is None,
        },
{
    match v.get(key) {
        Some(f) => uint_value(f, max),
        None => None,
    }
}

fn bool_field(v: &JsonValue, key: &str) -> (r: Option<bool>)
    ensures
        r == field_bool(*v, key@),
{
    match v.get(key) {
        Some(JsonValue::Bool(b)) => Some(*b),
        _ => None,
    }
}

fn text_field<'a>(v: &'a JsonValue, key: &str) -> (r: Option<&'a String>)
    ensures
        match field_text(*v, key@) {
            Some(s) => r matches Some(t) && t@ == s,
            None => r is None,
        },
{
    match v.get(key) {
        Some(JsonValue::Str(s)) => Some(s),
        _ => None,
    }
}

/// The method named by `s`.
pub fn parse_method(s: &str) -> (r: Option<Method>)
    ensures
        r == method_named(s@),
{
    if str_equal(s, "GET") {
        Some(Method::GET)
    } else if str_equal(s, "PUT") {
        Some(Method::PUT)
    } else if str_equal(s, "POST") {
        Some(Method::POST)
    } else if str_equal(s, "DELETE") {
        Some(Method::DELETE)
    } else if str_equal(s, "OPTIONS") {
        Some(Method::OPTIONS)
    } else if str_equal(s, "HEAD") {
        Some(Method::HEAD)
    } else if str_equal(s, "TRACE") {
        Some(Method::TRACE)
    } else if str_equal(s, "CONNECT") {
        Some(Method::CONNECT)
    } else if str_equal(s, "PATCH") {
        Some(Method::PATCH)
    } else {
        None
    }
}

fn method_field(v: &JsonValue, key: &str) -> (r: Option<Method>)
    ensures
        r == field_method(*v, key@),
{
    match text_field(v, key) {
        Some(s) => parse_method(s.as_str()),
        None => None,
    }
}

fn ip_field(v: &JsonValue, key: &str) -> (r: Option<IpAddress>)
    ensures
        r == field_ip(*v, key@),
{
    match text_field(v, key) {
        Some(s) => parse_ip_address(&chars_of(s.as_str())),
        None => None,
    }
}

/// Builds the span of `secs` seconds and `nanos` nanoseconds, refusing one
/// whose nanoseconds carry past the largest count of seconds.
fn span_from(secs: Option<u128>, nanos: Option<u128>) -> (r: Option<TimeSpan>)
    requires
        secs matches Some(s) ==> s <= u64::MAX,
        nanos matches Some(n) ==> n <= u32::MAX,
    ensures
        r == span_of(
            match secs { Some(s) => Some(s as int), None => None },
            match nanos { Some(n) => Some(n as int), None => None },
        ),
{
    match (secs, nanos) {
        (Some(s), Some(n)) => {
            if s + n / (NANOS_PER_SEC as u128) <= u64::MAX as u128 {
                Some(TimeSpan { secs: s as u64, nanos: n as u32 })
            } else {
                None
            }
        },
        _ => None,
    }
}

/// `v` as an unsigned integer of at most `max`.
fn uint_value(v: &JsonValue, max: u128) -> (r: Option<u128>)
    ensures
        match json_uint(*v, max as int) {
            Some(n) => r == Some(n as u128) && 0 <= n <= max,
            None => r is None,
        },
{
    match v {
        JsonValue::Number(t) => parse_decimal(&chars_of(t.as_str()), max),
        _ => None,
    }
}

/// Reads a span written as whole seconds, as `{"secs": s, "nanos": n}` or
/// as `[s, n]`.
pub fn parse_duration(v: &JsonValue) -> (r: Option<TimeSpan>)
    ensures
        r == duration_of(*v),
{
    match v {
        JsonValue::Number(_) => match uint_value(v, u64::MAX as u128) {
            Some(s) => Some(TimeSpan { secs: s as u64, nanos: 0 }),
            None => None,
        },
        JsonValue::Object(_) => span_from(uint_field(v, "secs", u64::MAX as u128), uint_field(v, "nanos", u32::MAX as u128)),
        JsonValue::Array(items) => {
            if items.len() == 2 {
                span_from(uint_value(&items[0], u64::MAX as u128), uint_value(&items[1], u32::MAX as u128))
            } else {
                None
            }
        },
        _ => None,
    }
}

fn duration_field(v: &JsonValue, key: &str) -> (r: Option<TimeSpan>)
    ensures
        r == field_duration(*v, key@),
{
    match v.get(key) {
        Some(f) => parse_duration(f),
        None => None,
    }
}

/// Reads the network 4-tuple that `v` describes.
pub fn parse_tcpip(v: &JsonValue) -> (r: Option<TCPIP>)
    ensures
        r == tcpip_of(*v),
{
    let src = ip_field(v, "src");
    let dst = ip_field(v, "dst");
    let sport = uint_field(v, "sport", u16::MAX as u128);
    let dport = uint_field(v, "dport", u16::MAX as u128);
    match (src, dst, sport, dport) {
        (Some(src), Some(dst), Some(sport), Some(dport)) => Some(TCPIP { src, dst, sport: sport as u16, dport: dport as u16 }),
        _ => None,
    }
}

/// Reads the telemetry record that `v` describes.
pub fn parse_metrics(v: &JsonValue) -> (r: Option<Metrics>)
    ensures
        r is Some == metrics_valid(*v),
        r matches Some(m) ==> metrics_match(*v, m),
{
    let time = uint_field(v, "time", u128::MAX);
    let duration = uint_field(v, "duration", u64::MAX as u128);
    let gateway = bool_field(v, "gateway");
    let method = method_field(v, "method");
    let uri = text_field(v, "uri");
    let name = text_field(v, "name");
    let id = uint_field(v, "id", u128::MAX);
    let tcpip = match v.get("tcpip") {
        Some(t) => parse_tcpip(t),
        None => None,
    };
    match (time, duration, gateway, method, uri, name, id, tcpip) {
        (Some(time), Some(duration), Some(gateway), Some(method), Some(uri), Some(name), Some(id), Some(tcpip)) => {
            Some(Metrics { time, duration: duration as u64, gateway, method, uri: uri.clone(), name: name.clone(), id, tcpip })
        },
        _ => None,
    }
}

/// Reads the envelope that the document `v` describes; `InvalidMessage`
/// exactly when a field is missing or of the wrong kind.
pub fn message_from_json(v: &JsonValue) -> (r: Result<Message, AuthenticateError>)
    ensures
        r is Ok == message_valid(*v),
        r matches Ok(m) ==> message_match(*v, m),
        r is Err ==> r == Err::<Message, AuthenticateError>(AuthenticateError::InvalidMessage),
{
    let nonce = uint_field(v, "nonce", u128::MAX);
    let expires = duration_field(v, "expires");
    let payload = match v.get("payload") {
        Some(p) => parse_metrics(p),
        None => None,
    };
    match (nonce, expires, payload) {
        (Some(nonce), Some(expires), Some(payload)) => Ok(Message { nonce, expires, payload }),
        _ => Err(AuthenticateError::InvalidMessage),
    }
}

/// Parses message text as JSON and reads the envelope it describes.
pub fn decode_message(text: &str) -> (r: Result<Message, AuthenticateError>)
    ensures
        match json_parsed(text@) {
            None => r == Err::<Message, AuthenticateError>(AuthenticateError::InvalidMessage),
            Some(v) => {
                &&& r is Ok == message_valid(v)
                &&& r matches Ok(m) ==> message_match(v, m)
                &&& r is Err ==> r == Err::<Message, AuthenticateError>(AuthenticateError::InvalidMessage)
            },
        },
{
    match parse_json(text) {
        Some(v) => message_from_json(&v),
        None => Err(AuthenticateError::InvalidMessage),
    }
}

} // verus!
