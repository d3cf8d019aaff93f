use vstd::prelude::*;

use crate::text::{bounded_decimal, is_decimal, parse_decimal};

verus! {

/// An IP address, as four octets or as eight 16-bit groups.
#[derive(Debug, Clone, Copy, PartialEq, Eq, Structural)]
pub enum IpAddress {
    V4(u8, u8, u8, u8),
    V6(u16, u16, u16, u16, u16, u16, u16, u16),
}

/// `s` cut at every `sep`: one more piece than there are separators.
pub open spec fn split_on(s: Seq<char>, sep: char) -> Seq<Seq<char>>
    decreases s.len(),
{
    if s.len() == 0 {
        seq![Seq::<char>::empty()]
    } else {
        let p = split_on(s.drop_last(), sep);
        if s.last() == sep {
            p.push(Seq::<char>::empty())
        } else {
            p.update(p.len() - 1, p.last().push(s.last()))
        }
    }
}

proof fn lemma_split_nonempty(s: Seq<char>, sep: char)
    ensures
        split_on(s, sep).len() >= 1,
    decreases s.len(),
{
    if s.len() > 0 {
        lemma_split_nonempty(s.drop_last(), sep);
    }
}

/// A dotted-quad field: one to three digits, no leading zero, at most 255.
pub open spec fn octet_value(s: Seq<char>) -> Option<int> {
    if s.len() <= 3 && (s.len() == 1 || s[0] != '0') {
        bounded_decimal(s, 255)
    } else {
        None
    }
}

/// Whether `c` is a hexadecimal digit, of either case.
pub open spec fn is_hex_digit(c: char) -> bool {
    ('0' <= c && c <= '9') || ('a' <= c && c <= 'f') || ('A' <= c && c <= 'F')
}

/// The value of one hexadecimal digit.
pub open spec fn hex_digit_value(c: char) -> int {
    if '0' <= c && c <= '9' {
        c as int - '0' as int
    } else if 'a' <= c && c <= 'f' {
        c as int - 'a' as int + 10
    } else {
        c as int - 'A' as int + 10
    }
}

/// The value of a string of hexadecimal digits.
pub open spec fn hex_value(s: Seq<char>) -> int
    decreases s.len(),
{
    if s.len() == 0 {
        0
    } else {
        16 * hex_value(s.drop_last()) + hex_digit_value(s.last())
    }
}

/// An IPv6 group: one to four hexadecimal digits.
pub open spec fn group_value(s: Seq<char>) -> Option<int> {
    if 1 <= s.len() <= 4 && forall|i: int| 0 <= i < s.len() ==> is_hex_digit(#[trigger] s[i]) {
        Some(hex_value(s))
    } else {
        None
    }
}

/// The IPv4 address written as `a.b.c.d`.
pub open spec fn ipv4_of(s: Seq<char>) -> Option<IpAddress> {
    let p = split_on(s, '.');
    if p.len() == 4 && octet_value(p[0]) is Some && octet_value(p[1]) is Some
        && octet_value(p[2]) is Some && octet_value(p[3]) is Some {
        Some(IpAddress::V4(
            octet_value(p[0])->0 as u8,
            octet_value(p[1])->0 as u8,
            octet_value(p[2])->0 as u8,
            octet_value(p[3])->0 as u8,
        ))
    } else {
        None
    }
}

/// The groups that the last piece of IPv6 text stands for: one hexadecimal
/// group, or a dotted quad standing for two.
pub open spec fn last_piece_groups(s: Seq<char>) -> Option<Seq<int>> {
    match group_value(s) {
        Some(v) => Some(seq![v]),
        None => match ipv4_of(s) {
            Some(IpAddress::V4(a, b, c, d)) => Some(seq![a as int * 256 + b as int, c as int * 256 + d as int]),
            _ => None,
        },
    }
}

/// The values of a colon-separated list of groups, the last of which may be
/// a dotted quad; no group for empty text.
pub open spec fn group_list(s: Seq<char>) -> Option<Seq<int>> {
    let p = split_on(s, ':');
    if s.len() == 0 {
        Some(Seq::<int>::empty())
    } else if (forall|i: int| 0 <= i < p.len() - 1 ==> (#[trigger] group_value(p[i])) is Some)
        && last_piece_groups(p.last()) is Some {
        Some(Seq::new((p.len() - 1) as nat, |i: int| group_value(p[i])->0) + last_piece_groups(p.last())->0)
    } else {
        None
    }
}

/// Where the first `::` at or after `i` begins.
pub open spec fn double_colon_from(s: Seq<char>, i: int) -> Option<int>
    decreases s.len() - i,
{
    if i < 0 || i + 1 >= s.len() {
        None
    } else if s[i] == ':' && s[i + 1] == ':' {
        Some(i)
    } else {
        double_colon_from(s, i + 1)
    }
}

/// The eight groups that IPv6 text writes: all eight in full, or the groups
/// before and after one `::`, which stands for one or more zero groups.
pub open spec fn ipv6_groups(s: Seq<char>) -> Option<Seq<int>> {
    match double_colon_from(s, 0) {
        None => match group_list(s) {
            Some(g) => if g.len() == 8 {
                Some(g)
            } else {
                None
            },
            None => None,
        },
        Some(k) => match (group_list(s.take(k)), group_list(s.skip(k + 2))) {
            (Some(h), Some(t)) => if h.len() + t.len() <= 7 {
                Some(h + Seq::new((8 - h.len() - t.len()) as nat, |i: int| 0int) + t)
            } else {
                None
            },
            _ => None,
        },
    }
}

/// The IPv6 address that `s` writes in hexadecimal groups.
pub open spec fn ipv6_of(s: Seq<char>) -> Option<IpAddress> {
    match ipv6_groups(s) {
        Some(g) => Some(IpAddress::V6(
            g[0] as u16,
            g[1] as u16,
            g[2] as u16,
            g[3] as u16,
            g[4] as u16,
            g[5] as u16,
            g[6] as u16,
            g[7] as u16,
        )),
        None => None,
    }
}

/// The address that `s` writes, as a dotted quad or in IPv6 group notation.
pub open spec fn ip_address_of(s: Seq<char>) -> Option<IpAddress> {
    if ipv4_of(s) is Some {
        ipv4_of(s)
    } else {
        ipv6_of(s)
    }
}

/// Cuts `s` at every `sep`.
pub fn split_chars(s: &Vec<char>, sep: char) -> (r: Vec<Vec<char>>)
    ensures
        r@.len() == split_on(s@, sep).len(),
        forall|k: int| 0 <= k < r@.len() ==> (#[trigger] r@[k])@ == split_on(s@, sep)[k],
{
    let mut parts: Vec<Vec<char>> = Vec::new();
    parts.push(Vec::new());
    let mut i: usize = 0;
    assert(s@.take(0) =~= Seq::<char>::empty());
    assert(parts@[0]@ =~= Seq::<char>::empty());
    while i < s.len()
        invariant
            i <= s@.len(),
            parts@.len() == split_on(s@.take(i as int), sep).len(),
            forall|k: int| 0 <= k < parts@.len() ==> (#[trigger] parts@[k])@ == split_on(s@.take(i as int), sep)[k],
            parts@.len() >= 1,
        decreases s@.len() - i,
    {
        let c = s[i];
        let ghost prev = split_on(s@.take(i as int), sep);
        proof {
            assert(s@.take(i + 1).drop_last() =~= s@.take(i as int));
            assert(s@.take(i + 1).last() == c);
            lemma_split_nonempty(s@.take(i as int), sep);
        }
        if c == sep {
            parts.push(Vec::new());
            assert(split_on(s@.take(i + 1), sep) == prev.push(Seq::<char>::empty()));
            assert(parts@.last()@ =~= Seq::<char>::empty());
        } else {
            let mut piece = parts.pop().unwrap();
            piece.push(c);
            parts.push(piece);
            assert(split_on(s@.take(i + 1), sep) == prev.update(prev.len() - 1, prev.last().push(c)));
        }
        i = i + 1;
    }
    assert(s@.take(s@.len() as int) =~= s@);
    parts
}

/// Reads one dotted-quad field.
fn parse_octet(s: &Vec<char>) -> (r: Option<u8>)
    ensures
        match octet_value(s@) {
            Some(v) => r == Some(v as u8),
            None => r is None,
        },
{
    if s.len() > 3 || (s.len() != 1 && s.len() > 0 && s[0] == '0') {
        return None;
    }
    match parse_decimal(s, 255) {
        Some(v) => Some(v as u8),
        None => None,
    }
}

/// Reads one IPv6 group.
fn parse_group(s: &Vec<char>) -> (r: Option<u16>)
    ensures
        match group_value(s@) {
            Some(v) => r == Some(v as u16) && 0 <= v < 65536,
            None => r is None,
        },
{
    let n = s.len();
    if n == 0 || n > 4 {
        return None;
    }
    let mut acc: u32 = 0;
    let mut i: usize = 0;
    while i < n
        invariant
            n == s@.len(),
            n <= 4,
            i <= n,
            acc as int == hex_value(s@.take(i as int)),
            acc < pow16(i as nat),
            forall|k: int| 0 <= k < i ==> is_hex_digit(#[trigger] s@[k]),
        decreases n - i,
    {
        let c = s[i];
        let d: u32 = if '0' <= c && c <= '9' {
            c as u32 - '0' as u32
        } else if 'a' <= c && c <= 'f' {
            c as u32 - 'a' as u32 + 10
        } else if 'A' <= c && c <= 'F' {
            c as u32 - 'A' as u32 + 10
        } else {
            return None;
        };
        assert(s@.take(i + 1).drop_last() =~= s@.take(i as int));
        assert(pow16((i + 1) as nat) == 16 * pow16(i as nat));
        assert(pow16(i as nat) <= 4096) by {
            lemma_pow16_bound(i as nat);
        }
        acc = acc * 16 + d;
        i = i + 1;
    }
    assert(s@.take(n as int) =~= s@);
    assert(pow16(n as nat) <= 65536) by {
        lemma_pow16_bound(n as nat);
    }
    Some(acc as u16)
}

spec fn pow16(n: nat) -> int
    decreases n,
{
    if n == 0 {
        1
    } else {
        16 * pow16((n - 1) as nat)
    }
}

proof fn lemma_pow16_bound(n: nat)
    requires
        n <= 4,
    ensures
        n <= 3 ==> pow16(n) <= 4096,
        pow16(n) <= 65536,
{
    reveal_with_fuel(pow16, 5);
}

/// Reads an address written as a dotted quad.
pub fn parse_ipv4(s: &Vec<char>) -> (r: Option<IpAddress>)
    ensures
        r == ipv4_of(s@),
{
    let p = split_chars(s, '.');
    if p.len() != 4 {
        return None;
    }
    let a = parse_octet(&p[0]);
    let b = parse_octet(&p[1]);
    let c = parse_octet(&p[2]);
    let d = parse_octet(&p[3]);
    match (a, b, c, d) {
        (Some(a), Some(b), Some(c), Some(d)) => Some(IpAddress::V4(a, b, c, d)),
        _ => None,
    }
}

/// The characters of `s` from `from` up to `to`.
fn char_range(s: &Vec<char>, from: usize, to: usize) -> (r: Vec<char>)
    requires
        from <= to <= s@.len(),
    ensures
        r@ == s@.subrange(from as int, to as int),
{
    let mut r: Vec<char> = Vec::new();
    let mut i: usize = from;
    while i < to
        invariant
            from <= i <= to <= s@.len(),
            r@ == s@.subrange(from as int, i as int),
        decreases to - i,
    {
        r.push(s[i]);
        i = i + 1;
        assert(r@ =~= s@.subrange(from as int, i as int));
    }
    r
}

/// Where the first `::` of `s` begins.
fn find_double_colon(s: &Vec<char>) -> (r: Option<usize>)
    ensures
        r matches Some(k) ==> (k + 1 < s@.len() && double_colon_from(s@, 0) == Some(k as int)),
        r is None ==> double_colon_from(s@, 0) is None,
{
    let mut i: usize = 0;
    while i < s.len()
        invariant
            i <= s@.len(),
            double_colon_from(s@, 0) == double_colon_from(s@, i as int),
        decreases s@.len() - i,
    {
        if i + 1 < s.len() && s[i] == ':' && s[i + 1] == ':' {
            return Some(i);
        }
        i = i + 1;
    }
    None
}

/// Reads the last piece of IPv6 text: one group, or a dotted quad as two.
fn parse_last_piece(s: &Vec<char>) -> (r: Option<Vec<u16>>)
    ensures
        match last_piece_groups(s@) {
            Some(g) => r matches Some(v) && v@.len() == g.len() && forall|i: int| 0 <= i < g.len() ==> (#[trigger] v@[i]) as int == g[i],
            None => r is None,
        },
{
    match parse_group(s) {
        Some(v) => {
            let mut r: Vec<u16> = Vec::new();
            r.push(v);
            Some(r)
        },
        None => match parse_ipv4(s) {
            Some(IpAddress::V4(a, b, c, d)) => {
                let mut r: Vec<u16> = Vec::new();
                r.push(a as u16 * 256 + b as u16);
                r.push(c as u16 * 256 + d as u16);
                Some(r)
            },
            _ => None,
        },
    }
}

/// Reads a colon-separated list of groups, the last of which may be a
/// dotted quad; empty text holds none.
fn parse_group_list(s: &Vec<char>) -> (r: Option<Vec<u16>>)
    ensures
        match group_list(s@) {
            Some(g) => r matches Some(v) && v@.len() == g.len() && forall|i: int| 0 <= i < g.len() ==> (#[trigger] v@[i]) as int == g[i],
            None => r is None,
        },
{
    if s.len() == 0 {
        return Some(Vec::new());
    }
    let q = split_chars(s, ':');
    let ghost sp = split_on(s@, ':');
    proof {
        lemma_split_nonempty(s@, ':');
    }
    let last = q.len() - 1;
    let mut groups: Vec<u16> = Vec::new();
    let mut i: usize = 0;
    while i < last
        invariant
            sp == split_on(s@, ':'),
            s@.len() > 0,
            q@.len() == sp.len(),
            last == sp.len() - 1,
            forall|k: int| 0 <= k < q@.len() ==> (#[trigger] q@[k])@ == sp[k],
            i <= last,
            groups@.len() == i,
            forall|k: int| 0 <= k < i ==> (#[trigger] group_value(sp[k])) == Some(groups@[k] as int),
        decreases last - i,
    {
        assert(q@[i as int]@ == sp[i as int]);
        match parse_group(&q[i]) {
            Some(g) => {
                groups.push(g);
            },
            None => {
                assert(group_value(sp[i as int]) is None);
                assert(group_list(s@) is None);
                return None;
            },
        }
        i = i + 1;
    }
    assert(q@[last as int]@ == sp.last());
    let tail = match parse_last_piece(&q[last]) {
        Some(t) => t,
        None => return None,
    };
    let ghost hs = Seq::new((sp.len() - 1) as nat, |k: int| group_value(sp[k])->0);
    let ghost ts = last_piece_groups(sp.last())->0;
    assert(forall|k: int| 0 <= k < hs.len() ==> (#[trigger] groups@[k]) as int == hs[k]);
    let mut m: usize = 0;
    while m < tail.len()
        invariant
            hs.len() == last,
            ts.len() == tail@.len(),
            forall|k: int| 0 <= k < ts.len() ==> (#[trigger] tail@[k]) as int == ts[k],
            m <= tail@.len(),
            groups@.len() == last + m,
            forall|k: int| 0 <= k < groups@.len() ==> (#[trigger] groups@[k]) as int == (hs + ts)[k],
        decreases tail@.len() - m,
    {
        groups.push(tail[m]);
        m = m + 1;
    }
    Some(groups)
}

/// Reads an IPv6 address written in hexadecimal groups, the last of which
/// may be a dotted quad, with at most one `::` standing for one or more zero
/// groups.
pub fn parse_ipv6(s: &Vec<char>) -> (r: Option<IpAddress>)
    ensures
        r == ipv6_of(s@),
{
    let groups: Vec<u16> = match find_double_colon(s) {
        None => match parse_group_list(s) {
            Some(g) => {
                if g.len() != 8 {
                    return None;
                }
                g
            },
            None => return None,
        },
        Some(k) => {
            let n = s.len();
            let head = char_range(s, 0, k);
            let tail = char_range(s, k + 2, n);
            assert(head@ =~= s@.take(k as int));
            assert(tail@ =~= s@.skip(k + 2));
            match (parse_group_list(&head), parse_group_list(&tail)) {
                (Some(h), Some(t)) => {
                    if h.len() > 7 || t.len() > 7 - h.len() {
                        return None;
                    }
                    let ghost hs = group_list(s@.take(k as int))->0;
                    let ghost ts = group_list(s@.skip(k + 2))->0;
                    let ghost zs = Seq::new((8 - hs.len() - ts.len()) as nat, |i: int| 0int);
                    let ghost full = hs + zs + ts;
                    assert(forall|i: int| 0 <= i < hs.len() ==> #[trigger] full[i] == hs[i]);
                    assert(forall|i: int| 0 <= i < zs.len() ==> #[trigger] full[hs.len() + i] == 0);
                    assert(forall|i: int| 0 <= i < ts.len() ==> #[trigger] full[hs.len() + zs.len() + i] == ts[i]);
                    let mut g: Vec<u16> = h;
                    let zeros = 8 - g.len() - t.len();
                    let mut j: usize = 0;
                    while j < zeros
                        invariant
                            hs.len() == h@.len(),
                            ts.len() == t@.len(),
                            zs.len() == zeros,
                            full.len() == 8,
                            zeros == 8 - hs.len() - ts.len(),
                            forall|i: int| 0 <= i < zs.len() ==> #[trigger] full[hs.len() + i] == 0,
                            j <= zeros,
                            g@.len() == hs.len() + j,
                            forall|i: int| 0 <= i < g@.len() ==> (#[trigger] g@[i]) as int == full[i],
                        decreases zeros - j,
                    {
                        g.push(0);
                        j = j + 1;
                    }
                    let mut m: usize = 0;
                    while m < t.len()
                        invariant
                            hs.len() + zs.len() + ts.len() == 8,
                            full.len() == 8,
                            forall|i: int| 0 <= i < ts.len() ==> #[trigger] full[hs.len() + zs.len() + i] == ts[i],
                            ts.len() == t@.len(),
                            forall|i: int| 0 <= i < ts.len() ==> (#[trigger] t@[i]) as int == ts[i],
                            m <= t@.len(),
                            g@.len() == hs.len() + zs.len() + m,
                            forall|i: int| 0 <= i < g@.len() ==> (#[trigger] g@[i]) as int == full[i],
                        decreases t@.len() - m,
                    {
                        g.push(t[m]);
                        m = m + 1;
                    }
                    g
                },
                _ => return None,
            }
        },
    };
    let ghost gs = ipv6_groups(s@)->0;
    assert(ipv6_groups(s@) is Some);
    assert(forall|i: int| 0 <= i < 8 ==> (#[trigger] groups@[i]) as int == gs[i]);
    Some(IpAddress::V6(groups[0], groups[1], groups[2], groups[3], groups[4], groups[5], groups[6], groups[7]))
}

/// Reads an IP address written as a dotted quad or in IPv6 group notation.
pub fn parse_ip_address(s: &Vec<char>) -> (r: Option<IpAddress>)
    ensures
        r == ip_address_of(s@),
{
    match parse_ipv4(s) {
        Some(a) => Some(a),
        None => parse_ipv6(s),
    }
}

} // verus!
