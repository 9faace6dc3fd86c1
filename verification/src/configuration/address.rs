//! IP address values for listen addresses, and their textual form.
//!
//! Text is read as `IpAddr`'s parser reads it: IPv4 as four dot-separated decimal
//! octets of one to three digits without a leading zero; IPv6 as colon-separated
//! groups of one to four hex digits, at most one `::` standing for one or more zero
//! groups, and an optional embedded IPv4 address in place of the last two groups.

use vstd::prelude::*;

verus! {

/// An IPv4 or IPv6 address.
#[derive(Clone, Copy, Debug, PartialEq, Eq, Structural)]
pub enum IpAddress {
    /// IPv4 address by its four octets.
    V4(u8, u8, u8, u8),
    /// IPv6 address by its eight 16-bit groups.
    V6(u16, u16, u16, u16, u16, u16, u16, u16),
}

impl IpAddress {
    /// Loopback addresses: `127.0.0.0/8` and `::1`.
    pub open spec fn is_loopback_spec(self) -> bool {
        match self {
            IpAddress::V4(a, _, _, _) => a == 127,
            IpAddress::V6(a, b, c, d, e, f, g, h) => a == 0 && b == 0 && c == 0 && d == 0 && e == 0
                && f == 0 && g == 0 && h == 1,
        }
    }

    /// Returns true for a loopback address.
    pub fn is_loopback(&self) -> (r: bool)
        ensures
            r == self.is_loopback_spec(),
    {
        match self {
            IpAddress::V4(a, _, _, _) => *a == 127,
            IpAddress::V6(a, b, c, d, e, f, g, h) => *a == 0 && *b == 0 && *c == 0 && *d == 0 && *e
                == 0 && *f == 0 && *g == 0 && *h == 1,
        }
    }

    /// The IPv4 loopback address `127.0.0.1`.
    pub fn localhost_v4() -> (r: Self)
        ensures
            r == IpAddress::V4(127, 0, 0, 1),
    {
        IpAddress::V4(127, 0, 0, 1)
    }
}

/// The value of an ASCII decimal digit.
pub open spec fn digit_value(c: char) -> nat {
    (c as u32 - 48) as nat
}

/// An ASCII decimal digit.
pub open spec fn is_digit(c: char) -> bool {
    48 <= (c as u32) && (c as u32) <= 57
}

/// Decimal value of a digit string.
pub open spec fn decimal_value(s: Seq<char>) -> nat
    decreases s.len(),
{
    if s.len() == 0 {
        0
    } else {
        decimal_value(s.drop_last()) * 10 + digit_value(s.last())
    }
}

proof fn lemma_decimal_small(s: Seq<char>)
    requires
        s.len() <= 2,
        forall|i: int| 0 <= i < s.len() ==> is_digit(#[trigger] s[i]),
    ensures
        decimal_value(s) <= 99,
{
    if s.len() == 1 {
        assert(s.drop_last() =~= Seq::<char>::empty());
        assert(is_digit(s[0]));
        assert(decimal_value(s) == decimal_value(s.drop_last()) * 10 + digit_value(s[0]));
    } else if s.len() == 2 {
        let t = s.drop_last();
        assert(t.drop_last() =~= Seq::<char>::empty());
        assert(is_digit(s[0]) && is_digit(s[1]));
        assert(t.last() == s[0]);
        let a = digit_value(s[0]);
        let b = digit_value(s[1]);
        assert(a <= 9 && b <= 9);
        assert(decimal_value(t.drop_last()) == 0);
        assert(decimal_value(t) == a);
        assert(decimal_value(s) == decimal_value(t) * 10 + b);
    }
}

/// An ASCII hex digit.
pub open spec fn is_hex_digit(c: char) -> bool {
    let v = c as u32;
    (48 <= v <= 57) || (65 <= v <= 70) || (97 <= v <= 102)
}

/// The value of an ASCII hex digit.
pub open spec fn hex_digit_value(c: char) -> nat {
    let v = c as u32;
    if 48 <= v <= 57 {
        (v - 48) as nat
    } else if 65 <= v <= 70 {
        (v - 55) as nat
    } else {
        (v - 87) as nat
    }
}

/// Hexadecimal value of a hex digit string.
pub open spec fn hex_value(s: Seq<char>) -> nat
    decreases s.len(),
{
    if s.len() == 0 {
        0
    } else {
        hex_value(s.drop_last()) * 16 + hex_digit_value(s.last())
    }
}

/// End of the run of digits (hex digits when `hex`) that starts at `pos`.
pub open spec fn run_end(s: Seq<char>, pos: int, hex: bool) -> int
    decreases s.len() - pos,
{
    if pos < 0 || pos >= s.len() {
        s.len() as int
    } else if (hex && is_hex_digit(s[pos])) || (!hex && is_digit(s[pos])) {
        run_end(s, pos + 1, hex)
    } else {
        pos
    }
}

/// A decimal octet at `pos` and where it ends: one to three digits, no leading zero, at most 255.
pub open spec fn octet_at(s: Seq<char>, pos: int) -> Option<(u8, int)> {
    let e = run_end(s, pos, false);
    let d = s.subrange(pos, e);
    if 0 <= pos <= e && 1 <= d.len() <= 3 && (d.len() == 1 || d[0] != '0') && decimal_value(d) <= 255 {
        Some((decimal_value(d) as u8, e))
    } else {
        None
    }
}

/// A hex group at `pos` and where it ends: one to four hex digits.
pub open spec fn hex_group_at(s: Seq<char>, pos: int) -> Option<(u16, int)> {
    let e = run_end(s, pos, true);
    if 0 <= pos && pos + 1 <= e && e <= pos + 4 {
        Some((hex_value(s.subrange(pos, e)) as u16, e))
    } else {
        None
    }
}

/// Where item `i` of a `sep`-separated list starts, when its separator is present.
pub open spec fn after_separator(s: Seq<char>, pos: int, sep: char, i: int) -> Option<int> {
    if i == 0 {
        Some(pos)
    } else if 0 <= pos < s.len() && s[pos] == sep {
        Some(pos + 1)
    } else {
        None
    }
}

/// The octets `i..4` of an IPv4 address at `pos`, and where they end.
pub open spec fn ipv4_from(s: Seq<char>, pos: int, i: int) -> Option<(Seq<u8>, int)>
    decreases 4 - i,
{
    if i >= 4 || i < 0 {
        Some((Seq::empty(), pos))
    } else {
        match after_separator(s, pos, '.', i) {
            None => None,
            Some(p) => match octet_at(s, p) {
                None => None,
                Some((v, e)) => match ipv4_from(s, e, i + 1) {
                    None => None,
                    Some((rest, q)) => Some((seq![v] + rest, q)),
                },
            },
        }
    }
}

/// Groups `i..limit` of an IPv6 address part at `pos` (`read_groups`): the groups read,
/// where they end, and whether an embedded IPv4 address ended them.
pub open spec fn groups_from(s: Seq<char>, pos: int, i: int, limit: int) -> (Seq<u16>, int, bool)
    decreases limit - i,
{
    if i >= limit || i < 0 {
        (Seq::empty(), pos, false)
    } else {
        let start = after_separator(s, pos, ':', i);
        let v4 = match start {
            Some(p) => if i < limit - 1 {
                ipv4_from(s, p, 0)
            } else {
                None
            },
            None => None,
        };
        match v4 {
            Some((o, q)) => (
                seq![(o[0] as int * 256 + o[1] as int) as u16, (o[2] as int * 256 + o[3] as int) as u16],
                q,
                true,
            ),
            None => match start {
                None => (Seq::empty(), pos, false),
                Some(p) => match hex_group_at(s, p) {
                    None => (Seq::empty(), pos, false),
                    Some((g, e)) => {
                        let (rest, q, flag) = groups_from(s, e, i + 1, limit);
                        (seq![g] + rest, q, flag)
                    },
                },
            },
        }
    }
}

/// An IPv6 address at `pos` (`read_ipv6_addr`): its eight groups and where it ends.
pub open spec fn ipv6_at(s: Seq<char>, pos: int) -> Option<(Seq<u16>, int)> {
    let (head, p, head_v4) = groups_from(s, pos, 0, 8);
    if head.len() == 8 {
        Some((head, p))
    } else if head_v4 {
        None
    } else if 0 <= p && p + 2 <= s.len() && s[p] == ':' && s[p + 1] == ':' {
        let (tail, q, _) = groups_from(s, p + 2, 0, 8 - (head.len() + 1));
        Some((head + Seq::new((8 - head.len() - tail.len()) as nat, |k: int| 0u16) + tail, q))
    } else {
        None
    }
}

/// The address a whole text denotes (`IpAddr`'s parser): IPv4 when it reads as IPv4,
/// else IPv6; either must consume the whole text.
pub open spec fn ip_text(s: Seq<char>) -> Option<IpAddress> {
    match ipv4_from(s, 0, 0) {
        Some((o, q)) => if q == s.len() {
            Some(IpAddress::V4(o[0], o[1], o[2], o[3]))
        } else {
            None
        },
        None => match ipv6_at(s, 0) {
            Some((g, q)) => if q == s.len() {
                Some(IpAddress::V6(g[0], g[1], g[2], g[3], g[4], g[5], g[6], g[7]))
            } else {
                None
            },
            None => None,
        },
    }
}

proof fn lemma_run_end(s: Seq<char>, pos: int, hex: bool)
    requires
        0 <= pos <= s.len(),
    ensures
        pos <= run_end(s, pos, hex) <= s.len(),
        forall|k: int|
            pos <= k < run_end(s, pos, hex) ==> (hex && is_hex_digit(#[trigger] s[k])) || (!hex && is_digit(s[k])),
    decreases s.len() - pos,
{
    if pos < s.len() {
        lemma_run_end(s, pos + 1, hex);
    }
}

fn run_end_exec(s: &str, pos: usize, hex: bool) -> (r: usize)
    requires
        pos <= s@.len(),
    ensures
        r == run_end(s@, pos as int, hex),
{
    let n = s.unicode_len();
    let mut i = pos;
    while i < n
        invariant
            n == s@.len(),
            pos <= i <= n,
            run_end(s@, pos as int, hex) == run_end(s@, i as int, hex),
        decreases n - i,
    {
        let v = s.get_char(i) as u32;
        let digit = 48 <= v && v <= 57;
        let hex_letter = (65 <= v && v <= 70) || (97 <= v && v <= 102);
        if !((hex && (digit || hex_letter)) || (!hex && digit)) {
            return i;
        }
        i = i + 1;
    }
    n
}

proof fn lemma_hex_small(d: Seq<char>)
    requires
        d.len() <= 4,
        forall|k: int| 0 <= k < d.len() ==> is_hex_digit(#[trigger] d[k]),
    ensures
        hex_value(d) < 65536,
    decreases d.len(),
{
    if d.len() > 0 {
        let t = d.drop_last();
        lemma_hex_small_bound(t);
        assert(is_hex_digit(d.last()));
        assert(hex_digit_value(d.last()) <= 15);
        assert(hex_value(d) == hex_value(t) * 16 + hex_digit_value(d.last()));
    }
}

proof fn lemma_hex_small_bound(d: Seq<char>)
    requires
        d.len() <= 3,
        forall|k: int| 0 <= k < d.len() ==> is_hex_digit(#[trigger] d[k]),
    ensures
        hex_value(d) < 4096,
    decreases d.len(),
{
    if d.len() > 0 {
        let t = d.drop_last();
        lemma_hex_smaller(t);
        assert(is_hex_digit(d.last()));
        assert(hex_digit_value(d.last()) <= 15);
        assert(hex_value(d) == hex_value(t) * 16 + hex_digit_value(d.last()));
    }
}

proof fn lemma_hex_smaller(d: Seq<char>)
    requires
        d.len() <= 2,
        forall|k: int| 0 <= k < d.len() ==> is_hex_digit(#[trigger] d[k]),
    ensures
        hex_value(d) < 256,
    decreases d.len(),
{
    if d.len() > 0 {
        let t = d.drop_last();
        if t.len() > 0 {
            assert(t.drop_last() =~= Seq::<char>::empty());
            assert(is_hex_digit(t.last()));
            assert(hex_value(t) == hex_value(t.drop_last()) * 16 + hex_digit_value(t.last()));
            assert(hex_value(t) <= 15);
        } else {
            assert(hex_value(t) == 0);
        }
        assert(is_hex_digit(d.last()));
        assert(hex_digit_value(d.last()) <= 15);
        assert(hex_value(d) == hex_value(t) * 16 + hex_digit_value(d.last()));
    }
}

fn octet_at_exec(s: &str, pos: usize) -> (r: Option<(u8, usize)>)
    requires
        pos <= s@.len(),
    ensures
        match octet_at(s@, pos as int) {
            Some((v, e)) => r == Some((v, e as usize)),
            None => r is None,
        },
{
    proof {
        lemma_run_end(s@, pos as int, false);
    }
    let e = run_end_exec(s, pos, false);
    let ghost d = s@.subrange(pos as int, e as int);
    let len = e - pos;
    if len < 1 || len > 3 {
        return None;
    }
    if len > 1 && s.get_char(pos) == '0' {
        return None;
    }
    let mut value: u32 = 0;
    let mut i = pos;
    while i < e
        invariant
            pos <= i <= e,
            e <= s@.len(),
            e - pos <= 3,
            d == s@.subrange(pos as int, e as int),
            forall|k: int| 0 <= k < d.len() ==> is_digit(#[trigger] d[k]),
            value == decimal_value(d.subrange(0, i - pos)),
            value < 1000,
        decreases e - i,
    {
        let c = s.get_char(i);
        assert(c == d[i - pos]);
        assert(is_digit(d[i - pos]));
        let digit = (c as u32) - 48;
        assert(d.subrange(0, i + 1 - pos).drop_last() =~= d.subrange(0, i - pos));
        assert(d.subrange(0, i + 1 - pos).last() == c);
        proof {
            assert forall|k: int| 0 <= k < d.subrange(0, i - pos).len() implies is_digit(
                #[trigger] d.subrange(0, i - pos)[k],
            ) by {
                assert(d.subrange(0, i - pos)[k] == d[k]);
            }
            lemma_decimal_small(d.subrange(0, i - pos));
            assert(is_digit(d[i - pos]));
        }
        value = value * 10 + digit;
        i = i + 1;
    }
    assert(d.subrange(0, e - pos) =~= d);
    if value > 255 {
        return None;
    }
    Some((value as u8, e))
}

fn hex_group_at_exec(s: &str, pos: usize) -> (r: Option<(u16, usize)>)
    requires
        pos <= s@.len(),
    ensures
        match hex_group_at(s@, pos as int) {
            Some((v, e)) => r == Some((v, e as usize)),
            None => r is None,
        },
{
    proof {
        lemma_run_end(s@, pos as int, true);
    }
    let e = run_end_exec(s, pos, true);
    let ghost d = s@.subrange(pos as int, e as int);
    if e <= pos || e - pos > 4 {
        return None;
    }
    let mut value: u32 = 0;
    let mut i = pos;
    while i < e
        invariant
            pos <= i <= e,
            e <= s@.len(),
            e - pos <= 4,
            d == s@.subrange(pos as int, e as int),
            forall|k: int| 0 <= k < d.len() ==> is_hex_digit(#[trigger] d[k]),
            value == hex_value(d.subrange(0, i - pos)),
            value < 65536,
        decreases e - i,
    {
        let c = s.get_char(i);
        let v = c as u32;
        let digit = if 48 <= v && v <= 57 {
            v - 48
        } else if 65 <= v && v <= 70 {
            v - 55
        } else {
            v - 87
        };
        assert(d.subrange(0, i + 1 - pos).drop_last() =~= d.subrange(0, i - pos));
        assert(d.subrange(0, i + 1 - pos).last() == c);
        proof {
            assert(is_hex_digit(d[i - pos]));
            assert forall|k: int| 0 <= k < d.subrange(0, i + 1 - pos).len() implies is_hex_digit(
                #[trigger] d.subrange(0, i + 1 - pos)[k],
            ) by {
                assert(d.subrange(0, i + 1 - pos)[k] == d[k]);
            }
            lemma_hex_small(d.subrange(0, i + 1 - pos));
        }
        value = value * 16 + digit;
        i = i + 1;
    }
    assert(d.subrange(0, e - pos) =~= d);
    Some((value as u16, e))
}

proof fn lemma_ipv4_len(s: Seq<char>, pos: int, i: int)
    requires
        0 <= i <= 4,
    ensures
        ipv4_from(s, pos, i) is Some ==> ipv4_from(s, pos, i).unwrap().0.len() == 4 - i,
    decreases 4 - i,
{
    if i < 4 {
        match after_separator(s, pos, '.', i) {
            Some(p) => match octet_at(s, p) {
                Some((v, e)) => lemma_ipv4_len(s, e, i + 1),
                None => {},
            },
            None => {},
        }
    }
}

/// Prepends parsed items to a parse result.
pub open spec fn prefixed<T>(acc: Seq<T>, r: Option<(Seq<T>, int)>) -> Option<(Seq<T>, int)> {
    match r {
        Some((rest, q)) => Some((acc + rest, q)),
        None => None,
    }
}

proof fn lemma_octet_end(s: Seq<char>, pos: int)
    requires
        0 <= pos <= s.len(),
    ensures
        octet_at(s, pos) is Some ==> pos < octet_at(s, pos).unwrap().1 <= s.len(),
{
    lemma_run_end(s, pos, false);
}

fn ipv4_at_exec(s: &str, pos: usize) -> (r: Option<(Vec<u8>, usize)>)
    requires
        pos <= s@.len(),
    ensures
        match ipv4_from(s@, pos as int, 0) {
            Some((o, q)) => r is Some && r.unwrap().0@ == o && r.unwrap().1 == q && o.len() == 4,
            None => r is None,
        },
        r is Some ==> r.unwrap().1 <= s@.len(),
{
    let n = s.unicode_len();
    let mut octets: Vec<u8> = Vec::new();
    let mut p = pos;
    let mut i: usize = 0;
    proof {
        lemma_ipv4_len(s@, pos as int, 0);
        match ipv4_from(s@, pos as int, 0) {
            Some((o, q)) => {
                assert(octets@ + o =~= o);
            },
            None => {},
        }
    }
    while i < 4
        invariant
            n == s@.len(),
            i <= 4,
            p <= n,
            octets@.len() == i,
            ipv4_from(s@, pos as int, 0) == prefixed(octets@, ipv4_from(s@, p as int, i as int)),
        decreases 4 - i,
    {
        let start = if i == 0 {
            p
        } else if p < n && s.get_char(p) == '.' {
            p + 1
        } else {
            return None;
        };
        proof {
            lemma_octet_end(s@, start as int);
        }
        let (v, e) = match octet_at_exec(s, start) {
            Some(found) => found,
            None => {
                return None;
            },
        };
        let ghost before = octets@;
        octets.push(v);
        proof {
            match ipv4_from(s@, e as int, i + 1) {
                Some((rest, q)) => {
                    assert(octets@ + rest =~= before + (seq![v] + rest));
                },
                None => {},
            }
        }
        p = e;
        i = i + 1;
    }
    assert(octets@ + Seq::<u8>::empty() =~= octets@);
    Some((octets, p))
}

/// Prepends parsed groups to a groups result.
pub open spec fn groups_prefixed(acc: Seq<u16>, r: (Seq<u16>, int, bool)) -> (Seq<u16>, int, bool) {
    (acc + r.0, r.1, r.2)
}

proof fn lemma_groups_len(s: Seq<char>, pos: int, i: int, limit: int)
    requires
        0 <= i <= limit,
    ensures
        groups_from(s, pos, i, limit).0.len() <= limit - i,
        groups_from(s, pos, i, limit).2 ==> groups_from(s, pos, i, limit).0.len() >= 2,
    decreases limit - i,
{
    if i < limit {
        let start = after_separator(s, pos, ':', i);
        match start {
            Some(p) => match hex_group_at(s, p) {
                Some((g, e)) => lemma_groups_len(s, e, i + 1, limit),
                None => {},
            },
            None => {},
        }
    }
}

proof fn lemma_group_end(s: Seq<char>, pos: int)
    requires
        0 <= pos <= s.len(),
    ensures
        hex_group_at(s, pos) is Some ==> pos < hex_group_at(s, pos).unwrap().1 <= s.len(),
{
    lemma_run_end(s, pos, true);
}

fn groups_from_exec(s: &str, pos: usize, limit: usize) -> (r: (Vec<u16>, usize, bool))
    requires
        pos <= s@.len(),
        limit <= 8,
    ensures
        ({
            let expected = groups_from(s@, pos as int, 0, limit as int);
            &&& r.0@ == expected.0
            &&& r.1 == expected.1
            &&& r.2 == expected.2
            &&& r.1 <= s@.len()
        }),
{
    let n = s.unicode_len();
    let mut groups: Vec<u16> = Vec::new();
    let mut p = pos;
    let mut i: usize = 0;
    assert(groups_prefixed(groups@, groups_from(s@, pos as int, 0, limit as int)) == groups_from(
        s@,
        pos as int,
        0,
        limit as int,
    )) by {
        assert(groups@ + groups_from(s@, pos as int, 0, limit as int).0 =~= groups_from(
            s@,
            pos as int,
            0,
            limit as int,
        ).0);
    }
    while i < limit
        invariant
            n == s@.len(),
            i <= limit,
            limit <= 8,
            p <= n,
            groups@.len() == i,
            groups_from(s@, pos as int, 0, limit as int) == groups_prefixed(
                groups@,
                groups_from(s@, p as int, i as int, limit as int),
            ),
        decreases limit - i,
    {
        let start: Option<usize> = if i == 0 {
            Some(p)
        } else if p < n && s.get_char(p) == ':' {
            Some(p + 1)
        } else {
            None
        };
        assert(start == match after_separator(s@, p as int, ':', i as int) {
            Some(q) => Some(q as usize),
            None => None::<usize>,
        });
        if i + 1 < limit {
            match start {
                Some(q) => match ipv4_at_exec(s, q) {
                    Some((octets, end)) => {
                        let high = (octets[0] as u16) * 256 + (octets[1] as u16);
                        let low = (octets[2] as u16) * 256 + (octets[3] as u16);
                        let ghost before = groups@;
                        groups.push(high);
                        groups.push(low);
                        assert(groups@ =~= before + seq![high, low]);
                        return (groups, end, true);
                    },
                    None => {},
                },
                None => {},
            }
        }
        let q = match start {
            Some(q) => q,
            None => {
                assert(groups@ + Seq::<u16>::empty() =~= groups@);
                return (groups, p, false);
            },
        };
        proof {
            lemma_group_end(s@, q as int);
        }
        match hex_group_at_exec(s, q) {
            Some((g, e)) => {
                let ghost before = groups@;
                groups.push(g);
                proof {
                    let rest = groups_from(s@, e as int, i + 1, limit as int);
                    assert(groups@ + rest.0 =~= before + (seq![g] + rest.0));
                }
                p = e;
            },
            None => {
                assert(groups@ + Seq::<u16>::empty() =~= groups@);
                return (groups, p, false);
            },
        }
        i = i + 1;
    }
    assert(groups@ + Seq::<u16>::empty() =~= groups@);
    (groups, p, false)
}

fn ipv6_at_exec(s: &str) -> (r: Option<Vec<u16>>)
    ensures
        match ipv6_at(s@, 0) {
            Some((g, q)) => if q == s@.len() {
                r is Some && r.unwrap()@ == g && g.len() == 8
            } else {
                r is None
            },
            None => r is None,
        },
{
    let n = s.unicode_len();
    let (head, p, head_v4) = groups_from_exec(s, 0, 8);
    proof {
        lemma_groups_len(s@, 0, 0, 8);
    }
    if head.len() == 8 {
        if p != n {
            return None;
        }
        return Some(head);
    }
    if head_v4 {
        return None;
    }
    if !(p < n && n - p >= 2 && s.get_char(p) == ':' && s.get_char(p + 1) == ':') {
        return None;
    }
    let limit = 8 - (head.len() + 1);
    let (tail, q, _) = groups_from_exec(s, p + 2, limit);
    proof {
        lemma_groups_len(s@, (p + 2) as int, 0, limit as int);
    }
    if q != n {
        return None;
    }
    let mut groups: Vec<u16> = Vec::new();
    let mut k: usize = 0;
    while k < head.len()
        invariant
            k <= head@.len(),
            groups@ == head@.subrange(0, k as int),
        decreases head.len() - k,
    {
        groups.push(head[k]);
        k = k + 1;
        assert(groups@ =~= head@.subrange(0, k as int));
    }
    let zeros = 8 - head.len() - tail.len();
    let mut z: usize = 0;
    while z < zeros
        invariant
            z <= zeros,
            groups@ == head@ + Seq::new(z as nat, |j: int| 0u16),
        decreases zeros - z,
    {
        groups.push(0);
        z = z + 1;
        assert(groups@ =~= head@ + Seq::new(z as nat, |j: int| 0u16));
    }
    let mut t: usize = 0;
    while t < tail.len()
        invariant
            t <= tail@.len(),
            groups@ == head@ + Seq::new(zeros as nat, |j: int| 0u16) + tail@.subrange(0, t as int),
        decreases tail.len() - t,
    {
        groups.push(tail[t]);
        t = t + 1;
        assert(groups@ =~= head@ + Seq::new(zeros as nat, |j: int| 0u16) + tail@.subrange(0, t as int));
    }
    assert(tail@.subrange(0, tail@.len() as int) =~= tail@);
    Some(groups)
}

/// Parses the text of an IPv4 or IPv6 address.
pub fn parse_ip_address(s: &str) -> (r: Option<IpAddress>)
    ensures
        r == ip_text(s@),
{
    let n = s.unicode_len();
    match ipv4_at_exec(s, 0) {
        Some((octets, q)) => {
            if q == n {
                Some(IpAddress::V4(octets[0], octets[1], octets[2], octets[3]))
            } else {
                None
            }
        },
        None => match ipv6_at_exec(s) {
            Some(g) => Some(IpAddress::V6(g[0], g[1], g[2], g[3], g[4], g[5], g[6], g[7])),
            None => None,
        },
    }
}

} // verus!
