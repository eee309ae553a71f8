use vstd::prelude::*;

verus! {

// Recognizer for IP address literals, used by configuration validation.
//
// The grammar follows the textual address forms: an IPv4 literal is four
// decimal octets (0-255, no leading zeros) separated by dots; an IPv6
// literal is up to eight groups of one to four hex digits separated by
// colons, with at most one `::` standing for one or more zero groups, and
// optionally a trailing embedded IPv4 literal in place of the last two
// groups. Scope identifiers and surrounding whitespace are not accepted.

pub open spec fn is_dec(c: char) -> bool {
    48 <= c as int && c as int <= 57
}

pub open spec fn dec_val(c: char) -> nat {
    (c as int - 48) as nat
}

pub open spec fn is_hex(c: char) -> bool {
    is_dec(c) || (97 <= c as int && c as int <= 102) || (65 <= c as int && c as int <= 70)
}

/// End position of a decimal octet (value 0-255, no leading zero) that
/// begins at index `i`, or `None` if no well-formed octet starts there.
/// The octet is read greedily: it ends at the first non-digit.
pub open spec fn spec_octet_end(s: Seq<char>, i: int) -> Option<int> {
    if !(0 <= i && i < s.len() && is_dec(s[i])) {
        None
    } else if !(i + 1 < s.len() && is_dec(s[i + 1])) {
        Some(i + 1)
    } else if s[i] == '0' {
        None
    } else if !(i + 2 < s.len() && is_dec(s[i + 2])) {
        Some(i + 2)
    } else if i + 3 < s.len() && is_dec(s[i + 3]) {
        None
    } else if dec_val(s[i]) * 100 + dec_val(s[i + 1]) * 10 + dec_val(s[i + 2]) <= 255 {
        Some(i + 3)
    } else {
        None
    }
}

/// End position of a dotted-quad IPv4 literal beginning at index `i`.
pub open spec fn spec_ipv4_end(s: Seq<char>, i: int) -> Option<int> {
    match spec_octet_end(s, i) {
        None => None,
        Some(a) => if a < s.len() && s[a] == '.' {
            match spec_octet_end(s, a + 1) {
                None => None,
                Some(b) => if b < s.len() && s[b] == '.' {
                    match spec_octet_end(s, b + 1) {
                        None => None,
                        Some(c) => if c < s.len() && s[c] == '.' {
                            spec_octet_end(s, c + 1)
                        } else {
                            None
                        },
                    }
                } else {
                    None
                },
            }
        } else {
            None
        },
    }
}

pub open spec fn is_ipv4_literal(s: Seq<char>) -> bool {
    spec_ipv4_end(s, 0) == Some(s.len() as int)
}

/// End position of a group of one to four hex digits beginning at index
/// `i`; a run of five or more digits is not a group.
pub open spec fn spec_hex_group_end(s: Seq<char>, i: int) -> Option<int> {
    if !(0 <= i && i < s.len() && is_hex(s[i])) {
        None
    } else if !(i + 1 < s.len() && is_hex(s[i + 1])) {
        Some(i + 1)
    } else if !(i + 2 < s.len() && is_hex(s[i + 2])) {
        Some(i + 2)
    } else if !(i + 3 < s.len() && is_hex(s[i + 3])) {
        Some(i + 3)
    } else if !(i + 4 < s.len() && is_hex(s[i + 4])) {
        Some(i + 4)
    } else {
        None
    }
}

/// Result of scanning a colon-separated run of IPv6 groups.
#[verifier::ext_equal]
pub ghost struct GroupScan {
    /// Number of 16-bit groups read; an embedded IPv4 literal counts as two.
    pub count: nat,
    /// Whether the run ended with an embedded IPv4 literal.
    pub embedded_ipv4: bool,
    /// Index just past the last character consumed.
    pub end: int,
}

/// Scan at most `slots` more groups starting at index `i`. Unless `first`
/// is set, a `:` separator must precede each group. At every position with
/// two or more slots left, an embedded IPv4 literal is tried before a hex
/// group and, when present, ends the run.
pub open spec fn spec_groups(s: Seq<char>, i: int, slots: nat, first: bool) -> GroupScan
    decreases slots,
{
    if slots == 0 {
        GroupScan { count: 0, embedded_ipv4: false, end: i }
    } else if !first && !(0 <= i && i < s.len() && s[i] == ':') {
        GroupScan { count: 0, embedded_ipv4: false, end: i }
    } else {
        let j = if first { i } else { i + 1 };
        if slots >= 2 && spec_ipv4_end(s, j) is Some {
            GroupScan { count: 2, embedded_ipv4: true, end: spec_ipv4_end(s, j)->Some_0 }
        } else {
            match spec_hex_group_end(s, j) {
                None => GroupScan { count: 0, embedded_ipv4: false, end: i },
                Some(k) => {
                    let rest = spec_groups(s, k, (slots - 1) as nat, false);
                    GroupScan { count: 1 + rest.count, embedded_ipv4: rest.embedded_ipv4, end: rest.end }
                },
            }
        }
    }
}

pub open spec fn is_ipv6_literal(s: Seq<char>) -> bool {
    let h = spec_groups(s, 0, 8, true);
    if h.count == 8 {
        h.end == s.len()
    } else if h.embedded_ipv4 {
        false
    } else if h.end + 1 < s.len() && s[h.end] == ':' && s[h.end + 1] == ':' {
        let t = spec_groups(s, h.end + 2, (7 - h.count) as nat, true);
        t.end == s.len()
    } else {
        false
    }
}

pub open spec fn is_ip_literal(s: Seq<char>) -> bool {
    is_ipv4_literal(s) || is_ipv6_literal(s)
}

fn dec_digit(c: char) -> (b: bool)
    ensures
        b == is_dec(c),
{
    let v = c as u32;
    48 <= v && v <= 57
}

fn hex_digit(c: char) -> (b: bool)
    ensures
        b == is_hex(c),
{
    let v = c as u32;
    (48 <= v && v <= 57) || (97 <= v && v <= 102) || (65 <= v && v <= 70)
}

fn octet_end(s: &str, n: usize, i: usize) -> (r: Option<usize>)
    requires
        n == s@.len(),
        i <= n,
    ensures
        r is None <==> spec_octet_end(s@, i as int) is None,
        r matches Some(e) ==> spec_octet_end(s@, i as int) == Some(e as int) && i < e <= n,
{
    if !(i < n && dec_digit(s.get_char(i))) {
        return None;
    }
    let i1 = i + 1;
    if !(i1 < n && dec_digit(s.get_char(i1))) {
        return Some(i1);
    }
    if s.get_char(i) == '0' {
        return None;
    }
    let i2 = i + 2;
    if !(i2 < n && dec_digit(s.get_char(i2))) {
        return Some(i2);
    }
    let i3 = i + 3;
    if i3 < n && dec_digit(s.get_char(i3)) {
        return None;
    }
    let d0 = s.get_char(i) as u32 - 48;
    let d1 = s.get_char(i1) as u32 - 48;
    let d2 = s.get_char(i2) as u32 - 48;
    if d0 * 100 + d1 * 10 + d2 <= 255 {
        Some(i3)
    } else {
        None
    }
}

fn ipv4_end(s: &str, n: usize, i: usize) -> (r: Option<usize>)
    requires
        n == s@.len(),
        i <= n,
    ensures
        r is None <==> spec_ipv4_end(s@, i as int) is None,
        r matches Some(e) ==> spec_ipv4_end(s@, i as int) == Some(e as int) && i < e <= n,
{
    let a = match octet_end(s, n, i) {
        None => { return None; },
        Some(a) => a,
    };
    if !(a < n && s.get_char(a) == '.') {
        return None;
    }
    let b = match octet_end(s, n, a + 1) {
        None => { return None; },
        Some(b) => b,
    };
    if !(b < n && s.get_char(b) == '.') {
        return None;
    }
    let c = match octet_end(s, n, b + 1) {
        None => { return None; },
        Some(c) => c,
    };
    if !(c < n && s.get_char(c) == '.') {
        return None;
    }
    octet_end(s, n, c + 1)
}

fn hex_group_end(s: &str, n: usize, i: usize) -> (r: Option<usize>)
    requires
        n == s@.len(),
        i <= n,
    ensures
        r is None <==> spec_hex_group_end(s@, i as int) is None,
        r matches Some(e) ==> spec_hex_group_end(s@, i as int) == Some(e as int) && i < e <= n,
{
    if !(i < n && hex_digit(s.get_char(i))) {
        return None;
    }
    let i1 = i + 1;
    if !(i1 < n && hex_digit(s.get_char(i1))) {
        return Some(i1);
    }
    let i2 = i + 2;
    if !(i2 < n && hex_digit(s.get_char(i2))) {
        return Some(i2);
    }
    let i3 = i + 3;
    if !(i3 < n && hex_digit(s.get_char(i3))) {
        return Some(i3);
    }
    let i4 = i + 4;
    if !(i4 < n && hex_digit(s.get_char(i4))) {
        return Some(i4);
    }
    None
}

fn groups_from(s: &str, n: usize, i: usize, slots: usize, first: bool) -> (r: (usize, bool, usize))
    requires
        n == s@.len(),
        i <= n,
        slots <= 8,
    ensures
        spec_groups(s@, i as int, slots as nat, first) == (GroupScan {
            count: r.0 as nat,
            embedded_ipv4: r.1,
            end: r.2 as int,
        }),
        r.0 <= slots,
        i <= r.2 <= n,
    decreases slots,
{
    if slots == 0 {
        return (0, false, i);
    }
    if !first && !(i < n && s.get_char(i) == ':') {
        return (0, false, i);
    }
    let j = if first { i } else { i + 1 };
    if slots >= 2 {
        if let Some(e) = ipv4_end(s, n, j) {
            return (2, true, e);
        }
    }
    match hex_group_end(s, n, j) {
        None => (0, false, i),
        Some(k) => {
            let (c, v4, e) = groups_from(s, n, k, slots - 1, false);
            (c + 1, v4, e)
        },
    }
}

/// Whether `s` is a textual IPv4 or IPv6 address literal.
pub fn is_valid_ip_literal(s: &str) -> (b: bool)
    ensures
        b == is_ip_literal(s@),
{
    let n = s.unicode_len();
    let v4 = match ipv4_end(s, n, 0) {
        Some(e) => e == n,
        None => false,
    };
    if v4 {
        return true;
    }
    let (hc, hip4, he) = groups_from(s, n, 0, 8, true);
    if hc == 8 {
        return he == n;
    }
    if hip4 {
        return false;
    }
    if he < n && he + 1 < n && s.get_char(he) == ':' && s.get_char(he + 1) == ':' {
        let (_tc, _tip4, te) = groups_from(s, n, he + 2, 7 - hc, true);
        te == n
    } else {
        false
    }
}

} // verus!
