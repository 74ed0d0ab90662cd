//! The access gate: classifies a client address string as allowed or
//! denied. The string is read as an IPv4 literal when possible, otherwise
//! as an IPv6 literal; anything unreadable is denied (fail closed). An
//! IPv4 address is allowed when it is loopback (127.0.0.0/8) or private
//! (10.0.0.0/8, 172.16.0.0/12, 192.168.0.0/16); an IPv6 address is allowed
//! only when it is the loopback `::1`, in any of its textual forms —
//! eight hex groups, a list shortened by one `::` run of zero groups, or
//! either of those with the final 32 bits spelled as a dotted quad
//! (`::0.0.0.1`).
//!
//! All parsing is done here, over the bytes of the string: a dotted quad
//! is four runs of 1–3 decimal digits, each without a leading zero and at
//! most 255; an IPv6 loopback form is colon-separated groups of 1–4 hex
//! digits, all of value zero but the last of value one, with at most one
//! `::` standing for the missing groups, the last element possibly a
//! dotted quad of value one standing for the final two groups.

use vstd::prelude::*;
use vstd::string::StringSliceAdditionalSpecFns;

verus! {

// Byte values used throughout: '.' is 46, ':' is 58, '0' is 48,
// '1' is 49, '9' is 57.

/// Whether `b` is the code of a decimal digit.
pub open spec fn is_digit(b: u8) -> bool {
    48 <= b <= 57
}

/// The first index at or after `from` where `b` occurs in `s`, or
/// `s.len()` when it does not occur there.
pub open spec fn find_byte(s: Seq<u8>, b: u8, from: int) -> int
    decreases s.len() - from,
{
    if from < 0 || from >= s.len() {
        s.len() as int
    } else if s[from] == b {
        from
    } else {
        find_byte(s, b, from + 1)
    }
}

/// `find_byte` lands on an occurrence of `b`, skipping exactly the
/// positions before it where `b` does not occur.
proof fn lemma_find_byte(s: Seq<u8>, b: u8, from: int)
    requires
        0 <= from <= s.len(),
    ensures
        from <= find_byte(s, b, from) <= s.len(),
        find_byte(s, b, from) < s.len() ==> s[find_byte(s, b, from)] == b,
        forall|m: int| from <= m < find_byte(s, b, from) ==> (#[trigger] s[m]) != b,
    decreases s.len() - from,
{
    if from < s.len() && s[from] != b {
        lemma_find_byte(s, b, from + 1);
    }
}

/// The first index at or after `from` where two adjacent colons start,
/// or `s.len()` when there is no such pair.
pub open spec fn find_dcolon(s: Seq<u8>, from: int) -> int
    decreases s.len() - from,
{
    if from < 0 || from + 1 >= s.len() {
        s.len() as int
    } else if s[from] == 58 && s[from + 1] == 58 {
        from
    } else {
        find_dcolon(s, from + 1)
    }
}

/// `find_dcolon` lands on a `::` pair that fits inside the string.
proof fn lemma_find_dcolon(s: Seq<u8>, from: int)
    requires
        0 <= from <= s.len(),
    ensures
        from <= find_dcolon(s, from) <= s.len(),
        find_dcolon(s, from) < s.len() ==> (find_dcolon(s, from) + 1 < s.len() && s[find_dcolon(
            s,
            from,
        )] == 58 && s[find_dcolon(s, from) + 1] == 58),
    decreases s.len() - from,
{
    if from + 1 < s.len() && !(s[from] == 58 && s[from + 1] == 58) {
        lemma_find_dcolon(s, from + 1);
    }
}

/// Every byte of `s[lo..hi]` is a decimal digit.
pub open spec fn all_digits(s: Seq<u8>, lo: int, hi: int) -> bool {
    forall|m: int| lo <= m < hi ==> is_digit(#[trigger] s[m])
}

/// The number the decimal digits `s[lo..hi]` spell.
pub open spec fn dec_value(s: Seq<u8>, lo: int, hi: int) -> int
    decreases hi - lo,
{
    if hi <= lo {
        0
    } else {
        dec_value(s, lo, hi - 1) * 10 + (s[hi - 1] - 48)
    }
}

/// A run of decimal digits is non-negative and bounded by its length:
/// one digit stays under 10, two under 100, three under 1000.
proof fn lemma_dec_value_bound(s: Seq<u8>, lo: int, hi: int)
    requires
        0 <= lo,
        hi <= s.len(),
        all_digits(s, lo, hi),
    ensures
        0 <= dec_value(s, lo, hi),
        hi - lo <= 1 ==> dec_value(s, lo, hi) <= 9,
        hi - lo <= 2 ==> dec_value(s, lo, hi) <= 99,
        hi - lo <= 3 ==> dec_value(s, lo, hi) <= 999,
    decreases hi - lo,
{
    if hi > lo {
        lemma_dec_value_bound(s, lo, hi - 1);
    }
}

/// `s[lo..hi]` is one octet of a dotted quad: one to three digits, no
/// leading zero unless it is the single digit `0`, and at most 255.
pub open spec fn valid_octet(s: Seq<u8>, lo: int, hi: int) -> bool {
    &&& 1 <= hi - lo <= 3
    &&& all_digits(s, lo, hi)
    &&& (hi - lo == 1 || s[lo] != 48)
    &&& dec_value(s, lo, hi) <= 255
}

/// The four octet values of `s` when it is a dotted-quad IPv4 literal:
/// exactly three dots, each of the four runs between them a valid octet.
pub open spec fn parse_ipv4(s: Seq<u8>) -> Option<(int, int, int, int)> {
    let i = find_byte(s, 46, 0);
    let j = find_byte(s, 46, i + 1);
    let k = find_byte(s, 46, j + 1);
    let l = find_byte(s, 46, k + 1);
    if j < s.len() && k < s.len() && l == s.len() && valid_octet(s, 0, i) && valid_octet(
        s,
        i + 1,
        j,
    ) && valid_octet(s, j + 1, k) && valid_octet(s, k + 1, s.len() as int) {
        Some(
            (
                dec_value(s, 0, i),
                dec_value(s, i + 1, j),
                dec_value(s, j + 1, k),
                dec_value(s, k + 1, s.len() as int),
            ),
        )
    } else {
        None
    }
}

/// The IPv4 policy: loopback or private. The 192.168.0.0/16 range is
/// named on its own and as part of the private ranges; the union is the
/// same set either way.
pub open spec fn ipv4_allowed(a: int, b: int) -> bool {
    ||| a == 127
    ||| a == 10
    ||| (a == 172 && 16 <= b <= 31)
    ||| (a == 192 && b == 168)
}

/// `s[lo..hi]` is a hex group of value zero: one to four `0` digits.
pub open spec fn zero_group(s: Seq<u8>, lo: int, hi: int) -> bool {
    &&& 1 <= hi - lo <= 4
    &&& forall|m: int| lo <= m < hi ==> (#[trigger] s[m]) == 48
}

/// `s[lo..hi]` is a hex group of value one: zeros then a final `1`.
pub open spec fn one_group(s: Seq<u8>, lo: int, hi: int) -> bool {
    &&& 1 <= hi - lo <= 4
    &&& s[hi - 1] == 49
    &&& forall|m: int| lo <= m < hi - 1 ==> (#[trigger] s[m]) == 48
}

/// The number of colon-separated zero groups filling `s[from..until]`
/// exactly, `None` when that range is not such a list (or has more than
/// eight groups, which no address form needs).
pub open spec fn zero_groups_until(s: Seq<u8>, from: int, until: int) -> Option<int>
    decreases until - from,
{
    let j = find_byte(s, 58, from);
    if from <= j && j < until {
        if zero_group(s, from, j) {
            match zero_groups_until(s, j + 1, until) {
                Some(n) => if n >= 8 {
                    None
                } else {
                    Some(n + 1)
                },
                None => None,
            }
        } else {
            None
        }
    } else {
        if zero_group(s, from, until) {
            Some(1)
        } else {
            None
        }
    }
}

/// The number of groups filling `s[from..]` when it is the tail of a
/// loopback literal: colon-separated zero groups closed either by one
/// final hex group of value one, or by a dotted quad of value 0.0.0.1,
/// which spells the final two groups. `None` otherwise, or past eight
/// groups.
pub open spec fn tail_groups(s: Seq<u8>, from: int) -> Option<int>
    decreases s.len() - from,
{
    let j = find_byte(s, 58, from);
    if from <= j && j < s.len() {
        if zero_group(s, from, j) {
            match tail_groups(s, j + 1) {
                Some(n) => if n >= 8 {
                    None
                } else {
                    Some(n + 1)
                },
                None => None,
            }
        } else {
            None
        }
    } else {
        if one_group(s, from, s.len() as int) {
            Some(1)
        } else if parse_ipv4(s.subrange(from, s.len() as int)) == Some((0int, 0int, 0int, 1int)) {
            Some(2)
        } else {
            None
        }
    }
}

/// `s` is a textual form of the IPv6 loopback `::1`: either eight groups,
/// the first seven zero and the last one, or a form shortened by one `::`
/// — zero groups before it, zero groups then the final `1` after it,
/// seven explicit groups at most. The final `1` may also be spelled as
/// the dotted quad `0.0.0.1`, which stands for the last two groups.
pub open spec fn ipv6_loopback(s: Seq<u8>) -> bool {
    let p = find_dcolon(s, 0);
    if p < s.len() {
        let heads = if p == 0 {
            Some(0int)
        } else {
            zero_groups_until(s, 0, p)
        };
        match (heads, tail_groups(s, p + 2)) {
            (Some(h), Some(t)) => h + t <= 7,
            _ => false,
        }
    } else {
        tail_groups(s, 0) == Some(8int)
    }
}

/// Whether the address written in `s` is allowed through: a dotted quad
/// satisfying the IPv4 policy, or an IPv6 loopback literal.
pub open spec fn ip_allowed(s: Seq<u8>) -> bool {
    match parse_ipv4(s) {
        Some(octets) => ipv4_allowed(octets.0, octets.1),
        None => ipv6_loopback(s),
    }
}

/// The first occurrence of `target` in `bytes` at or after `from`, or the
/// length when there is none.
fn find_byte_from(bytes: &[u8], target: u8, from: usize) -> (r: usize)
    requires
        from <= bytes@.len(),
    ensures
        r == find_byte(bytes@, target, from as int),
{
    let n = bytes.len();
    let mut i = from;
    while i < n
        invariant
            from <= i <= n,
            n == bytes@.len(),
            find_byte(bytes@, target, from as int) == find_byte(bytes@, target, i as int),
        decreases n - i,
    {
        if bytes[i] == target {
            return i;
        }
        i = i + 1;
    }
    i
}

/// The first `::` in `bytes` at or after `from`, or the length.
fn find_dcolon_from(bytes: &[u8], from: usize) -> (r: usize)
    requires
        from <= bytes@.len(),
    ensures
        r == find_dcolon(bytes@, from as int),
{
    let n = bytes.len();
    let mut i = from;
    while i < n
        invariant
            from <= i <= n,
            n == bytes@.len(),
            find_dcolon(bytes@, from as int) == find_dcolon(bytes@, i as int),
        decreases n - i,
    {
        if bytes[i] == 58 && i + 1 < n && bytes[i + 1] == 58 {
            return i;
        }
        i = i + 1;
    }
    n
}

/// Reads `bytes[lo..hi]` as one octet of a dotted quad.
fn parse_octet(bytes: &[u8], lo: usize, hi: usize) -> (r: Option<u8>)
    requires
        lo <= hi <= bytes@.len(),
    ensures
        r is Some <==> valid_octet(bytes@, lo as int, hi as int),
        r matches Some(v) ==> v as int == dec_value(bytes@, lo as int, hi as int),
{
    if hi - lo < 1 || hi - lo > 3 {
        return None;
    }
    if hi - lo > 1 && bytes[lo] == 48 {
        return None;
    }
    let mut val: u32 = 0;
    let mut i = lo;
    while i < hi
        invariant
            lo <= i <= hi,
            hi <= bytes@.len(),
            hi - lo <= 3,
            all_digits(bytes@, lo as int, i as int),
            val == dec_value(bytes@, lo as int, i as int),
        decreases hi - i,
    {
        let b = bytes[i];
        if b < 48 || b > 57 {
            proof {
                assert(!is_digit(bytes@[i as int]));
            }
            return None;
        }
        proof {
            lemma_dec_value_bound(bytes@, lo as int, i as int);
        }
        val = val * 10 + (b - 48) as u32;
        i = i + 1;
    }
    if val > 255 {
        return None;
    }
    Some(val as u8)
}

/// Whether `bytes[lo..hi]` is a hex group of value zero.
fn is_zero_group(bytes: &[u8], lo: usize, hi: usize) -> (r: bool)
    requires
        lo <= hi <= bytes@.len(),
    ensures
        r == zero_group(bytes@, lo as int, hi as int),
{
    if hi - lo < 1 || hi - lo > 4 {
        return false;
    }
    let mut i = lo;
    while i < hi
        invariant
            lo <= i <= hi <= bytes@.len(),
            forall|m: int| lo <= m < i ==> (#[trigger] bytes@[m]) == 48,
        decreases hi - i,
    {
        if bytes[i] != 48 {
            return false;
        }
        i = i + 1;
    }
    true
}

/// Whether `bytes[lo..hi]` is a hex group of value one.
fn is_one_group(bytes: &[u8], lo: usize, hi: usize) -> (r: bool)
    requires
        lo <= hi <= bytes@.len(),
    ensures
        r == one_group(bytes@, lo as int, hi as int),
{
    if hi - lo < 1 || hi - lo > 4 {
        return false;
    }
    if bytes[hi - 1] != 49 {
        return false;
    }
    let mut i = lo;
    while i + 1 < hi
        invariant
            lo <= i < hi <= bytes@.len(),
            forall|m: int| lo <= m < i ==> (#[trigger] bytes@[m]) == 48,
        decreases hi - i,
    {
        if bytes[i] != 48 {
            return false;
        }
        i = i + 1;
    }
    true
}

/// Counts the zero groups filling `bytes[from..until]`.
fn zero_groups_exec(bytes: &[u8], from: usize, until: usize) -> (r: Option<usize>)
    requires
        from <= until <= bytes@.len(),
    ensures
        match r {
            Some(n) => zero_groups_until(bytes@, from as int, until as int) == Some(n as int) && 1
                <= n <= 8,
            None => zero_groups_until(bytes@, from as int, until as int) is None,
        },
    decreases until - from,
{
    let j = find_byte_from(bytes, 58, from);
    proof {
        lemma_find_byte(bytes@, 58, from as int);
    }
    if j < until {
        if is_zero_group(bytes, from, j) {
            match zero_groups_exec(bytes, j + 1, until) {
                Some(n) => if n >= 8 {
                    None
                } else {
                    Some(n + 1)
                },
                None => None,
            }
        } else {
            None
        }
    } else {
        if is_zero_group(bytes, from, until) {
            Some(1)
        } else {
            None
        }
    }
}

/// Counts the groups of a loopback tail filling `bytes[from..]`.
fn tail_groups_exec(bytes: &[u8], from: usize) -> (r: Option<usize>)
    requires
        from <= bytes@.len(),
    ensures
        match r {
            Some(n) => tail_groups(bytes@, from as int) == Some(n as int) && 1 <= n <= 8,
            None => tail_groups(bytes@, from as int) is None,
        },
    decreases bytes@.len() - from,
{
    let n = bytes.len();
    let j = find_byte_from(bytes, 58, from);
    proof {
        lemma_find_byte(bytes@, 58, from as int);
    }
    if j < n {
        if is_zero_group(bytes, from, j) {
            match tail_groups_exec(bytes, j + 1) {
                Some(g) => if g >= 8 {
                    None
                } else {
                    Some(g + 1)
                },
                None => None,
            }
        } else {
            None
        }
    } else {
        if is_one_group(bytes, from, n) {
            Some(1)
        } else {
            match parse_ipv4_exec(&bytes[from..n]) {
                Some(q) => if q.0 == 0 && q.1 == 0 && q.2 == 0 && q.3 == 1 {
                    Some(2)
                } else {
                    None
                },
                None => None,
            }
        }
    }
}

/// Reads `bytes` as a dotted-quad IPv4 literal.
fn parse_ipv4_exec(bytes: &[u8]) -> (r: Option<(u8, u8, u8, u8)>)
    ensures
        r is Some <==> parse_ipv4(bytes@) is Some,
        r matches Some(t) ==> parse_ipv4(bytes@) == Some(
            (t.0 as int, t.1 as int, t.2 as int, t.3 as int),
        ),
{
    let n = bytes.len();
    let i = find_byte_from(bytes, 46, 0);
    proof {
        lemma_find_byte(bytes@, 46, 0);
    }
    if i == n {
        return None;
    }
    let j = find_byte_from(bytes, 46, i + 1);
    proof {
        lemma_find_byte(bytes@, 46, i + 1);
    }
    if j == n {
        return None;
    }
    let k = find_byte_from(bytes, 46, j + 1);
    proof {
        lemma_find_byte(bytes@, 46, j + 1);
    }
    if k == n {
        return None;
    }
    let l = find_byte_from(bytes, 46, k + 1);
    if l != n {
        return None;
    }
    let a = match parse_octet(bytes, 0, i) {
        Some(v) => v,
        None => {
            return None;
        },
    };
    let b = match parse_octet(bytes, i + 1, j) {
        Some(v) => v,
        None => {
            return None;
        },
    };
    let c = match parse_octet(bytes, j + 1, k) {
        Some(v) => v,
        None => {
            return None;
        },
    };
    let d = match parse_octet(bytes, k + 1, n) {
        Some(v) => v,
        None => {
            return None;
        },
    };
    Some((a, b, c, d))
}

/// Whether `bytes` spells the IPv6 loopback.
fn ipv6_loopback_exec(bytes: &[u8]) -> (r: bool)
    ensures
        r == ipv6_loopback(bytes@),
{
    let n = bytes.len();
    let p = find_dcolon_from(bytes, 0);
    proof {
        lemma_find_dcolon(bytes@, 0);
    }
    if p < n {
        let heads = if p == 0 {
            Some(0)
        } else {
            zero_groups_exec(bytes, 0, p)
        };
        let tails = tail_groups_exec(bytes, p + 2);
        match (heads, tails) {
            (Some(h), Some(t)) => h + t <= 7,
            _ => false,
        }
    } else {
        match tail_groups_exec(bytes, 0) {
            Some(t) => t == 8,
            None => false,
        }
    }
}

/// Decides whether the client address `ip_str` may use a privileged
/// endpoint: IPv4 loopback and private ranges are allowed, the IPv6
/// loopback is allowed, everything else — including anything that is not
/// an address literal at all — is denied.
pub fn is_ip_allowed(ip_str: &str) -> (r: bool)
    ensures
        r == ip_allowed(ip_str.spec_bytes()),
{
    let bytes = ip_str.as_bytes();
    match parse_ipv4_exec(bytes) {
        Some((a, b, _c, _d)) => a == 127 || a == 10 || (a == 172 && 16 <= b && b <= 31) || (a
            == 192 && b == 168),
        None => ipv6_loopback_exec(bytes),
    }
}

} // verus!
