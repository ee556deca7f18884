//! IP addresses and their text: the literals accepted for a specific port
//! binding, and the canonical text written back.

use crate::text::{
    char_is_at, chars_of, decimal_at, decimal_digit_at, decimal_text, hex_at, hex_digit_at,
    hex_text, is_char_at, push_char, push_decimal, push_hex,
};
use vstd::prelude::*;
use vstd::string::*;

verus! {

/// An IP address: four octets, or eight 16-bit segments.
#[derive(Clone, Copy, Debug, PartialEq, Eq, Structural)]
pub enum IpAddress {
    V4(u8, u8, u8, u8),
    V6(u16, u16, u16, u16, u16, u16, u16, u16),
}

/// The octet written at `pos` in `s` and the index after it: one to three
/// decimal digits with no digit after them, no leading zero before another
/// digit, and a value of at most 255.
#[verifier::opaque]
pub open spec fn octet_at(s: Seq<char>, pos: int) -> Option<(u8, int)> {
    match (decimal_at(s, pos), decimal_at(s, pos + 1), decimal_at(s, pos + 2)) {
        (None, _, _) => None,
        (Some(a), None, _) => Some((a as u8, pos + 1)),
        (Some(a), Some(b), None) => if a == 0 {
            None
        } else {
            Some(((a * 10 + b) as u8, pos + 2))
        },
        (Some(a), Some(b), Some(c)) => if a == 0 || decimal_at(s, pos + 3) is Some || a * 100 + b
            * 10 + c > 255 {
            None
        } else {
            Some(((a * 100 + b * 10 + c) as u8, pos + 3))
        },
    }
}

/// The IPv4 address written at `pos` in `s` and the index after it: four
/// octets with a dot between each two.
#[verifier::opaque]
pub open spec fn ipv4_at(s: Seq<char>, pos: int) -> Option<((u8, u8, u8, u8), int)> {
    match octet_at(s, pos) {
        Some((a, end_a)) if is_char_at(s, end_a, '.') => match octet_at(s, end_a + 1) {
            Some((b, end_b)) if is_char_at(s, end_b, '.') => match octet_at(s, end_b + 1) {
                Some((c, end_c)) if is_char_at(s, end_c, '.') => match octet_at(s, end_c + 1) {
                    Some((d, end_d)) => Some(((a, b, c, d), end_d)),
                    None => None,
                },
                _ => None,
            },
            _ => None,
        },
        _ => None,
    }
}

/// The canonical text of an IPv4 address: its octets in decimal, with dots.
pub open spec fn ipv4_text(a: u8, b: u8, c: u8, d: u8) -> Seq<char> {
    decimal_text(a as nat) + seq!['.'] + decimal_text(b as nat) + seq!['.'] + decimal_text(
        c as nat,
    ) + seq!['.'] + decimal_text(d as nat)
}

/// Reads an octet at `pos`.
fn read_octet(s: &Vec<char>, pos: usize) -> (r: Option<(u8, usize)>)
    requires
        pos <= s.len(),
    ensures
        r is Some <==> octet_at(s@, pos as int) is Some,
        r matches Some((v, end)) ==> octet_at(s@, pos as int) == Some((v, end as int)) && pos < end
            <= s.len(),
{
    reveal(octet_at);
    let a = match decimal_digit_at(s, pos) {
        Some(a) => a,
        None => { return None; },
    };
    let b = match decimal_digit_at(s, pos + 1) {
        Some(b) => b,
        None => { return Some((a, pos + 1)); },
    };
    if a == 0 {
        return None;
    }
    let c = match decimal_digit_at(s, pos + 2) {
        Some(c) => c,
        None => { return Some((a * 10 + b, pos + 2)); },
    };
    if decimal_digit_at(s, pos + 3).is_some() {
        return None;
    }
    let value: u16 = a as u16 * 100 + b as u16 * 10 + c as u16;
    if value > 255 {
        None
    } else {
        Some((value as u8, pos + 3))
    }
}

/// Reads an IPv4 address at `pos`.
fn read_ipv4(s: &Vec<char>, pos: usize) -> (r: Option<((u8, u8, u8, u8), usize)>)
    requires
        pos <= s.len(),
    ensures
        r is Some <==> ipv4_at(s@, pos as int) is Some,
        r matches Some((v, end)) ==> ipv4_at(s@, pos as int) == Some((v, end as int)) && pos < end
            <= s.len(),
{
    reveal(ipv4_at);
    let (a, end_a) = match read_octet(s, pos) {
        Some(r) => r,
        None => { return None; },
    };
    if !char_is_at(s, end_a, '.') {
        return None;
    }
    let (b, end_b) = match read_octet(s, end_a + 1) {
        Some(r) => r,
        None => { return None; },
    };
    if !char_is_at(s, end_b, '.') {
        return None;
    }
    let (c, end_c) = match read_octet(s, end_b + 1) {
        Some(r) => r,
        None => { return None; },
    };
    if !char_is_at(s, end_c, '.') {
        return None;
    }
    let (d, end_d) = match read_octet(s, end_c + 1) {
        Some(r) => r,
        None => { return None; },
    };
    Some(((a, b, c, d), end_d))
}

/// Appends the canonical text of an IPv4 address to `out`.
fn push_ipv4(out: &mut String, a: u8, b: u8, c: u8, d: u8)
    ensures
        final(out)@ == old(out)@ + ipv4_text(a, b, c, d),
{
    push_decimal(out, a as u64);
    push_char(out, '.');
    push_decimal(out, b as u64);
    push_char(out, '.');
    push_decimal(out, c as u64);
    push_char(out, '.');
    push_decimal(out, d as u64);
    assert(out@ =~= old(out)@ + ipv4_text(a, b, c, d));
}

/// The 16-bit group written at `pos` in `s` and the index after it: one to
/// four hexadecimal digits of either case, with no such digit after them.
#[verifier::opaque]
pub open spec fn hex_group_at(s: Seq<char>, pos: int) -> Option<(u16, int)> {
    match (hex_at(s, pos), hex_at(s, pos + 1), hex_at(s, pos + 2), hex_at(s, pos + 3)) {
        (None, _, _, _) => None,
        (Some(a), None, _, _) => Some((a as u16, pos + 1)),
        (Some(a), Some(b), None, _) => Some(((a * 16 + b) as u16, pos + 2)),
        (Some(a), Some(b), Some(c), None) => Some(((a * 256 + b * 16 + c) as u16, pos + 3)),
        (Some(a), Some(b), Some(c), Some(d)) => if hex_at(s, pos + 4) is Some {
            None
        } else {
            Some(((a * 4096 + b * 256 + c * 16 + d) as u16, pos + 4))
        },
    }
}

/// The 16-bit segment made of two octets, the first one high.
pub open spec fn segment_of(high: u8, low: u8) -> u16 {
    (high as int * 256 + low as int) as u16
}

/// A run of colon-separated groups read from a text.
pub struct GroupRun {
    /// The segments read, in order.
    pub groups: Seq<u16>,
    /// The index after the last character read.
    pub end: int,
    /// Whether the run ended with an embedded IPv4 address, which gave its last
    /// two segments.
    pub ipv4: bool,
}

/// Goes on reading groups at `pos` in `s`, after the groups `read`, up to
/// `limit` groups in all. Every group but the first of the run follows a
/// colon. Where two groups at least are still missing, an IPv4 address is
/// taken in their place and ends the run. The run also ends before the first
/// thing that is no group.
pub open spec fn groups_at(s: Seq<char>, pos: int, limit: nat, read: Seq<u16>) -> GroupRun
    decreases limit - read.len(),
{
    let start = if read.len() == 0 {
        pos
    } else {
        pos + 1
    };
    if read.len() >= limit || (read.len() > 0 && !is_char_at(s, pos, ':')) {
        GroupRun { groups: read, end: pos, ipv4: false }
    } else if read.len() + 1 < limit && ipv4_at(s, start) is Some {
        let ((a, b, c, d), end) = ipv4_at(s, start).unwrap();
        GroupRun { groups: read.push(segment_of(a, b)).push(segment_of(c, d)), end, ipv4: true }
    } else {
        match hex_group_at(s, start) {
            Some((group, end)) => groups_at(s, end, limit, read.push(group)),
            None => GroupRun { groups: read, end: pos, ipv4: false },
        }
    }
}

/// `n` zero segments.
pub open spec fn zero_segments(n: nat) -> Seq<u16> {
    Seq::new(n, |i: int| 0u16)
}

/// The eight segments of the IPv6 address written at `pos` in `s`, and the
/// index after it: either eight groups, or fewer with one `::` among them that
/// stands for the zero segments missing (one at least). An embedded IPv4
/// address may only give the last two segments.
pub open spec fn ipv6_at(s: Seq<char>, pos: int) -> Option<(Seq<u16>, int)> {
    let head = groups_at(s, pos, 8, Seq::empty());
    if head.groups.len() == 8 {
        Some((head.groups, head.end))
    } else if head.ipv4 || !is_char_at(s, head.end, ':') || !is_char_at(s, head.end + 1, ':') {
        None
    } else {
        let tail = groups_at(s, head.end + 2, (7 - head.groups.len()) as nat, Seq::empty());
        Some(
            (
                head.groups + zero_segments((8 - head.groups.len() - tail.groups.len()) as nat)
                    + tail.groups,
                tail.end,
            ),
        )
    }
}

/// The IPv6 address with the eight segments `g`.
pub open spec fn ipv6_of_segments(g: Seq<u16>) -> IpAddress {
    IpAddress::V6(g[0], g[1], g[2], g[3], g[4], g[5], g[6], g[7])
}

/// The address that the whole of `s` writes, if it is an IP literal: an IPv4
/// address, or else an IPv6 address.
pub open spec fn ip_address_of_text(s: Seq<char>) -> Option<IpAddress> {
    match ipv4_at(s, 0) {
        Some(((a, b, c, d), end)) => if end == s.len() {
            Some(IpAddress::V4(a, b, c, d))
        } else {
            None
        },
        None => match ipv6_at(s, 0) {
            Some((g, end)) => if end == s.len() {
                Some(ipv6_of_segments(g))
            } else {
                None
            },
            None => None,
        },
    }
}

/// Reads a hexadecimal group at `pos`.
fn read_hex_group(s: &Vec<char>, pos: usize) -> (r: Option<(u16, usize)>)
    requires
        pos <= s.len(),
    ensures
        r is Some <==> hex_group_at(s@, pos as int) is Some,
        r matches Some((v, end)) ==> hex_group_at(s@, pos as int) == Some((v, end as int)) && pos
            < end <= s.len(),
{
    reveal(hex_group_at);
    let a = match hex_digit_at(s, pos) {
        Some(a) => a as u16,
        None => { return None; },
    };
    let b = match hex_digit_at(s, pos + 1) {
        Some(b) => b as u16,
        None => { return Some((a, pos + 1)); },
    };
    let c = match hex_digit_at(s, pos + 2) {
        Some(c) => c as u16,
        None => { return Some((a * 16 + b, pos + 2)); },
    };
    let d = match hex_digit_at(s, pos + 3) {
        Some(d) => d as u16,
        None => { return Some((a * 256 + b * 16 + c, pos + 3)); },
    };
    if hex_digit_at(s, pos + 4).is_some() {
        None
    } else {
        Some((a * 4096 + b * 256 + c * 16 + d, pos + 4))
    }
}

/// Puts two octets together into a segment.
fn make_segment(high: u8, low: u8) -> (segment: u16)
    ensures
        segment == segment_of(high, low),
{
    high as u16 * 256 + low as u16
}

/// Reads a run of at most `limit` groups at `pos`, and says where it ended
/// and whether an embedded IPv4 address ended it.
fn read_groups(s: &Vec<char>, pos: usize, limit: usize) -> (r: (Vec<u16>, usize, bool))
    requires
        pos <= s.len(),
        limit <= 8,
    ensures
        r.0@ == groups_at(s@, pos as int, limit as nat, Seq::empty()).groups,
        r.1 == groups_at(s@, pos as int, limit as nat, Seq::empty()).end,
        r.2 == groups_at(s@, pos as int, limit as nat, Seq::empty()).ipv4,
        r.0@.len() <= limit,
        pos <= r.1 <= s.len(),
{
    let mut read: Vec<u16> = Vec::new();
    let mut at: usize = pos;
    while read.len() < limit
        invariant
            limit <= 8,
            read@.len() <= limit,
            pos <= at <= s.len(),
            groups_at(s@, pos as int, limit as nat, Seq::empty()) == groups_at(
                s@,
                at as int,
                limit as nat,
                read@,
            ),
        decreases limit - read.len(),
    {
        if read.len() > 0 && !char_is_at(s, at, ':') {
            return (read, at, false);
        }
        let start = if read.len() == 0 {
            at
        } else {
            at + 1
        };
        if read.len() + 1 < limit {
            if let Some(((a, b, c, d), end)) = read_ipv4(s, start) {
                read.push(make_segment(a, b));
                read.push(make_segment(c, d));
                return (read, end, true);
            }
        }
        match read_hex_group(s, start) {
            Some((group, end)) => {
                read.push(group);
                at = end;
            },
            None => {
                return (read, at, false);
            },
        }
    }
    (read, at, false)
}

/// Reads an IPv6 address at `pos`: its eight segments and where it ended.
fn read_ipv6(s: &Vec<char>, pos: usize) -> (r: Option<(Vec<u16>, usize)>)
    requires
        pos <= s.len(),
    ensures
        r is Some <==> ipv6_at(s@, pos as int) is Some,
        r matches Some((g, end)) ==> ipv6_at(s@, pos as int) == Some((g@, end as int)) && g@.len()
            == 8 && pos <= end <= s.len(),
{
    let (mut segments, after_head, head_ipv4) = read_groups(s, pos, 8);
    if segments.len() == 8 {
        return Some((segments, after_head));
    }
    if head_ipv4 || !char_is_at(s, after_head, ':') || !char_is_at(s, after_head + 1, ':') {
        return None;
    }
    let ghost head = segments@;
    let (tail, end, _) = read_groups(s, after_head + 2, 7 - segments.len());
    let missing = 8 - segments.len() - tail.len();
    let mut i: usize = 0;
    while i < missing
        invariant
            i <= missing,
            segments@ == head + zero_segments(i as nat),
        decreases missing - i,
    {
        segments.push(0);
        i = i + 1;
        assert(segments@ =~= head + zero_segments(i as nat));
    }
    let mut j: usize = 0;
    while j < tail.len()
        invariant
            j <= tail.len(),
            segments@ == head + zero_segments(missing as nat) + tail@.subrange(0, j as int),
        decreases tail.len() - j,
    {
        segments.push(tail[j]);
        j = j + 1;
        assert(segments@ =~= head + zero_segments(missing as nat) + tail@.subrange(0, j as int));
    }
    assert(tail@.subrange(0, tail@.len() as int) =~= tail@);
    Some((segments, end))
}

/// Reads `text` as an IP literal.
pub fn parse_ip_address(text: &str) -> (r: Option<IpAddress>)
    ensures
        r == ip_address_of_text(text@),
{
    let s = chars_of(text);
    match read_ipv4(&s, 0) {
        Some(((a, b, c, d), end)) => {
            if end == s.len() {
                Some(IpAddress::V4(a, b, c, d))
            } else {
                None
            }
        },
        None => match read_ipv6(&s, 0) {
            Some((g, end)) => {
                if end == s.len() {
                    Some(IpAddress::V6(g[0], g[1], g[2], g[3], g[4], g[5], g[6], g[7]))
                } else {
                    None
                }
            },
            None => None,
        },
    }
}

/// The text of the segments `g`: each in hexadecimal, with colons between.
pub open spec fn groups_text(g: Seq<u16>) -> Seq<char>
    decreases g.len(),
{
    if g.len() == 0 {
        Seq::empty()
    } else if g.len() == 1 {
        hex_text(g[0] as nat)
    } else {
        groups_text(g.drop_last()) + seq![':'] + hex_text(g.last() as nat)
    }
}

/// How many segments of `g` from index `i` on are zero, up to the first that
/// is not.
pub open spec fn zero_run(g: Seq<u16>, i: int) -> nat
    decreases g.len() - i,
{
    if 0 <= i < g.len() && g[i] == 0 {
        1 + zero_run(g, i + 1)
    } else {
        0
    }
}

/// A run of zero segments, by its first index and its length.
pub struct ZeroRun {
    pub start: int,
    pub len: nat,
}

/// The longest run of zero segments of `g` that starts before index `upto`,
/// the first of them where several are as long.
pub open spec fn longest_zero_run(g: Seq<u16>, upto: int) -> ZeroRun
    decreases upto,
{
    if upto <= 0 {
        ZeroRun { start: 0, len: 0 }
    } else {
        let before = longest_zero_run(g, upto - 1);
        if zero_run(g, upto - 1) > before.len {
            ZeroRun { start: upto - 1, len: zero_run(g, upto - 1) }
        } else {
            before
        }
    }
}

/// The high octet of a segment.
pub open spec fn high_octet(segment: u16) -> u8 {
    (segment / 256) as u8
}

/// The low octet of a segment.
pub open spec fn low_octet(segment: u16) -> u8 {
    (segment % 256) as u8
}

/// Whether the segments `g` hold an IPv4 address mapped into IPv6: five zero
/// segments, then `ffff`.
pub open spec fn is_ipv4_mapped(g: Seq<u16>) -> bool {
    g[0] == 0 && g[1] == 0 && g[2] == 0 && g[3] == 0 && g[4] == 0 && g[5] == 0xffff
}

/// The canonical text of the IPv6 address with the eight segments `g`. A
/// mapped IPv4 address is written in dotted form after `::ffff:`. Otherwise
/// the segments are written in hexadecimal, and the first longest run of two
/// or more zero segments is written as `::`.
pub open spec fn ipv6_text(g: Seq<u16>) -> Seq<char> {
    if is_ipv4_mapped(g) {
        seq![':', ':', 'f', 'f', 'f', 'f', ':'] + ipv4_text(
            high_octet(g[6]),
            low_octet(g[6]),
            high_octet(g[7]),
            low_octet(g[7]),
        )
    } else {
        let zeros = longest_zero_run(g, 8);
        if zeros.len > 1 {
            groups_text(g.subrange(0, zeros.start)) + seq![':', ':'] + groups_text(
                g.subrange(zeros.start + zeros.len, 8),
            )
        } else {
            groups_text(g)
        }
    }
}

/// The eight segments of an IPv6 address.
pub open spec fn segments_of(a: u16, b: u16, c: u16, d: u16, e: u16, f: u16, g: u16, h: u16) -> Seq<
    u16,
> {
    seq![a, b, c, d, e, f, g, h]
}

/// The canonical text of an IP address.
pub open spec fn ip_address_text(ip: IpAddress) -> Seq<char> {
    match ip {
        IpAddress::V4(a, b, c, d) => ipv4_text(a, b, c, d),
        IpAddress::V6(a, b, c, d, e, f, g, h) => ipv6_text(segments_of(a, b, c, d, e, f, g, h)),
    }
}

/// Appends the text of the segments of `g` from index `from` to before `to`.
fn push_groups(out: &mut String, g: &Vec<u16>, from: usize, to: usize)
    requires
        from <= to <= g.len(),
    ensures
        final(out)@ == old(out)@ + groups_text(g@.subrange(from as int, to as int)),
{
    let mut i: usize = from;
    while i < to
        invariant
            from <= i <= to <= g.len(),
            out@ == old(out)@ + groups_text(g@.subrange(from as int, i as int)),
        decreases to - i,
    {
        if i > from {
            push_char(out, ':');
        }
        push_hex(out, g[i] as u64);
        proof {
            let before = g@.subrange(from as int, i as int);
            let now = g@.subrange(from as int, i + 1);
            assert(now.drop_last() =~= before);
            assert(now.last() == g@[i as int]);
            if i == from {
                assert(groups_text(before) =~= Seq::<char>::empty());
            }
            assert(out@ =~= old(out)@ + groups_text(now));
        }
        i = i + 1;
    }
}

/// Counts the zero segments of `g` from index `i` on, up to the first that is
/// not zero.
fn count_zero_run(g: &Vec<u16>, i: usize) -> (n: usize)
    requires
        i <= g.len(),
    ensures
        n == zero_run(g@, i as int),
        i + n <= g.len(),
{
    let mut j: usize = i;
    while j < g.len() && g[j] == 0
        invariant
            i <= j <= g.len(),
            zero_run(g@, i as int) == (j - i) + zero_run(g@, j as int),
        decreases g.len() - j,
    {
        j = j + 1;
    }
    j - i
}

/// Finds the first longest run of zero segments of `g`: its start and length.
fn find_longest_zero_run(g: &Vec<u16>) -> (r: (usize, usize))
    ensures
        r.0 == longest_zero_run(g@, g@.len() as int).start,
        r.1 == longest_zero_run(g@, g@.len() as int).len,
        r.0 + r.1 <= g.len(),
{
    let mut start: usize = 0;
    let mut len: usize = 0;
    let mut i: usize = 0;
    while i < g.len()
        invariant
            i <= g.len(),
            start == longest_zero_run(g@, i as int).start,
            len == longest_zero_run(g@, i as int).len,
            start + len <= g.len(),
        decreases g.len() - i,
    {
        let n = count_zero_run(g, i);
        if n > len {
            start = i;
            len = n;
        }
        i = i + 1;
    }
    (start, len)
}

impl IpAddress {
    /// The canonical text of the address.
    pub fn to_text(&self) -> (text: String)
        ensures
            text@ == ip_address_text(*self),
    {
        let mut out = String::new();
        match *self {
            IpAddress::V4(a, b, c, d) => {
                push_ipv4(&mut out, a, b, c, d);
            },
            IpAddress::V6(a, b, c, d, e, f, g, h) => {
                if a == 0 && b == 0 && c == 0 && d == 0 && e == 0 && f == 0xffff {
                    out.append("::ffff:");
                    proof {
                        reveal_strlit("::ffff:");
                        assert("::ffff:"@ =~= seq![':', ':', 'f', 'f', 'f', 'f', ':']);
                    }
                    push_ipv4(
                        &mut out,
                        (g / 256) as u8,
                        (g % 256) as u8,
                        (h / 256) as u8,
                        (h % 256) as u8,
                    );
                } else {
                    let segments: Vec<u16> = vec![a, b, c, d, e, f, g, h];
                    assert(segments@ =~= segments_of(a, b, c, d, e, f, g, h));
                    let (start, len) = find_longest_zero_run(&segments);
                    if len > 1 {
                        push_groups(&mut out, &segments, 0, start);
                        push_char(&mut out, ':');
                        push_char(&mut out, ':');
                        push_groups(&mut out, &segments, start + len, 8);
                        assert(out@ =~= ipv6_text(segments@));
                    } else {
                        push_groups(&mut out, &segments, 0, 8);
                        assert(segments@.subrange(0, 8) =~= segments@);
                    }
                }
            },
        }
        out
    }
}

} // verus!
