//! Laws of the IP address codec: the canonical text of an address reads back
//! as that address.

use crate::ip::{
    groups_at, groups_text, hex_group_at, high_octet, ip_address_of_text, ip_address_text,
    ipv4_at, ipv4_text, ipv6_at, ipv6_text, is_ipv4_mapped, longest_zero_run, low_octet,
    octet_at, segment_of, segments_of, zero_run, zero_segments, GroupRun, IpAddress,
};
use crate::text::{
    decimal_at, decimal_digit_value, decimal_text, digit_char, hex_at, hex_digit_value, hex_text,
};
use vstd::prelude::*;

verus! {

/// Whether the text `t` stands in `s` from index `pos` on.
#[verifier::opaque]
spec fn text_at(s: Seq<char>, pos: int, t: Seq<char>) -> bool {
    &&& 0 <= pos
    &&& pos + t.len() <= s.len()
    &&& forall|i: int| 0 <= i < t.len() ==> s[pos + i] == #[trigger] t[i]
}

/// A text made of two stands where its two parts stand one after the other.
proof fn text_at_concat(s: Seq<char>, pos: int, a: Seq<char>, b: Seq<char>)
    ensures
        text_at(s, pos, a + b) <==> text_at(s, pos, a) && text_at(s, pos + a.len(), b),
{
    reveal(text_at);
    if text_at(s, pos, a + b) {
        assert forall|i: int| 0 <= i < a.len() implies s[pos + i] == #[trigger] a[i] by {
            assert((a + b)[i] == a[i]);
        }
        assert forall|i: int| 0 <= i < b.len() implies s[pos + a.len() + i] == #[trigger] b[i] by {
            assert((a + b)[a.len() + i] == b[i]);
        }
    }
    if text_at(s, pos, a) && text_at(s, pos + a.len(), b) {
        let whole = a + b;
        assert forall|i: int| 0 <= i < whole.len() implies s[pos + i] == #[trigger] whole[i] by {
            if i < a.len() {
                assert((a + b)[i] == a[i]);
            } else {
                assert((a + b)[i] == b[i - a.len()]);
                assert(s[pos + a.len() + (i - a.len())] == b[i - a.len()]);
            }
        }
    }
}

/// Each character of a text that stands in `s` stands in `s`.
proof fn text_at_char(s: Seq<char>, pos: int, t: Seq<char>, i: int)
    requires
        text_at(s, pos, t),
        0 <= i < t.len(),
    ensures
        0 <= pos + i < s.len(),
        s[pos + i] == t[i],
{
    reveal(text_at);
}

/// The empty text stands at every index of a text, and at its end.
proof fn empty_text_at(s: Seq<char>, pos: int)
    requires
        0 <= pos <= s.len(),
    ensures
        text_at(s, pos, Seq::empty()),
{
    reveal(text_at);
}

/// A text stands in itself, from the start.
proof fn text_at_start(t: Seq<char>)
    ensures
        text_at(t, 0, t),
{
    reveal(text_at);
}

/// A text stands within the bounds of the text that holds it.
proof fn text_at_bounds(s: Seq<char>, pos: int, t: Seq<char>)
    requires
        text_at(s, pos, t),
    ensures
        0 <= pos,
        pos + t.len() <= s.len(),
{
    reveal(text_at);
}

/// A digit written and read again is the same digit.
proof fn digit_char_reads_back(d: int)
    requires
        0 <= d < 16,
    ensures
        hex_digit_value(digit_char(d)) == Some(d),
        d < 10 ==> decimal_digit_value(digit_char(d)) == Some(d),
        d >= 10 ==> decimal_digit_value(digit_char(d)) is None,
        digit_char(d) != '.',
        digit_char(d) != ':',
{
}

/// The decimal text of an octet reads back as the octet, wherever it stands
/// with no digit after it.
proof fn octet_text_reads_back(s: Seq<char>, pos: int, v: u8)
    requires
        text_at(s, pos, decimal_text(v as nat)),
        decimal_at(s, pos + decimal_text(v as nat).len()) is None,
    ensures
        octet_at(s, pos) == Some((v, pos + decimal_text(v as nat).len())),
        1 <= decimal_text(v as nat).len() <= 3,
{
    reveal(octet_at);
    reveal_with_fuel(decimal_text, 3);
    let t = decimal_text(v as nat);
    let n = v as int;
    text_at_bounds(s, pos, t);
    if n < 10 {
        digit_char_reads_back(n);
        assert(t[0] == digit_char(n));
        text_at_char(s, pos, t, 0);
    } else if n < 100 {
        digit_char_reads_back(n / 10);
        digit_char_reads_back(n % 10);
        assert(t =~= seq![digit_char(n / 10), digit_char(n % 10)]);
        text_at_char(s, pos, t, 0);
        text_at_char(s, pos, t, 1);
    } else {
        digit_char_reads_back(n / 100);
        digit_char_reads_back((n / 10) % 10);
        digit_char_reads_back(n % 10);
        assert(t =~= seq![digit_char(n / 100), digit_char((n / 10) % 10), digit_char(n % 10)]);
        text_at_char(s, pos, t, 0);
        text_at_char(s, pos, t, 1);
        text_at_char(s, pos, t, 2);
    }
}

/// The canonical text of an IPv4 address reads back as the address, wherever
/// it stands with no digit after it.
proof fn ipv4_text_reads_back(s: Seq<char>, pos: int, a: u8, b: u8, c: u8, d: u8)
    requires
        text_at(s, pos, ipv4_text(a, b, c, d)),
        decimal_at(s, pos + ipv4_text(a, b, c, d).len()) is None,
    ensures
        ipv4_at(s, pos) == Some(((a, b, c, d), pos + ipv4_text(a, b, c, d).len())),
{
    reveal(ipv4_at);
    let dot = seq!['.'];
    let ta = decimal_text(a as nat);
    let tb = decimal_text(b as nat);
    let tc = decimal_text(c as nat);
    let td = decimal_text(d as nat);
    let end_a = pos + ta.len();
    let end_b = end_a + 1 + tb.len();
    let end_c = end_b + 1 + tc.len();
    text_at_concat(s, pos, ta + dot + tb + dot + tc + dot, td);
    text_at_concat(s, pos, ta + dot + tb + dot + tc, dot);
    text_at_concat(s, pos, ta + dot + tb + dot, tc);
    text_at_concat(s, pos, ta + dot + tb, dot);
    text_at_concat(s, pos, ta + dot, tb);
    text_at_concat(s, pos, ta, dot);
    text_at_char(s, end_a, dot, 0);
    text_at_char(s, end_b, dot, 0);
    text_at_char(s, end_c, dot, 0);
    octet_text_reads_back(s, pos, a);
    octet_text_reads_back(s, end_a + 1, b);
    octet_text_reads_back(s, end_b + 1, c);
    octet_text_reads_back(s, end_c + 1, d);
}

/// No IPv4 address is read from a text without a dot.
proof fn no_ipv4_without_dot(s: Seq<char>, pos: int)
    requires
        forall|i: int| 0 <= i < s.len() ==> s[i] != '.',
    ensures
        ipv4_at(s, pos) is None,
{
    reveal(ipv4_at);
}

/// No IPv4 address is read where no decimal digit stands.
proof fn no_ipv4_without_digit(s: Seq<char>, pos: int)
    requires
        decimal_at(s, pos) is None,
    ensures
        ipv4_at(s, pos) is None,
{
    reveal(ipv4_at);
    reveal(octet_at);
}

/// No group is read where no hexadecimal digit stands.
proof fn no_group_without_digit(s: Seq<char>, pos: int)
    requires
        hex_at(s, pos) is None,
    ensures
        hex_group_at(s, pos) is None,
{
    reveal(hex_group_at);
}

/// The digits of the hexadecimal text of a segment: one to four, the first
/// the highest.
proof fn hex_text_digits(v: u16)
    ensures
        v < 16 ==> hex_text(v as nat) =~= seq![digit_char(v as int)],
        16 <= v < 256 ==> hex_text(v as nat) =~= seq![
            digit_char(v as int / 16),
            digit_char(v as int % 16),
        ],
        256 <= v < 4096 ==> hex_text(v as nat) =~= seq![
            digit_char(v as int / 256),
            digit_char((v as int / 16) % 16),
            digit_char(v as int % 16),
        ],
        4096 <= v ==> hex_text(v as nat) =~= seq![
            digit_char(v as int / 4096),
            digit_char((v as int / 256) % 16),
            digit_char((v as int / 16) % 16),
            digit_char(v as int % 16),
        ],
        1 <= hex_text(v as nat).len() <= 4,
        forall|i: int|
            0 <= i < hex_text(v as nat).len() ==> {
                &&& (#[trigger] hex_text(v as nat)[i]) != '.'
                &&& hex_text(v as nat)[i] != ':'
                &&& hex_digit_value(hex_text(v as nat)[i]) is Some
            },
{
    reveal_with_fuel(hex_text, 4);
    let n = v as int;
    if n < 16 {
        digit_char_reads_back(n);
    } else if n < 256 {
        digit_char_reads_back(n / 16);
        digit_char_reads_back(n % 16);
    } else if n < 4096 {
        assert((n / 16) / 16 == n / 256);
        digit_char_reads_back(n / 256);
        digit_char_reads_back((n / 16) % 16);
        digit_char_reads_back(n % 16);
    } else {
        assert((n / 16) / 16 == n / 256);
        assert(((n / 16) / 16) / 16 == n / 4096);
        digit_char_reads_back(n / 4096);
        digit_char_reads_back((n / 256) % 16);
        digit_char_reads_back((n / 16) % 16);
        digit_char_reads_back(n % 16);
    }
}

/// A hexadecimal digit that stands in a text is read there.
proof fn hex_digit_stands(s: Seq<char>, i: int, d: int)
    requires
        0 <= i < s.len(),
        0 <= d < 16,
        s[i] == digit_char(d),
    ensures
        hex_at(s, i) == Some(d),
{
    digit_char_reads_back(d);
}

/// The group read where one to four hexadecimal digits stand, with none after
/// them: the value of the digits in base 16.
proof fn hex_group_of_digits(s: Seq<char>, pos: int, digits: Seq<int>)
    requires
        1 <= digits.len() <= 4,
        forall|i: int| 0 <= i < digits.len() ==> hex_at(s, pos + i) == Some(#[trigger] digits[i]),
        forall|i: int| 0 <= i < digits.len() ==> 0 <= #[trigger] digits[i] < 16,
        hex_at(s, pos + digits.len()) is None,
    ensures
        digits.len() == 1 ==> hex_group_at(s, pos) == Some((digits[0] as u16, pos + 1)),
        digits.len() == 2 ==> hex_group_at(s, pos) == Some(
            ((digits[0] * 16 + digits[1]) as u16, pos + 2),
        ),
        digits.len() == 3 ==> hex_group_at(s, pos) == Some(
            ((digits[0] * 256 + digits[1] * 16 + digits[2]) as u16, pos + 3),
        ),
        digits.len() == 4 ==> hex_group_at(s, pos) == Some(
            ((digits[0] * 4096 + digits[1] * 256 + digits[2] * 16 + digits[3]) as u16, pos + 4),
        ),
{
    reveal(hex_group_at);
    assert(hex_at(s, pos + 0) == Some(digits[0]));
    if digits.len() >= 2 {
        assert(hex_at(s, pos + 1) == Some(digits[1]));
    }
    if digits.len() >= 3 {
        assert(hex_at(s, pos + 2) == Some(digits[2]));
    }
    if digits.len() >= 4 {
        assert(hex_at(s, pos + 3) == Some(digits[3]));
    }
}

/// The digits of a segment in base 16, the highest first, without leading
/// zeros.
spec fn hex_digits(v: u16) -> Seq<int> {
    let n = v as int;
    if n < 16 {
        seq![n]
    } else if n < 256 {
        seq![n / 16, n % 16]
    } else if n < 4096 {
        seq![n / 256, (n / 16) % 16, n % 16]
    } else {
        seq![n / 4096, (n / 256) % 16, (n / 16) % 16, n % 16]
    }
}

/// The hexadecimal text of a segment writes its digits in base 16.
proof fn hex_text_writes_digits(v: u16)
    ensures
        hex_text(v as nat).len() == hex_digits(v).len(),
        forall|i: int|
            0 <= i < hex_digits(v).len() ==> 0 <= #[trigger] hex_digits(v)[i] < 16 && hex_text(
                v as nat,
            )[i] == digit_char(hex_digits(v)[i]),
{
    hex_text_digits(v);
}

/// The hexadecimal text of a segment reads back as the segment, wherever it
/// stands with no hexadecimal digit after it.
proof fn hex_text_reads_back(s: Seq<char>, pos: int, v: u16)
    requires
        text_at(s, pos, hex_text(v as nat)),
        hex_at(s, pos + hex_text(v as nat).len()) is None,
    ensures
        hex_group_at(s, pos) == Some((v, pos + hex_text(v as nat).len())),
{
    hex_text_writes_digits(v);
    let t = hex_text(v as nat);
    let digits = hex_digits(v);
    assert forall|i: int| 0 <= i < digits.len() implies hex_at(s, pos + i) == Some(
        #[trigger] digits[i],
    ) by {
        text_at_char(s, pos, t, i);
        hex_digit_stands(s, pos + i, digits[i]);
    }
    hex_group_of_digits(s, pos, digits);
    let n = v as int;
    if n < 16 {
    } else if n < 256 {
        assert((n / 16) * 16 + n % 16 == n);
    } else if n < 4096 {
        assert((n / 256) * 256 + ((n / 16) % 16) * 16 + n % 16 == n);
    } else {
        assert((n / 4096) * 4096 + ((n / 256) % 16) * 256 + ((n / 16) % 16) * 16 + n % 16 == n);
    }
}

/// The text of two or more segments starts with the first one and a colon.
proof fn groups_text_front(g: Seq<u16>)
    requires
        g.len() >= 2,
    ensures
        groups_text(g) == hex_text(g[0] as nat) + seq![':'] + groups_text(g.drop_first()),
    decreases g.len(),
{
    if g.len() == 2 {
        assert(g.drop_last().len() == 1);
        assert(g.drop_first().len() == 1);
        assert(groups_text(g.drop_last()) == hex_text(g[0] as nat));
        assert(groups_text(g.drop_first()) == hex_text(g[1] as nat));
    } else {
        groups_text_front(g.drop_last());
        assert(g.drop_last().drop_first() =~= g.drop_first().drop_last());
        assert(g.drop_first().last() == g.last());
        assert(g.drop_last()[0] == g[0]);
        assert(groups_text(g) =~= hex_text(g[0] as nat) + seq![':'] + groups_text(g.drop_first()));
    }
}

/// The text of segments holds no dot.
proof fn groups_text_has_no_dot(g: Seq<u16>)
    ensures
        forall|i: int| 0 <= i < groups_text(g).len() ==> groups_text(g)[i] != '.',
    decreases g.len(),
{
    if g.len() == 1 {
        hex_text_digits(g[0]);
    } else if g.len() >= 2 {
        groups_text_has_no_dot(g.drop_last());
        hex_text_digits(g.last());
        let before = groups_text(g.drop_last());
        let last = hex_text(g.last() as nat);
        assert forall|i: int| 0 <= i < groups_text(g).len() implies groups_text(g)[i] != '.' by {
            if i < before.len() {
                assert(groups_text(g)[i] == before[i]);
            } else if i == before.len() {
                assert(groups_text(g)[i] == ':');
            } else {
                assert(groups_text(g)[i] == last[i - before.len() - 1]);
            }
        }
    }
}

/// What stands in a text after some groups were read, where the segments
/// `rest` follow: a colon if groups were read before, and their text.
spec fn following_text(after_groups: bool, rest: Seq<u16>) -> Seq<char> {
    if rest.len() == 0 {
        Seq::empty()
    } else if after_groups {
        seq![':'] + groups_text(rest)
    } else {
        groups_text(rest)
    }
}

/// Reading groups where the text of the segments `rest` stands, and nothing
/// that could be read as a group after it, gives those segments and ends
/// after their text.
proof fn groups_text_reads_back(
    s: Seq<char>,
    pos: int,
    limit: nat,
    read: Seq<u16>,
    rest: Seq<u16>,
)
    requires
        forall|i: int| 0 <= i < s.len() ==> s[i] != '.',
        read.len() + rest.len() <= limit,
        text_at(s, pos, following_text(read.len() > 0, rest)),
        hex_at(s, pos + following_text(read.len() > 0, rest).len()) is None,
        hex_at(s, pos + following_text(read.len() > 0, rest).len() + 1) is None,
    ensures
        groups_at(s, pos, limit, read) == (GroupRun {
            groups: read + rest,
            end: pos + following_text(read.len() > 0, rest).len(),
            ipv4: false,
        }),
    decreases rest.len(),
{
    let colon = seq![':'];
    if rest.len() == 0 {
        assert(read + rest =~= read);
        no_ipv4_without_dot(s, pos);
        no_ipv4_without_dot(s, pos + 1);
        no_group_without_digit(s, pos);
        no_group_without_digit(s, pos + 1);
    } else {
        let start = if read.len() == 0 {
            pos
        } else {
            pos + 1
        };
        let first = hex_text(rest[0] as nat);
        let others = rest.drop_first();
        if read.len() > 0 {
            text_at_concat(s, pos, colon, groups_text(rest));
            text_at_char(s, pos, colon, 0);
        }
        assert(text_at(s, start, groups_text(rest)));
        no_ipv4_without_dot(s, start);
        hex_text_digits(rest[0]);
        if rest.len() == 1 {
            assert(groups_text(rest) == first);
            assert(following_text(true, others) =~= Seq::<char>::empty());
            text_at_bounds(s, start, first);
            empty_text_at(s, start + first.len());
        } else {
            groups_text_front(rest);
            text_at_concat(s, start, first + colon, groups_text(others));
            text_at_concat(s, start, first, colon);
            text_at_char(s, start + first.len(), colon, 0);
            assert(following_text(true, others) == colon + groups_text(others));
            assert((first + colon).len() == first.len() + 1);
            assert(colon.len() == 1);
            text_at_concat(s, start + first.len(), colon, groups_text(others));
            assert(text_at(s, start + first.len(), following_text(true, others)));
        }
        hex_text_reads_back(s, start, rest[0]);
        groups_text_reads_back(s, start + first.len(), limit, read.push(rest[0]), others);
        assert(read.push(rest[0]) + others =~= read + rest);
    }
}

/// A run of zero segments lies within the segments, and holds zeros only.
proof fn zero_run_holds_zeros(g: Seq<u16>, i: int)
    requires
        0 <= i <= g.len(),
    ensures
        i + zero_run(g, i) <= g.len(),
        forall|j: int| i <= j < i + zero_run(g, i) ==> g[j] == 0,
    decreases g.len() - i,
{
    if i < g.len() && g[i] == 0 {
        zero_run_holds_zeros(g, i + 1);
    }
}

/// The longest run of zeros is a run of zeros: unless it is empty, it starts
/// before `upto` and is as long as the run of zeros from its start.
proof fn longest_zero_run_is_a_run(g: Seq<u16>, upto: int)
    requires
        0 <= upto <= g.len(),
    ensures
        longest_zero_run(g, upto).len == 0 || (0 <= longest_zero_run(g, upto).start < upto
            && longest_zero_run(g, upto).len == zero_run(g, longest_zero_run(g, upto).start)),
    decreases upto,
{
    if upto > 0 {
        longest_zero_run_is_a_run(g, upto - 1);
    }
}

/// The text of a mapped IPv4 address reads back as its eight segments.
proof fn mapped_text_reads_back(g: Seq<u16>)
    requires
        g.len() == 8,
        is_ipv4_mapped(g),
    ensures
        ipv4_at(ipv6_text(g), 0) is None,
        ipv6_at(ipv6_text(g), 0) == Some((g, ipv6_text(g).len() as int)),
{
    let lead = seq![':', ':', 'f', 'f', 'f', 'f', ':'];
    let a = high_octet(g[6]);
    let b = low_octet(g[6]);
    let c = high_octet(g[7]);
    let d = low_octet(g[7]);
    let dotted = ipv4_text(a, b, c, d);
    let t = ipv6_text(g);
    assert(t == lead + dotted);
    text_at_start(t);
    text_at_concat(t, 0, lead, dotted);
    assert(t[0] == lead[0] && t[1] == lead[1] && t[2] == lead[2] && t[3] == lead[3] && t[4]
        == lead[4] && t[5] == lead[5] && t[6] == lead[6]);
    assert(hex_at(t, 0) is None);
    assert(decimal_at(t, 0) is None);
    assert(decimal_at(t, 2) is None);
    assert(hex_at(t, 2) == Some(15int));
    assert(hex_at(t, 3) == Some(15int));
    assert(hex_at(t, 4) == Some(15int));
    assert(hex_at(t, 5) == Some(15int));
    assert(hex_at(t, 6) is None);
    hex_group_of_digits(t, 2, seq![15int, 15int, 15int, 15int]);
    assert(hex_group_at(t, 2) == Some((0xffffu16, 6int)));
    no_group_without_digit(t, 0);
    no_ipv4_without_digit(t, 0);
    no_ipv4_without_digit(t, 2);
    text_at_bounds(t, 7, dotted);
    ipv4_text_reads_back(t, 7, a, b, c, d);
    let none: Seq<u16> = Seq::empty();
    reveal_with_fuel(groups_at, 3);
    assert(groups_at(t, 0, 8, none) == GroupRun { groups: none, end: 0, ipv4: false });
    let inner = groups_at(t, 6, 7, none.push(0xffffu16));
    assert(inner == GroupRun {
        groups: none.push(0xffffu16).push(segment_of(a, b)).push(segment_of(c, d)),
        end: t.len() as int,
        ipv4: true,
    });
    assert(groups_at(t, 2, 7, none) == inner);
    assert(segment_of(a, b) == g[6]);
    assert(segment_of(c, d) == g[7]);
    assert(none + zero_segments(5) + inner.groups =~= g);
}

/// The text of an IPv6 address that is no mapped IPv4 address reads back as
/// its eight segments.
proof fn plain_text_reads_back(g: Seq<u16>)
    requires
        g.len() == 8,
        !is_ipv4_mapped(g),
    ensures
        ipv4_at(ipv6_text(g), 0) is None,
        ipv6_at(ipv6_text(g), 0) == Some((g, ipv6_text(g).len() as int)),
{
    let t = ipv6_text(g);
    let zeros = longest_zero_run(g, 8);
    let none: Seq<u16> = Seq::empty();
    longest_zero_run_is_a_run(g, 8);
    if zeros.len > 1 {
        zero_run_holds_zeros(g, zeros.start);
        let head = g.subrange(0, zeros.start);
        let tail = g.subrange(zeros.start + zeros.len, 8);
        let head_text = groups_text(head);
        let tail_text = groups_text(tail);
        let colons = seq![':', ':'];
        assert(t == head_text + colons + tail_text);
        groups_text_has_no_dot(head);
        groups_text_has_no_dot(tail);
        assert forall|i: int| 0 <= i < t.len() implies t[i] != '.' by {
            if i < head_text.len() {
                assert(t[i] == head_text[i]);
            } else if i < head_text.len() + 2 {
                assert(t[i] == colons[i - head_text.len()]);
            } else {
                assert(t[i] == tail_text[i - head_text.len() - 2]);
            }
        }
        no_ipv4_without_dot(t, 0);
        text_at_start(t);
        text_at_concat(t, 0, head_text + colons, tail_text);
        text_at_concat(t, 0, head_text, colons);
        let p = head_text.len() as int;
        text_at_char(t, p, colons, 0);
        text_at_char(t, p, colons, 1);
        assert(following_text(false, head) =~= head_text);
        assert(following_text(false, tail) =~= tail_text);
        groups_text_reads_back(t, 0, 8, none, head);
        groups_text_reads_back(t, p + 2, (7 - head.len()) as nat, none, tail);
        assert(none + head =~= head);
        assert(none + tail =~= tail);
        assert(head + zero_segments((8 - head.len() - tail.len()) as nat) + tail =~= g);
    } else {
        groups_text_has_no_dot(g);
        no_ipv4_without_dot(t, 0);
        text_at_start(t);
        assert(following_text(false, g) =~= t);
        groups_text_reads_back(t, 0, 8, none, g);
        assert(none + g =~= g);
    }
}

/// The canonical text of an IP address reads back as that address.
pub proof fn ip_address_text_reads_back(ip: IpAddress)
    ensures
        ip_address_of_text(ip_address_text(ip)) == Some(ip),
{
    match ip {
        IpAddress::V4(a, b, c, d) => {
            let t = ipv4_text(a, b, c, d);
            text_at_start(t);
            ipv4_text_reads_back(t, 0, a, b, c, d);
        },
        IpAddress::V6(a, b, c, d, e, f, g, h) => {
            let segments = segments_of(a, b, c, d, e, f, g, h);
            if is_ipv4_mapped(segments) {
                mapped_text_reads_back(segments);
            } else {
                plain_text_reads_back(segments);
            }
        },
    }
}

/// A decimal digit read from a character is the digit that writes it.
proof fn decimal_digit_writes_back(c: char)
    requires
        decimal_digit_value(c) is Some,
    ensures
        0 <= decimal_digit_value(c).unwrap() < 10,
        digit_char(decimal_digit_value(c).unwrap()) == c,
{
}

/// An octet read from a text stands there as its decimal text.
proof fn octet_read_is_its_text(s: Seq<char>, pos: int)
    requires
        octet_at(s, pos) is Some,
    ensures
        0 <= pos < octet_at(s, pos).unwrap().1 <= s.len(),
        s.subrange(pos, octet_at(s, pos).unwrap().1) == decimal_text(
            octet_at(s, pos).unwrap().0 as nat,
        ),
{
    reveal(octet_at);
    reveal_with_fuel(decimal_text, 3);
    let (v, end) = octet_at(s, pos).unwrap();
    let t = decimal_text(v as nat);
    decimal_digit_writes_back(s[pos]);
    if end >= pos + 2 {
        decimal_digit_writes_back(s[pos + 1]);
    }
    if end >= pos + 3 {
        decimal_digit_writes_back(s[pos + 2]);
    }
    assert(s.subrange(pos, end) =~= t);
}

/// An IPv4 literal has one spelling: a text that reads as an IPv4 address is
/// the canonical text of that address.
pub proof fn ipv4_literal_is_canonical(s: Seq<char>, a: u8, b: u8, c: u8, d: u8)
    requires
        ip_address_of_text(s) == Some(IpAddress::V4(a, b, c, d)),
    ensures
        s == ipv4_text(a, b, c, d),
{
    reveal(ipv4_at);
    let end_a = octet_at(s, 0).unwrap().1;
    octet_read_is_its_text(s, 0);
    let end_b = octet_at(s, end_a + 1).unwrap().1;
    octet_read_is_its_text(s, end_a + 1);
    let end_c = octet_at(s, end_b + 1).unwrap().1;
    octet_read_is_its_text(s, end_b + 1);
    let end_d = octet_at(s, end_c + 1).unwrap().1;
    octet_read_is_its_text(s, end_c + 1);
    let dot = seq!['.'];
    assert(s.subrange(end_a, end_a + 1) =~= dot);
    assert(s.subrange(end_b, end_b + 1) =~= dot);
    assert(s.subrange(end_c, end_c + 1) =~= dot);
    let first = s.subrange(0, end_a);
    let second = s.subrange(end_a + 1, end_b);
    let third = s.subrange(end_b + 1, end_c);
    let fourth = s.subrange(end_c + 1, end_d);
    assert(s =~= first + dot + second + dot + third + dot + fourth);
}

/// Two addresses with the same canonical text are the same address.
pub proof fn ip_address_text_is_injective(a: IpAddress, b: IpAddress)
    requires
        ip_address_text(a) == ip_address_text(b),
    ensures
        a == b,
{
    ip_address_text_reads_back(a);
    ip_address_text_reads_back(b);
}

} // verus!
