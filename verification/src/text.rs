//! Text renderings of numbers and byte strings used in the capture display:
//! upper-case hexadecimal with a fixed number of digits, and decimal.

use vstd::prelude::*;

verus! {

/// The upper-case hexadecimal digit of a nibble (0..15).
pub open spec fn hex_digit(n: int) -> char {
    if n == 0 { '0' } else if n == 1 { '1' } else if n == 2 { '2' } else if n == 3 { '3' }
    else if n == 4 { '4' } else if n == 5 { '5' } else if n == 6 { '6' } else if n == 7 { '7' }
    else if n == 8 { '8' } else if n == 9 { '9' } else if n == 10 { 'A' } else if n == 11 { 'B' }
    else if n == 12 { 'C' } else if n == 13 { 'D' } else if n == 14 { 'E' } else { 'F' }
}

/// A byte as two upper-case hexadecimal digits (`{:02X}`).
pub open spec fn spec_hex2(b: u8) -> Seq<char> {
    seq![hex_digit(b as int / 16), hex_digit(b as int % 16)]
}

/// A 16-bit value as four upper-case hexadecimal digits (`{:04X}`).
pub open spec fn spec_hex4(v: u16) -> Seq<char> {
    spec_hex2((v as int / 256) as u8) + spec_hex2((v as int % 256) as u8)
}

/// A decimal digit (0..9).
pub open spec fn dec_digit(n: int) -> char {
    hex_digit(n)
}

/// A natural number in decimal, without leading zeros (`{}`).
pub open spec fn spec_decimal(n: nat) -> Seq<char>
    decreases n,
{
    if n < 10 {
        seq![dec_digit(n as int)]
    } else {
        spec_decimal(n / 10) + seq![dec_digit((n % 10) as int)]
    }
}

/// Bytes as two-digit upper-case hexadecimal separated by single spaces.
pub open spec fn spec_hex_spaced(s: Seq<u8>) -> Seq<char>
    decreases s.len(),
{
    if s.len() == 0 {
        Seq::empty()
    } else if s.len() == 1 {
        spec_hex2(s[0])
    } else {
        spec_hex_spaced(s.drop_last()) + seq![' '] + spec_hex2(s.last())
    }
}

/// The one-character string of a hexadecimal digit.
pub(crate) fn hex_digit_str(n: u8) -> (s: &'static str)
    requires
        n < 16,
    ensures
        s@ == seq![hex_digit(n as int)],
{
    proof {
        reveal_strlit("0"); reveal_strlit("1"); reveal_strlit("2"); reveal_strlit("3");
        reveal_strlit("4"); reveal_strlit("5"); reveal_strlit("6"); reveal_strlit("7");
        reveal_strlit("8"); reveal_strlit("9"); reveal_strlit("A"); reveal_strlit("B");
        reveal_strlit("C"); reveal_strlit("D"); reveal_strlit("E"); reveal_strlit("F");
    }
    match n {
        0 => "0", 1 => "1", 2 => "2", 3 => "3", 4 => "4", 5 => "5", 6 => "6", 7 => "7",
        8 => "8", 9 => "9", 10 => "A", 11 => "B", 12 => "C", 13 => "D", 14 => "E", _ => "F",
    }
}

/// Appends a byte as two upper-case hexadecimal digits.
pub fn push_hex2(out: &mut String, b: u8)
    ensures
        final(out)@ == old(out)@ + spec_hex2(b),
{
    out.append(hex_digit_str(b / 16));
    out.append(hex_digit_str(b % 16));
}

/// A byte as two upper-case hexadecimal digits.
pub fn hex2(b: u8) -> (s: String)
    ensures
        s@ == spec_hex2(b),
{
    let mut s = String::new();
    push_hex2(&mut s, b);
    s
}

/// Appends a 16-bit value as four upper-case hexadecimal digits.
pub fn push_hex4(out: &mut String, v: u16)
    ensures
        final(out)@ == old(out)@ + spec_hex4(v),
{
    push_hex2(out, (v / 256) as u8);
    push_hex2(out, (v % 256) as u8);
}

/// Appends a number in decimal.
pub fn push_decimal(out: &mut String, n: u64)
    ensures
        final(out)@ == old(out)@ + spec_decimal(n as nat),
    decreases n,
{
    if n < 10 {
        out.append(hex_digit_str(n as u8));
    } else {
        push_decimal(out, n / 10);
        out.append(hex_digit_str((n % 10) as u8));
        proof {
            assert(old(out)@ + spec_decimal((n / 10) as nat) + seq![dec_digit((n % 10) as int)]
                =~= old(out)@ + spec_decimal(n as nat));
        }
    }
}

/// A number in decimal.
pub fn decimal(n: u64) -> (s: String)
    ensures
        s@ == spec_decimal(n as nat),
{
    let mut s = String::new();
    push_decimal(&mut s, n);
    s
}

/// Bytes as two-digit upper-case hexadecimal separated by single spaces.
pub fn hex_spaced(data: &[u8]) -> (s: String)
    ensures
        s@ == spec_hex_spaced(data@),
{
    let mut s = String::new();
    let mut i: usize = 0;
    while i < data.len()
        invariant
            i <= data.len(),
            s@ == spec_hex_spaced(data@.subrange(0, i as int)),
        decreases data.len() - i,
    {
        let ghost prev = data@.subrange(0, i as int);
        let ghost next = data@.subrange(0, i + 1);
        assert(next.drop_last() =~= prev);
        if i > 0 {
            s.append(" ");
            proof { reveal_strlit(" "); }
        }
        push_hex2(&mut s, data[i]);
        proof {
            if i == 0 {
                assert(s@ =~= spec_hex2(data@[0]));
            } else {
                assert(s@ =~= spec_hex_spaced(prev) + seq![' '] + spec_hex2(next.last()));
            }
        }
        i += 1;
    }
    assert(data@.subrange(0, data.len() as int) =~= data@);
    s
}

/// The lower-case hexadecimal digit of a nibble (0..15).
pub open spec fn hex_digit_lower(n: int) -> char {
    if n == 10 { 'a' } else if n == 11 { 'b' } else if n == 12 { 'c' } else if n == 13 { 'd' }
    else if n == 14 { 'e' } else if n == 15 { 'f' } else { hex_digit(n) }
}

/// A 16-bit value as four lower-case hexadecimal digits (`{:04x}`).
pub open spec fn spec_hex4_lower(v: u16) -> Seq<char> {
    seq![
        hex_digit_lower(v as int / 4096),
        hex_digit_lower((v as int / 256) % 16),
        hex_digit_lower((v as int / 16) % 16),
        hex_digit_lower(v as int % 16),
    ]
}

fn hex_digit_lower_str(n: u16) -> (s: &'static str)
    requires
        n < 16,
    ensures
        s@ == seq![hex_digit_lower(n as int)],
{
    proof {
        reveal_strlit("a"); reveal_strlit("b"); reveal_strlit("c");
        reveal_strlit("d"); reveal_strlit("e"); reveal_strlit("f");
    }
    match n {
        10 => "a", 11 => "b", 12 => "c", 13 => "d", 14 => "e", 15 => "f",
        _ => hex_digit_str(n as u8),
    }
}

/// Appends a 16-bit value as four lower-case hexadecimal digits.
pub fn push_hex4_lower(out: &mut String, v: u16)
    ensures
        final(out)@ == old(out)@ + spec_hex4_lower(v),
{
    out.append(hex_digit_lower_str(v / 4096));
    out.append(hex_digit_lower_str((v / 256) % 16));
    out.append(hex_digit_lower_str((v / 16) % 16));
    out.append(hex_digit_lower_str(v % 16));
    assert(final(out)@ =~= old(out)@ + spec_hex4_lower(v));
}

/// Whether `needle` occurs in `hay` starting at character `i`.
pub open spec fn spec_occurs_at(hay: Seq<char>, needle: Seq<char>, i: int) -> bool {
    0 <= i && i + needle.len() <= hay.len() && hay.subrange(i, i + needle.len()) == needle
}

/// Whether `needle` occurs anywhere in `hay`.
pub open spec fn spec_contains_text(hay: Seq<char>, needle: Seq<char>) -> bool {
    exists|i: int| spec_occurs_at(hay, needle, i)
}

/// Whether `needle` occurs anywhere in `hay`.
pub fn contains_text(hay: &str, needle: &str) -> (b: bool)
    ensures
        b == spec_contains_text(hay@, needle@),
{
    let n = hay.unicode_len();
    let m = needle.unicode_len();
    if m > n {
        assert forall|i: int| !spec_occurs_at(hay@, needle@, i) by {}
        return false;
    }
    let mut i: usize = 0;
    while i <= n - m
        invariant
            n == hay@.len(),
            m == needle@.len(),
            m <= n,
            i <= n - m + 1,
            forall|k: int| 0 <= k < i ==> !spec_occurs_at(hay@, needle@, k),
        decreases n - m + 1 - i,
    {
        let mut j: usize = 0;
        let mut matched = true;
        while j < m
            invariant
                n == hay@.len(),
                m == needle@.len(),
                i + m <= n,
                j <= m,
                matched == (forall|k: int| 0 <= k < j ==> hay@[i + k] == needle@[k]),
            decreases m - j,
        {
            if hay.get_char(i + j) != needle.get_char(j) {
                matched = false;
            }
            j += 1;
        }
        if matched {
            assert(hay@.subrange(i as int, i + m) =~= needle@);
            assert(spec_occurs_at(hay@, needle@, i as int));
            return true;
        }
        assert(!spec_occurs_at(hay@, needle@, i as int)) by {
            if hay@.subrange(i as int, i + m) == needle@ {
                assert forall|k: int| 0 <= k < m implies hay@[i + k] == needle@[k] by {
                    assert(hay@.subrange(i as int, i + m)[k] == hay@[i + k]);
                }
            }
        }
        i += 1;
    }
    assert forall|k: int| !spec_occurs_at(hay@, needle@, k) by {
        if 0 <= k < i {
        }
    }
    false
}

} // verus!
