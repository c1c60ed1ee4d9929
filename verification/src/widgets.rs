//! The text of the hex dump that shows raw captured bytes.

use vstd::prelude::*;
use crate::text::{hex_digit, hex_digit_str, push_hex2, spec_hex2};

verus! {

/// Appends one character to a string through `String::push`, which the
/// standard library documents as appending the given char to the end of the
/// string. Like any growth of a string it fails only when memory for the
/// longer string cannot be had, which no precondition here can exclude.
#[verifier::external_body]
fn push_char(out: &mut String, c: char)
    ensures
        final(out)@ == old(out)@.push(c),
{
    out.push(c);
}

/// A number in upper-case hexadecimal without leading zeros.
pub open spec fn spec_hex_digits(n: nat) -> Seq<char>
    decreases n,
{
    if n < 16 {
        seq![hex_digit(n as int)]
    } else {
        spec_hex_digits(n / 16) + seq![hex_digit((n % 16) as int)]
    }
}

/// `count` copies of `c`.
pub open spec fn spec_repeat(c: char, count: nat) -> Seq<char>
    decreases count,
{
    if count == 0 { Seq::empty() } else { spec_repeat(c, (count - 1) as nat).push(c) }
}

/// A number in upper-case hexadecimal, padded with zeros to four digits
/// (`{:04X}`).
pub open spec fn spec_hex_min4(n: nat) -> Seq<char> {
    let d = spec_hex_digits(n);
    if d.len() < 4 { spec_repeat('0', (4 - d.len()) as nat) + d } else { d }
}

/// How a byte shows in the text column: itself if it is a visible ASCII
/// character, else a dot.
pub open spec fn spec_dump_char(b: u8) -> char {
    if 0x21 <= b <= 0x7E { b as char } else { '.' }
}

/// The hex column for the bytes `chunk[..k]`: each byte in two digits and a
/// space, with one more space after the byte at position `half - 1`.
pub open spec fn spec_hex_column(chunk: Seq<u8>, k: int, half: int) -> Seq<char>
    decreases k,
{
    if k <= 0 {
        Seq::empty()
    } else {
        let prev = spec_hex_column(chunk, k - 1, half);
        let cell = spec_hex2(chunk[k - 1]) + seq![' '];
        if k - 1 == half - 1 { prev + cell + seq![' '] } else { prev + cell }
    }
}

/// The text column for the bytes `chunk[..k]`.
pub open spec fn spec_text_column(chunk: Seq<u8>, k: int) -> Seq<char>
    decreases k,
{
    if k <= 0 { Seq::empty() } else { spec_text_column(chunk, k - 1).push(spec_dump_char(chunk[k - 1])) }
}

/// One row of the dump: the offset, the hex column padded to a full row,
/// two spaces, then the text column.
pub open spec fn spec_dump_row(chunk: Seq<u8>, offset: nat, bytes_per_row: nat) -> Seq<char> {
    spec_hex_min4(offset) + ": "@ + spec_hex_column(chunk, chunk.len() as int, (bytes_per_row / 2) as int)
        + spec_repeat(' ', (3 * (bytes_per_row - chunk.len())) as nat) + "  "@
        + spec_text_column(chunk, chunk.len() as int)
}

/// The rows of the dump of `data[start..]`, `bytes_per_row` bytes each, the
/// last one possibly shorter.
pub open spec fn spec_dump_rows(data: Seq<u8>, start: nat, bytes_per_row: nat) -> Seq<Seq<char>>
    decreases data.len() - start,
{
    if bytes_per_row == 0 || start >= data.len() {
        Seq::empty()
    } else {
        let end = if start + bytes_per_row < data.len() { start + bytes_per_row } else { data.len() as nat };
        seq![spec_dump_row(data.subrange(start as int, end as int), start, bytes_per_row)]
            + spec_dump_rows(data, end, bytes_per_row)
    }
}

fn push_hex_digits(out: &mut String, n: usize)
    ensures
        final(out)@ == old(out)@ + spec_hex_digits(n as nat),
    decreases n,
{
    if n < 16 {
        out.append(hex_digit_str(n as u8));
    } else {
        push_hex_digits(out, n / 16);
        out.append(hex_digit_str((n % 16) as u8));
        assert(final(out)@ =~= old(out)@ + spec_hex_digits(n as nat));
    }
}

fn push_repeat(out: &mut String, s: &str, c: char, count: usize)
    requires
        s@ == seq![c],
    ensures
        final(out)@ == old(out)@ + spec_repeat(c, count as nat),
{
    let mut i: usize = 0;
    while i < count
        invariant
            i <= count,
            s@ == seq![c],
            out@ == old(out)@ + spec_repeat(c, i as nat),
        decreases count - i,
    {
        out.append(s);
        i += 1;
        assert(out@ =~= old(out)@ + spec_repeat(c, i as nat));
    }
}

fn dump_row(data: &[u8], start: usize, end: usize, bytes_per_row: usize) -> (row: String)
    requires
        2 <= bytes_per_row,
        3 * bytes_per_row <= usize::MAX,
        start < end <= data@.len(),
        end - start <= bytes_per_row,
    ensures
        row@ == spec_dump_row(data@.subrange(start as int, end as int), start as nat, bytes_per_row as nat),
{
    let ghost chunk = data@.subrange(start as int, end as int);
    let mut s = String::new();
    let mut digits = String::new();
    push_hex_digits(&mut digits, start);
    let count = digits.as_str().unicode_len();
    if count < 4 {
        proof {
            reveal_strlit("0");
            assert("0"@ =~= seq!['0']);
        }
        push_repeat(&mut s, "0", '0', 4 - count);
    }
    s.append(digits.as_str());
    assert(s@ =~= spec_hex_min4(start as nat));
    s.append(": ");
    let ghost head = s@;
    let half = bytes_per_row / 2;
    let mut i: usize = 0;
    while i < end - start
        invariant
            start < end <= data@.len(),
            end - start <= bytes_per_row,
            half == bytes_per_row / 2,
            half >= 1,
            chunk == data@.subrange(start as int, end as int),
            i <= end - start,
            s@ == head + spec_hex_column(chunk, i as int, half as int),
        decreases end - start - i,
    {
        push_hex2(&mut s, data[start + i]);
        proof { reveal_strlit(" "); }
        s.append(" ");
        if i == half - 1 {
            s.append(" ");
        }
        i += 1;
        assert(chunk[i - 1] == data@[start + i - 1]);
        assert(s@ =~= head + spec_hex_column(chunk, i as int, half as int));
    }
    proof {
        reveal_strlit(" ");
        assert(" "@ =~= seq![' ']);
    }
    push_repeat(&mut s, " ", ' ', 3 * (bytes_per_row - (end - start)));
    s.append("  ");
    let ghost mid = s@;
    let mut j: usize = 0;
    while j < end - start
        invariant
            start < end <= data@.len(),
            chunk == data@.subrange(start as int, end as int),
            j <= end - start,
            s@ == mid + spec_text_column(chunk, j as int),
        decreases end - start - j,
    {
        let b = data[start + j];
        assert(chunk[j as int] == b);
        if 0x21 <= b && b <= 0x7E {
            push_char(&mut s, b as char);
        } else {
            push_char(&mut s, '.');
        }
        j += 1;
        assert(s@ =~= mid + spec_text_column(chunk, j as int));
    }
    assert(s@ =~= spec_dump_row(chunk, start as nat, bytes_per_row as nat));
    s
}

/// The rows of a hex dump of `data`, `bytes_per_row` bytes to a row: each
/// row gives the offset of its first byte in at least four hexadecimal
/// digits, the bytes in hexadecimal with an extra space after the middle
/// one, spaces for the bytes a short last row lacks, and the bytes as text.
pub fn hex_dump(data: &[u8], bytes_per_row: usize) -> (rows: Vec<String>)
    requires
        bytes_per_row >= 1,
        data@.len() > 0 ==> bytes_per_row >= 2 && 3 * bytes_per_row <= usize::MAX,
    ensures
        rows@.len() == spec_dump_rows(data@, 0, bytes_per_row as nat).len(),
        forall|i: int| 0 <= i < rows@.len() ==> #[trigger] rows@[i]@ == spec_dump_rows(data@, 0, bytes_per_row as nat)[i],
{
    let mut rows: Vec<String> = Vec::new();
    let mut start: usize = 0;
    while start < data.len()
        invariant
            bytes_per_row >= 1,
            data@.len() > 0 ==> bytes_per_row >= 2 && 3 * bytes_per_row <= usize::MAX,
            start <= data@.len(),
            spec_dump_rows(data@, 0, bytes_per_row as nat).len() == rows@.len() + spec_dump_rows(data@, start as nat, bytes_per_row as nat).len(),
            forall|i: int| 0 <= i < rows@.len() ==> #[trigger] rows@[i]@ == spec_dump_rows(data@, 0, bytes_per_row as nat)[i],
            forall|i: int| 0 <= i < spec_dump_rows(data@, start as nat, bytes_per_row as nat).len() ==>
                spec_dump_rows(data@, start as nat, bytes_per_row as nat)[i] == spec_dump_rows(data@, 0, bytes_per_row as nat)[rows@.len() + i],
        decreases data@.len() - start,
    {
        let end = if data.len() - start > bytes_per_row { start + bytes_per_row } else { data.len() };
        let row = dump_row(data, start, end, bytes_per_row);
        let ghost rest = spec_dump_rows(data@, start as nat, bytes_per_row as nat);
        let ghost next = spec_dump_rows(data@, end as nat, bytes_per_row as nat);
        assert(rest == seq![spec_dump_row(data@.subrange(start as int, end as int), start as nat, bytes_per_row as nat)] + next);
        assert(rest[0] == row@);
        let ghost n = rows@.len();
        rows.push(row);
        assert forall|i: int| 0 <= i < next.len() implies next[i] == spec_dump_rows(data@, 0, bytes_per_row as nat)[rows@.len() + i] by {
            assert(rest[i + 1] == next[i]);
        }
        start = end;
    }
    rows
}

} // verus!
