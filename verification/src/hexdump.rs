//! Hex dumps: offset, up to sixteen bytes in hexadecimal, then the same bytes as ASCII.

use vstd::prelude::*;
use crate::text::{dec_text, hex_join, hex_text, push_char, push_decimal, push_hex, push_hex_join};

verus! {

/// Number of bytes on one line of a dump.
pub const BYTES_PER_LINE: usize = 16;

/// Width of the hexadecimal column: sixteen two-digit bytes and fifteen spaces.
pub const HEX_COLUMN_WIDTH: usize = 47;

/// How a byte shows in the ASCII column: printable ASCII (space included) as
/// itself, anything else as `.`.
pub open spec fn ascii_char(b: u8) -> char {
    if 0x20 <= b && b <= 0x7e {
        b as char
    } else {
        '.'
    }
}

pub open spec fn ascii_text(chunk: Seq<u8>) -> Seq<char> {
    chunk.map_values(|b: u8| ascii_char(b))
}

/// `s` padded with spaces on the right to `width` characters.
pub open spec fn pad_right(s: Seq<char>, width: nat) -> Seq<char> {
    if s.len() < width {
        s + Seq::new((width - s.len()) as nat, |_i: int| ' ')
    } else {
        s
    }
}

/// One line of a dump: the offset of its first byte, the bytes in hex, the bytes in ASCII.
pub open spec fn dump_line(offset: nat, chunk: Seq<u8>) -> Seq<char> {
    "      "@ + hex_text(offset, 4) + "  "@ + pad_right(hex_join(chunk, ' '), HEX_COLUMN_WIDTH as nat)
        + "  "@ + ascii_text(chunk) + seq!['\n']
}

/// The lines for the bytes of `shown` from `start` on, sixteen per line.
pub open spec fn dump_lines(shown: Seq<u8>, start: nat) -> Seq<char>
    decreases shown.len() + 16 - start,
{
    if start < shown.len() {
        let end = if start + 16 < shown.len() { start + 16 } else { shown.len() as nat };
        dump_line(start, shown.subrange(start as int, end as int)) + dump_lines(shown, start + 16)
    } else {
        seq![]
    }
}

/// The line that reports how many bytes were left out.
pub open spec fn more_bytes_line(left_out: nat) -> Seq<char> {
    "      ... ("@ + dec_text(left_out) + " more bytes)\n"@
}

/// Hex dump of the first `max_bytes` bytes of `data`, followed by a line that counts
/// the bytes left out when `data` is longer.
pub open spec fn hex_dump_text(data: Seq<u8>, max_bytes: nat) -> Seq<char> {
    let shown_len = if data.len() < max_bytes { data.len() } else { max_bytes };
    dump_lines(data.take(shown_len as int), 0) + if data.len() > max_bytes {
        more_bytes_line((data.len() - max_bytes) as nat)
    } else {
        seq![]
    }
}

fn ascii_of(b: u8) -> (c: char)
    ensures
        c == ascii_char(b),
{
    if 0x20 <= b && b <= 0x7e {
        b as char
    } else {
        '.'
    }
}

/// Appends one line of a dump.
fn push_dump_line(out: &mut String, offset: usize, chunk: &[u8])
    requires
        chunk@.len() <= 16,
    ensures
        final(out)@ == old(out)@ + dump_line(offset as nat, chunk@),
{
    let ghost start = out@;
    out.append("      ");
    push_hex(out, offset as u64, 4);
    out.append("  ");
    let mut hex = String::new();
    push_hex_join(&mut hex, chunk, ' ');
    let ghost hex_view = hex@;
    assert(hex_view == hex_join(chunk@, ' '));
    out.append(hex.as_str());
    let hex_len = hex.as_str().unicode_len();
    proof { lemma_hex_join_len(chunk@, ' '); }
    let mut i = hex_len;
    while i < HEX_COLUMN_WIDTH
        invariant
            hex_len == hex_view.len(),
            hex_len <= i,
            i <= HEX_COLUMN_WIDTH || i == hex_len,
            out@ == start + "      "@ + hex_text(offset as nat, 4) + "  "@ + hex_view + Seq::new(
                (i - hex_len) as nat,
                |_i: int| ' ',
            ),
        decreases HEX_COLUMN_WIDTH - i,
    {
        push_char(out, ' ');
        proof {
            assert(Seq::new((i - hex_len) as nat, |_i: int| ' ').push(' ') =~= Seq::new(
                (i + 1 - hex_len) as nat,
                |_i: int| ' ',
            ));
        }
        i = i + 1;
    }
    assert(start + "      "@ + hex_text(offset as nat, 4) + "  "@ + pad_right(hex_view, HEX_COLUMN_WIDTH as nat)
        =~= out@);
    out.append("  ");
    let ghost before_ascii = out@;
    let mut j: usize = 0;
    while j < chunk.len()
        invariant
            j <= chunk@.len(),
            out@ == before_ascii + ascii_text(chunk@.take(j as int)),
        decreases chunk@.len() - j,
    {
        push_char(out, ascii_of(chunk[j]));
        assert(ascii_text(chunk@.take(j + 1)) =~= ascii_text(chunk@.take(j as int)).push(ascii_char(chunk@[j as int])));
        j = j + 1;
    }
    assert(chunk@.take(chunk@.len() as int) =~= chunk@);
    push_char(out, '\n');
    assert(out@ =~= start + dump_line(offset as nat, chunk@));
}

/// The hex text of `n` bytes is three characters per byte, less one.
pub(crate) proof fn lemma_hex_join_len(bytes: Seq<u8>, sep: char)
    ensures
        hex_join(bytes, sep).len() == if bytes.len() == 0 { 0 } else { 3 * bytes.len() - 1 },
    decreases bytes.len(),
{
    if bytes.len() > 1 {
        lemma_hex_join_len(bytes.drop_last(), sep);
        lemma_hex_byte_len(bytes.last());
    } else if bytes.len() == 1 {
        lemma_hex_byte_len(bytes[0]);
    }
}

pub(crate) proof fn lemma_hex_byte_len(b: u8)
    ensures
        hex_text(b as nat, 2).len() == 2,
{
    let n = b as nat;
    assert(n / 16 < 16);
    assert(hex_text(n / 16, 1).len() == 1);
}

/// Hex dump of the first `max_bytes` bytes: offset, 16 hex bytes, then the ASCII view.
/// When `data` is longer, a last line says how many bytes were left out.
pub fn hex_dump(data: &[u8], max_bytes: usize) -> (r: String)
    ensures
        r@ == hex_dump_text(data@, max_bytes as nat),
{
    let mut out = String::new();
    let shown_len: usize = if data.len() < max_bytes { data.len() } else { max_bytes };
    let ghost shown = data@.take(shown_len as int);
    let mut start: usize = 0;
    while start < shown_len
        invariant
            shown_len <= data@.len(),
            shown == data@.take(shown_len as int),
            start <= shown_len,
            dump_lines(shown, 0) == out@ + dump_lines(shown, start as nat),
        decreases shown_len - start,
    {
        let end: usize = if shown_len - start > BYTES_PER_LINE { start + BYTES_PER_LINE } else { shown_len };
        let chunk = vstd::slice::slice_subrange(data, start, end);
        assert(chunk@ =~= shown.subrange(start as int, end as int));
        let ghost before = out@;
        push_dump_line(&mut out, start, chunk);
        proof {
            if end == shown_len {
                assert(dump_lines(shown, (start + 16) as nat) == Seq::<char>::empty());
                assert(dump_lines(shown, end as nat) == Seq::<char>::empty());
            }
            assert(dump_lines(shown, start as nat) == dump_line(start as nat, chunk@) + dump_lines(shown, (start + 16) as nat));
            assert(out@ + dump_lines(shown, end as nat) =~= before + dump_lines(shown, start as nat));
        }
        start = end;
    }
    if data.len() > max_bytes {
        let ghost before = out@;
        out.append("      ... (");
        push_decimal(&mut out, (data.len() - max_bytes) as u64);
        out.append(" more bytes)\n");
        assert(out@ =~= before + more_bytes_line((data@.len() - max_bytes) as nat));
    }
    assert(out@ =~= hex_dump_text(data@, max_bytes as nat));
    out
}

} // verus!
