//! Rendering the status row and the clear-all output as raw escape bytes.
//!
//! Everything here is pure construction: the bytes are returned to the
//! caller, which owns the terminal stream and writes them.

use vstd::prelude::*;
use vstd::string::StringSliceAdditionalSpecFns;
use vstd::utf8::encode_utf8;

use crate::clip::clip_utf8;
use crate::clip::spec_clip_utf8;
use crate::protocol::EncModel;
use crate::protocol::RowEncodings;
use crate::protocol::StatusIndicator;
use crate::protocol::rows_view;

verus! {

broadcast use {
    vstd::seq_lib::group_seq_properties,
    vstd::slice::group_slice_axioms,
};

/// Decimal digits of `n`, most significant first, as ASCII bytes.
pub open spec fn dec_rep(n: nat) -> Seq<u8>
    decreases n,
{
    if n < 10 {
        seq![(48 + n) as u8]
    } else {
        dec_rep(n / 10).push((48 + n % 10) as u8)
    }
}

/// `ESC [ <row> ;1H`: move the cursor to column 1 of the given 1-based row.
pub open spec fn cursor_to(row: nat) -> Seq<u8> {
    seq![27u8, 91u8] + dec_rep(row) + seq![59u8, 49u8, 72u8]
}

/// `ESC [37;100m`: the neutral foreground/background pair of the status row.
pub open spec fn status_colors() -> Seq<u8> {
    seq![27u8, 91u8, 51u8, 55u8, 59u8, 49u8, 48u8, 48u8, 109u8]
}

/// `ESC [ <w> X`: erase that many characters from the cursor on.
pub open spec fn erase_row(w: nat) -> Seq<u8> {
    seq![27u8, 91u8] + dec_rep(w) + seq![88u8]
}

/// `ESC [0m`: reset all formatting.
pub open spec fn sgr_reset() -> Seq<u8> {
    seq![27u8, 91u8, 48u8, 109u8]
}

/// The colored filled-circle glyph: green (`ESC [32m`) when ready, red
/// (`ESC [31m`) when busy, followed by U+25CF as UTF-8.
pub open spec fn indicator_glyph(ind: StatusIndicator) -> Seq<u8> {
    match ind {
        StatusIndicator::Ready => seq![27u8, 91u8, 51u8, 50u8, 109u8, 226u8, 151u8, 143u8],
        StatusIndicator::Busy => seq![27u8, 91u8, 51u8, 49u8, 109u8, 226u8, 151u8, 143u8],
    }
}

/// Bytes left for the status text once two columns are reserved for the
/// indicator glyph and the space after it.
pub open spec fn status_budget(w: u16) -> int {
    if w >= 2 {
        w - 2
    } else {
        0
    }
}

/// The full status-row rendering: position, colors, row erase, reposition,
/// indicator glyph, colors and clipped text, final reset.  Empty when either
/// dimension is zero.
pub open spec fn spec_render_status(text: Seq<char>, size: (u16, u16), ind: StatusIndicator) -> Seq<
    u8,
> {
    if size.0 == 0 || size.1 == 0 {
        Seq::<u8>::empty()
    } else {
        cursor_to(size.1 as nat) + status_colors() + erase_row(size.0 as nat) + cursor_to(
            size.1 as nat,
        ) + indicator_glyph(ind) + status_colors() + seq![32u8] + spec_clip_utf8(
            encode_utf8(text),
            status_budget(size.0),
        ) + sgr_reset()
    }
}

/// The output of a clear-all pass: erase rows for the given area (empty when
/// none was given), the delete-all chunk, then a formatting reset.
pub open spec fn spec_clear_bytes(enc: EncModel) -> Seq<u8> {
    enc.erase_old.flatten() + enc.delete_all + sgr_reset()
}

/// Append every byte of `src` to `out`.
pub fn push_bytes(out: &mut Vec<u8>, src: &[u8])
    ensures
        final(out)@ == old(out)@ + src@,
{
    let mut i: usize = 0;
    while i < src.len()
        invariant
            i <= src@.len(),
            out@ == old(out)@ + src@.take(i as int),
        decreases src@.len() - i,
    {
        out.push(src[i]);
        proof {
            assert(src@.take(i + 1) =~= src@.take(i as int).push(src@[i as int]));
            assert(out@ =~= old(out)@ + src@.take(i + 1));
        }
        i = i + 1;
    }
    proof {
        assert(src@.take(src@.len() as int) =~= src@);
    }
}

/// Append every chunk of `rows` to `out`, in order.
pub fn push_chunks(out: &mut Vec<u8>, rows: &Vec<Vec<u8>>)
    ensures
        final(out)@ == old(out)@ + rows_view(rows@).flatten(),
{
    let mut i: usize = 0;
    while i < rows.len()
        invariant
            i <= rows@.len(),
            out@ == old(out)@ + rows_view(rows@).take(i as int).flatten(),
        decreases rows@.len() - i,
    {
        push_bytes(out, rows[i].as_slice());
        proof {
            let rv = rows_view(rows@);
            assert(rv[i as int] == rows@[i as int]@);
            assert(rv.take(i + 1) =~= rv.take(i as int).push(rv[i as int]));
            rv.take(i as int).lemma_flatten_push(rv[i as int]);
            assert(out@ =~= old(out)@ + rv.take(i + 1).flatten());
        }
        i = i + 1;
    }
    proof {
        assert(rows_view(rows@).take(rows@.len() as int) =~= rows_view(rows@));
    }
}

/// Append the decimal digits of `n` to `out`.
pub fn push_u16_dec(out: &mut Vec<u8>, n: u16)
    ensures
        final(out)@ == old(out)@ + dec_rep(n as nat),
    decreases n,
{
    if n < 10 {
        out.push(48 + n as u8);
        proof {
            assert(out@ =~= old(out)@ + dec_rep(n as nat));
        }
    } else {
        push_u16_dec(out, n / 10);
        out.push(48 + (n % 10) as u8);
        proof {
            assert(out@ =~= old(out)@ + dec_rep(n as nat));
        }
    }
}

/// Append `ESC [ <row> ;1H` to `out`.
fn push_cursor_to(out: &mut Vec<u8>, row: u16)
    ensures
        final(out)@ == old(out)@ + cursor_to(row as nat),
{
    out.push(27);
    out.push(91);
    push_u16_dec(out, row);
    out.push(59);
    out.push(49);
    out.push(72);
    proof {
        assert(out@ =~= old(out)@ + cursor_to(row as nat));
    }
}

/// Append the status color pair to `out`.
fn push_status_colors(out: &mut Vec<u8>)
    ensures
        final(out)@ == old(out)@ + status_colors(),
{
    out.push(27);
    out.push(91);
    out.push(51);
    out.push(55);
    out.push(59);
    out.push(49);
    out.push(48);
    out.push(48);
    out.push(109);
    proof {
        assert(out@ =~= old(out)@ + status_colors());
    }
}

/// Append `ESC [ <w> X` to `out`.
fn push_erase_row(out: &mut Vec<u8>, w: u16)
    ensures
        final(out)@ == old(out)@ + erase_row(w as nat),
{
    out.push(27);
    out.push(91);
    push_u16_dec(out, w);
    out.push(88);
    proof {
        assert(out@ =~= old(out)@ + erase_row(w as nat));
    }
}

/// Append the formatting reset to `out`.
pub fn push_sgr_reset(out: &mut Vec<u8>)
    ensures
        final(out)@ == old(out)@ + sgr_reset(),
{
    out.push(27);
    out.push(91);
    out.push(48);
    out.push(109);
    proof {
        assert(out@ =~= old(out)@ + sgr_reset());
    }
}

/// Append the indicator glyph with its color to `out`.
fn push_indicator(out: &mut Vec<u8>, ind: StatusIndicator)
    ensures
        final(out)@ == old(out)@ + indicator_glyph(ind),
{
    out.push(27);
    out.push(91);
    out.push(51);
    match ind {
        StatusIndicator::Ready => out.push(50),
        StatusIndicator::Busy => out.push(49),
    }
    out.push(109);
    out.push(226);
    out.push(151);
    out.push(143);
    proof {
        assert(out@ =~= old(out)@ + indicator_glyph(ind));
    }
}

/// Render the status row for the given terminal size: a no-op for degenerate
/// geometry, otherwise exactly the escape-byte sequence of
/// [`spec_render_status`], with the text clipped UTF-8-safely to the width
/// left of the indicator.
pub fn render_status(status_text: &str, size: (u16, u16), indicator: StatusIndicator) -> (r: Vec<
    u8,
>)
    ensures
        r@ == spec_render_status(status_text@, size, indicator),
{
    let (w, h) = size;
    if w == 0 || h == 0 {
        return Vec::new();
    }
    let mut out: Vec<u8> = Vec::new();
    push_cursor_to(&mut out, h);
    push_status_colors(&mut out);
    push_erase_row(&mut out, w);
    push_cursor_to(&mut out, h);
    push_indicator(&mut out, indicator);
    push_status_colors(&mut out);
    out.push(32);
    let available: usize = if w >= 2 {
        (w - 2) as usize
    } else {
        0
    };
    let clipped = clip_utf8(status_text, available);
    push_bytes(&mut out, clipped.as_bytes());
    push_sgr_reset(&mut out);
    proof {
        assert(out@ =~= spec_render_status(status_text@, size, indicator));
    }
    out
}

/// The bytes of a clear-all pass: erase rows for the area (if any), the
/// delete-all chunk, then a formatting reset.
pub fn clear_all(enc: &RowEncodings) -> (r: Vec<u8>)
    ensures
        r@ == spec_clear_bytes(enc@),
{
    let mut out: Vec<u8> = Vec::new();
    push_chunks(&mut out, &enc.erase_old);
    push_bytes(&mut out, enc.delete_all.as_slice());
    push_sgr_reset(&mut out);
    proof {
        assert(out@ =~= spec_clear_bytes(enc@));
    }
    out
}

} // verus!
