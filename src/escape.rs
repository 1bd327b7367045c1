//! Terminal control sequences, as bytes.
//!
//! Each sequence is stated as a spec function over plain values; the
//! `push_*` functions append exactly that sequence to an output buffer.
use vstd::prelude::*;

use crate::theme::TermColor;

verus! {

/// Decimal digits of `n`, most significant first, as ASCII bytes.
pub open spec fn digits(n: nat) -> Seq<u8>
    decreases n,
{
    if n < 10 {
        seq![(48 + n) as u8]
    } else {
        digits(n / 10) + seq![(48 + n % 10) as u8]
    }
}

/// A control sequence: `ESC [`, the parameters, and the final byte.
pub open spec fn csi(params: Seq<u8>, fin: u8) -> Seq<u8> {
    seq![0x1bu8, 0x5bu8] + params + seq![fin]
}

/// A select-graphic-rendition sequence with one numeric code: `ESC [ code m`.
pub open spec fn sgr(code: nat) -> Seq<u8> {
    csi(digits(code), 0x6d)
}

/// `ESC [ ? 25 l`
pub open spec fn hide_cursor() -> Seq<u8> {
    csi(seq![0x3fu8, 0x32u8, 0x35u8], 0x6c)
}

/// `ESC [ ? 25 h`
pub open spec fn show_cursor() -> Seq<u8> {
    csi(seq![0x3fu8, 0x32u8, 0x35u8], 0x68)
}

/// `ESC [ 2 J`
pub open spec fn clear_all() -> Seq<u8> {
    csi(seq![0x32u8], 0x4a)
}

/// Move the cursor to the one-based column `x` and row `y`: `ESC [ y ; x H`.
pub open spec fn goto(x: nat, y: nat) -> Seq<u8> {
    csi(digits(y) + seq![0x3bu8] + digits(x), 0x48)
}

/// Operating-system command that sets the window title: `ESC ] 0 ; title BEL`.
pub open spec fn title_seq(title: Seq<u8>) -> Seq<u8> {
    seq![0x1bu8, 0x5du8, 0x30u8, 0x3bu8] + title + seq![0x07u8]
}

/// A color sequence; `layer` is the ASCII digit `3` for the foreground and `4`
/// for the background.
pub open spec fn color_seq(layer: u8, c: TermColor) -> Seq<u8> {
    match c {
        TermColor::Reset => csi(seq![layer, 0x39u8], 0x6d),
        TermColor::Ansi(v) => csi(seq![layer, 0x38u8, 0x3bu8, 0x35u8, 0x3bu8] + digits(v as nat), 0x6d),
        TermColor::Rgb(r, g, b) => csi(
            seq![layer, 0x38u8, 0x3bu8, 0x32u8, 0x3bu8] + digits(r as nat) + seq![0x3bu8] + digits(
                g as nat,
            ) + seq![0x3bu8] + digits(b as nat),
            0x6d,
        ),
    }
}

/// Foreground color sequence.
pub open spec fn fg_seq(c: TermColor) -> Seq<u8> {
    color_seq(0x33, c)
}

/// Background color sequence.
pub open spec fn bg_seq(c: TermColor) -> Seq<u8> {
    color_seq(0x34, c)
}

/// Appends the bytes of `s`.
pub fn push_bytes(out: &mut Vec<u8>, s: &[u8])
    ensures
        final(out)@ == old(out)@ + s@,
{
    let mut i: usize = 0;
    while i < s.len()
        invariant
            i <= s@.len(),
            out@ == old(out)@ + s@.subrange(0, i as int),
        decreases s@.len() - i,
    {
        out.push(s[i]);
        i = i + 1;
        assert(s@.subrange(0, i as int) =~= s@.subrange(0, i - 1) + seq![s@[i - 1]]);
    }
    assert(s@.subrange(0, s@.len() as int) =~= s@);
}

/// Appends the decimal digits of `n`.
pub fn push_digits(out: &mut Vec<u8>, n: u128)
    ensures
        final(out)@ == old(out)@ + digits(n as nat),
    decreases n,
{
    if n >= 10 {
        push_digits(out, n / 10);
    }
    let d: u128 = n % 10;
    out.push((48 + d) as u8);
    assert(digits(n as nat) == if n < 10 {
        seq![(48 + n) as u8]
    } else {
        digits((n / 10) as nat) + seq![(48 + n % 10) as u8]
    });
    if n >= 10 {
        assert(out@ =~= old(out)@ + digits(n as nat));
    } else {
        assert(out@ =~= old(out)@ + digits(n as nat));
    }
}

/// Appends a whole control sequence.
pub fn push_csi(out: &mut Vec<u8>, params: &[u8], fin: u8)
    ensures
        final(out)@ == old(out)@ + csi(params@, fin),
{
    out.push(0x1b);
    out.push(0x5b);
    push_bytes(out, params);
    out.push(fin);
    assert(out@ =~= old(out)@ + csi(params@, fin));
}

/// Appends `ESC [ code m`.
pub fn push_sgr(out: &mut Vec<u8>, code: u8)
    ensures
        final(out)@ == old(out)@ + sgr(code as nat),
{
    out.push(0x1b);
    out.push(0x5b);
    push_digits(out, code as u128);
    out.push(0x6d);
    assert(out@ =~= old(out)@ + sgr(code as nat));
}

pub fn push_hide_cursor(out: &mut Vec<u8>)
    ensures
        final(out)@ == old(out)@ + hide_cursor(),
{
    let params: [u8; 3] = [0x3f, 0x32, 0x35];
    push_csi(out, &params, 0x6c);
    assert(params@ =~= seq![0x3fu8, 0x32u8, 0x35u8]);
}

pub fn push_show_cursor(out: &mut Vec<u8>)
    ensures
        final(out)@ == old(out)@ + show_cursor(),
{
    let params: [u8; 3] = [0x3f, 0x32, 0x35];
    push_csi(out, &params, 0x68);
    assert(params@ =~= seq![0x3fu8, 0x32u8, 0x35u8]);
}

pub fn push_clear_all(out: &mut Vec<u8>)
    ensures
        final(out)@ == old(out)@ + clear_all(),
{
    let params: [u8; 1] = [0x32];
    push_csi(out, &params, 0x4a);
    assert(params@ =~= seq![0x32u8]);
}

/// Appends a cursor move to the one-based column `x` and row `y`.
pub fn push_goto(out: &mut Vec<u8>, x: u128, y: u128)
    ensures
        final(out)@ == old(out)@ + goto(x as nat, y as nat),
{
    out.push(0x1b);
    out.push(0x5b);
    push_digits(out, y);
    out.push(0x3b);
    push_digits(out, x);
    out.push(0x48);
    assert(out@ =~= old(out)@ + goto(x as nat, y as nat));
}

pub fn push_title(out: &mut Vec<u8>, title: &[u8])
    ensures
        final(out)@ == old(out)@ + title_seq(title@),
{
    out.push(0x1b);
    out.push(0x5d);
    out.push(0x30);
    out.push(0x3b);
    push_bytes(out, title);
    out.push(0x07);
    assert(out@ =~= old(out)@ + title_seq(title@));
}

/// Appends the sequence that selects `c` on the given layer (`3` foreground,
/// `4` background, as ASCII digits).
pub fn push_color(out: &mut Vec<u8>, layer: u8, c: TermColor)
    ensures
        final(out)@ == old(out)@ + color_seq(layer, c),
{
    out.push(0x1b);
    out.push(0x5b);
    out.push(layer);
    match c {
        TermColor::Reset => {
            out.push(0x39);
        },
        TermColor::Ansi(v) => {
            out.push(0x38);
            out.push(0x3b);
            out.push(0x35);
            out.push(0x3b);
            push_digits(out, v as u128);
        },
        TermColor::Rgb(r, g, b) => {
            out.push(0x38);
            out.push(0x3b);
            out.push(0x32);
            out.push(0x3b);
            push_digits(out, r as u128);
            out.push(0x3b);
            push_digits(out, g as u128);
            out.push(0x3b);
            push_digits(out, b as u128);
        },
    }
    out.push(0x6d);
    assert(out@ =~= old(out)@ + color_seq(layer, c));
}

} // verus!
