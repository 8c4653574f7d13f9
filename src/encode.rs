//! ANSI SGR escape sequences that set the foreground or background colour of
//! a pixel, in truecolor or 256-colour mode.

use vstd::prelude::*;
use vstd::string::StringExecFns;

use crate::palette::{channels, gray, gray_index, gray_to_256, Channels};
use crate::quantize::{quantize, rgb_to_256, ColorAttributes};

verus! {

/// image's RGB pixel, `pub struct Rgb<T>(pub [T; 3])`: its public channel
/// array is read directly.
#[verifier::external_type_specification]
#[verifier::reject_recursive_types(T)]
pub struct ExRgb<T>(image::Rgb<T>);

/// image's grayscale pixel, `pub struct Luma<T>(pub [T; 1])`: its public
/// channel array is read directly.
#[verifier::external_type_specification]
#[verifier::reject_recursive_types(T)]
pub struct ExLuma<T>(image::Luma<T>);

/// Character of the decimal digit `d` (0..=9).
pub open spec fn digit_char(d: int) -> char {
    seq!['0', '1', '2', '3', '4', '5', '6', '7', '8', '9'][d]
}

/// Decimal representation of `v`, without leading zeros.
pub open spec fn decimal(v: nat) -> Seq<char>
    decreases v,
{
    if v < 10 {
        seq![digit_char(v as int)]
    } else {
        decimal(v / 10).push(digit_char((v % 10) as int))
    }
}

/// The SGR parameter that selects the layer: 38 for the foreground, 48 for
/// the background.
pub open spec fn layer(foreground: bool) -> Seq<char> {
    if foreground {
        seq!['3', '8']
    } else {
        seq!['4', '8']
    }
}

/// `ESC[38;2;{R};{G};{B}m` for the foreground, `ESC[48;2;...m` for the
/// background.
pub open spec fn truecolor_sequence(foreground: bool, c: Channels) -> Seq<char> {
    seq!['\x1b', '['] + layer(foreground) + seq![';', '2', ';'] + decimal(c.0 as nat) + seq![';']
        + decimal(c.1 as nat) + seq![';'] + decimal(c.2 as nat) + seq!['m']
}

/// `ESC[38;5;{index}m` for the foreground, `ESC[48;5;{index}m` for the
/// background.
pub open spec fn indexed_sequence(foreground: bool, index: int) -> Seq<char> {
    seq!['\x1b', '['] + layer(foreground) + seq![';', '5', ';'] + decimal(index as nat) + seq![
        'm',
    ]
}

fn digit_str(d: u8) -> (r: &'static str)
    requires
        d <= 9,
    ensures
        r@ == seq![digit_char(d as int)],
{
    proof {
        reveal_strlit("0");
        reveal_strlit("1");
        reveal_strlit("2");
        reveal_strlit("3");
        reveal_strlit("4");
        reveal_strlit("5");
        reveal_strlit("6");
        reveal_strlit("7");
        reveal_strlit("8");
        reveal_strlit("9");
    }
    match d {
        0 => "0",
        1 => "1",
        2 => "2",
        3 => "3",
        4 => "4",
        5 => "5",
        6 => "6",
        7 => "7",
        8 => "8",
        _ => "9",
    }
}

/// Append the decimal representation of `v` to `out`.
pub fn push_decimal(out: &mut String, v: u8)
    ensures
        final(out)@ == old(out)@ + decimal(v as nat),
{
    if v >= 100 {
        out.append(digit_str(v / 100));
    }
    if v >= 10 {
        out.append(digit_str((v / 10) % 10));
    }
    out.append(digit_str(v % 10));
    proof {
        let n = v as nat;
        if n >= 100 {
            assert(decimal(n / 100) == seq![digit_char((n / 100) as int)]);
            assert(decimal(n / 10) == decimal(n / 100).push(digit_char(((n / 10) % 10) as int)));
        } else if n >= 10 {
            assert(decimal(n / 10) == seq![digit_char((n / 10) as int)]);
        }
    }
}

/// Append the truecolor sequence for `c` to `out`.
pub fn push_truecolor(out: &mut String, foreground: bool, c: &[u8; 3])
    ensures
        final(out)@ == old(out)@ + truecolor_sequence(foreground, channels(*c)),
{
    proof {
        reveal_strlit("\x1b[38;2;");
        reveal_strlit("\x1b[48;2;");
        reveal_strlit(";");
        reveal_strlit("m");
    }
    let ghost start = out@;
    if foreground {
        out.append("\x1b[38;2;");
    } else {
        out.append("\x1b[48;2;");
    }
    push_decimal(out, c[0]);
    out.append(";");
    push_decimal(out, c[1]);
    out.append(";");
    push_decimal(out, c[2]);
    out.append("m");
    assert(out@ =~= start + truecolor_sequence(foreground, channels(*c)));
}

/// Append the 256-colour sequence for palette entry `index` to `out`.
pub fn push_indexed(out: &mut String, foreground: bool, index: u8)
    ensures
        final(out)@ == old(out)@ + indexed_sequence(foreground, index as int),
{
    proof {
        reveal_strlit("\x1b[38;5;");
        reveal_strlit("\x1b[48;5;");
        reveal_strlit("m");
    }
    let ghost start = out@;
    if foreground {
        out.append("\x1b[38;5;");
    } else {
        out.append("\x1b[48;5;");
    }
    push_decimal(out, index);
    out.append("m");
    assert(out@ =~= start + indexed_sequence(foreground, index as int));
}

/// A pixel that can set the terminal's foreground or background colour, in
/// truecolor or in 256-colour mode. Each method appends one escape sequence
/// to `out`.
pub trait AnsiPixel {
    /// The colour written in truecolor mode.
    spec fn true_color(&self) -> Channels;

    /// The palette entry written in 256-colour mode.
    spec fn palette_entry(&self, color_attrs: ColorAttributes) -> int;

    fn fg_24b(&self, out: &mut String, color_attrs: &ColorAttributes)
        ensures
            final(out)@ == old(out)@ + truecolor_sequence(true, self.true_color()),
    ;

    fn bg_24b(&self, out: &mut String, color_attrs: &ColorAttributes)
        ensures
            final(out)@ == old(out)@ + truecolor_sequence(false, self.true_color()),
    ;

    fn fg_8b(&self, out: &mut String, color_attrs: &ColorAttributes)
        ensures
            final(out)@ == old(out)@ + indexed_sequence(true, self.palette_entry(*color_attrs)),
    ;

    fn bg_8b(&self, out: &mut String, color_attrs: &ColorAttributes)
        ensures
            final(out)@ == old(out)@ + indexed_sequence(false, self.palette_entry(*color_attrs)),
    ;
}

/// A colour pixel: its channels as they are, or quantized to the palette.
impl AnsiPixel for image::Rgb<u8> {
    open spec fn true_color(&self) -> Channels {
        channels(self.0)
    }

    open spec fn palette_entry(&self, color_attrs: ColorAttributes) -> int {
        quantize(channels(self.0), color_attrs.luma_correct as int)
    }

    fn fg_24b(&self, out: &mut String, _color_attrs: &ColorAttributes) {
        push_truecolor(out, true, &self.0);
    }

    fn bg_24b(&self, out: &mut String, _color_attrs: &ColorAttributes) {
        push_truecolor(out, false, &self.0);
    }

    fn fg_8b(&self, out: &mut String, color_attrs: &ColorAttributes) {
        push_indexed(out, true, rgb_to_256(&self.0, color_attrs));
    }

    fn bg_8b(&self, out: &mut String, color_attrs: &ColorAttributes) {
        push_indexed(out, false, rgb_to_256(&self.0, color_attrs));
    }
}

/// A grayscale pixel: its level on all three channels, or the gray table's
/// palette entry.
impl AnsiPixel for image::Luma<u8> {
    open spec fn true_color(&self) -> Channels {
        gray(self.0[0] as int)
    }

    open spec fn palette_entry(&self, color_attrs: ColorAttributes) -> int {
        gray_index(self.0[0] as int)
    }

    fn fg_24b(&self, out: &mut String, _color_attrs: &ColorAttributes) {
        let c = self.0[0];
        push_truecolor(out, true, &[c, c, c]);
    }

    fn bg_24b(&self, out: &mut String, _color_attrs: &ColorAttributes) {
        let c = self.0[0];
        push_truecolor(out, false, &[c, c, c]);
    }

    fn fg_8b(&self, out: &mut String, color_attrs: &ColorAttributes) {
        push_indexed(out, true, gray_to_256(self.0[0]));
    }

    fn bg_8b(&self, out: &mut String, color_attrs: &ColorAttributes) {
        push_indexed(out, false, gray_to_256(self.0[0]));
    }
}

} // verus!
