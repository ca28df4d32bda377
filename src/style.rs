//! The colour palette, and how a styled piece of text is painted with ANSI
//! escape codes.

use crate::text::push_char;
use vstd::prelude::*;

verus! {

/// A colour of the prompt's fixed palette.
#[derive(Clone, Copy, Debug, PartialEq, Eq, Structural)]
pub enum Colour {
    Red,
    Green,
    Blue,
    Yellow,
    Pink,
    Purple,
}

/// A 24-bit colour.
#[derive(Clone, Copy, Debug, PartialEq, Eq, Structural)]
pub struct Rgb {
    pub r: u8,
    pub g: u8,
    pub b: u8,
}

/// The colour that `0xRRGGBB` denotes; bits above the lowest 24 are ignored.
pub open spec fn rgb_of_hex(hex: u32) -> Rgb {
    Rgb {
        r: ((hex as int / 0x10000) % 0x100) as u8,
        g: ((hex as int / 0x100) % 0x100) as u8,
        b: (hex as int % 0x100) as u8,
    }
}

/// Splits `0xRRGGBB` into its three channels.
pub fn from_hex(hex: u32) -> (c: Rgb)
    ensures
        c == rgb_of_hex(hex),
{
    assert((hex >> 16u32) & 0xffu32 == (hex / 0x10000u32) % 0x100u32) by (bit_vector);
    assert((hex >> 8u32) & 0xffu32 == (hex / 0x100u32) % 0x100u32) by (bit_vector);
    assert(hex & 0xffu32 == hex % 0x100u32) by (bit_vector);
    Rgb { r: ((hex >> 16) & 0xff) as u8, g: ((hex >> 8) & 0xff) as u8, b: (hex & 0xff) as u8 }
}

impl Colour {
    /// The hex code of each colour of the palette.
    pub open spec fn hex(self) -> u32 {
        match self {
            Colour::Red => 0xff5555,
            Colour::Green => 0x50fa7b,
            Colour::Blue => 0x8be9fd,
            Colour::Yellow => 0xf1fa8c,
            Colour::Pink => 0xff79c6,
            Colour::Purple => 0xbd93f9,
        }
    }

    pub open spec fn rgb(self) -> Rgb {
        rgb_of_hex(self.hex())
    }

    /// The 24-bit colour that the terminal is asked to show.
    pub fn to_ansi(&self) -> (c: Rgb)
        ensures
            c == self.rgb(),
    {
        match self {
            Colour::Red => from_hex(0xff5555),
            Colour::Green => from_hex(0x50fa7b),
            Colour::Blue => from_hex(0x8be9fd),
            Colour::Yellow => from_hex(0xf1fa8c),
            Colour::Pink => from_hex(0xff79c6),
            Colour::Purple => from_hex(0xbd93f9),
        }
    }
}

/// The decimal digit `d`, for `d < 10`.
pub open spec fn digit(d: nat) -> char {
    seq!['0', '1', '2', '3', '4', '5', '6', '7', '8', '9'][d as int]
}

/// The decimal text of `n`, without leading zeros.
pub open spec fn decimal(n: nat) -> Seq<char>
    decreases n,
{
    if n < 10 {
        seq![digit(n)]
    } else {
        decimal(n / 10).push(digit(n % 10))
    }
}

/// The decimal text of `n`, with a leading `-` when it is negative.
pub open spec fn signed_decimal(n: int) -> Seq<char> {
    if n < 0 {
        seq!['-'] + decimal((-n) as nat)
    } else {
        decimal(n as nat)
    }
}

/// `text` painted bold in the colour `c`: the select-graphic-rendition escape
/// with bold and a 24-bit foreground, the text, then the reset escape.
pub open spec fn bold_rgb_painted(c: Rgb, text: Seq<char>) -> Seq<char> {
    seq!['\x1B', '[', '1', ';', '3', '8', ';', '2', ';'] + decimal(c.r as nat) + seq![';']
        + decimal(c.g as nat) + seq![';'] + decimal(c.b as nat) + seq!['m'] + text + seq![
        '\x1B',
        '[',
        '0',
        'm',
    ]
}

/// Relies on ansi_term's `Colour::bold` and the `Display` of the painted
/// string: a bold style with an RGB foreground writes `ESC[1;38;2;R;G;Bm`,
/// the text, and `ESC[0m`.
#[verifier::external_body]
pub(crate) fn paint_bold(c: Rgb, text: &str) -> (r: String)
    ensures
        r@ == bold_rgb_painted(c, text@),
{
    ansi_term::Colour::RGB(c.r, c.g, c.b).bold().paint(text).to_string()
}

/// Relies on ansi_term's `Style::default` and the `Display` of the painted
/// string: a plain style writes no escape code, only the text.
#[verifier::external_body]
pub(crate) fn paint_plain(text: &str) -> (r: String)
    ensures
        r@ == text@,
{
    ansi_term::Style::default().paint(text).to_string()
}

/// The character of the decimal digit `d`.
fn digit_char(d: u32) -> (c: char)
    requires
        d < 10,
    ensures
        c == digit(d as nat),
{
    if d == 0 {
        '0'
    } else if d == 1 {
        '1'
    } else if d == 2 {
        '2'
    } else if d == 3 {
        '3'
    } else if d == 4 {
        '4'
    } else if d == 5 {
        '5'
    } else if d == 6 {
        '6'
    } else if d == 7 {
        '7'
    } else if d == 8 {
        '8'
    } else {
        '9'
    }
}

/// Appends the decimal text of `n` to `s`.
fn push_decimal(s: &mut String, n: u32)
    ensures
        final(s)@ == old(s)@ + decimal(n as nat),
    decreases n,
{
    if n >= 10 {
        push_decimal(s, n / 10);
    }
    push_char(s, digit_char(n % 10));
    assert(n >= 10 ==> decimal(n as nat) == decimal((n / 10) as nat).push(digit((n % 10) as nat)));
}

/// The decimal text of `n`, with `-` in front when it is negative.
pub fn decimal_text(n: i32) -> (r: String)
    ensures
        r@ == signed_decimal(n as int),
{
    let mut s = String::new();
    if n < 0 {
        push_char(&mut s, '-');
        let magnitude: u32 = (-(n as i64)) as u32;
        push_decimal(&mut s, magnitude);
    } else {
        push_decimal(&mut s, n as u32);
    }
    s
}

} // verus!
