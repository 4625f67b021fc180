//! Color-attribute encoding for the text-mode display.
//!
//! A cell's color is a single byte: the low nibble holds the foreground
//! color, the high nibble the background color, and the top bit doubles as
//! an optional blink flag.

use vstd::prelude::*;

verus! {

/// One of the sixteen fixed display colors, each mapped to a 4-bit code.
#[derive(Clone, Copy, Debug, PartialEq, Eq, Structural)]
pub enum Color {
    Black,
    Blue,
    Green,
    Cyan,
    Red,
    Magenta,
    Brown,
    LightGray,
    DarkGray,
    LightBlue,
    LightGreen,
    LightCyan,
    LightRed,
    Pink,
    Yellow,
    White,
}

impl Color {
    /// The 4-bit hardware code of this color.
    pub open spec fn spec_code(self) -> u8 {
        match self {
            Color::Black => 0,
            Color::Blue => 1,
            Color::Green => 2,
            Color::Cyan => 3,
            Color::Red => 4,
            Color::Magenta => 5,
            Color::Brown => 6,
            Color::LightGray => 7,
            Color::DarkGray => 8,
            Color::LightBlue => 9,
            Color::LightGreen => 10,
            Color::LightCyan => 11,
            Color::LightRed => 12,
            Color::Pink => 13,
            Color::Yellow => 14,
            Color::White => 15,
        }
    }

    /// Every color code fits in a nibble.
    pub proof fn lemma_code_bound(self)
        ensures
            self.spec_code() < 16,
    {
    }

    #[verifier::when_used_as_spec(spec_code)]
    pub fn code(self) -> (c: u8)
        ensures
            c == self.spec_code(),
    {
        match self {
            Color::Black => 0,
            Color::Blue => 1,
            Color::Green => 2,
            Color::Cyan => 3,
            Color::Red => 4,
            Color::Magenta => 5,
            Color::Brown => 6,
            Color::LightGray => 7,
            Color::DarkGray => 8,
            Color::LightBlue => 9,
            Color::LightGreen => 10,
            Color::LightCyan => 11,
            Color::LightRed => 12,
            Color::Pink => 13,
            Color::Yellow => 14,
            Color::White => 15,
        }
    }

    /// The color whose 4-bit hardware code is `code`.
    pub fn from_code(code: u8) -> (c: Color)
        requires
            code < 16,
        ensures
            c.spec_code() == code,
    {
        match code {
            0 => Color::Black,
            1 => Color::Blue,
            2 => Color::Green,
            3 => Color::Cyan,
            4 => Color::Red,
            5 => Color::Magenta,
            6 => Color::Brown,
            7 => Color::LightGray,
            8 => Color::DarkGray,
            9 => Color::LightBlue,
            10 => Color::LightGreen,
            11 => Color::LightCyan,
            12 => Color::LightRed,
            13 => Color::Pink,
            14 => Color::Yellow,
            _ => Color::White,
        }
    }
}

/// The packed attribute byte for a foreground/background pair:
/// background code in the high nibble, foreground code in the low nibble.
pub open spec fn attr_byte(fore: Color, back: Color) -> u8 {
    (back.spec_code() << 4) | fore.spec_code()
}

/// A packed color-attribute byte, exactly as the hardware consumes it.
#[derive(Clone, Copy, Debug, PartialEq, Eq, Structural)]
pub struct ColorCode(pub u8);

impl ColorCode {
    /// Packs a foreground and a background color into one attribute byte.
    pub fn new(fore: Color, back: Color) -> (cc: ColorCode)
        ensures
            cc.0 == attr_byte(fore, back),
    {
        ColorCode((back.code() << 4) | fore.code())
    }

    /// As `new`, with the top (blink) bit set when `blink` holds.
    pub fn with_blink(fore: Color, back: Color, blink: bool) -> (cc: ColorCode)
        ensures
            cc.0 == if blink {
                attr_byte(fore, back) | 0x80
            } else {
                attr_byte(fore, back)
            },
    {
        let mut code: ColorCode = ColorCode::new(fore, back);
        if blink {
            code.0 = code.0 | 0x80;
        }
        code
    }

    /// The raw byte, bit-exact for the hardware's cell layout.
    pub fn as_byte(self) -> (b: u8)
        ensures
            b == self.0,
    {
        self.0
    }

    /// Recovers the foreground and background colors from the packed byte.
    /// The high nibble is read whole, so an attribute built by `new` decodes
    /// to exactly the pair it was built from.
    pub fn decode(self) -> (r: (Color, Color))
        ensures
            r.0.spec_code() == self.0 & 0x0f,
            r.1.spec_code() == self.0 >> 4,
    {
        proof {
            let a = self.0;
            assert(a & 0x0f < 16) by (bit_vector);
            assert(a >> 4 < 16) by (bit_vector);
        }
        (Color::from_code(self.0 & 0x0f), Color::from_code(self.0 >> 4))
    }
}

/// Packing two colors and decoding the byte again yields the same pair,
/// for every one of the 16 x 16 combinations.
pub proof fn lemma_color_roundtrip(fore: Color, back: Color)
    ensures
        attr_byte(fore, back) & 0x0f == fore.spec_code(),
        attr_byte(fore, back) >> 4 == back.spec_code(),
{
    let f = fore.spec_code();
    let b = back.spec_code();
    fore.lemma_code_bound();
    back.lemma_code_bound();
    assert(((b << 4) | f) & 0x0f == f) by (bit_vector)
        requires
            f < 16,
            b < 16,
    ;
    assert(((b << 4) | f) >> 4 == b) by (bit_vector)
        requires
            f < 16,
            b < 16,
    ;
}

/// Setting the blink flag sets exactly the top bit of the attribute byte:
/// the low seven bits are untouched and the top bit ends up set.
pub proof fn lemma_blink_sets_top_bit(a: u8)
    ensures
        (a | 0x80) & 0x7f == a & 0x7f,
        (a | 0x80) & 0x80 == 0x80,
{
    assert((a | 0x80) & 0x7f == a & 0x7f) by (bit_vector);
    assert((a | 0x80) & 0x80 == 0x80) by (bit_vector);
}

} // verus!
