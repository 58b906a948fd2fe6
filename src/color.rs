use vstd::prelude::*;

verus! {

/// A color with red, green, blue and alpha channels.
#[derive(Clone, Copy, Debug, PartialEq, Eq, Structural)]
pub struct Color {
    pub r: u8,
    pub g: u8,
    pub b: u8,
    pub a: u8,
}

/// The upper-case hexadecimal digit of a value below sixteen.
pub open spec fn hex_digit(n: u8) -> char {
    if n < 10 {
        (('0' as u8) + n) as char
    } else {
        (('A' as u8) + n - 10) as char
    }
}

/// Two upper-case hexadecimal digits of a byte.
pub open spec fn hex_byte(n: u8) -> Seq<char> {
    seq![hex_digit(n / 16), hex_digit(n % 16)]
}

/// `#RRGGBBAA` in upper-case hexadecimal.
pub open spec fn rgba_text(c: Color) -> Seq<char> {
    seq!['#'] + hex_byte(c.r) + hex_byte(c.g) + hex_byte(c.b) + hex_byte(c.a)
}

impl Color {
    /// An opaque color.
    pub fn rgb(r: u8, g: u8, b: u8) -> (c: Color)
        ensures
            c == (Color { r, g, b, a: 255 }),
    {
        Color { r, g, b, a: 255 }
    }

    /// The color as `#RRGGBBAA`.
    pub fn display_rgba(self) -> (s: String)
        ensures
            s@ == rgba_text(self),
    {
        hex_rgba(self)
    }
}

/// Relies on hex_color's `HexColor::display_rgba`, which writes `#`, then the
/// red, green, blue and alpha channels as two upper-case hex digits each.
#[verifier::external_body]
fn hex_rgba(c: Color) -> (s: String)
    ensures
        s@ == rgba_text(c),
{
    hex_color::HexColor::rgba(c.r, c.g, c.b, c.a).display_rgba().to_string()
}

} // verus!
