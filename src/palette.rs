//! Foreground and background colours, read from `#RRGGBB` strings.
use vstd::prelude::*;
use vstd::string::StringSliceAdditionalSpecFns;

verus! {

/// A colour as three bytes; component `c` stands for the intensity `c / 255`.
#[derive(Clone, Copy, Debug, PartialEq, Eq, Structural)]
pub struct Rgb {
    pub r: u8,
    pub g: u8,
    pub b: u8,
}

impl Rgb {
    /// Channel `i` of the colour: red, green, blue for 0, 1, 2.
    pub open spec fn channel(self, i: int) -> u8 {
        if i == 0 { self.r } else if i == 1 { self.g } else { self.b }
    }

    /// Channel `i` of the colour, for `i` below 3.
    pub fn get_channel(&self, i: usize) -> (v: u8)
        requires
            i < 3,
        ensures
            v == self.channel(i as int),
    {
        if i == 0 { self.r } else if i == 1 { self.g } else { self.b }
    }
}

/// A colour string that could not be read; holds the offending text.
#[derive(Clone, Debug, PartialEq, Eq)]
pub struct ColorParseError {
    pub text: String,
}

/// Whether byte `b` is an ASCII hexadecimal digit, in either case.
pub open spec fn is_hex_digit(b: u8) -> bool {
    (0x30 <= b <= 0x39) || (0x41 <= b <= 0x46) || (0x61 <= b <= 0x66)
}

/// The value of a hexadecimal digit.
pub open spec fn hex_digit_value(b: u8) -> u8 {
    if b <= 0x39 { (b - 0x30) as u8 } else if b <= 0x46 { (b - 0x41 + 10) as u8 } else { (b - 0x61 + 10) as u8 }
}

/// Whether `s` is a colour string: `#` followed by six hexadecimal digits.
pub open spec fn is_hex_color(s: Seq<u8>) -> bool {
    &&& s.len() == 7
    &&& s[0] == 0x23
    &&& forall|i: int| 1 <= i < 7 ==> is_hex_digit(#[trigger] s[i])
}

/// The byte written by the two hexadecimal digits at `s[at]`, `s[at + 1]`.
pub open spec fn hex_byte_at(s: Seq<u8>, at: int) -> u8 {
    (hex_digit_value(s[at]) * 16 + hex_digit_value(s[at + 1])) as u8
}

/// The colour written by a colour string.
pub open spec fn hex_color_value(s: Seq<u8>) -> Rgb {
    Rgb { r: hex_byte_at(s, 1), g: hex_byte_at(s, 3), b: hex_byte_at(s, 5) }
}

/// Reads one hexadecimal digit.
fn hex_digit(b: u8) -> (v: Option<u8>)
    ensures
        v == if is_hex_digit(b) { Some(hex_digit_value(b)) } else { None::<u8> },
        v.is_some() ==> v.unwrap() < 16,
{
    if 0x30 <= b && b <= 0x39 {
        Some(b - 0x30)
    } else if 0x41 <= b && b <= 0x46 {
        Some(b - 0x41 + 10)
    } else if 0x61 <= b && b <= 0x66 {
        Some(b - 0x61 + 10)
    } else {
        None
    }
}

/// Reads the byte written by the two digits at `bytes[at]`, `bytes[at + 1]`.
fn hex_byte(bytes: &[u8], at: usize) -> (v: Option<u8>)
    requires
        at + 1 < bytes@.len(),
    ensures
        v == if is_hex_digit(bytes@[at as int]) && is_hex_digit(bytes@[at + 1]) {
            Some(hex_byte_at(bytes@, at as int))
        } else {
            None::<u8>
        },
{
    let hi = hex_digit(bytes[at]);
    let lo = hex_digit(bytes[at + 1]);
    match (hi, lo) {
        (Some(h), Some(l)) => Some(h * 16 + l),
        _ => None,
    }
}

/// Reads a `#RRGGBB` colour string, digits in either case. Anything else is
/// refused with an error that carries the string.
pub fn hex_string_to_color(hex: &str) -> (r: Result<Rgb, ColorParseError>)
    ensures
        r is Ok <==> is_hex_color(hex.spec_bytes()),
        r matches Ok(c) ==> c == hex_color_value(hex.spec_bytes()),
        r matches Err(e) ==> e.text@ == hex@,
{
    let bytes = hex.as_bytes();
    if bytes.len() != 7 || bytes[0] != 0x23 {
        return Err(ColorParseError { text: hex.to_owned() });
    }
    let r = hex_byte(bytes, 1);
    let g = hex_byte(bytes, 3);
    let b = hex_byte(bytes, 5);
    match (r, g, b) {
        (Some(r), Some(g), Some(b)) => Ok(Rgb { r, g, b }),
        _ => Err(ColorParseError { text: hex.to_owned() }),
    }
}

/// The colours of lit and unlit pixels.
#[derive(Clone, Copy, Debug, PartialEq, Eq, Structural)]
pub struct Palette {
    pub foreground: Rgb,
    pub background: Rgb,
}

impl Palette {
    /// A palette of the two given colours.
    pub fn new(foreground: Rgb, background: Rgb) -> (p: Palette)
        ensures
            p.foreground == foreground,
            p.background == background,
    {
        Palette { foreground, background }
    }

    /// The colour of a pixel that is lit when `lit` holds.
    pub open spec fn color_of(self, lit: bool) -> Rgb {
        if lit { self.foreground } else { self.background }
    }

    /// Reads both colour strings and installs them. When either string is
    /// not a colour string, the palette keeps its previous colours and the
    /// first offending string is reported.
    pub fn set_from_hex(&mut self, foreground: &str, background: &str) -> (r: Result<(), ColorParseError>)
        ensures
            r is Ok <==> is_hex_color(foreground.spec_bytes()) && is_hex_color(background.spec_bytes()),
            r is Ok ==> *final(self) == (Palette {
                foreground: hex_color_value(foreground.spec_bytes()),
                background: hex_color_value(background.spec_bytes()),
            }),
            r is Err ==> *final(self) == *old(self),
            r matches Err(e) ==> e.text@ == if is_hex_color(foreground.spec_bytes()) {
                background@
            } else {
                foreground@
            },
    {
        let fg = match hex_string_to_color(foreground) {
            Ok(c) => c,
            Err(e) => return Err(e),
        };
        let bg = match hex_string_to_color(background) {
            Ok(c) => c,
            Err(e) => return Err(e),
        };
        self.foreground = fg;
        self.background = bg;
        Ok(())
    }
}

} // verus!
