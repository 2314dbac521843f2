//! The color value type: a plain RGB triple drawn, for every color the mixer
//! ever holds, from a closed set of yellow and blue shades.

use vstd::prelude::*;
use vstd::string::StringExecFns;

use crate::error::ColorMixerError;

verus! {

/// An immutable RGB triple. Equality is by the three channels.
#[derive(Debug, Clone, Copy, PartialEq, Eq, Structural)]
pub struct Color {
    pub r: u8,
    pub g: u8,
    pub b: u8,
}

/// The standard yellow shade, `#FFED00`.
pub open spec fn yellow() -> Color {
    Color { r: 255, g: 237, b: 0 }
}

/// The light yellow shade, `#FFF980`.
pub open spec fn light_yellow() -> Color {
    Color { r: 255, g: 249, b: 128 }
}

/// The dark yellow shade, `#CCBB00`.
pub open spec fn dark_yellow() -> Color {
    Color { r: 204, g: 187, b: 0 }
}

/// The standard blue shade, `#0047AB`.
pub open spec fn blue() -> Color {
    Color { r: 0, g: 71, b: 171 }
}

/// The light blue shade, `#6699FF`.
pub open spec fn light_blue() -> Color {
    Color { r: 102, g: 153, b: 255 }
}

/// The dark blue shade, `#00205B`.
pub open spec fn dark_blue() -> Color {
    Color { r: 0, g: 32, b: 91 }
}

/// Membership in the yellow family: one of its three shades.
pub open spec fn is_yellow_shade(c: Color) -> bool {
    c == yellow() || c == light_yellow() || c == dark_yellow()
}

/// Membership in the blue family: one of its three shades.
pub open spec fn is_blue_shade(c: Color) -> bool {
    c == blue() || c == light_blue() || c == dark_blue()
}

/// A color the mixing algorithm recognizes: a yellow or blue shade.
pub open spec fn recognized(c: Color) -> bool {
    is_yellow_shade(c) || is_blue_shade(c)
}

/// What a lowercased spelling denotes: each recognized shade may be written
/// by its name or by its hex code; every other string denotes nothing.
pub open spec fn parse_color(t: Seq<char>) -> Option<Color> {
    if t == "yellow"@ || t == "#ffed00"@ {
        Some(yellow())
    } else if t == "light-yellow"@ || t == "#fff980"@ {
        Some(light_yellow())
    } else if t == "dark-yellow"@ || t == "#ccbb00"@ {
        Some(dark_yellow())
    } else if t == "blue"@ || t == "#0047ab"@ {
        Some(blue())
    } else if t == "light-blue"@ || t == "#6699ff"@ {
        Some(light_blue())
    } else if t == "dark-blue"@ || t == "#00205b"@ {
        Some(dark_blue())
    } else {
        None
    }
}

/// The lowercase mapping of a character sequence, as `str::to_lowercase`
/// computes it.
pub uninterp spec fn lower_of(s: Seq<char>) -> Seq<char>;

/// Relies on `str::to_lowercase`: the result is the Unicode lowercase
/// equivalent of the input, a function of the input characters alone
/// (no locale or environment dependence).
#[verifier::external_body]
fn to_lower(s: &str) -> (r: String)
    ensures
        r@ == lower_of(s@),
{
    s.to_lowercase()
}

/// The spelling that a color and a shade name together: the color alone for
/// the standard shade, otherwise the shade, a dash, and the color.
pub open spec fn full_color_name(color: Seq<char>, shade: Seq<char>) -> Seq<char> {
    if shade == "standard"@ {
        color
    } else {
        shade + "-"@ + color
    }
}

/// The message carried by `ColorMixerError::UnsupportedColor` for a rejected
/// spelling `s`.
pub open spec fn unsupported_msg(s: Seq<char>) -> Seq<char> {
    "Unsupported color: "@ + s + ". Please use one of the predefined yellow or blue shades."@
}

/// The uppercase hexadecimal digit for a value below sixteen.
pub open spec fn hex_digit(n: int) -> char {
    if n == 0 {
        '0'
    } else if n == 1 {
        '1'
    } else if n == 2 {
        '2'
    } else if n == 3 {
        '3'
    } else if n == 4 {
        '4'
    } else if n == 5 {
        '5'
    } else if n == 6 {
        '6'
    } else if n == 7 {
        '7'
    } else if n == 8 {
        '8'
    } else if n == 9 {
        '9'
    } else if n == 10 {
        'A'
    } else if n == 11 {
        'B'
    } else if n == 12 {
        'C'
    } else if n == 13 {
        'D'
    } else if n == 14 {
        'E'
    } else {
        'F'
    }
}

/// The `#RRGGBB` uppercase-hex rendering of a color, as a character sequence.
pub open spec fn color_hex(c: Color) -> Seq<char> {
    seq![
        '#',
        hex_digit(c.r as int / 16),
        hex_digit(c.r as int % 16),
        hex_digit(c.g as int / 16),
        hex_digit(c.g as int % 16),
        hex_digit(c.b as int / 16),
        hex_digit(c.b as int % 16),
    ]
}

/// True when the two string slices hold the same characters.
pub(crate) fn str_eq(a: &str, b: &str) -> (r: bool)
    ensures
        r == (a@ == b@),
{
    let x: String = a.to_owned();
    let y: String = b.to_owned();
    x == y
}

/// The single uppercase hex digit for a value below sixteen, as a string slice.
fn hex_char(n: u8) -> (r: &'static str)
    requires
        n < 16,
    ensures
        r@.len() == 1,
        r@[0] == hex_digit(n as int),
{
    proof {
        reveal_strlit("0");
        reveal_strlit("1");
        reveal_strlit("2");
        reveal_strlit("3");
        reveal_strlit("4");
        reveal_strlit("5");
        reveal_strlit("6");
        reveal_strlit("7");
        reveal_strlit("8");
        reveal_strlit("9");
        reveal_strlit("A");
        reveal_strlit("B");
        reveal_strlit("C");
        reveal_strlit("D");
        reveal_strlit("E");
        reveal_strlit("F");
    }
    if n == 0 {
        "0"
    } else if n == 1 {
        "1"
    } else if n == 2 {
        "2"
    } else if n == 3 {
        "3"
    } else if n == 4 {
        "4"
    } else if n == 5 {
        "5"
    } else if n == 6 {
        "6"
    } else if n == 7 {
        "7"
    } else if n == 8 {
        "8"
    } else if n == 9 {
        "9"
    } else if n == 10 {
        "A"
    } else if n == 11 {
        "B"
    } else if n == 12 {
        "C"
    } else if n == 13 {
        "D"
    } else if n == 14 {
        "E"
    } else {
        "F"
    }
}

impl Color {
    /// Create a new color from RGB values.
    pub fn new(r: u8, g: u8, b: u8) -> (c: Self)
        ensures
            c == (Color { r, g, b }),
    {
        Color { r, g, b }
    }

    /// Get the RGB components of the color.
    pub fn rgb(&self) -> (t: (u8, u8, u8))
        ensures
            t == (self.r, self.g, self.b),
    {
        (self.r, self.g, self.b)
    }

    /// Get the hex representation of the color.
    pub fn to_hex(&self) -> (h: String)
        ensures
            h@ == color_hex(*self),
    {
        proof {
            reveal_strlit("#");
        }
        let mut out = String::new();
        out.append("#");
        out.append(hex_char(self.r / 16));
        out.append(hex_char(self.r % 16));
        out.append(hex_char(self.g / 16));
        out.append(hex_char(self.g % 16));
        out.append(hex_char(self.b / 16));
        out.append(hex_char(self.b % 16));
        proof {
            assert(out@ =~= color_hex(*self));
        }
        out
    }

    /// Compare color to standard yellow.
    pub fn is_yellow(&self) -> (y: bool)
        ensures
            y == (*self == yellow()),
    {
        self.r == 255 && self.g == 237 && self.b == 0
    }

    /// Compare color to standard blue.
    pub fn is_blue(&self) -> (y: bool)
        ensures
            y == (*self == blue()),
    {
        self.r == 0 && self.g == 71 && self.b == 171
    }

    /// Compare color to light yellow.
    pub fn is_light_yellow(&self) -> (y: bool)
        ensures
            y == (*self == light_yellow()),
    {
        self.r == 255 && self.g == 249 && self.b == 128
    }

    /// Compare color to dark yellow.
    pub fn is_dark_yellow(&self) -> (y: bool)
        ensures
            y == (*self == dark_yellow()),
    {
        self.r == 204 && self.g == 187 && self.b == 0
    }

    /// Compare color to light blue.
    pub fn is_light_blue(&self) -> (y: bool)
        ensures
            y == (*self == light_blue()),
    {
        self.r == 102 && self.g == 153 && self.b == 255
    }

    /// Compare color to dark blue.
    pub fn is_dark_blue(&self) -> (y: bool)
        ensures
            y == (*self == dark_blue()),
    {
        self.r == 0 && self.g == 32 && self.b == 91
    }

    /// Resolve an already-lowercased spelling to its color, if it denotes one.
    pub fn from_folded(s: &str) -> (res: Option<Color>)
        ensures
            res == parse_color(s@),
    {
        if str_eq(s, "yellow") || str_eq(s, "#ffed00") {
            Some(Color::new(255, 237, 0))
        } else if str_eq(s, "light-yellow") || str_eq(s, "#fff980") {
            Some(Color::new(255, 249, 128))
        } else if str_eq(s, "dark-yellow") || str_eq(s, "#ccbb00") {
            Some(Color::new(204, 187, 0))
        } else if str_eq(s, "blue") || str_eq(s, "#0047ab") {
            Some(Color::new(0, 71, 171))
        } else if str_eq(s, "light-blue") || str_eq(s, "#6699ff") {
            Some(Color::new(102, 153, 255))
        } else if str_eq(s, "dark-blue") || str_eq(s, "#00205b") {
            Some(Color::new(0, 32, 91))
        } else {
            None
        }
    }

    /// Resolve a spelling case-insensitively: lowercase it, then look it up in
    /// the closed set of recognized names and hex codes. Every unrecognized
    /// spelling fails with `UnsupportedColor` and its full message.
    pub fn from_str(s: &str) -> (res: Result<Color, ColorMixerError>)
        ensures
            ({
                let p = parse_color(lower_of(s@));
                match p {
                    Some(c) => res == Ok::<Color, ColorMixerError>(c),
                    None => res matches Err(ColorMixerError::UnsupportedColor(m)) && m@
                        == unsupported_msg(s@),
                }
            }),
    {
        let folded = to_lower(s);
        match Color::from_folded(folded.as_str()) {
            Some(c) => Ok(c),
            None => {
                let mut msg: String = "Unsupported color: ".to_owned();
                msg.append(s);
                msg.append(". Please use one of the predefined yellow or blue shades.");
                proof {
                    assert(msg@ =~= unsupported_msg(s@));
                }
                Err(ColorMixerError::UnsupportedColor(msg))
            },
        }
    }
}

} // verus!
