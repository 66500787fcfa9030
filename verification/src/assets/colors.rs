//! The palette of the interface, written as hex codes, and how a code is read.

use crate::assets::materials::ColorState;
use vstd::prelude::*;
use vstd::string::*;

verus! {

pub const LINE: &'static str = "#FFFFFF";

pub const HOVER: &'static str = "#66CCCC";

pub const PRESSED: &'static str = "#CCCC00";

pub const SQUOOSH_ORANGE: &'static str = "#FF6600";

pub const SUNRISE_ORANGE: &'static str = "#F78B17";

pub const CREAMSICLE_ORANGE: &'static str = "#FA821E";

pub const AMBER_ORANGE: &'static str = "#E49B5D";

pub const COOL_BLUE: &'static str = "#7B9695";

pub const SAGE_GREEN: &'static str = "#78997A";

pub const GOLD_YELLOW: &'static str = "#EBC06D";

/// A colour in sRGB with alpha, each channel from 0 to 255.
#[derive(Clone, Copy, Debug, PartialEq, Eq, Structural)]
pub struct Rgba {
    pub red: u8,
    pub green: u8,
    pub blue: u8,
    pub alpha: u8,
}

/// The value of a hex digit, in either case.
pub open spec fn digit_value(c: char) -> Option<u8> {
    if '0' <= c <= '9' {
        Some((c as u8 - 48) as u8)
    } else if 'a' <= c <= 'f' {
        Some((c as u8 - 87) as u8)
    } else if 'A' <= c <= 'F' {
        Some((c as u8 - 55) as u8)
    } else {
        None
    }
}

/// The value of a channel written in two characters, as an unsigned integer
/// in base 16 is written: two digits, or a plus sign and one digit.
pub open spec fn channel_value(high: char, low: char) -> Option<u8> {
    match (digit_value(high), digit_value(low)) {
        (Some(h), Some(l)) => Some((16 * h + l) as u8),
        (None, Some(l)) => if high == '+' {
            Some(l)
        } else {
            None
        },
        _ => None,
    }
}

/// The colour that a hex code stands for: `#RRGGBB`, opaque, or `#RRGGBBAA`.
/// Any other text stands for none.
pub open spec fn decoded(hex: Seq<char>) -> Option<Rgba> {
    if (hex.len() == 7 || hex.len() == 9) && hex[0] == '#' {
        let alpha = if hex.len() == 9 {
            channel_value(hex[7], hex[8])
        } else {
            Some(255u8)
        };
        match (
            channel_value(hex[1], hex[2]),
            channel_value(hex[3], hex[4]),
            channel_value(hex[5], hex[6]),
            alpha,
        ) {
            (Some(red), Some(green), Some(blue), Some(alpha)) => Some(
                Rgba { red, green, blue, alpha },
            ),
            _ => None,
        }
    } else {
        None
    }
}

/// The value of the hex digit with the given ASCII code.
pub fn hex_digit(byte: u8) -> (value: Option<u8>)
    ensures
        value == digit_value(byte as char),
{
    if 48 <= byte && byte <= 57 {
        Some(byte - 48)
    } else if 97 <= byte && byte <= 102 {
        Some(byte - 87)
    } else if 65 <= byte && byte <= 70 {
        Some(byte - 55)
    } else {
        None
    }
}

/// The value of the channel written with the two given ASCII codes.
pub fn hex_channel(high: u8, low: u8) -> (value: Option<u8>)
    ensures
        value == channel_value(high as char, low as char),
{
    match (hex_digit(high), hex_digit(low)) {
        (Some(h), Some(l)) => Some(16 * h + l),
        (None, Some(l)) => if high == 43 {
            Some(l)
        } else {
            None
        },
        _ => None,
    }
}

/// Reads a hex code. `None` says that the text is no hex code; the caller
/// then falls back on a colour of its own.
pub fn color_from_hex(hex: &str) -> (color: Option<Rgba>)
    ensures
        color == decoded(hex@),
{
    if !hex.is_ascii() {
        proof {
            let i = choose|i: int| 0 <= i < hex@.len() && !('\0' <= #[trigger] hex@[i] <= '\u{7f}');
            assert(digit_value(hex@[i]).is_none());
        }
        return None;
    }
    proof {
        is_ascii_spec_bytes(hex);
    }
    let bytes = hex.as_bytes();
    let len: usize = bytes.len();
    if !(len == 7 || len == 9) || bytes[0] != 35 {
        return None;
    }
    assert(forall|i: int| 0 <= i < len ==> (#[trigger] bytes@[i]) as char == hex@[i]);
    let alpha = if len == 9 {
        hex_channel(bytes[7], bytes[8])
    } else {
        Some(255u8)
    };
    match (
        hex_channel(bytes[1], bytes[2]),
        hex_channel(bytes[3], bytes[4]),
        hex_channel(bytes[5], bytes[6]),
        alpha,
    ) {
        (Some(red), Some(green), Some(blue), Some(alpha)) => Some(Rgba { red, green, blue, alpha }),
        _ => None,
    }
}

/// The hex code of the colour that shows `state`.
pub fn palette_hex(state: ColorState) -> (hex: &'static str)
    ensures
        hex@ == match state {
            ColorState::Dot => AMBER_ORANGE@,
            ColorState::Line => LINE@,
            ColorState::Hover => COOL_BLUE@,
            ColorState::Selected => SAGE_GREEN@,
        },
{
    match state {
        ColorState::Dot => AMBER_ORANGE,
        ColorState::Line => LINE,
        ColorState::Hover => COOL_BLUE,
        ColorState::Selected => SAGE_GREEN,
    }
}

} // verus!
