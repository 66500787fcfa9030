use selection::assets::colors::{
    color_from_hex, hex_channel, hex_digit, palette_hex, Rgba, AMBER_ORANGE, COOL_BLUE,
    CREAMSICLE_ORANGE, GOLD_YELLOW, HOVER, LINE, PRESSED, SAGE_GREEN, SQUOOSH_ORANGE,
    SUNRISE_ORANGE,
};
use selection::assets::materials::ColorState;

fn rgba(red: u8, green: u8, blue: u8, alpha: u8) -> Option<Rgba> {
    Some(Rgba { red, green, blue, alpha })
}

#[test]
fn palette_decodes_to_its_channels() {
    assert_eq!(color_from_hex(LINE), rgba(255, 255, 255, 255));
    assert_eq!(color_from_hex(HOVER), rgba(102, 204, 204, 255));
    assert_eq!(color_from_hex(PRESSED), rgba(204, 204, 0, 255));
    assert_eq!(color_from_hex(SQUOOSH_ORANGE), rgba(255, 102, 0, 255));
    assert_eq!(color_from_hex(SUNRISE_ORANGE), rgba(247, 139, 23, 255));
    assert_eq!(color_from_hex(CREAMSICLE_ORANGE), rgba(250, 130, 30, 255));
    assert_eq!(color_from_hex(AMBER_ORANGE), rgba(228, 155, 93, 255));
    assert_eq!(color_from_hex(COOL_BLUE), rgba(123, 150, 149, 255));
    assert_eq!(color_from_hex(SAGE_GREEN), rgba(120, 153, 122, 255));
    assert_eq!(color_from_hex(GOLD_YELLOW), rgba(235, 192, 109, 255));
}

#[test]
fn six_digits_are_opaque() {
    assert_eq!(color_from_hex("#000000"), rgba(0, 0, 0, 255));
    assert_eq!(color_from_hex("#010203"), rgba(1, 2, 3, 255));
}

#[test]
fn eight_digits_carry_alpha() {
    assert_eq!(color_from_hex("#11223344"), rgba(17, 34, 51, 68));
    assert_eq!(color_from_hex("#FFFFFF00"), rgba(255, 255, 255, 0));
}

#[test]
fn digits_may_be_of_either_case() {
    assert_eq!(color_from_hex("#abcdef"), rgba(171, 205, 239, 255));
    assert_eq!(color_from_hex("#ABCDEF"), rgba(171, 205, 239, 255));
    assert_eq!(color_from_hex("#aBcDeF9a"), rgba(171, 205, 239, 154));
}

#[test]
fn a_plus_sign_may_stand_for_the_high_digit() {
    assert_eq!(color_from_hex("#+F+0+a"), rgba(15, 0, 10, 255));
    assert_eq!(color_from_hex("#FFFFFF+8"), rgba(255, 255, 255, 8));
}

#[test]
fn wrong_lengths_are_no_colour() {
    assert_eq!(color_from_hex(""), None);
    assert_eq!(color_from_hex("#"), None);
    assert_eq!(color_from_hex("#FFF"), None);
    assert_eq!(color_from_hex("#FFFFF"), None);
    assert_eq!(color_from_hex("#FFFFFFF"), None);
    assert_eq!(color_from_hex("#FFFFFFFFF"), None);
    assert_eq!(color_from_hex("#FFFFFFFFFFFF"), None);
}

#[test]
fn a_code_starts_with_a_hash() {
    assert_eq!(color_from_hex("FFFFFF"), None);
    assert_eq!(color_from_hex("FFFFFFF"), None);
    assert_eq!(color_from_hex("0FFFFFF"), None);
    assert_eq!(color_from_hex(" #FFFFF"), None);
}

#[test]
fn bad_digits_are_no_colour() {
    assert_eq!(color_from_hex("#GGGGGG"), None);
    assert_eq!(color_from_hex("#FFFFFG"), None);
    assert_eq!(color_from_hex("#FF FF "), None);
    assert_eq!(color_from_hex("#-1FFFF"), None);
    assert_eq!(color_from_hex("#++FFFF"), None);
    assert_eq!(color_from_hex("#F+FFFF"), None);
    assert_eq!(color_from_hex("#FFFFFFxx"), None);
}

#[test]
fn text_outside_ascii_is_no_colour() {
    assert_eq!(color_from_hex("#\u{e9}1234"), None);
    assert_eq!(color_from_hex("#1\u{e9}234"), None);
    assert_eq!(color_from_hex("#12345\u{e9}"), None);
    assert_eq!(color_from_hex("#\u{20ac}123"), None);
    assert_eq!(color_from_hex("\u{e9}FFFFF"), None);
}

#[test]
fn hex_digits_have_their_values() {
    assert_eq!(hex_digit(b'0'), Some(0));
    assert_eq!(hex_digit(b'9'), Some(9));
    assert_eq!(hex_digit(b'a'), Some(10));
    assert_eq!(hex_digit(b'f'), Some(15));
    assert_eq!(hex_digit(b'A'), Some(10));
    assert_eq!(hex_digit(b'F'), Some(15));
    assert_eq!(hex_digit(b'g'), None);
    assert_eq!(hex_digit(b'G'), None);
    assert_eq!(hex_digit(b'/'), None);
    assert_eq!(hex_digit(b':'), None);
    assert_eq!(hex_digit(b'@'), None);
    assert_eq!(hex_digit(b'`'), None);
    assert_eq!(hex_digit(b'+'), None);
    assert_eq!(hex_digit(0xC3), None);
}

#[test]
fn channels_read_as_base_sixteen() {
    assert_eq!(hex_channel(b'0', b'0'), Some(0));
    assert_eq!(hex_channel(b'7', b'f'), Some(127));
    assert_eq!(hex_channel(b'F', b'F'), Some(255));
    assert_eq!(hex_channel(b'1', b'0'), Some(16));
    assert_eq!(hex_channel(b'+', b'c'), Some(12));
    assert_eq!(hex_channel(b'c', b'+'), None);
    assert_eq!(hex_channel(b'-', b'c'), None);
    assert_eq!(hex_channel(b'x', b'1'), None);
}

#[test]
fn channels_agree_with_the_standard_parser() {
    for high in 0u8..128 {
        for low in 0u8..128 {
            let text = [high, low];
            let text = std::str::from_utf8(&text).unwrap();
            assert_eq!(hex_channel(high, low), u8::from_str_radix(text, 16).ok());
        }
    }
}

#[test]
fn each_state_has_its_palette_colour() {
    assert_eq!(palette_hex(ColorState::Dot), "#E49B5D");
    assert_eq!(palette_hex(ColorState::Line), "#FFFFFF");
    assert_eq!(palette_hex(ColorState::Hover), "#7B9695");
    assert_eq!(palette_hex(ColorState::Selected), "#78997A");
}
