use graf::color::{format_color, hex_color_cut_is_clean, parse_hex_color, Color};

#[test]
fn hex_colors_parse() {
    assert_eq!(parse_hex_color("#ff8000"), Some(Color::Rgb(255, 128, 0)));
    assert_eq!(parse_hex_color("#FF8000"), Some(Color::Rgb(255, 128, 0)));
    assert_eq!(parse_hex_color("#1a1B26"), Some(Color::Rgb(26, 27, 38)));
    assert_eq!(parse_hex_color("#000000"), Some(Color::Rgb(0, 0, 0)));
}

#[test]
fn hex_pairs_may_carry_a_plus_sign() {
    assert_eq!(parse_hex_color("#+f+f+f"), Some(Color::Rgb(15, 15, 15)));
    assert_eq!(parse_hex_color("#-f0000"), None);
    assert_eq!(parse_hex_color("#f+0000"), None);
}

#[test]
fn other_texts_are_no_color() {
    assert_eq!(parse_hex_color("ff8000"), None);
    assert_eq!(parse_hex_color("#ff80"), None);
    assert_eq!(parse_hex_color("#ff80000"), None);
    assert_eq!(parse_hex_color("#gg0000"), None);
    assert_eq!(parse_hex_color(""), None);
    assert_eq!(parse_hex_color("#é12345"), None);
}

#[test]
fn cuts_inside_a_character_are_detected() {
    assert!(hex_color_cut_is_clean("#ff8000"));
    assert!(hex_color_cut_is_clean("red"));
    assert!(!hex_color_cut_is_clean("#aé234"));
    assert!(!hex_color_cut_is_clean("#ffaé1"));
    assert!(hex_color_cut_is_clean("#gaé12"));
    assert_eq!(parse_hex_color("#gaé12"), None);
}

#[test]
fn colors_are_written_as_text() {
    assert_eq!(format_color(Color::Rgb(255, 0, 16)), "#ff0010");
    assert_eq!(format_color(Color::Rgb(0, 171, 205)), "#00abcd");
    assert_eq!(format_color(Color::DarkGray), "DarkGray");
    assert_eq!(format_color(Color::Reset), "Reset");
}

#[test]
fn written_rgb_colors_read_back() {
    for (r, g, b) in [(0u8, 0u8, 0u8), (255, 255, 255), (18, 52, 86), (200, 9, 171)] {
        let text = format_color(Color::Rgb(r, g, b));
        assert!(hex_color_cut_is_clean(&text));
        assert_eq!(parse_hex_color(&text), Some(Color::Rgb(r, g, b)));
    }
}
