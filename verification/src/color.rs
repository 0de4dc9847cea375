//! Terminal colors as the configuration names them, and their `#rrggbb`
//! text form.
use vstd::prelude::*;
use vstd::string::StringSliceAdditionalSpecFns;
use vstd::utf8::*;

use crate::text::{chars_of, string_of};

verus! {

/// A terminal color: one of the named colors the themes use, the terminal's
/// own default (`Reset`), or a 24-bit RGB value.
#[derive(Clone, Copy, Debug, PartialEq, Eq, Hash, Structural)]
pub enum Color {
    Reset,
    Red,
    Green,
    Yellow,
    Blue,
    Magenta,
    Cyan,
    Gray,
    DarkGray,
    White,
    Rgb(u8, u8, u8),
}

/// The value of a hexadecimal digit, either case.
pub open spec fn hex_digit_value(c: char) -> Option<u8> {
    if '0' <= c && c <= '9' {
        Some((c as u32 - '0' as u32) as u8)
    } else if 'a' <= c && c <= 'f' {
        Some((c as u32 - 'a' as u32 + 10) as u8)
    } else if 'A' <= c && c <= 'F' {
        Some((c as u32 - 'A' as u32 + 10) as u8)
    } else {
        None
    }
}

/// `u8::from_str_radix(p, 16)` for a two-character text: an optional `+`
/// and then hexadecimal digits only.
pub open spec fn hex_pair_value(a: char, b: char) -> Option<u8> {
    if a == '+' {
        hex_digit_value(b)
    } else {
        match (hex_digit_value(a), hex_digit_value(b)) {
            (Some(x), Some(y)) => Some((x * 16 + y) as u8),
            _ => None,
        }
    }
}

/// The color that a `#rrggbb` text denotes, if it is one.
pub open spec fn hex_color_value(s: Seq<char>) -> Option<Color> {
    if s.len() == 7 && s[0] == '#' {
        match (hex_pair_value(s[1], s[2]), hex_pair_value(s[3], s[4]), hex_pair_value(s[5], s[6])) {
            (Some(r), Some(g), Some(b)) => Some(Color::Rgb(r, g, b)),
            _ => None,
        }
    } else {
        None
    }
}

/// The inputs on which cutting the six bytes after `#` into three pairs would
/// split a character: the cut after the first pair falls inside a character,
/// or the first pair is read and the cut after the second pair does.
pub open spec fn hex_color_cut_splits_char(bytes: Seq<u8>) -> bool {
    &&& bytes.len() == 7
    &&& bytes[0] == 0x23
    &&& (is_continuation_byte(bytes[3]) || (hex_pair_value(bytes[1] as char, bytes[2] as char) is Some
        && is_continuation_byte(bytes[5])))
}

/// The lowercase hexadecimal digit for a value below sixteen.
pub open spec fn hex_digit_char(v: nat) -> char {
    if v < 10 {
        (v + '0' as u32) as char
    } else {
        (v - 10 + 'a' as u32) as char
    }
}

/// Two lowercase hexadecimal digits for a byte.
pub open spec fn hex_byte_text(v: u8) -> Seq<char> {
    seq![hex_digit_char((v / 16) as nat), hex_digit_char((v % 16) as nat)]
}

/// The text a color is written as: `#rrggbb` for an RGB color, the name of
/// the color otherwise.
pub open spec fn color_text(c: Color) -> Seq<char> {
    match c {
        Color::Rgb(r, g, b) => seq!['#'] + hex_byte_text(r) + hex_byte_text(g) + hex_byte_text(b),
        Color::Reset => "Reset"@,
        Color::Red => "Red"@,
        Color::Green => "Green"@,
        Color::Yellow => "Yellow"@,
        Color::Blue => "Blue"@,
        Color::Magenta => "Magenta"@,
        Color::Cyan => "Cyan"@,
        Color::Gray => "Gray"@,
        Color::DarkGray => "DarkGray"@,
        Color::White => "White"@,
    }
}

fn hex_digit_exec(c: char) -> (r: Option<u8>)
    ensures
        r == hex_digit_value(c),
{
    if '0' <= c && c <= '9' {
        Some((c as u32 - '0' as u32) as u8)
    } else if 'a' <= c && c <= 'f' {
        Some((c as u32 - 'a' as u32 + 10) as u8)
    } else if 'A' <= c && c <= 'F' {
        Some((c as u32 - 'A' as u32 + 10) as u8)
    } else {
        None
    }
}

fn hex_pair_exec(a: char, b: char) -> (r: Option<u8>)
    ensures
        r == hex_pair_value(a, b),
{
    if a == '+' {
        hex_digit_exec(b)
    } else {
        match (hex_digit_exec(a), hex_digit_exec(b)) {
            (Some(x), Some(y)) => Some(x * 16 + y),
            _ => None,
        }
    }
}

/// Whether `parse_hex_color` is defined on `s`, that is, whether cutting
/// the text after `#` into pairs keeps every character whole.
pub fn hex_color_cut_is_clean(s: &str) -> (r: bool)
    ensures
        r == !hex_color_cut_splits_char(s.spec_bytes()),
{
    let b = s.as_bytes();
    if b.len() != 7 || b[0] != 0x23 {
        return true;
    }
    if 0x80 <= b[3] && b[3] <= 0xbf {
        return false;
    }
    let first = hex_pair_exec(b[1] as char, b[2] as char);
    !(first.is_some() && 0x80 <= b[5] && b[5] <= 0xbf)
}

/// The color that a `#rrggbb` text denotes; `None` for any other text.
/// A pair may also be written `+d` with one digit.
pub fn parse_hex_color(s: &str) -> (r: Option<Color>)
    requires
        !hex_color_cut_splits_char(s.spec_bytes()),
    ensures
        r == hex_color_value(s@),
{
    let c = chars_of(s);
    if c.len() != 7 || c[0] != '#' {
        return None;
    }
    let r = match hex_pair_exec(c[1], c[2]) {
        Some(v) => v,
        None => return None,
    };
    let g = match hex_pair_exec(c[3], c[4]) {
        Some(v) => v,
        None => return None,
    };
    let b = match hex_pair_exec(c[5], c[6]) {
        Some(v) => v,
        None => return None,
    };
    Some(Color::Rgb(r, g, b))
}

fn hex_digit_char_exec(v: u8) -> (c: char)
    requires
        v < 16,
    ensures
        c == hex_digit_char(v as nat),
{
    if v < 10 {
        (v + 48) as char
    } else {
        (v - 10 + 97) as char
    }
}

/// The text a color is written as in a configuration file: `#rrggbb` in
/// lowercase for an RGB color, the color's name otherwise.
pub fn format_color(c: Color) -> (r: String)
    ensures
        r@ == color_text(c),
{
    match c {
        Color::Rgb(r, g, b) => {
            let v: Vec<char> = vec![
                '#',
                hex_digit_char_exec(r / 16),
                hex_digit_char_exec(r % 16),
                hex_digit_char_exec(g / 16),
                hex_digit_char_exec(g % 16),
                hex_digit_char_exec(b / 16),
                hex_digit_char_exec(b % 16),
            ];
            assert(v@ =~= seq!['#'] + hex_byte_text(r) + hex_byte_text(g) + hex_byte_text(b));
            string_of(v.as_slice())
        },
        Color::Reset => String::from_str("Reset"),
        Color::Red => String::from_str("Red"),
        Color::Green => String::from_str("Green"),
        Color::Yellow => String::from_str("Yellow"),
        Color::Blue => String::from_str("Blue"),
        Color::Magenta => String::from_str("Magenta"),
        Color::Cyan => String::from_str("Cyan"),
        Color::Gray => String::from_str("Gray"),
        Color::DarkGray => String::from_str("DarkGray"),
        Color::White => String::from_str("White"),
    }
}

proof fn lemma_hex_byte_round_trip(v: u8)
    ensures
        hex_pair_value(hex_byte_text(v)[0], hex_byte_text(v)[1]) == Some(v),
        '\0' <= hex_byte_text(v)[0] <= '\u{7f}',
        '\0' <= hex_byte_text(v)[1] <= '\u{7f}',
{
    let hi = (v / 16) as nat;
    let lo = (v % 16) as nat;
    assert(hi < 16 && lo < 16);
    assert(hex_digit_value(hex_digit_char(hi)) == Some(hi as u8));
    assert(hex_digit_value(hex_digit_char(lo)) == Some(lo as u8));
    assert(hex_digit_char(hi) != '+');
}

/// Writing an RGB color as text and reading the text back gives the same
/// color, and the text can be read without splitting a character.
pub proof fn lemma_rgb_text_round_trip(r: u8, g: u8, b: u8)
    ensures
        hex_color_value(color_text(Color::Rgb(r, g, b))) == Some(Color::Rgb(r, g, b)),
        !hex_color_cut_splits_char(encode_utf8(color_text(Color::Rgb(r, g, b)))),
{
    let t = color_text(Color::Rgb(r, g, b));
    lemma_hex_byte_round_trip(r);
    lemma_hex_byte_round_trip(g);
    lemma_hex_byte_round_trip(b);
    assert(t.len() == 7);
    assert(t[1] == hex_byte_text(r)[0] && t[2] == hex_byte_text(r)[1]);
    assert(t[3] == hex_byte_text(g)[0] && t[4] == hex_byte_text(g)[1]);
    assert(t[5] == hex_byte_text(b)[0] && t[6] == hex_byte_text(b)[1]);
    assert(is_ascii_chars(t));
    is_ascii_chars_encode_utf8(t);
    assert(encode_utf8(t)[3] == t[3] as u8);
    assert(encode_utf8(t)[5] == t[5] as u8);
}

} // verus!
