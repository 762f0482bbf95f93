use ir_recorder::control::{bytes_equal, color_named, command_color, is_white_space};
use ir_recorder::led::RgbColor;

#[test]
fn words_name_their_colors() {
    assert_eq!(color_named("red"), Some(RgbColor::red()));
    assert_eq!(color_named("green"), Some(RgbColor::green()));
    assert_eq!(color_named("blue"), Some(RgbColor::blue()));
    assert_eq!(color_named("off"), Some(RgbColor::black()));
}

#[test]
fn other_words_name_no_color() {
    for word in ["", "Red", "RED", "reddish", "re", "white", "black", "on", " red", "red ", "of"] {
        assert_eq!(color_named(word), None);
    }
}

#[test]
fn command_is_read_without_the_white_space_around_it() {
    assert_eq!(command_color(b"red"), Some(RgbColor::red()));
    assert_eq!(command_color(b"  green\r\n"), Some(RgbColor::green()));
    assert_eq!(command_color(b"\tblue"), Some(RgbColor::blue()));
    assert_eq!(command_color(b"off\n"), Some(RgbColor::black()));
    assert_eq!(command_color("\u{3000}blue\u{a0}".as_bytes()), Some(RgbColor::blue()));
}

#[test]
fn unknown_command_asks_for_no_color() {
    assert_eq!(command_color(b""), None);
    assert_eq!(command_color(b"   "), None);
    assert_eq!(command_color(b"red green"), None);
    assert_eq!(command_color(b"r ed"), None);
    assert_eq!(command_color(b"purple"), None);
    assert_eq!(command_color(b"red\0"), None);
}

#[test]
fn bytes_that_are_no_text_ask_for_no_color() {
    assert_eq!(command_color(&[0xFF, b'r', b'e', b'd']), None);
    assert_eq!(command_color(&[b'r', b'e', b'd', 0xC3]), None);
    assert_eq!(command_color(&[0x80]), None);
}

#[test]
fn white_space_is_what_the_standard_library_takes_for_it() {
    for code in 0..=0x10FFFFu32 {
        if let Some(c) = char::from_u32(code) {
            assert_eq!(is_white_space(c), c.is_whitespace(), "U+{:04X}", code);
        }
    }
}

#[test]
fn every_kind_of_white_space_is_trimmed_at_both_ends() {
    for code in 0..=0x10FFFFu32 {
        if let Some(c) = char::from_u32(code) {
            let text = format!("{}off{}", c, c);
            let expected = if is_white_space(c) { Some(RgbColor::black()) } else { None };
            assert_eq!(command_color(text.as_bytes()), expected, "U+{:04X}", code);
        }
    }
}

#[test]
fn white_space_inside_the_word_stays() {
    assert_eq!(command_color(b" \t re d \n"), None);
    assert_eq!(command_color("\u{2003}\u{2003}green\u{2028}\u{85}".as_bytes()), Some(RgbColor::green()));
}

#[test]
fn byte_strings_compare_by_content() {
    assert!(bytes_equal(b"", b""));
    assert!(bytes_equal(b"abc", b"abc"));
    assert!(!bytes_equal(b"abc", b"abd"));
    assert!(!bytes_equal(b"abc", b"ab"));
    assert!(!bytes_equal(b"", b"a"));
    assert!(!bytes_equal(b"xbc", b"abc"));
}
