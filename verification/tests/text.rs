use lianli_lcd::text::{parse_byte, trim, trim_end_nul};

#[test]
fn trailing_zeros_go() {
    assert_eq!(trim_end_nul("1.07\0\0"), "1.07");
    assert_eq!(trim_end_nul("\0a\0b"), "\0a\0b");
    assert_eq!(trim_end_nul("\0\0"), "");
    assert_eq!(trim_end_nul(""), "");
}

#[test]
fn white_space_goes_at_both_ends() {
    assert_eq!(trim("  12\n"), "12");
    assert_eq!(trim("\u{3000}a b\u{85}\t"), "a b");
    assert_eq!(trim(" \r\n "), "");
    assert_eq!(trim(""), "");
}

#[test]
fn white_space_is_that_of_the_standard_library() {
    for code in 0..0x11_0000u32 {
        if let Some(c) = char::from_u32(code) {
            let text = String::from(c);
            assert_eq!(trim(&text), text.trim(), "{code:#x}");
        }
    }
}

#[test]
fn bytes_are_read_in_decimal() {
    assert_eq!(parse_byte("0"), Some(0));
    assert_eq!(parse_byte("007"), Some(7));
    assert_eq!(parse_byte("+12"), Some(12));
    assert_eq!(parse_byte("255"), Some(255));
}

#[test]
fn bytes_are_those_of_the_standard_library() {
    let texts = [
        "", "+", "-", "-0", "-1", "+-1", "++1", "256", "0256", "1000000000000000000000", " 1", "1 ", "1_0",
        "0x1", "\u{0661}", "00000000000000000000255", "00000000000000000000256", "+0", "99", "1a", "a",
    ];
    for text in texts {
        assert_eq!(parse_byte(text), text.parse::<u8>().ok(), "{text:?}");
    }
    for number in 0..1000u32 {
        let text = format!("{number}");
        assert_eq!(parse_byte(&text), text.parse::<u8>().ok());
    }
}
