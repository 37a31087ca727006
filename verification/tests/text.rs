use cosmic_ext_calculator::text::{
    chars_of, decimal_text, holds, rfind, skip_whitespace, skip_whitespace_back, starts_with,
    string_of, whitespace,
};

fn trimmed(text: &str) -> String {
    let chars = chars_of(text);
    let from = skip_whitespace(&chars, 0, chars.len());
    let to = skip_whitespace_back(&chars, from, chars.len());
    string_of(&chars, from, to)
}

#[test]
fn whitespace_is_what_the_standard_library_calls_so() {
    for code in 0..=0x10ffffu32 {
        if let Some(c) = char::from_u32(code) {
            assert_eq!(whitespace(c), c.is_whitespace(), "U+{:04X}", code);
        }
    }
}

#[test]
fn chars_of_gives_every_character_in_order() {
    assert_eq!(chars_of(""), Vec::<char>::new());
    assert_eq!(chars_of("2÷3 ≈ 0,67"), "2÷3 ≈ 0,67".chars().collect::<Vec<_>>());
}

#[test]
fn trimming_agrees_with_the_standard_library() {
    for text in ["", " ", "  4 ", "\t\n 1 + 1 = 2\r\n", "\u{a0}x\u{3000}", "a b", "\u{2003}\u{2003}"] {
        assert_eq!(trimmed(text), text.trim(), "{:?}", text);
        let chars = chars_of(text);
        let from = skip_whitespace(&chars, 0, chars.len());
        assert_eq!(string_of(&chars, from, chars.len()), text.trim_start(), "{:?}", text);
        let to = skip_whitespace_back(&chars, 0, chars.len());
        assert_eq!(string_of(&chars, 0, to), text.trim_end(), "{:?}", text);
    }
}

#[test]
fn rfind_gives_the_last_place() {
    let chars = chars_of("a=b=c");
    assert_eq!(rfind(&chars, 0, chars.len(), '='), Some(3));
    assert_eq!(rfind(&chars, 0, 3, '='), Some(1));
    assert_eq!(rfind(&chars, 2, 3, '='), None);
    assert_eq!(rfind(&chars, 0, chars.len(), '≈'), None);
    assert_eq!(rfind(&chars, 0, 0, 'a'), None);
}

#[test]
fn starts_with_and_holds_agree_with_the_standard_library() {
    let texts = ["", "error: x", "warning", "warn", "an error", "decimal_point=\",\"", "xx"];
    let patterns = ["", "error", "warning", "x", "decimal_point=\",\"", "xxx"];
    for text in texts {
        for pattern in patterns {
            let chars = chars_of(text);
            let wanted = chars_of(pattern);
            assert_eq!(
                starts_with(&chars, 0, chars.len(), &wanted),
                text.starts_with(pattern),
                "{:?} starts with {:?}",
                text,
                pattern
            );
            assert_eq!(holds(&chars, &wanted), text.contains(pattern), "{:?} holds {:?}", text, pattern);
        }
    }
}

#[test]
fn decimal_text_agrees_with_the_standard_library() {
    for number in [0, 1, 9, 10, 11, 99, 100, 12345, -1, -10, -907, i32::MAX, i32::MIN] {
        assert_eq!(decimal_text(number), number.to_string());
    }
}
