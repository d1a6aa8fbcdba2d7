use ytdlp_gui::text::{
    characters, contains_text, decimal_text, integer_text, is_white_space, split_at_spaces,
    trim_text, two_places_text,
};

#[test]
fn numbers_are_written_in_decimal() {
    for value in [0u64, 7, 9, 10, 19, 100, 4096, u64::MAX] {
        assert_eq!(decimal_text(value), value.to_string());
    }
    for value in [0i64, 5, -5, 10, -10, i64::MAX, i64::MIN] {
        assert_eq!(integer_text(value), value.to_string());
    }
}

#[test]
fn two_places_are_filled_with_a_zero() {
    for value in [0i64, 5, 9, 10, 59, 60, 100, -1, -5, -10, -59, i64::MAX, i64::MIN] {
        assert_eq!(two_places_text(value), format!("{:02}", value));
    }
    assert_eq!(two_places_text(5), "05");
    assert_eq!(two_places_text(-5), "-5");
}

#[test]
fn white_space_is_that_of_the_standard_library() {
    for code in 0u32..=0x10ffff {
        if let Some(c) = char::from_u32(code) {
            assert_eq!(is_white_space(c), c.is_whitespace(), "{:x}", code);
        }
    }
}

#[test]
fn trimming_removes_white_space_on_both_sides() {
    let samples = [
        "",
        " ",
        "a",
        "  a b \t\n",
        "\u{a0}\u{3000}x\u{2003}y\u{2028}",
        "\u{200b}zero width stays\u{200b}",
        "über ñ ",
        "\r\n",
    ];
    for text in samples {
        assert_eq!(trim_text(text), text.trim());
        assert_eq!(trim_text(trim_text(text)), text.trim());
    }
}

#[test]
fn pieces_stand_between_the_spaces() {
    let samples = ["", " ", "a", "a b", "a  b", " a b ", "a\tb c", "ä ö\u{a0}ü ß"];
    for text in samples {
        let expected: Vec<&str> = text.split(' ').collect();
        assert_eq!(split_at_spaces(text), expected);
        assert_eq!(split_at_spaces(text).join(" "), text);
    }
    assert_eq!(split_at_spaces("one two three").len(), 3);
}

#[test]
fn joined_parts_are_split_again() {
    let parts = vec!["https://a.example/x", "", "b", "ü"];
    assert_eq!(split_at_spaces(&parts.join(" ")), parts);
}

#[test]
fn parts_of_a_text_are_found() {
    let samples = [
        ("", ""),
        ("abc", ""),
        ("", "a"),
        ("abc", "abc"),
        ("abc", "bc"),
        ("abc", "ac"),
        ("aab", "ab"),
        ("xäöy", "äö"),
        ("short", "much longer"),
    ];
    for (text, part) in samples {
        assert_eq!(contains_text(text, part), text.contains(part), "{} in {}", part, text);
    }
}

#[test]
fn characters_come_one_by_one() {
    assert_eq!(characters("aé√"), vec!['a', 'é', '√']);
}
