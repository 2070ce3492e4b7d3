use todo_cli::text::{affirmative, char_is_whitespace, decimal_string, trim};

#[test]
fn white_space_is_what_the_standard_library_calls_white_space() {
    let mut count = 0;
    for code in 0..=0x10FFFFu32 {
        if let Some(c) = char::from_u32(code) {
            assert_eq!(char_is_whitespace(c), c.is_whitespace(), "U+{:04X}", code);
            if char_is_whitespace(c) {
                count += 1;
            }
        }
    }
    assert_eq!(count, 25);
}

#[test]
fn trim_removes_surrounding_white_space() {
    assert_eq!(trim("  buy milk \n"), "buy milk");
    assert_eq!(trim("\t\u{3000}x y\u{a0}"), "x y");
    assert_eq!(trim("x"), "x");
    assert_eq!(trim(" x"), "x");
    assert_eq!(trim("x "), "x");
    assert_eq!(trim("   "), "");
    assert_eq!(trim(""), "");
    assert_eq!(trim(" \u{e9}\u{1F600} z\u{2028}"), "\u{e9}\u{1F600} z");
}

#[test]
fn trim_agrees_with_the_standard_library() {
    let pieces = ["", " ", "\t", "\n", "\u{a0}", "\u{2009}", "a", "\u{e9}", "b c", "\u{200b}", "\u{feff}"];
    for first in pieces {
        for second in pieces {
            for third in pieces {
                let text = format!("{}{}{}", first, second, third);
                assert_eq!(trim(&text), text.trim(), "{:?}", text);
            }
        }
    }
}

#[test]
fn decimal_string_matches_display() {
    for value in [0, 1, 9, 10, 11, 42, 99, 100, 101, 1000, 65535, 2147483647, -1, -9, -10, -2147483647, -2147483648] {
        assert_eq!(decimal_string(value), format!("{}", value));
    }
    assert_eq!(decimal_string(0), "0");
    assert_eq!(decimal_string(-305), "-305");
    assert_eq!(decimal_string(7040), "7040");
}

#[test]
fn affirmative_accepts_y_and_yes_in_any_case() {
    for answer in ["y", "Y", "yes", "Yes", "yEs", "yeS", "YES", " y", "y\n", "\tyes\r\n", "\u{a0}Y\u{3000}"] {
        assert!(affirmative(answer), "{:?}", answer);
    }
    for answer in ["", " ", "n", "no", "ye", "es", "yess", "yes please", "y es", "yy", "1", "true", "ok", "\u{ff59}", "y\u{301}"] {
        assert!(!affirmative(answer), "{:?}", answer);
    }
}

#[test]
fn affirmative_agrees_with_lower_casing_the_trimmed_answer() {
    let by_lower_casing = |answer: &str| {
        let lowered = answer.trim().to_lowercase();
        lowered == "y" || lowered == "yes"
    };
    for code in 0..=0x10FFFFu32 {
        if let Some(c) = char::from_u32(code) {
            let single = c.to_string();
            assert_eq!(affirmative(&single), by_lower_casing(&single), "U+{:04X}", code);
            let first = format!("{}es", c);
            assert_eq!(affirmative(&first), by_lower_casing(&first), "U+{:04X}", code);
            let middle = format!("y{}s", c);
            assert_eq!(affirmative(&middle), by_lower_casing(&middle), "U+{:04X}", code);
            let last = format!("ye{}", c);
            assert_eq!(affirmative(&last), by_lower_casing(&last), "U+{:04X}", code);
        }
    }
}
