use gamemode::text::{
    chars_of, ends_with, eq_ignore_ascii_case, has_substring, in_list, push_decimal, same_text,
    split_second_field,
};

fn letters(s: &str) -> Vec<char> {
    s.chars().collect()
}

#[test]
fn byte_strings_match_up_to_ascii_case() {
    assert!(eq_ignore_ascii_case(b"Explorer", b"eXPLORER"));
    assert!(eq_ignore_ascii_case(b"", b""));
    assert!(eq_ignore_ascii_case(b"a-1_[", b"A-1_["));
    assert!(!eq_ignore_ascii_case(b"abc", b"abd"));
    assert!(!eq_ignore_ascii_case(b"abc", b"abcd"));
    assert!(!eq_ignore_ascii_case(b"@", b"`"));
    assert!(!eq_ignore_ascii_case(b"[", b"{"));
    assert!(!eq_ignore_ascii_case(&[0xC9], &[0xE9]));
}

#[test]
fn list_membership_ignores_ascii_case() {
    let list = vec!["cs2", "GTA5"];
    assert!(in_list(&list, b"gta5"));
    assert!(in_list(&list, b"CS2"));
    assert!(!in_list(&list, b"cs"));
    assert!(!in_list(&vec![], b"cs2"));
}

#[test]
fn text_equality_is_exact() {
    assert!(same_text("abc", "abc"));
    assert!(same_text("", ""));
    assert!(!same_text("abc", "Abc"));
    assert!(!same_text("abc", "ab"));
    assert!(same_text("h\u{e9}", "h\u{e9}"));
    assert!(!same_text("h\u{e9}", "he"));
}

#[test]
fn characters_of_a_text() {
    assert_eq!(chars_of("a\u{e9}z"), vec!['a', '\u{e9}', 'z']);
    assert_eq!(chars_of(""), Vec::<char>::new());
}

#[test]
fn substring_and_suffix_search_on_characters() {
    assert!(has_substring(&letters("hello world"), &letters("lo w")));
    assert!(!has_substring(&letters("hello world"), &letters("low")));
    assert!(has_substring(&letters("aab"), &letters("ab")));
    assert!(ends_with(&letters("game.exe"), &letters(".exe")));
    assert!(!ends_with(&letters("game.exe "), &letters(".exe")));
    assert!(!ends_with(&letters("exe"), &letters(".exe")));
    assert!(ends_with(&letters("x"), &letters("")));
}

#[test]
fn decimal_form_has_no_leading_zeros() {
    let mut text = String::from("n=");
    push_decimal(&mut text, 0);
    push_decimal(&mut text, 7);
    push_decimal(&mut text, 10);
    push_decimal(&mut text, 4294967295);
    assert_eq!(text, "n=07104294967295");
}

#[test]
fn second_field_lies_between_the_first_two_colons() {
    assert_eq!(split_second_field("a:b:c"), Some("b".to_string()));
    assert_eq!(split_second_field("a: b "), Some(" b ".to_string()));
    assert_eq!(split_second_field(":"), Some("".to_string()));
    assert_eq!(split_second_field("a:"), Some("".to_string()));
    assert_eq!(split_second_field("::x"), Some("".to_string()));
    assert_eq!(split_second_field("abc"), None);
    assert_eq!(split_second_field(""), None);
    assert_eq!(split_second_field("\u{e9}:\u{e8}"), Some("\u{e8}".to_string()));
}

#[test]
fn lines_are_split_as_the_standard_library_splits_them() {
    let samples = [
        "", "a", "a\nb", "a\n", "\n", "\n\n", "a\r\nb", "a\r\nb\r\n", "a\r", "\r", "\r\n", "a\n\nb",
        "a\r\r\n", "\ra\n", "a\rb\nc", "x\n\r\ny", "\u{e9}\r\n\u{e8}",
    ];
    for text in samples {
        let expected: Vec<String> = text.lines().map(|line| line.to_string()).collect();
        assert_eq!(gamemode::text::lines(text), expected, "for {:?}", text);
    }
}

#[test]
fn lines_of_concrete_texts() {
    assert_eq!(gamemode::text::lines("a\r\nb\n"), vec!["a".to_string(), "b".to_string()]);
    assert_eq!(gamemode::text::lines("a\r"), vec!["a\r".to_string()]);
    assert_eq!(gamemode::text::lines("\n"), vec!["".to_string()]);
    assert_eq!(gamemode::text::lines(""), Vec::<String>::new());
}

#[test]
fn white_space_is_the_unicode_property() {
    let mut checked = 0u32;
    for code in 0..=0x10FFFFu32 {
        if let Some(c) = char::from_u32(code) {
            assert_eq!(gamemode::text::white_space(c), c.is_whitespace(), "for U+{:04X}", code);
            checked += 1;
        }
    }
    assert_eq!(checked, 0x110000 - 0x800);
}

#[test]
fn trimming_agrees_with_the_standard_library() {
    let samples = [
        "", " ", "a", " a", "a ", "  a b  ", "\t\r\n a \u{a0}\u{3000}", "\u{200b} a \u{200b}",
        "\u{2003}x\u{2003}y\u{2003}", " \u{e9} ", "\n", "a\u{85}",
    ];
    for text in samples {
        assert_eq!(gamemode::text::trim(text), text.trim(), "for {:?}", text);
    }
    assert_eq!(gamemode::text::trim("  Normal \r"), "Normal");
}

#[test]
fn tokens_agree_with_the_standard_library() {
    let samples = [
        "", " ", "a", " a", "a ", "  a b  ", "ChassisTypes  \r\n{3}  \r\n", "a\u{a0}b\u{3000}c",
        "\u{200b} a", "10 13\t35\n", "x\u{2028}y\u{2029}z", "\u{e9}\u{e8} \u{ea}",
    ];
    for text in samples {
        let expected: Vec<String> = text.split_whitespace().map(|t| t.to_string()).collect();
        assert_eq!(gamemode::text::split_whitespace(text), expected, "for {:?}", text);
    }
    assert_eq!(
        gamemode::text::split_whitespace(" 3  13 "),
        vec!["3".to_string(), "13".to_string()]
    );
}
