use runnerbuddy::text::{
    ascii_lowercase, begins_with, char_is_whitespace, chars_of, concat2, concat3, find_in, finishes_with, has,
    is_match_at, is_text, join_strings, keep_non_empty, lines_of, lower, position_of, same_text,
    segments_of, slice_of, split_on, str_contains, str_eq, string_of, strip, strip_end,
    strip_start, CharClass,
};

fn c(s: &str) -> Vec<char> {
    s.chars().collect()
}

fn s(v: &Vec<char>) -> String {
    v.iter().collect()
}

fn strings(v: &Vec<Vec<char>>) -> Vec<String> {
    v.iter().map(|x| x.iter().collect()).collect()
}

fn samples() -> Vec<&'static str> {
    vec![
        "",
        " ",
        "a",
        "abc",
        "  padded\t\n",
        "\u{a0}\u{2003}wide space\u{3000}",
        "line one\nline two",
        "line one\r\nline two\r\n",
        "\n",
        "\r\n\r\n",
        "a\n\nb\n",
        "bare\rreturn\r",
        "x,y,,z,",
        ",",
        "\"quoted\"",
        "\"\"",
        "vv1.2.3",
        "MiXeD Case \u{c9}\u{df}",
        "https://github.com/org/repo///",
        "\u{1f600} emoji \u{1f600}",
    ]
}

#[test]
fn conversions_round_trip() {
    for text in samples() {
        assert_eq!(chars_of(text), c(text));
        assert_eq!(string_of(&c(text)), text);
    }
    assert_eq!(slice_of(&c("hello"), 1, 3), c("el"));
    assert_eq!(slice_of(&c("hello"), 2, 2), c(""));
    assert_eq!(concat2("ab", "cd"), "abcd");
    assert_eq!(concat3("a", "", "b"), "ab");
}

#[test]
fn equality_compares_texts() {
    assert!(str_eq("", ""));
    assert!(str_eq("abc", "abc"));
    assert!(!str_eq("abc", "abd"));
    assert!(!str_eq("abc", "ab"));
    assert!(same_text(&c("x\u{e9}"), &c("x\u{e9}")));
    assert!(!same_text(&c("x"), &c("y")));
    assert!(is_text(&c("ExecStart"), "ExecStart"));
    assert!(!is_text(&c("execstart"), "ExecStart"));
}

#[test]
fn searching_agrees_with_std() {
    let needles = ["", "a", "ne", "\n", "//", "line", "two", "z,", "\u{1f600}", "zzz", "o"];
    for text in samples() {
        for needle in needles {
            assert_eq!(str_contains(text, needle), text.contains(needle), "{text:?} {needle:?}");
            assert_eq!(has(&c(text), &c(needle)), text.contains(needle));
            assert_eq!(begins_with(&c(text), &c(needle)), text.starts_with(needle));
            assert_eq!(finishes_with(&c(text), &c(needle)), text.ends_with(needle));
            let expected = text.find(needle).map(|byte| text[..byte].chars().count());
            assert_eq!(find_in(&c(text), &c(needle), 0), expected, "{text:?} {needle:?}");
        }
        for ch in ['a', '\n', ',', '/', 'z'] {
            let expected = text.chars().position(|x| x == ch).unwrap_or(text.chars().count());
            assert_eq!(position_of(&c(text), ch, 0), expected);
        }
    }
    assert_eq!(find_in(&c("abcabc"), &c("bc"), 2), Some(4));
    assert_eq!(find_in(&c("abcabc"), &c("bc"), 5), None);
    assert_eq!(find_in(&c("abc"), &c(""), 3), Some(3));
    assert_eq!(find_in(&c("abc"), &c(""), 4), None);
    assert_eq!(position_of(&c("a,b,c"), ',', 2), 3);
    assert_eq!(position_of(&c("a,b,c"), ',', 4), 5);
    assert!(is_match_at(&c("hello"), &c("llo"), 2));
    assert!(!is_match_at(&c("hello"), &c("llo"), 3));
    assert!(!is_match_at(&c("hello"), &c(""), 6));
}

#[test]
fn trimming_agrees_with_std() {
    for text in samples() {
        assert_eq!(s(&strip(&c(text), CharClass::Whitespace)), text.trim(), "{text:?}");
        assert_eq!(s(&strip_start(&c(text), CharClass::Whitespace)), text.trim_start());
        assert_eq!(s(&strip_end(&c(text), CharClass::Whitespace)), text.trim_end());
        for ch in ['"', '/', 'v', ','] {
            assert_eq!(s(&strip(&c(text), CharClass::Only(ch))), text.trim_matches(ch));
            assert_eq!(s(&strip_start(&c(text), CharClass::Only(ch))), text.trim_start_matches(ch));
            assert_eq!(s(&strip_end(&c(text), CharClass::Only(ch))), text.trim_end_matches(ch));
        }
    }
    assert!(CharClass::Whitespace.test('\u{2028}'));
    assert!(!CharClass::Whitespace.test('\u{200b}'));
    assert!(CharClass::Only('x').test('x'));
    assert!(!CharClass::Only('x').test('y'));
}

#[test]
fn splitting_agrees_with_std() {
    for text in samples() {
        for sep in [',', '\n', '/', ' '] {
            let expected: Vec<String> = text.split(sep).map(|p| p.to_string()).collect();
            assert_eq!(strings(&split_on(&c(text), sep)), expected, "{text:?} {sep:?}");
            let kept: Vec<String> =
                text.split(sep).filter(|p| !p.is_empty()).map(|p| p.to_string()).collect();
            assert_eq!(strings(&segments_of(&c(text), sep)), kept);
        }
        let expected: Vec<String> = text.lines().map(|p| p.to_string()).collect();
        assert_eq!(strings(&lines_of(&c(text))), expected, "{text:?}");
    }
    assert_eq!(strings(&keep_non_empty(&vec![c(""), c("a"), c(""), c("b")])), vec!["a", "b"]);
}

#[test]
fn case_folding_touches_ascii_letters_only() {
    for text in samples() {
        assert_eq!(s(&ascii_lowercase(&c(text))), text.to_ascii_lowercase());
    }
    assert_eq!(lower('A'), 'a');
    assert_eq!(lower('Z'), 'z');
    assert_eq!(lower('@'), '@');
    assert_eq!(lower('['), '[');
    assert_eq!(lower('\u{c9}'), '\u{c9}');
}

#[test]
fn joining_agrees_with_std() {
    let lists: Vec<Vec<String>> = vec![
        vec![],
        vec!["a".to_string()],
        vec!["a".to_string(), "b".to_string()],
        vec!["".to_string(), "x".to_string(), "".to_string()],
    ];
    for list in lists {
        for sep in ["", ",", ", "] {
            assert_eq!(join_strings(&list, sep), list.join(sep));
        }
    }
}

#[test]
fn white_space_is_what_the_standard_library_calls_so() {
    let mut count = 0;
    for code in 0..=0x10FFFF_u32 {
        if let Some(c) = char::from_u32(code) {
            assert_eq!(char_is_whitespace(c), c.is_whitespace(), "U+{code:04X}");
            assert_eq!(CharClass::Whitespace.test(c), c.is_whitespace(), "U+{code:04X}");
            if char_is_whitespace(c) {
                count += 1;
            }
        }
    }
    assert_eq!(count, 25);
    assert!(char_is_whitespace('\u{a0}'));
    assert!(char_is_whitespace('\u{3000}'));
    assert!(!char_is_whitespace('\u{200b}'));
    assert!(!char_is_whitespace('\u{180e}'));
}
