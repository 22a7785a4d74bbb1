use kiro_executor::text::{
    char_is_white_space, chars_of, contains, copy_strings, join, same_optional_text, same_text,
    same_texts, second_piece, split_once, starts_with, trim, trim_end, trim_end_matches,
};

const SAMPLES: [&str; 12] = [
    "",
    " ",
    "a",
    " a ",
    "\u{a0}\u{3000} über \u{2028}\t\n",
    "a b",
    "::",
    "a:b:c",
    ":a",
    "a:",
    "(((x)))",
    "aabaabaaab",
];

#[test]
fn white_space_is_that_of_the_standard_library() {
    for n in 0..=0x10ffffu32 {
        if let Some(c) = char::from_u32(n) {
            assert_eq!(char_is_white_space(c), c.is_whitespace(), "{n:x}");
        }
    }
}

#[test]
fn trimming_is_that_of_the_standard_library() {
    for s in SAMPLES {
        assert_eq!(trim(s), s.trim());
        assert_eq!(trim_end(s), s.trim_end());
        assert_eq!(trim_end_matches(s, ')'), s.trim_end_matches(')'));
        assert_eq!(trim_end_matches(s, 'b'), s.trim_end_matches('b'));
        assert_eq!(trim(trim(s)), trim(s));
    }
}

#[test]
fn searching_is_that_of_the_standard_library() {
    for s in SAMPLES {
        for pattern in [":", "a", "aab", "aaab", "ü", "()"] {
            assert_eq!(contains(s, pattern), s.contains(pattern));
            assert_eq!(starts_with(s, pattern), s.starts_with(pattern));
            assert_eq!(split_once(s, pattern), s.split_once(pattern));
            assert_eq!(second_piece(s, pattern), s.split(pattern).nth(1));
        }
    }
    assert_eq!(second_piece("a:b:c", ":"), Some("b"));
    assert_eq!(second_piece("abc", ":"), None);
    assert_eq!(second_piece("a:", ":"), Some(""));
}

#[test]
fn texts_are_compared_by_character() {
    for a in SAMPLES {
        for b in SAMPLES {
            assert_eq!(same_text(a, b), a == b);
        }
    }
    assert!(same_optional_text(&None, &None));
    assert!(!same_optional_text(&None, &Some(String::new())));
    assert!(same_optional_text(&Some("x".to_string()), &Some("x".to_string())));
    assert!(!same_texts(&vec!["a".to_string()], &vec![]));
    assert!(!same_texts(&vec!["a".to_string()], &vec!["b".to_string()]));
    assert!(same_texts(&vec!["a".to_string()], &vec!["a".to_string()]));
}

#[test]
fn joining_puts_the_separator_between() {
    assert_eq!(join(&vec![], ", "), "");
    let list: Vec<String> = vec!["a".to_string(), "".to_string(), "é".to_string()];
    assert_eq!(join(&list, ", "), "a, , é");
    assert_eq!(copy_strings(&list), list);
    assert_eq!(chars_of("aé"), vec!['a', 'é']);
}
