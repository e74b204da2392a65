use cargo_odra::text::{
    chars_of, concat3, contains, find_from, is_whitespace, last_index, occurs_at_in,
    replace_all, same_text, split_fields, starts_with, trim_end,
};

#[test]
fn chars_of_gives_every_character() {
    assert_eq!(chars_of("aé水"), vec!['a', 'é', '水']);
    assert_eq!(chars_of(""), Vec::<char>::new());
}

#[test]
fn concat_joins_in_order() {
    assert_eq!(cargo_odra::text::concat("ab", "cd"), "abcd");
    assert_eq!(cargo_odra::text::concat("", "x"), "x");
    assert_eq!(concat3("a", "", "c"), "ac");
    assert_eq!(concat3("src/", "Token", ".rs"), "src/Token.rs");
}

#[test]
fn same_text_compares_characters() {
    assert!(same_text("abc", "abc"));
    assert!(!same_text("abc", "abd"));
    assert!(!same_text("abc", "ab"));
    assert!(same_text("", ""));
}

#[test]
fn occurs_at_checks_one_offset() {
    let s = chars_of("hello");
    assert!(occurs_at_in(&s, &chars_of("ell"), 1));
    assert!(!occurs_at_in(&s, &chars_of("ell"), 0));
    assert!(occurs_at_in(&s, &chars_of(""), 5));
    assert!(!occurs_at_in(&s, &chars_of(""), 6));
    assert!(!occurs_at_in(&s, &chars_of("lo!"), 3));
}

#[test]
fn find_from_gives_first_offset() {
    let s = chars_of("abcabc");
    assert_eq!(find_from(&s, &chars_of("bc"), 0), Some(1));
    assert_eq!(find_from(&s, &chars_of("bc"), 2), Some(4));
    assert_eq!(find_from(&s, &chars_of("bc"), 5), None);
    assert_eq!(find_from(&s, &chars_of("x"), 0), None);
    assert_eq!(find_from(&s, &chars_of("abcabcd"), 0), None);
    assert_eq!(find_from(&s, &chars_of(""), 6), Some(6));
    assert_eq!(find_from(&s, &chars_of(""), 7), None);
}

#[test]
fn contains_finds_text_anywhere() {
    assert!(contains("hello world", "o w"));
    assert!(contains("hello", "hello"));
    assert!(contains("hello", ""));
    assert!(!contains("hello", "world"));
    assert!(!contains("", "a"));
    assert!(contains("wasm32-wasi\nwasm32-unknown-unknown\n", "wasm32-unknown-unknown"));
}

#[test]
fn starts_with_looks_at_the_start_only() {
    assert!(starts_with("/abs", "/"));
    assert!(!starts_with("rel/", "/"));
    assert!(starts_with("x", ""));
}

#[test]
fn replace_all_replaces_every_occurrence() {
    assert_eq!(replace_all("a#b#c", "#", "--"), "a--b--c");
    assert_eq!(replace_all("#x#", "#x", ""), "#");
    assert_eq!(replace_all("nothing here", "#", "x"), "nothing here");
    assert_eq!(replace_all("", "#", "x"), "");
}

#[test]
fn replace_all_scans_from_the_left_without_overlap() {
    assert_eq!(replace_all("aaa", "aa", "b"), "ba");
    assert_eq!(replace_all("aaaa", "aa", "b"), "bb");
}

#[test]
fn replace_all_never_reads_what_it_put() {
    assert_eq!(replace_all("ab", "a", "aa"), "aab");
    assert_eq!(replace_all("xx", "x", "xx"), "xxxx");
}

#[test]
fn replace_all_with_empty_pattern_puts_the_text_around_every_character() {
    assert_eq!(replace_all("ab", "", "x"), "xaxbx");
    assert_eq!(replace_all("abc", "", "--"), "--a--b--c--");
    assert_eq!(replace_all("", "", "x"), "x");
    assert_eq!(replace_all("aé水", "", ""), "aé水");
    assert_eq!(cargo_odra::text::interleave("ab", "x"), "xaxbx");
}

#[test]
fn replace_all_agrees_with_the_standard_library() {
    let cases = [
        ("#contract_name_wasm.rs", "#contract_name", "Token"),
        ("a\nb\nc\n", "\n", ", "),
        ("Flipper flipper Flipper", "Flipper", "MyToken"),
        ("ababab", "aba", "x"),
        ("ab", "", "x"),
        ("", "", "x"),
        ("é水", "", "#name"),
        ("", "a", "x"),
    ];
    for (s, from, to) in cases {
        assert_eq!(replace_all(s, from, to), s.replace(from, to));
    }
}

#[test]
fn split_fields_gives_the_runs_between_separators() {
    assert_eq!(split_fields("a b c", ' '), vec!["a", "b", "c"]);
    assert_eq!(split_fields("  a   b c  ", ' '), vec!["a", "b", "c"]);
    assert_eq!(split_fields("single", ' '), vec!["single"]);
    assert_eq!(split_fields("", ' '), Vec::<String>::new());
    assert_eq!(split_fields("    ", ' '), Vec::<String>::new());
    assert_eq!(split_fields("a=b==c", '='), vec!["a", "b", "c"]);
}

#[test]
fn whitespace_is_what_unicode_says() {
    for c in [' ', '\t', '\n', '\r', '\u{0B}', '\u{0C}', '\u{85}', '\u{A0}', '\u{1680}',
        '\u{2000}', '\u{200A}', '\u{2028}', '\u{2029}', '\u{202F}', '\u{205F}', '\u{3000}']
    {
        assert!(is_whitespace(c));
    }
    for c in ['a', '0', '_', '\u{200B}', '\u{180E}', '\u{FEFF}', '\u{8}', '\u{E}'] {
        assert!(!is_whitespace(c));
    }
}

#[test]
fn whitespace_agrees_with_the_standard_library_on_every_character() {
    let mut n: u32 = 0;
    while n <= 0x10FFFF {
        if let Some(c) = char::from_u32(n) {
            assert_eq!(is_whitespace(c), c.is_whitespace());
        }
        n += 1;
    }
}

#[test]
fn trim_end_drops_trailing_whitespace_only() {
    assert_eq!(trim_end("ab \n\t"), "ab");
    assert_eq!(trim_end("  ab"), "  ab");
    assert_eq!(trim_end("a b"), "a b");
    assert_eq!(trim_end(" \n"), "");
    assert_eq!(trim_end(""), "");
}

#[test]
fn last_index_gives_the_last_occurrence() {
    assert_eq!(last_index(&chars_of("a/b/c"), '/'), Some(3));
    assert_eq!(last_index(&chars_of("abc"), '/'), None);
    assert_eq!(last_index(&chars_of("/"), '/'), Some(0));
    assert_eq!(last_index(&chars_of(""), '/'), None);
}
