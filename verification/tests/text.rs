use portfolio::text::{
    chars_of, first_word, matches_at, matches_before, replace_all, split_whitespace, starts_with,
    string_of, to_ascii_upper, trim, trim_end_matches, trim_start_matches,
};

const SAMPLES: [&str; 14] = [
    "",
    " ",
    "a",
    "lang@rust let x = 1;",
    "lang@lang@c  int",
    "  padded\ttext \n",
    "\u{a0}\u{3000}wide\u{2003}spaces\u{85}",
    "aaaa",
    "abababa",
    "<pre class=\"dark:chroma chroma\"><code>x</code></pre></pre>",
    "mathematica mathematica",
    "networking-notes",
    "México – año",
    "--a--b--",
];

const PATTERNS: [&str; 9] = ["", "a", "aa", "ab", "aba", "lang@", "-", "</pre>", "é"];

#[test]
fn replace_all_agrees_with_std() {
    for s in SAMPLES {
        for from in PATTERNS {
            for to in ["", "X", "aa", " "] {
                assert_eq!(replace_all(s, from, to), s.replace(from, to), "{s:?} {from:?} {to:?}");
            }
        }
    }
}

#[test]
fn replace_all_takes_matches_from_the_left_without_overlap() {
    assert_eq!(replace_all("aaa", "aa", "b"), "ba");
    assert_eq!(replace_all("abababa", "aba", "x"), "xbx");
    assert_eq!(replace_all("parser-comb-notes", "-", " "), "parser comb notes");
    assert_eq!(replace_all("no match", "xyz", "q"), "no match");
    assert_eq!(replace_all("", "a", "b"), "");
}

#[test]
fn replace_all_with_empty_pattern_goes_between_characters() {
    assert_eq!(replace_all("abc", "", "-"), "-a-b-c-");
    assert_eq!(replace_all("", "", "-"), "-");
}

#[test]
fn trim_agrees_with_std() {
    for s in SAMPLES {
        assert_eq!(trim(s), s.trim(), "{s:?}");
    }
}

#[test]
fn trim_removes_whitespace_at_both_ends_only() {
    assert_eq!(trim("  a b \n"), "a b");
    assert_eq!(trim("\t\n "), "");
    assert_eq!(trim(""), "");
    assert_eq!(trim("x"), "x");
    assert_eq!(trim("\u{a0}x\u{3000}"), "x");
}

#[test]
fn trim_start_matches_agrees_with_std() {
    for s in SAMPLES {
        for pat in PATTERNS {
            assert_eq!(trim_start_matches(s, pat), s.trim_start_matches(pat), "{s:?} {pat:?}");
        }
    }
}

#[test]
fn trim_start_matches_removes_every_leading_occurrence() {
    assert_eq!(trim_start_matches("lang@lang@x", "lang@"), "x");
    assert_eq!(trim_start_matches("aaab", "a"), "b");
    assert_eq!(trim_start_matches("ababa", "ab"), "a");
    assert_eq!(trim_start_matches("abc", ""), "abc");
    assert_eq!(trim_start_matches("abc", "bc"), "abc");
    assert_eq!(trim_start_matches("aa", "a"), "");
}

#[test]
fn trim_end_matches_agrees_with_std() {
    for s in SAMPLES {
        for pat in PATTERNS {
            assert_eq!(trim_end_matches(s, pat), s.trim_end_matches(pat), "{s:?} {pat:?}");
        }
    }
}

#[test]
fn trim_end_matches_removes_every_trailing_occurrence() {
    assert_eq!(trim_end_matches("x</pre></pre>", "</pre>"), "x");
    assert_eq!(trim_end_matches("baaa", "a"), "b");
    assert_eq!(trim_end_matches("abc", ""), "abc");
    assert_eq!(trim_end_matches("abc", "ab"), "abc");
}

#[test]
fn split_whitespace_agrees_with_std() {
    for s in SAMPLES {
        let expected: Vec<String> = s.split_whitespace().map(String::from).collect();
        assert_eq!(split_whitespace(s), expected, "{s:?}");
    }
}

#[test]
fn split_whitespace_gives_the_maximal_runs() {
    assert_eq!(split_whitespace("  -j 8\t-o  /tmp/x \n"), vec!["-j", "8", "-o", "/tmp/x"]);
    assert_eq!(split_whitespace(""), Vec::<String>::new());
    assert_eq!(split_whitespace(" \n\t"), Vec::<String>::new());
    assert_eq!(split_whitespace("one"), vec!["one"]);
}

#[test]
fn first_word_is_the_first_run_or_nothing() {
    assert_eq!(first_word("rust let x = 1;"), Some("rust".to_string()));
    assert_eq!(first_word("   c\tint"), Some("c".to_string()));
    assert_eq!(first_word("word"), Some("word".to_string()));
    assert_eq!(first_word(""), None);
    assert_eq!(first_word(" \n "), None);
    for s in SAMPLES {
        assert_eq!(first_word(s), s.split_whitespace().next().map(String::from), "{s:?}");
    }
}

#[test]
fn starts_with_agrees_with_std() {
    for s in SAMPLES {
        for pat in PATTERNS {
            assert_eq!(starts_with(s, pat), s.starts_with(pat), "{s:?} {pat:?}");
        }
    }
    assert!(starts_with("lang@rust", "lang@"));
    assert!(!starts_with("lang", "lang@"));
    assert!(starts_with("", ""));
}

#[test]
fn to_ascii_upper_changes_ascii_lower_case_only() {
    assert_eq!(to_ascii_upper('a'), 'A');
    assert_eq!(to_ascii_upper('n'), 'N');
    assert_eq!(to_ascii_upper('z'), 'Z');
    assert_eq!(to_ascii_upper('A'), 'A');
    assert_eq!(to_ascii_upper('`'), '`');
    assert_eq!(to_ascii_upper('{'), '{');
    assert_eq!(to_ascii_upper('7'), '7');
    assert_eq!(to_ascii_upper('é'), 'é');
    for code in 0u8..128 {
        let c = code as char;
        assert_eq!(to_ascii_upper(c), c.to_ascii_uppercase());
    }
}

#[test]
fn chars_and_strings_convert_both_ways() {
    let chars = chars_of("añb");
    assert_eq!(chars, vec!['a', 'ñ', 'b']);
    assert_eq!(string_of(&chars, 0, 3), "añb");
    assert_eq!(string_of(&chars, 1, 2), "ñ");
    assert_eq!(string_of(&chars, 2, 2), "");
    assert_eq!(chars_of(""), Vec::<char>::new());
}

#[test]
fn matches_at_and_before_look_at_one_place() {
    let text = chars_of("abcabc");
    let pat = chars_of("bc");
    assert!(matches_at(&text, 1, &pat));
    assert!(matches_at(&text, 4, &pat));
    assert!(!matches_at(&text, 0, &pat));
    assert!(!matches_at(&text, 5, &pat));
    assert!(!matches_at(&text, 6, &pat));
    assert!(matches_at(&text, 6, &chars_of("")));
    assert!(matches_before(&text, 6, &pat));
    assert!(matches_before(&text, 3, &pat));
    assert!(!matches_before(&text, 5, &pat));
    assert!(!matches_before(&text, 1, &pat));
    assert!(matches_before(&text, 0, &chars_of("")));
}

#[test]
fn nothing_is_left_to_take_after_trimming_matches() {
    for s in SAMPLES {
        for pat in PATTERNS {
            if !pat.is_empty() {
                assert!(!trim_start_matches(s, pat).starts_with(pat), "{s:?} {pat:?}");
                assert!(!trim_end_matches(s, pat).ends_with(pat), "{s:?} {pat:?}");
            }
        }
    }
}

#[test]
fn trimmed_text_has_no_whitespace_at_its_ends() {
    for s in SAMPLES {
        let trimmed = trim(s);
        if let (Some(first), Some(last)) = (trimmed.chars().next(), trimmed.chars().last()) {
            assert!(!first.is_whitespace(), "{s:?}");
            assert!(!last.is_whitespace(), "{s:?}");
        }
    }
}

#[test]
fn words_are_not_empty_and_hold_no_whitespace() {
    for s in SAMPLES {
        for word in split_whitespace(s) {
            assert!(!word.is_empty(), "{s:?}");
            assert!(!word.chars().any(char::is_whitespace), "{s:?}");
        }
    }
}
