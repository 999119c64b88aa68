use ralph_orchestrator::text::{
    chars_of, contains, decimal, hex, is_blank, is_space_char, join_lines, join_path,
    line_holding, lines, prefixed, trim,
};

#[test]
fn white_space_is_what_std_calls_white_space() {
    for code in 0u32..0x3100 {
        if let Some(c) = char::from_u32(code) {
            assert_eq!(is_space_char(c), c.is_whitespace(), "U+{:04X}", code);
        }
    }
    assert!(!is_space_char('\u{FEFF}'));
    assert!(!is_space_char('\u{10FFFF}'));
}

#[test]
fn blank_texts() {
    assert!(is_blank(""));
    assert!(is_blank(" \t\r\n"));
    assert!(is_blank("\u{3000}"));
    assert!(!is_blank(" x "));
    assert!(!is_blank("\u{200B}"));
}

#[test]
fn trim_like_std() {
    for s in ["", "  ", "a", " a", "a ", "  a b  ", "\n\ta\u{00A0}", "é  ", " \u{2003}x\u{2003} "] {
        assert_eq!(trim(s), s.trim(), "{:?}", s);
    }
}

#[test]
fn contains_like_std() {
    let texts = ["", "a", "ab", "abc", "aab", "abab", "xIOPlatformUUIDy", "ééa"];
    let needles = ["", "a", "b", "ab", "ba", "abc", "aab", "IOPlatformUUID", "éa", "abcd"];
    for s in texts {
        for needle in needles {
            assert_eq!(contains(s, needle), s.contains(needle), "{:?} {:?}", s, needle);
        }
    }
}

#[test]
fn first_line_that_holds_a_text() {
    assert_eq!(line_holding("one\ntwo key\r\nthree key\n", "key"), Some("two key".to_string()));
    assert_eq!(line_holding("one\ntwo\n", "key"), None);
    assert_eq!(line_holding("", "key"), None);
    assert_eq!(line_holding("", ""), None);
    assert_eq!(line_holding("a\nb", ""), Some("a".to_string()));
}

#[test]
fn lines_like_std() {
    let cases = [
        "",
        "a",
        "a\n",
        "a\nb",
        "a\r\nb\r\n",
        "a\r",
        "a\r\r\n",
        "\n",
        "\n\n",
        "a\n\nb",
        "\r\n",
        "\r",
        "a\rb\n",
        "é\nü\r\n",
    ];
    for s in cases {
        let expected: Vec<String> = s.lines().map(|l| l.to_string()).collect();
        assert_eq!(lines(s), expected, "{:?}", s);
    }
}

#[test]
fn join_lines_puts_one_feed_between() {
    assert_eq!(join_lines(&vec![]), "");
    assert_eq!(join_lines(&vec!["a".to_string()]), "a");
    assert_eq!(join_lines(&vec!["a".to_string(), "".to_string(), "b".to_string()]), "a\n\nb");
}

#[test]
fn join_path_cases() {
    assert_eq!(join_path("/a", "b"), "/a/b");
    assert_eq!(join_path("/a/", "b"), "/a/b");
    assert_eq!(join_path("", "b"), "b");
    assert_eq!(join_path("/a", "/b"), "/b");
    assert_eq!(join_path("/a", ""), "/a/");
    assert_eq!(join_path("repo", "sub/dir"), "repo/sub/dir");
}

#[test]
fn join_path_like_std() {
    let bases = ["", "/", "/a", "/a/", "a", "a/b", "/a b/c"];
    let parts = ["", "b", "b/c", "/b", ".ralph", "IMPLEMENTATION_PLAN.md", "x.md"];
    for base in bases {
        for part in parts {
            let expected = std::path::Path::new(base).join(part).to_string_lossy().to_string();
            assert_eq!(join_path(base, part), expected, "{:?} {:?}", base, part);
        }
    }
}

#[test]
fn numbers_as_text() {
    assert_eq!(decimal(0), "0");
    assert_eq!(decimal(5), "5");
    assert_eq!(decimal(10), "10");
    assert_eq!(decimal(4_294_967_295), "4294967295");
    assert_eq!(decimal(u64::MAX), u64::MAX.to_string());
    assert_eq!(hex(0xab, 2), "ab");
    assert_eq!(hex(0xab, 4), "00ab");
    assert_eq!(hex(0xabc, 2), "bc");
    assert_eq!(hex(7, 0), "");
}

#[test]
fn characters_and_back() {
    let s = "aé\n\u{1F600}";
    let chars = chars_of(s);
    assert_eq!(chars, vec!['a', 'é', '\n', '\u{1F600}']);
    assert_eq!(prefixed("ab", "cd"), "abcd");
}
