use cloud::text::{
    chars_of, contains, is_whitespace, precedes, remove_char, split_lines, string_of, trim,
};

#[test]
fn chars_and_back() {
    let v = chars_of("héllo");
    assert_eq!(v, vec!['h', 'é', 'l', 'l', 'o']);
    assert_eq!(string_of(&v, 1, 4), "éll");
    assert_eq!(string_of(&v, 0, 5), "héllo");
    assert_eq!(string_of(&v, 2, 2), "");
}

#[test]
fn remove_char_drops_every_occurrence() {
    assert_eq!(remove_char("us-east-1", '-'), "useast1");
    assert_eq!(remove_char("--", '-'), "");
    assert_eq!(remove_char("plain", '-'), "plain");
    assert_eq!(remove_char("", '-'), "");
}

#[test]
fn contains_finds_substrings() {
    assert!(contains("iperf: connect failed: Connection refused", "connect failed"));
    assert!(contains("connect failed", "connect failed"));
    assert!(!contains("connect faile", "connect failed"));
    assert!(!contains("connected, nothing failed", "connect failed"));
    assert!(contains("anything", ""));
    assert!(contains("", ""));
    assert!(!contains("", "x"));
    assert!(contains("aab", "ab"));
}

#[test]
fn precedes_is_the_order_of_strings() {
    let names = ["", "a", "ab", "b", "aws_useast1", "aws_uswest2", "az_eastus", "B", "é", "z"];
    for a in names {
        for b in names {
            assert_eq!(precedes(a, b), a < b, "{:?} < {:?}", a, b);
        }
    }
}

#[test]
fn split_lines_follows_line_feeds() {
    assert_eq!(split_lines(""), Vec::<String>::new());
    assert_eq!(split_lines("one"), vec!["one"]);
    assert_eq!(split_lines("one\n"), vec!["one"]);
    assert_eq!(split_lines("one\ntwo"), vec!["one", "two"]);
    assert_eq!(split_lines("one\r\ntwo\r\n"), vec!["one", "two"]);
    assert_eq!(split_lines("\n\nx"), vec!["", "", "x"]);
    assert_eq!(split_lines("a\rb\n"), vec!["a\rb"]);
    assert_eq!(split_lines("last\r"), vec!["last\r"]);
    assert_eq!(split_lines("\r\n"), vec![""]);
}

#[test]
fn split_lines_agrees_with_str_lines() {
    for text in ["", "a", "a\n", "a\nb", "a\r\nb\r\n", "\n", "\r", "\r\n\r\n", "x\r\r\ny", "1: lo\n2: em1\n"] {
        let expected: Vec<String> = text.lines().map(|l| l.to_string()).collect();
        assert_eq!(split_lines(text), expected, "{:?}", text);
    }
}

#[test]
fn trim_drops_white_space_at_both_ends() {
    assert_eq!(trim("/home/ubuntu\n"), "/home/ubuntu");
    assert_eq!(trim("  \t/home/a b \r\n"), "/home/a b");
    assert_eq!(trim(""), "");
    assert_eq!(trim(" \n\t "), "");
    assert_eq!(trim("x"), "x");
    assert_eq!(trim("\u{a0}x\u{2003}"), "x");
}

#[test]
fn white_space_is_what_the_standard_library_says() {
    let mut count = 0;
    for c in '\0'..=char::MAX {
        assert_eq!(is_whitespace(c), c.is_whitespace(), "{:?}", c);
        if is_whitespace(c) {
            count += 1;
        }
    }
    assert_eq!(count, 25);
    assert!(is_whitespace('\n'));
    assert!(is_whitespace('\u{3000}'));
    assert!(!is_whitespace('\u{200b}'));
    assert!(!is_whitespace('\u{180e}'));
    assert!(!is_whitespace('\u{1f}'));
}

#[test]
fn trim_agrees_with_str_trim() {
    for text in ["", " ", "a", " a", "a ", "\t a b \n", "\u{2028}x\u{85}", "\u{200b} x", "/home/ubuntu\n"] {
        assert_eq!(trim(text), text.trim(), "{:?}", text);
    }
}
