use hush::text::{
    chars_of, parse_u32_chars, split_lines, str_contains, str_eq_ignore_ascii_case, str_equals,
    str_starts_with, trim_str,
};

const SAMPLES: &[&str] = &[
    "",
    "a",
    "\n",
    "\n\n",
    "a\nb",
    "a\nb\n",
    "a\r\nb\r\n",
    "a\rb",
    "trailing\r",
    "\r\n",
    "one\n\ntwo",
    "  spaced  \t\n",
    "\u{3000}wide\u{2029}",
    "Hush On\nHush Off\nOther",
];

#[test]
fn split_lines_agrees_with_str_lines() {
    for s in SAMPLES {
        let expected: Vec<String> = s.lines().map(|l| l.to_string()).collect();
        assert_eq!(split_lines(s), expected, "input {:?}", s);
    }
}

#[test]
fn split_lines_examples() {
    assert_eq!(split_lines("a\r\nb\n"), vec!["a".to_string(), "b".to_string()]);
    assert_eq!(split_lines("x\n\ny"), vec!["x".to_string(), String::new(), "y".to_string()]);
    assert!(split_lines("").is_empty());
}

#[test]
fn trim_agrees_with_str_trim() {
    for s in SAMPLES {
        assert_eq!(trim_str(s), s.trim(), "input {:?}", s);
    }
    assert_eq!(trim_str("\u{85}\u{a0}x y\u{205f}"), "x y");
}

#[test]
fn chars_of_keeps_order() {
    assert_eq!(chars_of("añb"), vec!['a', 'ñ', 'b']);
}

#[test]
fn eq_ignore_ascii_case_agrees_with_std() {
    let pairs = [
        ("Hush On", "hush on"),
        ("HUSH ON", "Hush On"),
        ("Hush On", "Hush Off"),
        ("Ä", "ä"),
        ("", ""),
        ("a", "ab"),
        ("[", "{"),
    ];
    for (a, b) in pairs {
        assert_eq!(str_eq_ignore_ascii_case(a, b), a.eq_ignore_ascii_case(b), "{:?} {:?}", a, b);
    }
}

#[test]
fn equality_prefix_and_contains() {
    assert!(str_equals("quit", "quit"));
    assert!(!str_equals("quit", "quits"));
    assert!(str_starts_with("active:mic-active", "active:"));
    assert!(!str_starts_with("none", "active:"));
    assert!(!str_starts_with("act", "active:"));
    assert!(str_contains("xxOKyy", "OK"));
    assert!(str_contains("OK", "OK"));
    assert!(!str_contains("O K", "OK"));
    assert!(str_contains("abc", ""));
}

#[test]
fn parse_u32_agrees_with_std() {
    let inputs = [
        "", "+", "-", "0", "12", "+15", "-3", "4294967295", "4294967296", "99999999999", "1a",
        "++1", " 1", "007",
    ];
    for s in inputs {
        let cs: Vec<char> = s.chars().collect();
        assert_eq!(parse_u32_chars(&cs), s.parse::<u32>().ok(), "input {:?}", s);
    }
}
