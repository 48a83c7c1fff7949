use hltvapi::handlers::{choose_wisdom, resource_reply, wisdom_at, Limiter, ResourceReply};
use hltvapi::text::{decimal_text, parse_i64, remove_pattern};

#[test]
fn limiter_defaults() {
    let l = Limiter::default();
    assert_eq!(l.limit, Some(10));
    assert_eq!(l.top_tier, Some(true));
}

#[test]
fn wisdom_is_one_of_three() {
    let lines = [
        "might get DMCA struck at all times...",
        "get 'em while they're hot...",
        "may go down every second...",
    ];
    for _ in 0..20 {
        assert!(lines.contains(&choose_wisdom().as_str()));
    }
}

#[test]
fn wisdom_lines_by_number() {
    assert_eq!(wisdom_at(0), "might get DMCA struck at all times...");
    assert_eq!(wisdom_at(1), "get 'em while they're hot...");
    assert_eq!(wisdom_at(2), "may go down every second...");
}

#[test]
fn resource_replies() {
    match resource_reply("b\u{e4}d.css", true) {
        Some(ResourceReply::Forbidden(m)) => assert_eq!(m, "invalid file name: 'b\u{e4}d.css'"),
        other => panic!("{:?}", other),
    }
    match resource_reply("missing.css", false) {
        Some(ResourceReply::NotFound(m)) => assert_eq!(m, "no such file: 'missing.css'"),
        other => panic!("{:?}", other),
    }
    match resource_reply("style.css", true) {
        Some(ResourceReply::Found(t)) => assert_eq!(t, "text/css"),
        other => panic!("{:?}", other),
    }
    assert!(resource_reply("no-extension", true).is_none());
}

#[test]
fn decimal_rendering() {
    assert_eq!(decimal_text(0), "0");
    assert_eq!(decimal_text(5), "5");
    assert_eq!(decimal_text(-1337), "-1337");
    assert_eq!(decimal_text(i32::MAX), "2147483647");
    assert_eq!(decimal_text(i32::MIN), "-2147483648");
}

#[test]
fn pattern_removal() {
    assert_eq!(remove_pattern("https://www.hltv.org/news/1", "https://www.hltv.org"), "/news/1");
    assert_eq!(remove_pattern("aaa", "aa"), "a");
    assert_eq!(remove_pattern("abcabc", "b"), "acac");
    assert_eq!(remove_pattern("\u{e4}x\u{e4}", "x"), "\u{e4}\u{e4}");
    assert_eq!(remove_pattern("abc", ""), "abc");
    assert_eq!(remove_pattern("ab", "abc"), "ab");
}


#[test]
fn decimal_integers_are_read_as_std_reads_them() {
    assert_eq!(parse_i64("1630512000000"), Some(1_630_512_000_000));
    assert_eq!(parse_i64("+42"), Some(42));
    assert_eq!(parse_i64("-17"), Some(-17));
    assert_eq!(parse_i64("007"), Some(7));
    assert_eq!(parse_i64("9223372036854775807"), Some(i64::MAX));
    assert_eq!(parse_i64("-9223372036854775808"), Some(i64::MIN));
    assert_eq!(parse_i64("9223372036854775808"), None);
    assert_eq!(parse_i64("-9223372036854775809"), None);
    assert_eq!(parse_i64("123456789012345678901234567890"), None);
    assert_eq!(parse_i64(""), None);
    assert_eq!(parse_i64("-"), None);
    assert_eq!(parse_i64("+"), None);
    assert_eq!(parse_i64("1a"), None);
    assert_eq!(parse_i64(" 1"), None);
    assert_eq!(parse_i64("--1"), None);
    assert_eq!(parse_i64("\u{0661}"), None);
    for s in ["0", "-0", "12", "+9", "x", "99999999999999999999", "-5a"] {
        assert_eq!(parse_i64(s), s.parse::<i64>().ok());
    }
}
