use openfang_wechat::json::Json;
use openfang_wechat::text;
use openfang_wechat::time::{Timestamp, MAX_SECS, MIN_SECS};

#[test]
fn white_space_is_the_unicode_property() {
    let known: Vec<u32> = vec![
        0x09, 0x0a, 0x0b, 0x0c, 0x0d, 0x20, 0x85, 0xa0, 0x1680, 0x2000, 0x2001, 0x2002, 0x2003,
        0x2004, 0x2005, 0x2006, 0x2007, 0x2008, 0x2009, 0x200a, 0x2028, 0x2029, 0x202f, 0x205f,
        0x3000,
    ];
    for code in 0..=0x10ffff {
        if let Some(c) = char::from_u32(code) {
            let trimmed = text::trim(&c.to_string());
            assert_eq!(trimmed.is_empty(), known.contains(&code));
        }
    }
}

#[test]
fn trimming_is_stable() {
    for s in ["", " ", " a ", "\t\na b\u{2028}", "\u{200b}x\u{200b}", "中 文 "] {
        let once = text::trim(s);
        assert_eq!(once, s.trim());
        assert_eq!(text::trim(&once), once);
    }
}

#[test]
fn trailing_runs_are_dropped() {
    assert_eq!(text::trim_trailing("a//b//", '/'), "a//b");
    assert_eq!(text::trim_trailing("///", '/'), "");
    assert_eq!(text::trim_trailing("", '/'), "");
    assert_eq!(text::trim_trailing("中/", '/'), "中");
}

#[test]
fn needles_are_found() {
    assert!(text::contains("abcab", "cab"));
    assert!(text::contains("abc", ""));
    assert!(text::contains("", ""));
    assert!(!text::contains("abc", "abcd"));
    assert!(!text::contains("aab", "ab-"));
    assert!(text::same("a", "a"));
    assert!(!text::same("a", "b"));
}

#[test]
fn numerals_are_decimal() {
    assert_eq!(text::decimal_u64(0), "0");
    assert_eq!(text::decimal_u64(1_234_567_890), "1234567890");
    assert_eq!(text::decimal_u64(u64::MAX), u64::MAX.to_string());
    assert_eq!(text::decimal_i64(i64::MIN), i64::MIN.to_string());
    assert_eq!(text::decimal_i64(-1), "-1");
    assert_eq!(text::decimal_i64(10), "10");
}

#[test]
fn parts_are_joined() {
    assert_eq!(text::join(&vec![], ", "), "");
    assert_eq!(text::join(&vec!["a".to_string()], ", "), "a");
    assert_eq!(text::join(&vec!["a".to_string(), "b".to_string(), "".to_string()], ", "), "a, b, ");
    assert_eq!(text::copy_optional(&Some("a".to_string())), Some("a".to_string()));
    assert_eq!(text::copy_optional(&None), None);
    assert_eq!(text::chars_of("a中"), vec!['a', '中']);
}

#[test]
fn documents_are_read() {
    let document = Json::decode(
        br#" {"a": "x", "n": -5, "big": 18446744073709551615, "half": 0.5, "e": 1e2,
             "list": [null, true], "a": "y"} "#,
    )
    .unwrap();
    assert_eq!(document.str_at("a"), Some("y"));
    assert_eq!(document.str_at("n"), None);
    assert_eq!(document.i64_at("n"), Some(-5));
    assert_eq!(document.u64_at("n"), None);
    assert_eq!(document.u64_at("big"), Some(u64::MAX));
    assert_eq!(document.i64_at("big"), None);
    assert_eq!(document.i64_at("half"), None);
    assert_eq!(document.i64_at("e"), None);
    assert_eq!(document.i64_at("none"), None);
    let list = document.get("list").unwrap().as_array().unwrap();
    assert!(matches!(list[0], Json::Null));
    assert!(matches!(list[1], Json::Bool(true)));
    assert!(document.get("list").unwrap().get("a").is_none());
    assert!(document.as_array().is_none());
    assert!(document.as_str().is_none());
}

#[test]
fn what_is_no_document_is_not_read() {
    for bytes in [&b""[..], b"{", b"nul", b"{} x", b"\"\xff\"", b"{'a': 1}", b"[1,]"] {
        assert!(Json::decode(bytes).is_none());
    }
}

#[test]
fn last_member_of_a_name_counts() {
    let document = Json::Object(vec![
        ("b".to_string(), Json::Number(Some(2))),
        ("a".to_string(), Json::Number(Some(1))),
        ("b".to_string(), Json::Bool(false)),
    ]);
    assert!(matches!(document.get("b"), Some(Json::Bool(false))));
    assert_eq!(document.encode(), br#"{"a":1,"b":false}"#);
}

#[test]
fn documents_are_written() {
    let document = Json::Array(vec![
        Json::Null,
        Json::Bool(true),
        Json::Number(Some(u64::MAX as i128)),
        Json::Number(Some(i64::MIN as i128)),
        Json::Text("a\"b\n".to_string()),
        Json::Object(vec![]),
    ]);
    assert_eq!(
        String::from_utf8(document.encode()).unwrap(),
        r#"[null,true,18446744073709551615,-9223372036854775808,"a\"b\n",{}]"#
    );
}

fn nested(levels: usize) -> Json {
    let mut document = Json::Null;
    for _ in 0..levels {
        document = Json::Array(vec![document]);
    }
    document
}

#[test]
fn documents_are_read_back_down_to_a_depth() {
    assert!(Json::decode(&nested(127).encode()).is_some());
    assert!(Json::decode(&nested(128).encode()).is_none());
}

#[test]
fn moments_are_written_down() {
    let epoch = Timestamp::new(0, 0).unwrap();
    assert_eq!(epoch.to_rfc3339(), "1970-01-01T00:00:00+00:00");
    let later = Timestamp::from_millis(1_700_000_000_123).unwrap();
    assert_eq!(later, Timestamp { secs: 1_700_000_000, nanos: 123_000_000 });
    assert_eq!(later.to_rfc3339(), "2023-11-14T22:13:20.123+00:00");
    assert_eq!(later.timestamp_millis(), 1_700_000_000_123);
}

#[test]
fn moments_have_a_range() {
    let last = Timestamp::from_millis(MAX_SECS * 1000 + 999).unwrap();
    assert_eq!(last, Timestamp { secs: MAX_SECS, nanos: 999_000_000 });
    assert_eq!(Timestamp::from_millis(MAX_SECS * 1000 + 1000), None);
    let first = Timestamp::from_millis(MIN_SECS * 1000).unwrap();
    assert_eq!(first, Timestamp { secs: MIN_SECS, nanos: 0 });
    assert_eq!(Timestamp::from_millis(MIN_SECS * 1000 - 1), None);
    assert_eq!(Timestamp::from_millis(i64::MIN), None);
    assert!(Timestamp::new(MAX_SECS, 999_999_999).is_some());
    assert_eq!(Timestamp::new(MAX_SECS + 1, 0), None);
    assert_eq!(Timestamp::new(MIN_SECS - 1, 0), None);
    assert_eq!(Timestamp::new(0, 1_000_000_000), None);
    // Both ends can be written down.
    let end = Timestamp::new(MAX_SECS, 999_999_999).unwrap().to_rfc3339();
    assert_eq!(end, "+262142-12-31T23:59:59.999999999+00:00");
    let start = Timestamp::new(MIN_SECS, 0).unwrap().to_rfc3339();
    assert_eq!(start, "-262143-01-01T00:00:00+00:00");
    assert_eq!(Timestamp::from_millis(-1).unwrap().timestamp_millis(), -1);
}
