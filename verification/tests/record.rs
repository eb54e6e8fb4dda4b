use tachyon::json::JsonMember;
use tachyon::record::{
    complete_columns, inspection_text, line_members, member_columns, oversize_notice, parse_line,
    LineMembers, MAX_INSPECT_BYTES,
};

fn nothing() -> LineMembers {
    LineMembers {
        time: None,
        timestamp: None,
        at_timestamp: None,
        level: None,
        severity: None,
        msg: None,
        message: None,
        log: None,
    }
}

fn text(s: &str) -> Option<JsonMember> {
    Some(JsonMember::Text(s.to_string()))
}

fn other(s: &str) -> Option<JsonMember> {
    Some(JsonMember::Other(s.to_string()))
}

fn columns(ts: &str, level: &str, msg: &str) -> (String, String, String) {
    (ts.to_string(), level.to_string(), msg.to_string())
}

#[test]
fn parse_line_extracts_common_json_fields() {
    let line = br#"{"time":"2026-03-13T12:00:00Z","level":"warn","message":"hello"}"#;
    let (ts, level, msg) = parse_line(line);
    assert_eq!(ts, "2026-03-13T12:00:00Z");
    assert_eq!(level, "WARN");
    assert_eq!(msg, "hello");
}

#[test]
fn parse_line_preserves_non_string_message_values() {
    let line = br#"{"time":"2026-03-13T12:00:00Z","level":"info","message":{"nested":true}}"#;
    let (ts, level, msg) = parse_line(line);
    assert_eq!(ts, "2026-03-13T12:00:00Z");
    assert_eq!(level, "INFO");
    assert_eq!(msg, r#"{"nested":true}"#);
}

#[test]
fn parse_line_falls_back_for_raw_text() {
    let (ts, level, msg) = parse_line(b"not json");
    assert_eq!(ts, "-");
    assert_eq!(level, "RAW");
    assert_eq!(msg, "not json");
}

#[test]
fn inspection_text_pretty_prints_json() {
    let rendered = inspection_text(br#"{"a":1}"#);
    assert!(rendered.contains('\n'));
    assert!(rendered.contains("\"a\": 1"));
}

#[test]
fn inspection_text_truncates_large_lines() {
    let long_line = vec![b'x'; MAX_INSPECT_BYTES + 1];
    let rendered = inspection_text(&long_line);
    assert!(rendered.contains("Line too large to inspect safely"));
    assert!(rendered.contains(&format!(
        "Showing first {} bytes only",
        MAX_INSPECT_BYTES
    )));
}

#[test]
fn inspection_text_of_large_lines_is_exact() {
    let long_line = vec![b'x'; MAX_INSPECT_BYTES + 1];
    let expected = format!(
        "Line too large to inspect safely (131073 bytes). Showing first 131072 bytes only.\n\n{}",
        "x".repeat(131072)
    );
    assert_eq!(inspection_text(&long_line), expected);
    let limit = vec![b'x'; MAX_INSPECT_BYTES];
    assert_eq!(inspection_text(&limit), "x".repeat(131072));
}

#[test]
fn inspection_text_keeps_other_lines() {
    assert_eq!(inspection_text(br#"{"a":1}"#), "{\n  \"a\": 1\n}");
    assert_eq!(inspection_text(b"[1,2]\n"), "[\n  1,\n  2\n]");
    assert_eq!(inspection_text(b"  not json \n"), "  not json \n");
    assert_eq!(inspection_text(b"a\xffb"), "a\u{fffd}b");
    assert_eq!(inspection_text(b""), "");
}

#[test]
fn parse_line_trims_raw_text_only_at_its_ends() {
    assert_eq!(parse_line(b" \t a b \r\n"), columns("-", "RAW", "a b"));
    assert_eq!(parse_line("\u{3000}a\u{a0}".as_bytes()), columns("-", "RAW", "a"));
    assert_eq!(parse_line(b"\xffx\n"), columns("-", "RAW", "\u{fffd}x"));
    assert_eq!(parse_line(b"   \n"), columns("-", "RAW", ""));
}

#[test]
fn parse_line_shows_the_line_where_members_tell_nothing() {
    assert_eq!(parse_line(b"{\"a\":1}\n"), columns("-", "INFO", "{\"a\":1}"));
    assert_eq!(parse_line(b"42\n"), columns("-", "INFO", "42"));
    assert_eq!(parse_line(b"{\"level\":\"info\"}"), columns("-", "INFO", "{\"level\":\"info\"}"));
    assert_eq!(parse_line(b"{\"level\":\"error\"}"), columns("-", "ERROR", ""));
    assert_eq!(parse_line(b"{\"time\":\"t\"}"), columns("t", "INFO", ""));
}

#[test]
fn parse_line_reads_every_key() {
    assert_eq!(parse_line(br#"{"timestamp":"t","msg":"m"}"#), columns("t", "INFO", "m"));
    assert_eq!(parse_line(br#"{"@timestamp":"t","log":"m"}"#), columns("t", "INFO", "m"));
    assert_eq!(parse_line(br#"{"severity":"debug","msg":7}"#), columns("-", "DEBUG", "7"));
    assert_eq!(parse_line("{\"level\":\"stra\u{df}e\",\"msg\":null}".as_bytes()), columns("-", "STRASSE", "null"));
}

#[test]
fn earlier_keys_hide_later_ones() {
    let members = LineMembers {
        time: other("1"),
        timestamp: text("t"),
        level: text("warn"),
        severity: text("error"),
        msg: text("first"),
        message: text("second"),
        log: text("third"),
        ..nothing()
    };
    assert_eq!(member_columns(members), columns("-", "WARN", "first"));
    assert_eq!(
        parse_line(br#"{"time":1,"timestamp":"t","message":"second","log":"third"}"#),
        columns("-", "INFO", "second")
    );
}

#[test]
fn member_columns_have_defaults() {
    assert_eq!(member_columns(nothing()), columns("-", "INFO", ""));
    let members = LineMembers { level: other("3"), log: other("[1]"), ..nothing() };
    assert_eq!(member_columns(members), columns("-", "INFO", "[1]"));
}

#[test]
fn line_members_are_read_from_objects() {
    let members = line_members(br#"{"time":"t","level":{"a" : 1},"log":"l"}"#).expect("valid JSON");
    assert!(matches!(members.time, Some(JsonMember::Text(ref t)) if t == "t"));
    assert!(matches!(members.level, Some(JsonMember::Other(ref t)) if t == "{\"a\":1}"));
    assert!(matches!(members.log, Some(JsonMember::Text(ref t)) if t == "l"));
    assert!(members.timestamp.is_none() && members.msg.is_none());
    assert!(line_members(b"[\"time\"]").expect("valid JSON").time.is_none());
    assert!(line_members(b"{").is_none());
}

#[test]
fn columns_are_completed_from_the_line() {
    assert_eq!(complete_columns(None, " a \n"), columns("-", "RAW", "a"));
    let blank = columns("-", "INFO", "");
    assert_eq!(complete_columns(Some(blank), " {} "), columns("-", "INFO", "{}"));
    let telling = columns("-", "WARN", "");
    assert_eq!(complete_columns(Some(telling), "x"), columns("-", "WARN", ""));
}

#[test]
fn the_notice_tells_both_sizes() {
    assert_eq!(
        oversize_notice(200000, "abc"),
        "Line too large to inspect safely (200000 bytes). Showing first 131072 bytes only.\n\nabc"
    );
}

fn followed_by(bytes: &[u8], end: &[u8]) -> Vec<u8> {
    let mut line = bytes.to_vec();
    line.extend_from_slice(end);
    line
}

#[test]
fn line_ends_never_show_in_columns() {
    let lines: [&[u8]; 10] = [
        br#"{"time":"t","level":"warn","message":"hello"}"#,
        br#"{"message":{"nested": [1, 2.50, "x "]}}"#,
        br#"{"other":1}"#,
        br#"{"other":"a\n"}"#,
        br#"{"open":"a"#,
        b"12",
        b"1e",
        b"tru",
        b"",
        b" not json ",
    ];
    for line in lines {
        let bare = parse_line(line);
        let ends: [&[u8]; 4] = [b"\n", b"\r\n", b" \t\r\n\n", b" "];
        for end in ends {
            assert_eq!(parse_line(&followed_by(line, end)), bare);
        }
    }
    assert_eq!(parse_line(b"not json\r\n"), columns("-", "RAW", "not json"));
}

#[test]
fn blanks_behind_any_bytes_are_decoded_to_themselves() {
    let heads = [
        0x00u8, 0x41, 0x7f, 0x80, 0x8f, 0x90, 0x9f, 0xa0, 0xbf, 0xc0, 0xc2, 0xdf, 0xe0, 0xe2, 0xed,
        0xef, 0xf0, 0xf1, 0xf4, 0xf5, 0xff,
    ];
    let mut strings: Vec<Vec<u8>> = Vec::new();
    for a in 0..=255u8 {
        for b in 0..=255u8 {
            strings.push(vec![a, b]);
        }
    }
    for a in heads {
        for b in heads {
            for c in heads {
                strings.push(vec![a, b, c]);
                for d in heads {
                    strings.push(vec![a, b, c, d]);
                }
            }
        }
    }
    for bytes in strings {
        let bytes = followed_by(b"#", &bytes);
        let text = inspection_text(&bytes);
        assert!(text.len() <= 3 * bytes.len());
        assert_eq!(inspection_text(&followed_by(&bytes, b"\r\n")), format!("{text}\r\n"));
        assert_eq!(parse_line(&followed_by(&bytes, b"\n")), parse_line(&bytes));
    }
}

#[test]
fn no_level_holds_a_small_ascii_letter() {
    for code in 0..=0x10ffffu32 {
        if let Some(c) = char::from_u32(code) {
            let level = member_columns(LineMembers {
                level: Some(JsonMember::Text(c.to_string())),
                ..nothing()
            })
            .1;
            assert!(!level.contains(|c: char| c.is_ascii_lowercase()));
        }
    }
    assert_eq!(parse_line("{\"level\":\"stra\u{df}e\"}".as_bytes()).1, "STRASSE");
    assert_eq!(parse_line(b"raw").1, "RAW");
}

#[test]
fn long_lines_show_only_their_head() {
    let mut a = vec![b'x'; MAX_INSPECT_BYTES + 9];
    let mut b = a.clone();
    a[MAX_INSPECT_BYTES] = b'a';
    b[MAX_INSPECT_BYTES + 8] = b'b';
    assert_eq!(inspection_text(&a), inspection_text(&b));
    b.push(b'c');
    assert_ne!(inspection_text(&a), inspection_text(&b));

    let mut json = vec![b' '; MAX_INSPECT_BYTES];
    json.extend_from_slice(b"{}");
    assert!(inspection_text(&json).starts_with("Line too large to inspect safely (131074 bytes)."));

    let notice = oversize_notice(MAX_INSPECT_BYTES + 1, "").len();
    let invalid = inspection_text(&vec![0xffu8; MAX_INSPECT_BYTES + 1]);
    assert_eq!(invalid.len(), notice + 3 * MAX_INSPECT_BYTES);
}

#[test]
fn inspected_json_reads_back() {
    let lines: [&str; 12] = [
        r#"{"b":[1,-2,{"c":[]}],"a":{},"a":"again"}"#,
        r#"{"time":"1.5","level":"e1E1","message":{"n":18446744073709551615}}"#,
        r#"[-9223372036854775808,0,10,9223372036854775808]"#,
        r#"{"msg":"quote \" slash \\ tab \t nul \u0000 smile 😀"}"#,
        "{\"msg\":\"\u{e9}\u{1f600}\u{7f}\"}",
        "true",
        "false",
        "null",
        "\"1.5e3\"",
        "[[[[[[]]]]]]",
        "12",
        " { } ",
    ];
    for line in lines {
        let text = inspection_text(line.as_bytes());
        assert_eq!(inspection_text(text.as_bytes()), text);
        assert_eq!(parse_line(text.as_bytes()).0, parse_line(line.as_bytes()).0);
        assert_eq!(parse_line(text.as_bytes()).1, parse_line(line.as_bytes()).1);
        let before: serde_json::Value = serde_json::from_str(line).unwrap();
        let after: serde_json::Value = serde_json::from_str(&text).unwrap();
        assert_eq!(after, before);
    }
    let deep = format!("{}{}", "[".repeat(127), "]".repeat(127));
    let text = inspection_text(deep.as_bytes());
    assert_ne!(text, deep);
    assert_eq!(inspection_text(text.as_bytes()), text);
}

#[test]
fn other_text_is_inspected_byte_for_byte() {
    for line in ["plain", " \u{e9}t\u{e9} \r\n", "{\"open\":1", "\u{1f600}", "1.5.5"] {
        assert_eq!(inspection_text(line.as_bytes()).as_bytes(), line.as_bytes());
        assert_eq!(parse_line(line.as_bytes()).2, line.trim());
    }
    let mut long = "\u{e9}".repeat(MAX_INSPECT_BYTES / 2).into_bytes();
    let head = long.clone();
    long.push(b'!');
    assert!(inspection_text(&long).as_bytes().ends_with(&head));
}
