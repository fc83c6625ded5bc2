use sjl::clock::Timestamp;
use sjl::colors::ColorSettings;
use sjl::context::{ConfigError, ContextStore};
use sjl::format::{flush_batch, format_log_line, write_log_line, FormatError, FormatState};
use sjl::json::append_nested;
use sjl::payload::Payload;
use sjl::record::Record;
use sjl::LogLevel;
use std::sync::Arc;

const PATTERN: &str = "%Y-%m-%dT%H:%M:%S%.3fZ";

fn instant() -> Timestamp {
    Timestamp::new(1761233445, 123_000_000)
}

fn state_with(pretty: bool, context: ContextStore) -> FormatState {
    FormatState::new(
        PATTERN.to_string(),
        "timestamp".to_string(),
        ColorSettings::default(),
        pretty,
        Arc::new(context),
    )
    .unwrap()
}

fn record(level: LogLevel, message: Option<&str>, payload: Payload) -> Record {
    Record::new(
        level,
        message.map(|m| m.to_string()),
        payload,
        instant(),
        Arc::new(ContextStore::new()),
    )
}

fn sample_context() -> ContextStore {
    let mut c = ContextStore::new();
    c.insert("environment".to_string(), Payload::Text("production".to_string())).unwrap();
    c.insert("service".to_string(), Payload::Text("order-api".to_string())).unwrap();
    c
}

#[test]
fn string_payload_without_message_is_promoted() {
    let state = state_with(false, ContextStore::new());
    let r = record(LogLevel::Info, None, Payload::Text("hello".to_string()));
    let line = format_log_line(&r, &state, false).unwrap();
    assert_eq!(
        line,
        r#"{"level":"INFO","timestamp":"2025-10-23T15:30:45.123Z","message":"hello"}"#
    );
    assert!(line.contains(r#""message":"hello""#));
    assert!(!line.contains(r#""data""#));
}

#[test]
fn string_payload_with_message_keeps_both() {
    let state = state_with(false, ContextStore::new());
    let r = record(LogLevel::Info, Some("greeting"), Payload::Text("hello".to_string()));
    let line = format_log_line(&r, &state, false).unwrap();
    assert_eq!(
        line,
        r#"{"level":"INFO","timestamp":"2025-10-23T15:30:45.123Z","message":"greeting","data":"hello"}"#
    );
}

#[test]
fn structured_payload_goes_under_data() {
    let state = state_with(false, ContextStore::new());
    let r = record(LogLevel::Error, None, Payload::Structured(r#"{"id":1,"name":"Alice"}"#.to_string()));
    let line = format_log_line(&r, &state, false).unwrap();
    assert_eq!(
        line,
        r#"{"level":"ERROR","timestamp":"2025-10-23T15:30:45.123Z","data":{"id":1,"name":"Alice"}}"#
    );
}

#[test]
fn context_values_follow_in_store_order() {
    let state = state_with(false, sample_context());
    let r = record(LogLevel::Warn, Some("m"), Payload::Structured("[1,2]".to_string()));
    let line = format_log_line(&r, &state, false).unwrap();
    assert_eq!(
        line,
        r#"{"level":"WARN","timestamp":"2025-10-23T15:30:45.123Z","message":"m","data":[1,2],"environment":"production","service":"order-api"}"#
    );
}

#[test]
fn compact_line_is_json_with_the_members_in_order() {
    let mut c = sample_context();
    c.insert("meta".to_string(), Payload::Structured(r#"{"pod":"a"}"#.to_string())).unwrap();
    let state = state_with(false, c);
    let r = record(LogLevel::Debug, Some("say \"hi\""), Payload::Structured("null".to_string()));
    let line = format_log_line(&r, &state, false).unwrap();
    let parsed: serde_json::Value = serde_json::from_str(&line).unwrap();
    assert_eq!(parsed["level"], serde_json::Value::String("DEBUG".to_string()));
    assert_eq!(parsed["message"], serde_json::Value::String("say \"hi\"".to_string()));
    assert_eq!(parsed["data"], serde_json::Value::Null);
    assert_eq!(parsed["meta"]["pod"], serde_json::Value::String("a".to_string()));
    let order: Vec<usize> = ["\"level\"", "\"timestamp\"", "\"message\"", "\"data\"", "\"environment\"", "\"service\"", "\"meta\""]
        .iter()
        .map(|k| line.find(k).unwrap())
        .collect();
    assert!(order.windows(2).all(|w| w[0] < w[1]));
}

#[test]
fn strings_are_escaped() {
    let state = state_with(false, ContextStore::new());
    let r = record(
        LogLevel::Info,
        Some("a\"b\\c\nd\te\u{1}f\u{8}g\u{c}h\ri\u{1f}j\u{7f}k\u{e9}"),
        Payload::Text("x\ny".to_string()),
    );
    let line = format_log_line(&r, &state, false).unwrap();
    assert_eq!(
        line,
        "{\"level\":\"INFO\",\"timestamp\":\"2025-10-23T15:30:45.123Z\",\"message\":\"a\\\"b\\\\c\\nd\\te\\u0001f\\bg\\fh\\ri\\u001fj\u{7f}k\u{e9}\",\"data\":\"x\\ny\"}"
    );
}

#[test]
fn terminal_line_paints_the_level_only() {
    let state = state_with(false, ContextStore::new());
    let r = record(LogLevel::Info, None, Payload::Text("hello".to_string()));
    let line = format_log_line(&r, &state, true).unwrap();
    assert_eq!(
        line,
        "{\"level\":\"\x1b[38;2;15;115;255mINFO\x1b[39m\",\"timestamp\":\"2025-10-23T15:30:45.123Z\",\"message\":\"hello\"}"
    );
}

#[test]
fn pretty_line_is_indented() {
    let mut c = ContextStore::new();
    c.insert("environment".to_string(), Payload::Text("production".to_string())).unwrap();
    c.insert(
        "metadata".to_string(),
        Payload::Structured(r#"{"pod":"x","tags":["a","b"],"none":{}}"#.to_string()),
    )
    .unwrap();
    let state = state_with(true, c);
    let r = record(
        LogLevel::Info,
        Some("User authenticated"),
        Payload::Structured(r#"{"id":1,"name":"Alice"}"#.to_string()),
    );
    let line = format_log_line(&r, &state, false).unwrap();
    let expected = "{\n  \"level\": \"INFO\",\n  \"timestamp\": \"2025-10-23T15:30:45.123Z\",\n  \"message\": \"User authenticated\",\n  \"data\": {\n    \"id\": 1,\n    \"name\": \"Alice\"\n  },\n  \"environment\": \"production\",\n  \"metadata\": {\n    \"none\": {},\n    \"pod\": \"x\",\n    \"tags\": [\n      \"a\",\n      \"b\"\n    ]\n  }\n}";
    assert_eq!(line, expected);
    let parsed: serde_json::Value = serde_json::from_str(&line).unwrap();
    assert_eq!(parsed["data"]["name"], serde_json::Value::String("Alice".to_string()));
}

#[test]
fn pretty_line_promotes_a_string_payload() {
    let state = state_with(true, ContextStore::new());
    let r = record(LogLevel::Debug, None, Payload::Text("App started".to_string()));
    let line = format_log_line(&r, &state, false).unwrap();
    assert_eq!(
        line,
        "{\n  \"level\": \"DEBUG\",\n  \"timestamp\": \"2025-10-23T15:30:45.123Z\",\n  \"message\": \"App started\"\n}"
    );
}

#[test]
fn pretty_line_on_a_terminal_paints_the_level() {
    let state = state_with(true, ContextStore::new());
    let r = record(LogLevel::Error, None, Payload::Structured("7".to_string()));
    let line = format_log_line(&r, &state, true).unwrap();
    assert_eq!(
        line,
        "{\n  \"level\": \"\x1b[38;2;255;0;0mERROR\x1b[39m\",\n  \"timestamp\": \"2025-10-23T15:30:45.123Z\",\n  \"data\": 7\n}"
    );
}

#[test]
fn pretty_line_keeps_text_that_is_not_json() {
    let state = state_with(true, ContextStore::new());
    let r = record(LogLevel::Info, None, Payload::Structured("{oops".to_string()));
    let line = format_log_line(&r, &state, false).unwrap();
    assert_eq!(
        line,
        "{\n  \"level\": \"INFO\",\n  \"timestamp\": \"2025-10-23T15:30:45.123Z\",\n  \"data\": {oops\n}"
    );
}

#[test]
fn nested_text_gets_two_more_spaces_after_each_line_break() {
    let mut out = String::from("x");
    append_nested(&mut out, "{\n  \"a\": 1\n}");
    assert_eq!(out, "x{\n    \"a\": 1\n  }");
    let mut plain = String::new();
    append_nested(&mut plain, "no breaks");
    assert_eq!(plain, "no breaks");
}

#[test]
fn custom_timestamp_key_and_pattern() {
    let state = FormatState::new(
        "%d/%m/%Y %H:%M".to_string(),
        "ts".to_string(),
        ColorSettings::default(),
        false,
        Arc::new(ContextStore::new()),
    )
    .unwrap();
    let r = record(LogLevel::Info, None, Payload::Structured("true".to_string()));
    assert_eq!(
        format_log_line(&r, &state, false).unwrap(),
        r#"{"level":"INFO","ts":"23/10/2025 15:30","data":true}"#
    );
    assert_eq!(state.timestamp_key(), "ts");
    assert_eq!(state.timestamp_format(), "%d/%m/%Y %H:%M");
    assert!(!state.pretty());
    assert_eq!(state.color_settings(), ColorSettings::default());
    assert_eq!(state.context().len(), 0);
}

#[test]
fn invalid_pattern_is_an_error() {
    let state = FormatState::new(
        "%Y-%".to_string(),
        "timestamp".to_string(),
        ColorSettings::default(),
        false,
        Arc::new(ContextStore::new()),
    )
    .unwrap();
    let r = record(LogLevel::Info, None, Payload::Text("x".to_string()));
    assert_eq!(format_log_line(&r, &state, false), Err(FormatError::Timestamp));
    let mut out = String::from("kept");
    assert_eq!(write_log_line(&mut out, &r, &state, false), Err(FormatError::Timestamp));
    assert_eq!(out, "kept");
}

#[test]
fn instant_outside_the_calendar_is_an_error() {
    let state = state_with(false, ContextStore::new());
    let r = Record::new(
        LogLevel::Info,
        None,
        Payload::Text("x".to_string()),
        Timestamp::new(i64::MAX, 0),
        Arc::new(ContextStore::new()),
    );
    assert_eq!(format_log_line(&r, &state, false), Err(FormatError::Timestamp));
    let nanos = Record::new(
        LogLevel::Info,
        None,
        Payload::Text("x".to_string()),
        Timestamp::new(0, 2_000_000_000),
        Arc::new(ContextStore::new()),
    );
    assert_eq!(format_log_line(&nanos, &state, false), Err(FormatError::Timestamp));
}

#[test]
fn epoch_renders_with_milliseconds() {
    let state = state_with(false, ContextStore::new());
    let r = Record::new(
        LogLevel::Info,
        None,
        Payload::Structured("0".to_string()),
        Timestamp::new(0, 1_999_999),
        Arc::new(ContextStore::new()),
    );
    assert_eq!(
        format_log_line(&r, &state, false).unwrap(),
        r#"{"level":"INFO","timestamp":"1970-01-01T00:00:00.001Z","data":0}"#
    );
}

#[test]
fn write_log_line_ends_the_line() {
    let state = state_with(false, ContextStore::new());
    let r = record(LogLevel::Info, None, Payload::Text("hello".to_string()));
    let mut out = String::from("before\n");
    assert_eq!(write_log_line(&mut out, &r, &state, false), Ok(()));
    assert_eq!(
        out,
        "before\n{\"level\":\"INFO\",\"timestamp\":\"2025-10-23T15:30:45.123Z\",\"message\":\"hello\"}\n"
    );
}

#[test]
fn flush_batch_writes_lines_in_arrival_order() {
    let state = state_with(false, ContextStore::new());
    let batch = vec![
        record(LogLevel::Info, None, Payload::Structured("1".to_string())),
        record(LogLevel::Warn, None, Payload::Structured("2".to_string())),
        record(LogLevel::Error, None, Payload::Structured("3".to_string())),
    ];
    let out = flush_batch(&batch, &state, false);
    assert_eq!(out.failed, 0);
    assert_eq!(
        out.text,
        "{\"level\":\"INFO\",\"timestamp\":\"2025-10-23T15:30:45.123Z\",\"data\":1}\n\
         {\"level\":\"WARN\",\"timestamp\":\"2025-10-23T15:30:45.123Z\",\"data\":2}\n\
         {\"level\":\"ERROR\",\"timestamp\":\"2025-10-23T15:30:45.123Z\",\"data\":3}\n"
    );
}

#[test]
fn flush_batch_of_nothing_writes_nothing() {
    let state = state_with(false, ContextStore::new());
    let out = flush_batch(&Vec::new(), &state, false);
    assert_eq!(out.text, "");
    assert_eq!(out.failed, 0);
}

#[test]
fn flush_batch_counts_what_it_cannot_render() {
    let state = state_with(false, ContextStore::new());
    let bad = Record::new(
        LogLevel::Info,
        None,
        Payload::Structured("2".to_string()),
        Timestamp::new(i64::MIN, 0),
        Arc::new(ContextStore::new()),
    );
    let batch = vec![
        record(LogLevel::Info, None, Payload::Structured("1".to_string())),
        bad,
        record(LogLevel::Info, None, Payload::Structured("3".to_string())),
    ];
    let out = flush_batch(&batch, &state, false);
    assert_eq!(out.failed, 1);
    assert_eq!(
        out.text,
        "{\"level\":\"INFO\",\"timestamp\":\"2025-10-23T15:30:45.123Z\",\"data\":1}\n\
         {\"level\":\"INFO\",\"timestamp\":\"2025-10-23T15:30:45.123Z\",\"data\":3}\n"
    );
}

#[test]
fn format_state_refuses_a_taken_timestamp_key() {
    for key in ["level", "context", "message", "data"] {
        let made = FormatState::new(
            PATTERN.to_string(),
            key.to_string(),
            ColorSettings::default(),
            false,
            Arc::new(ContextStore::new()),
        );
        assert_eq!(made.err(), Some(ConfigError::TimestampKeyTaken));
    }
    let made = FormatState::new(
        PATTERN.to_string(),
        "service".to_string(),
        ColorSettings::default(),
        false,
        Arc::new(sample_context()),
    );
    assert_eq!(made.err(), Some(ConfigError::TimestampKeyTaken));
}

#[test]
fn compact_line_never_breaks() {
    let mut c = ContextStore::new();
    c.insert("multi\nline key".to_string(), Payload::Text("a\nb".to_string())).unwrap();
    let state = FormatState::new(
        "%Y%n%m%t%d".to_string(),
        "time\nstamp".to_string(),
        ColorSettings::default(),
        false,
        Arc::new(c),
    )
    .unwrap();
    let r = record(LogLevel::Warn, Some("first\nsecond"), Payload::Text("third\r\nfourth".to_string()));
    for tty in [false, true] {
        let line = format_log_line(&r, &state, tty).unwrap();
        assert!(!line.contains('\n'));
    }
    let mut out = String::new();
    write_log_line(&mut out, &r, &state, false).unwrap();
    assert_eq!(out.matches('\n').count(), 1);
    assert!(out.ends_with("}\n"));
    assert!(out.contains("\"time\\nstamp\":\"2025\\n10\\t23\""));
}

#[test]
fn member_names_are_distinct() {
    let state = state_with(false, sample_context());
    let r = record(LogLevel::Info, Some("m"), Payload::Text("d".to_string()));
    let line = format_log_line(&r, &state, false).unwrap();
    for name in ["level", "timestamp", "message", "data", "environment", "service"] {
        assert_eq!(line.matches(&format!("\"{}\":", name)).count(), 1);
    }
    let promoted = record(LogLevel::Info, None, Payload::Text("d".to_string()));
    let line = format_log_line(&promoted, &state, false).unwrap();
    assert_eq!(line.matches("\"message\":").count(), 1);
    assert_eq!(line.matches("\"data\":").count(), 0);
}

#[test]
fn flushing_in_two_batches_gives_the_same_text_as_in_one() {
    let state = state_with(false, sample_context());
    let make = |n: u32| record(LogLevel::Info, None, Payload::Structured(n.to_string()));
    let whole = flush_batch(&vec![make(1), make(2), make(3)], &state, false);
    let first = flush_batch(&vec![make(1)], &state, false);
    let second = flush_batch(&vec![make(2), make(3)], &state, false);
    assert_eq!(whole.text, first.text + &second.text);
    assert_eq!(whole.failed, first.failed + second.failed);
}

#[test]
fn plain_text_is_quoted_unchanged() {
    let state = state_with(false, ContextStore::new());
    let r = record(LogLevel::Info, None, Payload::Text("plain text, 123 ~ /".to_string()));
    let line = format_log_line(&r, &state, false).unwrap();
    assert!(line.ends_with(",\"message\":\"plain text, 123 ~ /\"}"));
}

fn quoted_by_rule(s: &str) -> String {
    let mut out = String::from("\"");
    for c in s.chars() {
        match c {
            '"' => out.push_str("\\\""),
            '\\' => out.push_str("\\\\"),
            '\u{8}' => out.push_str("\\b"),
            '\u{c}' => out.push_str("\\f"),
            '\n' => out.push_str("\\n"),
            '\r' => out.push_str("\\r"),
            '\t' => out.push_str("\\t"),
            c if (c as u32) < 0x20 => {
                let digits = b"0123456789abcdef";
                out.push_str("\\u00");
                out.push(digits[(c as usize) / 16] as char);
                out.push(digits[(c as usize) % 16] as char);
            }
            c => out.push(c),
        }
    }
    out.push('"');
    out
}

#[test]
fn every_character_is_quoted_by_the_stated_rule() {
    let mut all = String::new();
    for code in 0u32..0x300 {
        all.push(char::from_u32(code).unwrap());
    }
    all.push('\u{2028}');
    all.push('\u{ffff}');
    all.push('\u{1f600}');
    for code in 0u32..0x80 {
        let one = char::from_u32(code).unwrap().to_string();
        let mut out = String::new();
        sjl::payload::append_member_name(&mut out, &one, false);
        assert_eq!(out, format!(",{}:", quoted_by_rule(&one)));
    }
    let mut out = String::new();
    sjl::payload::append_member_name(&mut out, &all, true);
    assert_eq!(out, format!(",\n  {}: ", quoted_by_rule(&all)));
    let mut empty = String::new();
    sjl::payload::append_member_name(&mut empty, "", false);
    assert_eq!(empty, ",\"\":");
}
