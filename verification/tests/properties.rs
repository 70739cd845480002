use logform::{
    align, colorize, combine, ignore_private, json, ms, pretty_print, timestamp, uncolorize,
    LogInfo, Value,
};

#[test]
fn pipeline_matches_sequential_calls() {
    let record = LogInfo::new("note", "stepwise").add_meta("k", Value::string("v"));
    let record2 = record.duplicate();

    let sequential = {
        let first = align().transform(record, None).unwrap();
        json().transform(first, None).unwrap()
    };
    let combined = combine(vec![align(), json()])
        .transform(record2, None)
        .unwrap();

    assert_eq!(sequential.level, combined.level);
    assert_eq!(sequential.message, combined.message);
}

#[test]
fn call_options_override_bound_options() {
    // Bound pattern writes a bare year; the call pattern must win.
    let formatter = timestamp().with_option("format", "%Y");
    let call_opts = logform::FormatOptions::new()
        .insert("format", Value::string("%d/%m/%Y %H:%M:%S"));

    let out = formatter
        .transform(LogInfo::new("info", "m"), Some(call_opts))
        .unwrap();
    let stamp = out.get_meta_string("timestamp").unwrap();
    assert!(
        chrono::NaiveDateTime::parse_from_str(&stamp, "%d/%m/%Y %H:%M:%S").is_ok(),
        "timestamp {} should follow the call-time pattern",
        stamp
    );
}

#[test]
fn suppressed_record_reaches_no_later_stage() {
    let record = LogInfo::new("error", "secret").add_meta("private", Value::Bool(true));

    let direct = ignore_private().transform(record.duplicate(), None);
    assert!(direct.is_none());

    let pipeline = combine(vec![ignore_private(), json()]);
    let out = pipeline.transform(record, None);
    assert!(out.is_none());
}

#[test]
fn timestamp_injects_parsable_time_under_alias() {
    let formatter = timestamp().with_option("alias", "t");
    let out = formatter
        .transform(LogInfo::new("info", "m"), None)
        .unwrap();
    assert_eq!(out.level, "info");
    assert_eq!(out.message, "m");
    let stamp = out.get_meta_string("t").expect("metadata t should be present");
    assert!(
        chrono::NaiveDateTime::parse_from_str(&stamp, "%Y-%m-%d %H:%M:%S").is_ok(),
        "timestamp {} should follow the default pattern",
        stamp
    );
}

#[test]
fn colorize_uncolorize_round_trip() {
    colored::control::set_override(true);
    let colors = Value::Obj(vec![(
        "error".to_string(),
        Value::Arr(vec![Value::string("red"), Value::string("bold")]),
    )]);
    let colorized = colorize()
        .with_option_value("colors", colors)
        .with_option("all", "true")
        .transform(LogInfo::new("error", "plain text"), None)
        .unwrap();
    let restored = uncolorize().transform(colorized, None).unwrap();
    assert_eq!(restored.level, "error");
    assert_eq!(restored.message, "plain text");
}

#[test]
fn colorize_wraps_level_in_escape_codes() {
    colored::control::set_override(true);
    let colors = Value::Obj(vec![("info".to_string(), Value::string("blue"))]);
    let out = colorize()
        .with_option_value("colors", colors)
        .with_option("level", "true")
        .transform(LogInfo::new("info", "msg"), None)
        .unwrap();
    assert_eq!(out.level, "\u{1b}[34minfo\u{1b}[0m");
    assert_eq!(out.message, "msg");
}

#[test]
fn uncolorize_strips_literal_escape_codes() {
    let record = LogInfo::new("\u{1b}[31merror\u{1b}[0m", "say \u{1b}[1;34mhi\u{1b}[0m there");
    let out = uncolorize().transform(record, None).unwrap();
    assert_eq!(out.level, "error");
    assert_eq!(out.message, "say hi there");
}

#[test]
fn uncolorize_can_leave_fields_alone() {
    let record = LogInfo::new("\u{1b}[31me\u{1b}[0m", "\u{1b}[31mm\u{1b}[0m");
    let out = uncolorize()
        .with_option("level", "false")
        .transform(record, None)
        .unwrap();
    assert_eq!(out.level, "\u{1b}[31me\u{1b}[0m");
    assert_eq!(out.message, "m");
}

#[test]
fn elapsed_time_grows_with_the_clock() {
    let formatter = ms();
    let first = formatter
        .transform(LogInfo::new("info", "a"), None)
        .unwrap();
    assert!(first.get_meta_string("ms").is_some());

    // Busy-wait a known span, then measure again.
    let start = std::time::Instant::now();
    while start.elapsed().as_millis() < 60 {}

    let second = formatter
        .transform(LogInfo::new("info", "b"), None)
        .unwrap();
    let text = second.get_meta_string("ms").unwrap();
    assert!(text.starts_with('+') && text.ends_with("ms"));
    let millis: u64 = text[1..text.len() - 2].parse().unwrap();
    assert!(millis >= 50, "measured {} ms, expected at least 50", millis);
}

#[test]
fn json_escapes_special_characters() {
    let out = json()
        .transform(LogInfo::new("x", "a\"b\\c\nd"), None)
        .unwrap();
    assert_eq!(
        out.message,
        "{\"level\":\"x\",\"message\":\"a\\\"b\\\\c\\nd\"}"
    );
}

#[test]
fn json_renders_numbers_and_nulls() {
    let out = json()
        .transform(
            LogInfo::new("n", "num")
                .add_meta("neg", Value::Int(-42))
                .add_meta("min", Value::Int(i64::MIN))
                .add_meta("none", Value::Null),
            None,
        )
        .unwrap();
    assert_eq!(
        out.message,
        "{\"level\":\"n\",\"message\":\"num\",\"neg\":-42,\"min\":-9223372036854775808,\"none\":null}"
    );
}

#[test]
fn metadata_keys_overwrite_and_remove() {
    let record = LogInfo::new("i", "m")
        .add_meta("a", Value::Int(1))
        .add_meta("a", Value::Int(2))
        .add_meta("b", Value::string("x"))
        .remove_meta("b");
    assert_eq!(record.get_meta_number("a"), Some(2));
    assert!(record.get_meta("b").is_none());
    assert_eq!(record.get_meta_bool("a"), None);
    assert_eq!(record.get_meta_string("a"), None);
}

#[test]
fn align_prefixes_empty_message() {
    let out = align().transform(LogInfo::new("i", ""), None).unwrap();
    assert_eq!(out.message, "\t");
}

#[test]
fn pretty_print_indents_plain_records() {
    let out = pretty_print()
        .transform(LogInfo::new("i", "m"), None)
        .unwrap();
    assert_eq!(out.message, "{\n  \"level\": \"i\",\n  \"message\": \"m\"\n}");
}

#[test]
fn simple_without_extra_metadata_has_no_tail() {
    let out = logform::simple()
        .transform(LogInfo::new("info", "hello"), None)
        .unwrap();
    assert_eq!(out.message, "info: hello");
}

#[test]
fn pretty_print_coloring_keeps_the_stripped_text() {
    colored::control::set_override(true);
    let record = LogInfo::new("info", "msg").add_meta("k", Value::Int(1));
    let plain = pretty_print()
        .transform(record.duplicate(), None)
        .unwrap()
        .message;
    let colored_record = pretty_print()
        .with_option("colorize", "true")
        .transform(record, None)
        .unwrap();
    let stripped = uncolorize().transform(colored_record, None).unwrap();
    assert_eq!(stripped.message, plain);
}

#[test]
fn create_format_binds_options_up_front() {
    let opts = logform::FormatOptions::new().insert("alias", Value::string("at"));
    let f = logform::create_format(logform::FormatKind::Timestamp, Some(opts));
    let out = f.transform(LogInfo::new("i", "m"), None).unwrap();
    assert!(out.get_meta_string("at").is_some());

    let f2 = logform::Format::new(logform::FormatKind::Align, None);
    let out2 = f2.transform(LogInfo::new("i", "m"), None).unwrap();
    assert_eq!(out2.message, "\tm");
}
