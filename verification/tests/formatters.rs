use logform::{
    align, colorize, combine, ignore_private, json, pretty_print, printf, simple, timestamp,
    volume, Format, FormatOptions, LogInfo, TemplatePart, Value,
};

#[test]
fn test_align_format() {
    // Initialize the formatter
    let formatter = align();

    // Example log info
    let info = LogInfo::new("info", "Test message").add_meta("key", Value::string("value"));

    // Apply the align formatter
    let result = formatter.transform(info, None).unwrap();
    println!("Aligned message: {}", result.message);

    // Verify that the message starts with a tab character
    assert!(result.message.starts_with('\t'));
    assert_eq!(result.message, "\tTest message");
}

#[test]
fn test_colorize_formatter() {
    // Force colored output even if not in a TTY environment
    colored::control::set_override(true);

    let formatter = colorize()
        .with_option_value(
            "colors",
            Value::Obj(vec![
                ("info".to_string(), Value::string("blue")),
                (
                    "error".to_string(),
                    Value::Arr(vec![Value::string("red"), Value::string("bold")]),
                ),
            ]),
        )
        .with_option("all", "true");

    let info = LogInfo::new("info", "This is an info message").add_meta("key", Value::string("value"));

    let result = formatter.transform(info, None).unwrap();
    println!("Colorized info: {} - {}", result.level, result.message);

    let error_info = LogInfo::new("error", "This is an error message");

    let result_error = formatter.transform(error_info, None).unwrap();
    println!(
        "Colorized error: {} - {}",
        result_error.level, result_error.message
    );
}

#[test]
fn test_combine_formatters() {
    // Combine timestamp and simple
    let combined_formatter = combine(vec![timestamp(), simple()]);

    let info = LogInfo::new("info", "Test message").add_meta("key", Value::string("value"));

    let result = combined_formatter.transform(info, None).unwrap();
    println!("{}", result.message);
}

#[test]
fn format_test_custom_format() {
    let scream = volume();

    let scream_opts = FormatOptions::new().insert("yell", Value::string("true"));

    let info = LogInfo::new("info", "sorry for making you YELL in your head!");

    let result = scream.transform(info, Some(scream_opts)).unwrap();
    println!("{}", result.message);
    assert_eq!(result.message, "SORRY FOR MAKING YOU YELL IN YOUR HEAD!");

    let whisper = volume();
    let whisper_opts = FormatOptions::new().insert("whisper", Value::string("true"));

    let info2 = LogInfo::new("info", "WHY ARE THEY MAKING US YELL SO MUCH!");

    let result2 = whisper.transform(info2, Some(whisper_opts)).unwrap();
    println!("{}", result2.message);
    assert_eq!(result2.message, "why are they making us yell so much!");
}

#[test]
fn format_test_ignore_private() {
    let format = ignore_private();

    let public_info =
        LogInfo::new("error", "Public error to share").add_meta("private", Value::string("false"));

    let result = format.transform(public_info, None);
    assert!(result.is_some());
    println!("{}", result.unwrap().message);

    let private_info = LogInfo::new("error", "This is super secret - hide it.")
        .add_meta("private", Value::string("true"));

    let result = format.transform(private_info, None);
    assert!(result.is_none());
}

#[test]
fn format_mtbl_test_custom_format() {
    let volume_format = volume();

    let scream_opts = FormatOptions::new().insert("yell", Value::string("true"));
    let info = LogInfo::new("info", "sorry for making you YELL in your head!");
    let result = volume_format.transform(info, Some(scream_opts)).unwrap();
    println!("{}: {}", result.level, result.message);
    assert_eq!(result.message, "SORRY FOR MAKING YOU YELL IN YOUR HEAD!");

    let whisper_opts = FormatOptions::new().insert("whisper", Value::string("true"));
    let info2 = LogInfo::new("info", "WHY ARE THEY MAKING US YELL SO MUCH!");
    let result2 = volume_format.transform(info2, Some(whisper_opts)).unwrap();
    println!("{}: {}", result2.level, result2.message);
    assert_eq!(result2.message, "why are they making us yell so much!");
}

#[test]
fn format_mtbl_test_ignore_private() {
    let format = ignore_private();

    let public_info = LogInfo::new("error", "Public error to share")
        .add_meta("private", Value::string("false"));
    let result = format.transform(public_info, None);
    assert!(result.is_some());

    let private_info = LogInfo::new("error", "This is super secret - hide it.")
        .add_meta("private", Value::string("true"));
    let result = format.transform(private_info, None);
    assert!(result.is_none());
}

#[test]
fn test_format_options() {
    let options = FormatOptions::new()
        .insert("verbose", Value::Bool(true))
        .insert("log_level", Value::string("info"))
        .insert("timeout", Value::Int(30))
        .insert(
            "tags",
            Value::Arr(vec![Value::string("important"), Value::string("urgent")]),
        )
        .insert(
            "metadata",
            Value::Obj(vec![
                ("user".to_string(), Value::string("admin")),
                ("process_id".to_string(), Value::Int(1234)),
            ]),
        );

    if options.get_bool("verbose").unwrap_or(false) {
        println!("Verbose logging enabled");
    }
    assert_eq!(options.get_bool("verbose"), Some(true));

    let log_level = options
        .get_string("log_level")
        .unwrap_or_else(|| "warning".to_string());
    assert_eq!(log_level, "info");
    let timeout = options.get_number("timeout").unwrap_or(60);
    assert_eq!(timeout, 30);

    let tags = options.get_array("tags").unwrap();
    assert_eq!(tags.len(), 2);
    for tag in tags {
        if let Value::Str(s) = tag {
            println!("Tag: {}", s);
        }
    }

    let metadata = options.get_object("metadata").unwrap();
    let user = metadata
        .iter()
        .find(|(k, _)| k == "user")
        .map(|(_, v)| v)
        .unwrap();
    if let Value::Str(s) = user {
        println!("User: {}", s);
        assert_eq!(s, "admin");
    } else {
        panic!("user entry should be a string");
    }
}

#[test]
fn test_json_formatter() {
    let formatter = json();

    let info = LogInfo::new("info", "User logged in")
        .add_meta("user_id", Value::Int(12345))
        .add_meta("session_id", Value::string("abcde12345"));

    let result = formatter.transform(info, None).unwrap();
    println!("{}", result.message);

    assert_eq!(
        result.message,
        "{\"level\":\"info\",\"message\":\"User logged in\",\"user_id\":12345,\"session_id\":\"abcde12345\"}"
    );
}

#[test]
fn test_pretty_print_formatter() {
    let formatter = pretty_print().with_option("colorize", "true");

    let info = LogInfo::new("info", "User logged in")
        .add_meta("user_id", Value::Int(12345))
        .add_meta("session_id", Value::string("abcde12345"))
        .add_meta(
            "extra_info",
            Value::Obj(vec![
                ("null".to_string(), Value::Null),
                ("number".to_string(), Value::Int(1)),
                ("boolean".to_string(), Value::Bool(true)),
                (
                    "inner_object".to_string(),
                    Value::Obj(vec![
                        ("null".to_string(), Value::Null),
                        ("number".to_string(), Value::Int(1)),
                        ("boolean".to_string(), Value::Bool(true)),
                    ]),
                ),
            ]),
        )
        .add_meta(
            "an array",
            Value::Arr(vec![
                Value::string("abcde12345"),
                Value::Bool(true),
                Value::Int(2),
            ]),
        )
        .add_meta("empty object", Value::Obj(vec![]))
        .add_meta("empty array", Value::Arr(vec![]));

    let result = formatter.transform(info, None).unwrap();
    println!("{}", result.message);
}

#[test]
fn test_printf_formatter() {
    let formatter = printf(vec![
        TemplatePart::Level,
        TemplatePart::Lit(" - ".to_string()),
        TemplatePart::Message,
        TemplatePart::Lit(": ".to_string()),
        TemplatePart::MetaJson,
    ]);

    let info = LogInfo::new("info", "This is a message").add_meta("key", Value::string("value"));

    let result = formatter.transform(info, None).unwrap();
    println!("{}", result.message);
    assert_eq!(
        result.message,
        "info - This is a message: {\"key\":\"value\"}"
    );
}

#[test]
fn test_simple_formatter() {
    let formatter = simple();

    let info = LogInfo::new("info", "User logged in")
        .add_meta("user_id", Value::Int(12345))
        .add_meta("session_id", Value::string("abcde12345"))
        .add_meta(
            "padding",
            Value::Obj(vec![("info".to_string(), Value::string("    "))]),
        );

    let result = formatter.transform(info, None).unwrap();
    println!("{}", result.message);

    assert_eq!(
        result.message,
        "info:     User logged in {\"user_id\":12345,\"session_id\":\"abcde12345\"}"
    );
}

#[test]
fn test_timestamp_format() {
    let formatter = timestamp();

    let info = LogInfo::new("info", "This is a log message");

    let result = formatter.transform(info, None).unwrap();
    let stamp = result.get_meta_string("timestamp");
    assert!(stamp.is_some());
    println!("{}", stamp.unwrap());

    let custom_opts = FormatOptions::new()
        .insert("format", Value::string("%d/%m/%Y %H:%M:%S"))
        .insert("alias", Value::string("log_time"));

    let info2 = LogInfo::new("info", "Another log message");

    let result2 = formatter.transform(info2, Some(custom_opts)).unwrap();
    let stamp2 = result2.get_meta_string("log_time");
    assert!(stamp2.is_some());
    println!("{}", stamp2.unwrap());
}

#[test]
fn test_uncolorize_formatter() {
    // Force colored output even if not in a TTY environment
    colored::control::set_override(true);

    // Step 1: Colorize
    let colorizer = colorize()
        .with_option_value(
            "colors",
            Value::Obj(vec![
                ("info".to_string(), Value::Arr(vec![Value::string("blue")])),
                (
                    "error".to_string(),
                    Value::Arr(vec![Value::string("red"), Value::string("bold")]),
                ),
            ]),
        )
        .with_option("all", "true");

    let info = LogInfo::new("info", "This is an info message").add_meta("key", Value::string("value"));

    let colorized_info = colorizer.transform(info, None).unwrap();

    // Print for verification
    println!("Colorized level: {}", colorized_info.level);
    println!("Colorized message: {}", colorized_info.message);

    // Step 2: Uncolorize
    let uncolorizer = logform::uncolorize();
    let uncolorized_info = uncolorizer
        .transform(colorized_info.duplicate(), None)
        .unwrap();

    println!("Uncolored level: {}", uncolorized_info.level);
    println!("Uncolored message: {}", uncolorized_info.message);

    // Assertions
    assert_eq!(uncolorized_info.level, "info");
    assert_eq!(uncolorized_info.message, "This is an info message");
}

#[test]
pub fn initialize_and_test_formats() {
    let log_info = LogInfo::new("info", "This is a test message");

    let format = combine(vec![
        timestamp(),
        colorize()
            .with_option_value(
                "colors",
                Value::Obj(vec![
                    ("info".to_string(), Value::Arr(vec![Value::string("blue")])),
                    (
                        "error".to_string(),
                        Value::Arr(vec![Value::string("red"), Value::string("bold")]),
                    ),
                ]),
            )
            .with_option("all", "true"),
        printf(vec![
            TemplatePart::MetaText("timestamp".to_string()),
            TemplatePart::Lit(" - ".to_string()),
            TemplatePart::Level,
            TemplatePart::Lit(": ".to_string()),
            TemplatePart::Message,
        ]),
    ]);

    let log_info = format.transform(log_info, None).unwrap();
    println!("{}", log_info.message);
}

#[test]
fn test_json() {
    let log_info = LogInfo::new("info", "This is a test message");

    // Apply the simple format
    let simple_format = simple();
    let log_info = simple_format.transform(log_info, None).unwrap();
    println!("Simple format: {}", log_info.message);

    // Reset log_info for JSON format
    let log_info = LogInfo::new("info", "This is a test message");

    // Apply the JSON format
    let json_format = json();
    let log_info = json_format.transform(log_info, None).unwrap();
    println!("JSON format: {}", log_info.message);
}

#[test]
fn combine_rejects_nothing_without_members() {
    let f: Format = combine(vec![]);
    let info = LogInfo::new("warn", "untouched").add_meta("k", Value::Int(7));
    let out = f.transform(info, None).unwrap();
    assert_eq!(out.level, "warn");
    assert_eq!(out.message, "untouched");
    assert_eq!(out.get_meta_number("k"), Some(7));
}
