use logform::{Colorizer, FormatOptions, LogFormat, LogInfo, Value};

#[test]
fn colorizer_colors_only_known_levels() {
    colored::control::set_override(true);
    let opts = FormatOptions::new().insert(
        "colors",
        Value::Obj(vec![("info".to_string(), Value::string("blue"))]),
    );
    let colorizer = Colorizer::new(Some(opts));

    let painted = colorizer.colorize("info", "hello");
    assert_eq!(painted, "\u{1b}[34mhello\u{1b}[0m");

    let untouched = colorizer.colorize("unknown", "hello");
    assert_eq!(untouched, "hello");
}

#[test]
fn colorizer_add_colors_extends_the_map() {
    colored::control::set_override(true);
    let mut colorizer = Colorizer::new(None);
    assert_eq!(colorizer.colorize("warn", "w"), "w");

    colorizer.add_colors(&vec![("warn".to_string(), Value::string("yellow"))]);
    assert_eq!(colorizer.colorize("warn", "w"), "\u{1b}[33mw\u{1b}[0m");
}

#[test]
fn colorizer_merge_options_turns_flags_on() {
    colored::control::set_override(true);
    let opts = FormatOptions::new().insert(
        "colors",
        Value::Obj(vec![("info".to_string(), Value::string("blue"))]),
    );
    let mut colorizer = Colorizer::new(Some(opts));

    // Without a flag nothing is touched.
    let plain = colorizer
        .transform(LogInfo::new("info", "text"), None)
        .unwrap();
    assert_eq!(plain.level, "info");
    assert_eq!(plain.message, "text");

    // A call-time flag turns message coloring on.
    let call = FormatOptions::new().insert("message", Value::string("true"));
    let colored_out = colorizer
        .transform(LogInfo::new("info", "text"), Some(call))
        .unwrap();
    assert_eq!(colored_out.level, "info");
    assert_eq!(colored_out.message, "\u{1b}[34mtext\u{1b}[0m");
}

#[test]
fn formats_transform_through_the_trait() {
    let formatter: Box<logform::Format> = Box::new(logform::align());
    let out = LogFormat::transform(&*formatter, LogInfo::new("i", "m"), None).unwrap();
    assert_eq!(out.message, "\tm");
}
