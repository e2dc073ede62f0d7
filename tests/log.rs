use rustcraft::log::{format_line, owner_field, pad_left, pad_right, Level, Logger};

#[test]
fn padding() {
    assert_eq!(pad_left("ab", 5), "   ab");
    assert_eq!(pad_right("ab", 5), "ab   ");
    assert_eq!(pad_left("abcdef", 3), "abcdef");
    assert_eq!(pad_right("", 2), "  ");
    assert_eq!(pad_left("né", 3), " né");
}

#[test]
fn level_order_and_tags() {
    assert!(Level::Error.at_least(Level::Warn));
    assert!(Level::Info.at_least(Level::Info));
    assert!(!Level::Debug.at_least(Level::Info));
    assert_eq!(Level::Debug.tag(), "[DEBUG]");
    assert_eq!(Level::Info.tag(), "[INFO]");
    assert_eq!(Level::Warn.tag(), "[WARN]");
    assert_eq!(Level::Error.tag(), "[ERROR]");
}

#[test]
fn record_line_layout() {
    let line = format_line("2024-01-02 03:04:05", Level::Info, "app", "hello");
    let expected = format!("2024-01-02 03:04:05 [INFO]  {:>60} |: hello", "app");
    assert_eq!(line, expected);
    let line = format_line("t", Level::Debug, "o", "m");
    assert_eq!(line, format!("t [DEBUG] {:>60} |: m", "o"));
}

#[test]
fn owner_with_thread_name() {
    assert_eq!(owner_field("App", "render"), format!("App @{:<20}", "render"));
}

#[test]
fn logger_filters_below_level() {
    let mut l = Logger::new();
    assert_eq!(l.level, Level::Info);
    assert_eq!(l.record("t", Level::Debug, "o", "m"), None);
    assert_eq!(l.record("t", Level::Warn, "o", "m"), Some(format!("t [WARN]  {:>60} |: m", "o")));
    l.set_level(Level::Debug);
    assert!(l.record("t", Level::Debug, "o", "m").is_some());
    l.set_level(Level::Error);
    assert_eq!(l.record("t", Level::Warn, "o", "m"), None);
}

#[test]
fn file_records_end_with_newline() {
    let mut l = Logger::new();
    l.set_file(Some(String::from("out.log")));
    assert_eq!(l.record("t", Level::Error, "o", "m"), Some(format!("t [ERROR] {:>60} |: m\n", "o")));
    l.set_file(None);
    assert_eq!(l.file, None);
}
