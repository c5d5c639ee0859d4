use hangar_dashboard::log::{
    determine_log_level, format_timestamp, parse_log_line, render_log_line, render_log_text,
    LogDisplay, LogLevel, LogPanel,
};

#[test]
fn timestamped_line_is_split() {
    let (ts, msg) = parse_log_line("2024-05-01T12:30:45.123456Z   server started  ");
    assert_eq!(ts, "2024-05-01T12:30:45.123456Z");
    assert_eq!(msg, "server started");
}

#[test]
fn timestamp_is_shown_without_fraction() {
    assert_eq!(format_timestamp("2024-05-01T12:30:45.123456Z"), "2024-05-01T12:30:45");
    assert_eq!(format_timestamp("2024-05-01T12:30:45Z"), "2024-05-01T12:30:45Z");
    assert_eq!(format_timestamp(""), "");
}

#[test]
fn line_without_timestamp_is_whole_message() {
    assert_eq!(parse_log_line("hello world"), (String::new(), "hello world".to_string()));
    assert_eq!(parse_log_line("nospace"), (String::new(), "nospace".to_string()));
    assert_eq!(parse_log_line("Z"), (String::new(), "Z".to_string()));
    assert_eq!(parse_log_line(" Z leading"), (String::new(), " Z leading".to_string()));
    assert_eq!(parse_log_line("abcZx rest"), (String::new(), "abcZx rest".to_string()));
}

#[test]
fn token_z_with_empty_rest() {
    assert_eq!(parse_log_line("10Z "), ("10Z".to_string(), String::new()));
}

#[test]
fn error_rule_wins_over_warning() {
    assert_eq!(determine_log_level("ERROR and WARN at once"), LogLevel::Error);
    assert_eq!(determine_log_level("warn: then error"), LogLevel::Error);
}

#[test]
fn levels_are_matched_without_case() {
    assert_eq!(determine_log_level("task failed"), LogLevel::Error);
    assert_eq!(determine_log_level("Warning: disk almost full"), LogLevel::Warn);
    assert_eq!(determine_log_level("all good"), LogLevel::Info);
    assert_eq!(determine_log_level(""), LogLevel::Info);
}

#[test]
fn rendered_line_has_all_parts() {
    let e = render_log_line("2024-01-01T00:00:00.5Z request failed");
    assert_eq!(e.timestamp, "2024-01-01T00:00:00");
    assert_eq!(e.message, "request failed");
    assert_eq!(e.level, LogLevel::Error);
}

#[test]
fn log_text_is_split_into_lines() {
    let es = render_log_text("a\r\nWARN b\n\nc\r");
    assert_eq!(es.len(), 4);
    assert_eq!(es[0].message, "a");
    assert_eq!(es[1].level, LogLevel::Warn);
    assert_eq!(es[2].message, "");
    assert_eq!(es[3].message, "c\r");
    assert_eq!(render_log_text("x\n").len(), 1);
    assert_eq!(render_log_text("").len(), 0);
}

#[test]
fn log_panel_distinguishes_empty_from_never_fetched() {
    let mut p = LogPanel::new();
    assert!(matches!(p.display(), LogDisplay::NotFetched));
    assert!(p.request());
    assert!(!p.request());
    p.fetched(Ok(String::new()));
    assert!(matches!(p.display(), LogDisplay::Empty));
    assert!(p.request());
    p.fetched(Ok("one\ntwo".to_string()));
    match p.display() {
        LogDisplay::Lines(es) => assert_eq!(es.len(), 2),
        _ => panic!("expected lines"),
    }
    assert!(p.request());
    p.fetched(Err("boom".to_string()));
    match p.display() {
        LogDisplay::Failed(m) => assert_eq!(m, "boom"),
        _ => panic!("expected failure"),
    }
    assert!(p.logs.is_none());
}
