use loggery::{default_path, format_line, init_loggery, todoy, IoError, LogLevel, Logger};

#[test]
fn tags_are_exact() {
    assert_eq!(LogLevel::Error.tag(), "[ERROR]");
    assert_eq!(LogLevel::Warn.tag(), "[WARN]");
    assert_eq!(LogLevel::Info.tag(), "[INFO]");
    assert_eq!(LogLevel::Todo.tag(), "[TODO]");
}

#[test]
fn info_line_exact() {
    assert_eq!(format_line(LogLevel::Info, "x is 1"), "[INFO] x is 1\n");
}

#[test]
fn formatted_message_line() {
    let message = format!("yash is testing {} {} {}!!!", 1, 2, 3);
    assert_eq!(
        format_line(LogLevel::Info, &message),
        "[INFO] yash is testing 1 2 3!!!\n"
    );
}

#[test]
fn warn_appends_without_truncation() {
    let mut file = String::from("existing\n");
    file.push_str(&format_line(LogLevel::Warn, "y"));
    assert_eq!(file, "existing\n[WARN] y\n");
}

#[test]
fn error_and_todo_lines_exact() {
    assert_eq!(format_line(LogLevel::Error, "boom"), "[ERROR] boom\n");
    assert_eq!(format_line(LogLevel::Todo, "later"), "[TODO] later\n");
}

#[test]
fn empty_message_still_makes_a_line() {
    assert_eq!(format_line(LogLevel::Info, ""), "[INFO] \n");
}

#[test]
fn fresh_logger_is_uninitialized() {
    let lg = Logger::new();
    assert!(!lg.is_initialized());
}

#[test]
fn init_success_installs_target() {
    let mut lg = Logger::new();
    assert!(init_loggery(&mut lg, String::from("a.log"), true).is_ok());
    assert!(lg.is_initialized());
}

#[test]
fn init_failure_reports_io_error_and_keeps_state() {
    let mut lg = Logger::new();
    let r = init_loggery(&mut lg, String::from("missing/dir/a.log"), false);
    assert_eq!(r, Err(IoError));
    assert!(!lg.is_initialized());
}

#[test]
fn two_log_calls_in_order() {
    let mut lg = Logger::new();
    init_loggery(&mut lg, String::from("a.log"), true).unwrap();
    let mut file = String::new();
    let first = format_line(LogLevel::Info, "one");
    let second = format_line(LogLevel::Warn, "two");
    file.push_str(&first);
    lg.info("one", true).unwrap();
    file.push_str(&second);
    lg.warn("two", true).unwrap();
    assert_eq!(file, "[INFO] one\n[WARN] two\n");
}

#[test]
fn log_outcome_decides_the_result() {
    let mut lg = Logger::new();
    init_loggery(&mut lg, String::from("a.log"), true).unwrap();
    assert!(lg.info("one", true).is_ok());
    assert!(lg.warn("two", true).is_ok());
    assert_eq!(lg.error("three", false), Err(IoError));
    assert!(lg.todo("four", true).is_ok());
    assert!(lg.is_initialized());
}

#[test]
fn reinit_redirects_target() {
    let mut lg = Logger::new();
    init_loggery(&mut lg, String::from("old.log"), true).unwrap();
    lg.info("before", true).unwrap();
    init_loggery(&mut lg, String::from("new.log"), true).unwrap();
    assert!(lg.is_initialized());
    lg.info("after", true).unwrap();
}

#[test]
fn todoy_returns_abort_message_when_write_succeeds() {
    let mut lg = Logger::new();
    init_loggery(&mut lg, String::from("a.log"), true).unwrap();
    assert_eq!(todoy(&mut lg, "not implemented yet", true), "not implemented yet");
}

#[test]
fn todoy_swallows_a_failed_write_and_still_aborts() {
    let mut lg = Logger::new();
    init_loggery(&mut lg, String::from("a.log"), true).unwrap();
    assert_eq!(todoy(&mut lg, "still aborts", false), "still aborts");
}

#[test]
fn duplicate_keeps_target_when_handle_duplicates() {
    let mut lg = Logger::new();
    init_loggery(&mut lg, String::from("a.log"), true).unwrap();
    assert!(lg.duplicate(true).is_initialized());
}

#[test]
fn duplicate_failure_leaves_copy_without_target() {
    let mut lg = Logger::new();
    init_loggery(&mut lg, String::from("a.log"), true).unwrap();
    assert!(!lg.duplicate(false).is_initialized());
}

#[test]
fn duplicate_of_uninitialized_has_no_target() {
    let lg = Logger::new();
    assert!(!lg.duplicate(true).is_initialized());
}

#[test]
fn default_path_is_fixed() {
    assert_eq!(default_path(), "./.yash.log");
}
