use stderr_logger::LogRecord;
use stderr_logger::Severity;
use stderr_logger::format_record;

fn record(
    severity: Severity,
    target: &str,
    message: &str,
    file: Option<&str>,
    line: Option<u32>,
) -> LogRecord {
    LogRecord {
        severity,
        target: target.to_string(),
        message: message.to_string(),
        file: file.map(|f| f.to_string()),
        line,
    }
}

#[test]
fn full_location_line() {
    let rec = record(Severity::Info, "net", "connected", Some("net.rs"), Some(42));
    assert_eq!(format_record(&rec).as_str(), "INFO|net|net.rs:42: connected");
}

#[test]
fn file_only_line() {
    let rec = record(Severity::Error, "db", "timeout", Some("db.rs"), None);
    assert_eq!(format_record(&rec).as_str(), "ERROR|db|db.rs: timeout");
}

#[test]
fn no_location_line() {
    let rec = record(Severity::Debug, "core", "start", None, None);
    assert_eq!(format_record(&rec).as_str(), "DEBUG|core: start");
}

#[test]
fn line_without_file_renders_as_no_location() {
    let rec = record(Severity::Warn, "cfg", "odd", None, Some(7));
    assert_eq!(format_record(&rec).as_str(), "WARN|cfg: odd");
}

#[test]
fn trace_severity_label() {
    let rec = record(Severity::Trace, "io", "tick", None, None);
    assert_eq!(format_record(&rec).as_str(), "TRACE|io: tick");
}

#[test]
fn line_number_zero() {
    let rec = record(Severity::Info, "a", "m", Some("f.rs"), Some(0));
    assert_eq!(format_record(&rec).as_str(), "INFO|a|f.rs:0: m");
}

#[test]
fn line_number_single_digit() {
    let rec = record(Severity::Info, "a", "m", Some("f.rs"), Some(9));
    assert_eq!(format_record(&rec).as_str(), "INFO|a|f.rs:9: m");
}

#[test]
fn line_number_round_decade() {
    let rec = record(Severity::Info, "a", "m", Some("f.rs"), Some(1000));
    assert_eq!(format_record(&rec).as_str(), "INFO|a|f.rs:1000: m");
}

#[test]
fn line_number_largest() {
    let rec = record(Severity::Info, "a", "m", Some("f.rs"), Some(u32::MAX));
    assert_eq!(format_record(&rec).as_str(), "INFO|a|f.rs:4294967295: m");
}

#[test]
fn empty_target_and_message() {
    let rec = record(Severity::Warn, "", "", None, None);
    assert_eq!(format_record(&rec).as_str(), "WARN|: ");
}

#[test]
fn message_may_hold_delimiters() {
    let rec = record(Severity::Info, "p|q", "a: b|c", Some("x:y.rs"), Some(3));
    assert_eq!(format_record(&rec).as_str(), "INFO|p|q|x:y.rs:3: a: b|c");
}
