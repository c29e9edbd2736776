//! The exact text of rendered lines.

use personal_log::decimal::to_decimal;
use personal_log::line::{render_line, status_line, Kind, Status};

#[test]
fn decimal_of_zero() {
    assert_eq!(to_decimal(0), "0");
}

#[test]
fn decimal_of_one_digit() {
    assert_eq!(to_decimal(7), "7");
}

#[test]
fn decimal_of_two_digits() {
    assert_eq!(to_decimal(10), "10");
}

#[test]
fn decimal_of_epoch_millis() {
    assert_eq!(to_decimal(1676389166746), "1676389166746");
}

#[test]
fn decimal_of_largest_value() {
    assert_eq!(to_decimal(u64::MAX), "18446744073709551615");
}

#[test]
fn log_line_text() {
    let line = render_line(1676389166746, Kind::Log, "wrote the report");
    assert_eq!(line, "1676389166746 log:wrote the report\n");
}

#[test]
fn log_line_of_empty_text() {
    let line = render_line(5, Kind::Log, "");
    assert_eq!(line, "5 log:\n");
}

#[test]
fn log_line_keeps_delimiters_verbatim() {
    let line = render_line(5, Kind::Log, "a:b c");
    assert_eq!(line, "5 log:a:b c\n");
}

#[test]
fn log_line_has_exactly_one_newline_at_the_end() {
    let line = render_line(99, Kind::Log, "hello world");
    assert!(line.ends_with('\n'));
    assert!(!line[..line.len() - 1].contains('\n'));
}

#[test]
fn status_idle_line() {
    assert_eq!(status_line(Status::Idle, 42), "42 status:idle\n");
}

#[test]
fn status_code_line() {
    assert_eq!(status_line(Status::Code, 42), "42 status:code\n");
}

#[test]
fn status_meeting_line() {
    assert_eq!(status_line(Status::Meeting, 42), "42 status:meeting\n");
}

#[test]
fn status_research_line() {
    assert_eq!(status_line(Status::Research, 42), "42 status:research\n");
}

#[test]
fn status_adhoc_line() {
    assert_eq!(status_line(Status::Adhoc, 42), "42 status:adhoc\n");
}

#[test]
fn status_documenting_line() {
    assert_eq!(status_line(Status::Documenting, 42), "42 status:documenting\n");
}

#[test]
fn timestamps_come_back_in_order() {
    let first = status_line(Status::Code, 1000);
    let second = render_line(1000, Kind::Log, "same instant"); // equal stamps allowed
    let third = status_line(Status::Idle, 1001);
    let stamp = |line: &str| -> u64 {
        line.split(' ').next().unwrap().parse().unwrap()
    };
    assert!(stamp(&first) <= stamp(&second));
    assert!(stamp(&second) <= stamp(&third));
}
