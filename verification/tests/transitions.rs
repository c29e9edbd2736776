//! The state transitions each interaction performs.

use personal_log::line::Status;
use personal_log::state::{AppState, UiEvent};

#[test]
fn fresh_state_fields() {
    let st = AppState::default();
    assert_eq!(st.location, "~/Documents/personal-log/personal-log.txt");
    assert_eq!(st.log, "");
    assert!(st.todo.is_empty());
}

#[test]
fn submit_log_appends_line_and_clears_field() {
    let mut st = AppState::default();
    st.log = "met with the team".to_owned();
    let line = st.submit_log(1676389166746);
    assert_eq!(line, "1676389166746 log:met with the team\n");
    assert_eq!(st.log, "");
    assert!(st.todo.is_empty());
    assert_eq!(st.location, "~/Documents/personal-log/personal-log.txt");
}

#[test]
fn submit_log_of_empty_field() {
    let mut st = AppState::default();
    let line = st.submit_log(12);
    assert_eq!(line, "12 log:\n");
    assert_eq!(st.log, "");
}

#[test]
fn submit_todo_records_empty_text_whatever_was_typed() {
    // The displayed todo field is not bound to any state, so the entry is
    // always empty, even while the log field holds text.
    let mut st = AppState::default();
    st.log = "typed into the other field".to_owned();
    let line = st.submit_todo(77);
    assert_eq!(line, "77 todo:\n");
    assert_eq!(st.todo, vec!["".to_owned()]);
    assert_eq!(st.log, "typed into the other field");
}

#[test]
fn submit_todo_twice_collects_two_empty_entries() {
    let mut st = AppState::default();
    st.submit_todo(1);
    st.submit_todo(2);
    assert_eq!(st.todo, vec!["".to_owned(), "".to_owned()]);
}

#[test]
fn handle_event_dispatches_log_submit() {
    let mut st = AppState::default();
    st.log = "dispatched".to_owned();
    let line = st.handle_event(UiEvent::LogSubmit, 9);
    assert_eq!(line, "9 log:dispatched\n");
    assert_eq!(st.log, "");
}

#[test]
fn handle_event_dispatches_todo_submit() {
    let mut st = AppState::default();
    let line = st.handle_event(UiEvent::TodoSubmit, 9);
    assert_eq!(line, "9 todo:\n");
    assert_eq!(st.todo, vec!["".to_owned()]);
}

#[test]
fn handle_event_dispatches_status_click() {
    let mut st = AppState::default();
    st.log = "untouched".to_owned();
    let line = st.handle_event(UiEvent::StatusClick(Status::Meeting), 9);
    assert_eq!(line, "9 status:meeting\n");
    assert_eq!(st.log, "untouched");
    assert!(st.todo.is_empty());
}

#[test]
fn field_resets_do_not_depend_on_any_write_outcome() {
    // The transition returns the line before any append is attempted, so the
    // log field clears even when the caller's write later fails.
    let mut st = AppState::default();
    st.log = "will clear regardless".to_owned();
    let _line_never_written = st.handle_event(UiEvent::LogSubmit, 3);
    assert_eq!(st.log, "");
}

#[test]
fn sequential_submissions_carry_nondecreasing_timestamps() {
    let mut st = AppState::default();
    let mut stamps: Vec<u64> = Vec::new();
    let clock: [u64; 4] = [1000, 1000, 1004, 2000];
    let events = [
        UiEvent::LogSubmit,
        UiEvent::StatusClick(Status::Code),
        UiEvent::TodoSubmit,
        UiEvent::StatusClick(Status::Idle),
    ];
    for (now, event) in clock.iter().zip(events.iter()) {
        let line = st.handle_event(*event, *now);
        stamps.push(line.split(' ').next().unwrap().parse().unwrap());
    }
    for pair in stamps.windows(2) {
        assert!(pair[0] <= pair[1]);
    }
}
