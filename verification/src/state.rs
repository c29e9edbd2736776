//! The user-interface state and its transitions.
//!
//! `AppState` holds what the window shows between frames: the file location,
//! the text currently typed into the log field, and the todo entries
//! collected so far. Each interaction is a `UiEvent`; `handle_event` performs
//! the transition and returns the one line the interaction appends to the
//! file. The caller performs the append afterwards: the transition itself
//! never depends on whether the write succeeds, so the field resets happen
//! even when every write fails.

use vstd::prelude::*;

use crate::line::{line_of, render_line, status_line, status_name, Kind, Status};

verus! {

/// The state the window shows: where to append, what the log field holds,
/// and the todo entries submitted so far.
pub struct AppState {
    /// Path of the append-only log file.
    pub location: String,
    /// Current contents of the log text field.
    pub log: String,
    /// Every todo text submitted in this run, oldest first.
    pub todo: Vec<String>,
}

/// The fixed default path of the log file.
pub open spec fn default_location() -> Seq<char> {
    "~/Documents/personal-log/personal-log.txt"@
}

impl Default for AppState {
    /// Fresh state at startup: the default file location, an empty log
    /// field, and no todo entries.
    fn default() -> (s: Self)
        ensures
            s.location@ == default_location(),
            s.log@ == Seq::<char>::empty(),
            s.todo@ == Seq::<String>::empty(),
    {
        AppState {
            location: "~/Documents/personal-log/personal-log.txt".to_owned(),
            log: String::new(),
            todo: Vec::new(),
        }
    }
}

/// One user interaction that records an entry.
#[derive(Clone, Copy, Debug, PartialEq, Eq, Structural)]
pub enum UiEvent {
    /// The log text field lost focus: submit its contents.
    LogSubmit,
    /// The todo text field lost focus: submit a todo entry. The field shown
    /// in the window is not bound to any state, so the submitted text is
    /// always empty.
    TodoSubmit,
    /// One of the six status buttons was clicked.
    StatusClick(Status),
}

impl AppState {
    /// Submits the log field: returns the line `<millis> log:<field>` and
    /// clears the field. The rest of the state is untouched.
    pub fn submit_log(&mut self, now_millis: u64) -> (line: String)
        ensures
            line@ == line_of(now_millis, Kind::Log, old(self).log@),
            final(self).log@ == Seq::<char>::empty(),
            final(self).todo == old(self).todo,
            final(self).location == old(self).location,
    {
        let line = render_line(now_millis, Kind::Log, self.log.as_str());
        self.log = String::new();
        line
    }

    /// Submits a todo entry. The displayed todo field is not bound to any
    /// state, so the text recorded is always empty: the line is
    /// `<millis> todo:` and an empty entry joins the todo list. The rest of
    /// the state is untouched.
    pub fn submit_todo(&mut self, now_millis: u64) -> (line: String)
        ensures
            line@ == line_of(now_millis, Kind::Todo, Seq::<char>::empty()),
            final(self).todo.deep_view() == old(self).todo.deep_view().push(
                Seq::<char>::empty(),
            ),
            final(self).log == old(self).log,
            final(self).location == old(self).location,
    {
        proof {
            reveal_strlit("");
            assert(""@ =~= Seq::<char>::empty());
        }
        let line = render_line(now_millis, Kind::Todo, "");
        let ghost prior = self.todo.deep_view();
        self.todo.push(String::new());
        proof {
            assert(self.todo.deep_view() =~= prior.push(Seq::<char>::empty()));
        }
        line
    }

    /// Performs one interaction: returns the line it appends and applies its
    /// effect on the state. Whether the append later succeeds has no bearing
    /// on the transition.
    pub fn handle_event(&mut self, event: UiEvent, now_millis: u64) -> (line: String)
        ensures
            line@ == match event {
                UiEvent::LogSubmit => line_of(now_millis, Kind::Log, old(self).log@),
                UiEvent::TodoSubmit => line_of(now_millis, Kind::Todo, Seq::<char>::empty()),
                UiEvent::StatusClick(status) => line_of(
                    now_millis,
                    Kind::Status,
                    status_name(status),
                ),
            },
            final(self).log@ == if event == UiEvent::LogSubmit {
                Seq::<char>::empty()
            } else {
                old(self).log@
            },
            final(self).todo.deep_view() == if event == UiEvent::TodoSubmit {
                old(self).todo.deep_view().push(Seq::<char>::empty())
            } else {
                old(self).todo.deep_view()
            },
            final(self).location == old(self).location,
    {
        match event {
            UiEvent::LogSubmit => self.submit_log(now_millis),
            UiEvent::TodoSubmit => self.submit_todo(now_millis),
            UiEvent::StatusClick(status) => status_line(status, now_millis),
        }
    }
}

} // verus!
