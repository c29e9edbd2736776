//! The text of a log line.
//!
//! Every entry the application records is one line of the form
//! `<epoch_millis> <kind>:<text>` followed by a newline. `line_of` defines
//! that text exactly; `render_line` produces it. The lemmas here pin down the
//! two facts a reader of the file relies on: the timestamp a line carries can
//! be read back unambiguously, and a line made from newline-free text adds
//! exactly one line to the file.

use vstd::prelude::*;

use crate::decimal::{
    dec_digits, dec_val, is_dec_digit, leading_digits, lemma_dec_digits_are_digits,
    lemma_dec_round_trip, lemma_leading_digits_concat, to_decimal,
};

verus! {

/// The three kinds of entry the application records.
#[derive(Clone, Copy, Debug, PartialEq, Eq, Structural)]
pub enum Kind {
    Log,
    Todo,
    Status,
}

/// The fixed set of activity tags behind the status buttons.
#[derive(Clone, Copy, Debug, PartialEq, Eq, Structural)]
pub enum Status {
    Idle,
    Code,
    Meeting,
    Research,
    Adhoc,
    Documenting,
}

/// The label written between the timestamp and the colon.
pub open spec fn kind_label(kind: Kind) -> Seq<char> {
    match kind {
        Kind::Log => seq!['l', 'o', 'g'],
        Kind::Todo => seq!['t', 'o', 'd', 'o'],
        Kind::Status => seq!['s', 't', 'a', 't', 'u', 's'],
    }
}

/// The literal name of a status tag, as it appears after `status:`.
pub open spec fn status_name(status: Status) -> Seq<char> {
    match status {
        Status::Idle => seq!['i', 'd', 'l', 'e'],
        Status::Code => seq!['c', 'o', 'd', 'e'],
        Status::Meeting => seq!['m', 'e', 'e', 't', 'i', 'n', 'g'],
        Status::Research => seq!['r', 'e', 's', 'e', 'a', 'r', 'c', 'h'],
        Status::Adhoc => seq!['a', 'd', 'h', 'o', 'c'],
        Status::Documenting => seq!['d', 'o', 'c', 'u', 'm', 'e', 'n', 't', 'i', 'n', 'g'],
    }
}

/// The full text of one entry: `<millis> <kind>:<text>` and a terminating
/// newline.
pub open spec fn line_of(millis: u64, kind: Kind, text: Seq<char>) -> Seq<char> {
    dec_digits(millis as nat) + seq![' '] + kind_label(kind) + seq![':'] + text + seq!['\n']
}

/// The label text for a kind.
fn kind_label_str(kind: Kind) -> (r: &'static str)
    ensures
        r@ == kind_label(kind),
{
    proof {
        reveal_strlit("log");
        reveal_strlit("todo");
        reveal_strlit("status");
    }
    match kind {
        Kind::Log => {
            proof {
                assert("log"@ =~= kind_label(kind));
            }
            "log"
        },
        Kind::Todo => {
            proof {
                assert("todo"@ =~= kind_label(kind));
            }
            "todo"
        },
        Kind::Status => {
            proof {
                assert("status"@ =~= kind_label(kind));
            }
            "status"
        },
    }
}

/// The name of a status tag.
pub fn status_name_str(status: Status) -> (r: &'static str)
    ensures
        r@ == status_name(status),
{
    proof {
        reveal_strlit("idle");
        reveal_strlit("code");
        reveal_strlit("meeting");
        reveal_strlit("research");
        reveal_strlit("adhoc");
        reveal_strlit("documenting");
    }
    match status {
        Status::Idle => {
            proof {
                assert("idle"@ =~= status_name(status));
            }
            "idle"
        },
        Status::Code => {
            proof {
                assert("code"@ =~= status_name(status));
            }
            "code"
        },
        Status::Meeting => {
            proof {
                assert("meeting"@ =~= status_name(status));
            }
            "meeting"
        },
        Status::Research => {
            proof {
                assert("research"@ =~= status_name(status));
            }
            "research"
        },
        Status::Adhoc => {
            proof {
                assert("adhoc"@ =~= status_name(status));
            }
            "adhoc"
        },
        Status::Documenting => {
            proof {
                assert("documenting"@ =~= status_name(status));
            }
            "documenting"
        },
    }
}

/// Produces the exact line text for one entry.
pub fn render_line(millis: u64, kind: Kind, text: &str) -> (line: String)
    ensures
        line@ == line_of(millis, kind, text@),
{
    let mut line = to_decimal(millis);
    line.append(" ");
    line.append(kind_label_str(kind));
    line.append(":");
    line.append(text);
    line.append("\n");
    proof {
        reveal_strlit(" ");
        reveal_strlit(":");
        reveal_strlit("\n");
        assert(" "@ =~= seq![' ']);
        assert(":"@ =~= seq![':']);
        assert("\n"@ =~= seq!['\n']);
        assert(line@ =~= line_of(millis, kind, text@));
    }
    line
}

/// The line for one click of a status button: `<millis> status:<name>`.
pub fn status_line(status: Status, millis: u64) -> (line: String)
    ensures
        line@ == line_of(millis, Kind::Status, status_name(status)),
{
    render_line(millis, Kind::Status, status_name_str(status))
}

/// The timestamp a line carries: the value of its leading run of digits.
pub open spec fn line_timestamp(line: Seq<char>) -> nat {
    dec_val(line.take(leading_digits(line) as int))
}

/// The timestamp read back from a rendered line is the milliseconds value it
/// was rendered from, whatever the kind and text.
pub proof fn lemma_line_timestamp(millis: u64, kind: Kind, text: Seq<char>)
    ensures
        line_timestamp(line_of(millis, kind, text)) == millis as nat,
{
    let d = dec_digits(millis as nat);
    let rest = seq![' '] + kind_label(kind) + seq![':'] + text + seq!['\n'];
    assert(line_of(millis, kind, text) =~= d + rest);
    lemma_dec_digits_are_digits(millis as nat);
    assert(rest[0] == ' ');
    assert(!is_dec_digit(' '));
    lemma_leading_digits_concat(d, rest);
    assert((d + rest).take(d.len() as int) =~= d);
    lemma_dec_round_trip(millis as nat);
}

/// No label character is a newline.
proof fn lemma_label_no_newline(kind: Kind)
    ensures
        forall|i: int|
            0 <= i < kind_label(kind).len() ==> #[trigger] kind_label(kind)[i] != '\n',
{
    let lab = kind_label(kind);
    assert forall|i: int| 0 <= i < lab.len() implies #[trigger] lab[i] != '\n' by {
        match kind {
            Kind::Log => {
                assert(lab[0] == 'l' && lab[1] == 'o' && lab[2] == 'g');
            },
            Kind::Todo => {
                assert(lab[0] == 't' && lab[1] == 'o' && lab[2] == 'd' && lab[3] == 'o');
            },
            Kind::Status => {
                assert(lab[0] == 's' && lab[1] == 't' && lab[2] == 'a' && lab[3] == 't' && lab[4]
                    == 'u' && lab[5] == 's');
            },
        }
    }
}

/// A line made from newline-free text appends exactly one line to the file:
/// its one newline is its final character.
pub proof fn lemma_line_single_newline(millis: u64, kind: Kind, text: Seq<char>)
    requires
        forall|i: int| 0 <= i < text.len() ==> #[trigger] text[i] != '\n',
    ensures
        line_of(millis, kind, text).len() > 0,
        line_of(millis, kind, text).last() == '\n',
        forall|i: int|
            0 <= i < line_of(millis, kind, text).len() - 1 ==> #[trigger] line_of(
                millis,
                kind,
                text,
            )[i] != '\n',
{
    let d = dec_digits(millis as nat);
    let lab = kind_label(kind);
    let body = d + seq![' '] + lab + seq![':'] + text;
    let line = line_of(millis, kind, text);
    assert(line =~= body + seq!['\n']);
    lemma_dec_digits_are_digits(millis as nat);
    lemma_label_no_newline(kind);
    assert forall|i: int| 0 <= i < line.len() - 1 implies #[trigger] line[i] != '\n' by {
        assert(line[i] == body[i]);
        if i < d.len() {
            assert(body[i] == d[i]);
            assert(is_dec_digit(d[i]));
        } else if i == d.len() {
            assert(body[i] == ' ');
        } else if i < d.len() + 1 + lab.len() {
            assert(body[i] == lab[i - d.len() - 1]);
        } else if i == d.len() + 1 + lab.len() {
            assert(body[i] == ':');
        } else {
            assert(body[i] == text[i - (d.len() + 1 + lab.len() + 1)]);
        }
    }
}

/// No status tag's name contains a newline, so every status click appends
/// exactly one line.
pub proof fn lemma_status_line_single_newline(millis: u64, status: Status)
    ensures
        line_of(millis, Kind::Status, status_name(status)).last() == '\n',
        forall|i: int|
            0 <= i < line_of(millis, Kind::Status, status_name(status)).len() - 1
                ==> #[trigger] line_of(millis, Kind::Status, status_name(status))[i] != '\n',
{
    let name = status_name(status);
    assert forall|i: int| 0 <= i < name.len() implies #[trigger] name[i] != '\n' by {
        match status {
            Status::Idle => {
                assert(name[0] == 'i' && name[1] == 'd' && name[2] == 'l' && name[3] == 'e');
            },
            Status::Code => {
                assert(name[0] == 'c' && name[1] == 'o' && name[2] == 'd' && name[3] == 'e');
            },
            Status::Meeting => {
                assert(name[0] == 'm' && name[1] == 'e' && name[2] == 'e' && name[3] == 't'
                    && name[4] == 'i' && name[5] == 'n' && name[6] == 'g');
            },
            Status::Research => {
                assert(name[0] == 'r' && name[1] == 'e' && name[2] == 's' && name[3] == 'e'
                    && name[4] == 'a' && name[5] == 'r' && name[6] == 'c' && name[7] == 'h');
            },
            Status::Adhoc => {
                assert(name[0] == 'a' && name[1] == 'd' && name[2] == 'h' && name[3] == 'o'
                    && name[4] == 'c');
            },
            Status::Documenting => {
                assert(name[0] == 'd' && name[1] == 'o' && name[2] == 'c' && name[3] == 'u'
                    && name[4] == 'm' && name[5] == 'e' && name[6] == 'n' && name[7] == 't'
                    && name[8] == 'i' && name[9] == 'n' && name[10] == 'g');
            },
        }
    }
    lemma_line_single_newline(millis, Kind::Status, name);
}

/// Entries recorded at non-decreasing clock readings carry non-decreasing
/// timestamps, whatever their kinds and texts.
pub proof fn lemma_timestamps_nondecreasing(
    m1: u64,
    k1: Kind,
    t1: Seq<char>,
    m2: u64,
    k2: Kind,
    t2: Seq<char>,
)
    requires
        m1 <= m2,
    ensures
        line_timestamp(line_of(m1, k1, t1)) <= line_timestamp(line_of(m2, k2, t2)),
{
    lemma_line_timestamp(m1, k1, t1);
    lemma_line_timestamp(m2, k2, t2);
}

} // verus!
