//! What the UI shows for a job: elapsed time, its decimal rendering,
//! and the status label and color derived from the job's state. The
//! pane itself only places these strings on the screen.

use vstd::prelude::*;
use vstd::string::StringExecFns;

use crate::state::{DownloadState, StateModel};
use crate::summary::{failure_summary, summary_of};

verus! {

/// Color class the pane uses for a status line.
#[derive(Debug, Clone, Copy, PartialEq, Eq, Structural)]
pub enum StatusColor {
    Gray,
    Yellow,
    Green,
    Red,
}

/// Decimal digit `d` as a character.
pub open spec fn dec_digit(d: nat) -> char {
    if d == 0 {
        '0'
    } else if d == 1 {
        '1'
    } else if d == 2 {
        '2'
    } else if d == 3 {
        '3'
    } else if d == 4 {
        '4'
    } else if d == 5 {
        '5'
    } else if d == 6 {
        '6'
    } else if d == 7 {
        '7'
    } else if d == 8 {
        '8'
    } else {
        '9'
    }
}

/// Usual decimal notation of `n`, most significant digit first.
pub open spec fn dec_rep(n: nat) -> Seq<char>
    decreases n,
{
    if n < 10 {
        seq![dec_digit(n)]
    } else {
        dec_rep(n / 10).push(dec_digit(n % 10))
    }
}

/// Seconds elapsed since `started_at`, clamped at zero when the clock
/// reads earlier than the recorded start.
pub open spec fn elapsed_of(now: u64, started_at: u64) -> u64 {
    if now >= started_at {
        (now - started_at) as u64
    } else {
        0
    }
}

/// How a duration is shown: seconds alone under a minute, else
/// minutes and the remaining seconds.
pub open spec fn duration_text(secs: u64) -> Seq<char> {
    if secs < 60 {
        dec_rep(secs as nat) + "s"@
    } else {
        dec_rep((secs / 60) as nat) + "m "@ + dec_rep((secs % 60) as nat) + "s"@
    }
}

/// The status line for a state: fixed words for the quiet states, the
/// elapsed time while downloading, and the extracted summary after a
/// failure.
pub open spec fn status_text(s: StateModel, now: u64) -> Seq<char> {
    match s {
        StateModel::Queued => "Queued"@,
        StateModel::Downloading { started_at } => "Downloading... ("@ + duration_text(
            elapsed_of(now, started_at),
        ) + ")"@,
        StateModel::Completed { .. } => "Completed"@,
        StateModel::AlreadyDownloaded { .. } => "Already Downloaded"@,
        StateModel::Failed { logs } => "Failed: "@ + summary_of(logs),
        StateModel::Canceled => "Canceled"@,
    }
}

/// The color class for a state.
pub open spec fn color_of(s: StateModel) -> StatusColor {
    match s {
        StateModel::Queued => StatusColor::Gray,
        StateModel::Downloading { .. } => StatusColor::Yellow,
        StateModel::Completed { .. } => StatusColor::Green,
        StateModel::AlreadyDownloaded { .. } => StatusColor::Green,
        StateModel::Failed { .. } => StatusColor::Red,
        StateModel::Canceled => StatusColor::Gray,
    }
}

/// Seconds elapsed since a job started, never negative.
pub fn elapsed_secs(now: u64, started_at: u64) -> (r: u64)
    ensures
        r == elapsed_of(now, started_at),
{
    if now >= started_at {
        now - started_at
    } else {
        0
    }
}

/// One decimal digit as a borrowed string.
fn digit_str(d: u64) -> (r: &'static str)
    requires
        d < 10,
    ensures
        r@ == seq![dec_digit(d as nat)],
{
    if d == 0 {
        proof {
            reveal_strlit("0");
            assert("0"@ =~= seq![dec_digit(0)]);
        }
        "0"
    } else if d == 1 {
        proof {
            reveal_strlit("1");
            assert("1"@ =~= seq![dec_digit(1)]);
        }
        "1"
    } else if d == 2 {
        proof {
            reveal_strlit("2");
            assert("2"@ =~= seq![dec_digit(2)]);
        }
        "2"
    } else if d == 3 {
        proof {
            reveal_strlit("3");
            assert("3"@ =~= seq![dec_digit(3)]);
        }
        "3"
    } else if d == 4 {
        proof {
            reveal_strlit("4");
            assert("4"@ =~= seq![dec_digit(4)]);
        }
        "4"
    } else if d == 5 {
        proof {
            reveal_strlit("5");
            assert("5"@ =~= seq![dec_digit(5)]);
        }
        "5"
    } else if d == 6 {
        proof {
            reveal_strlit("6");
            assert("6"@ =~= seq![dec_digit(6)]);
        }
        "6"
    } else if d == 7 {
        proof {
            reveal_strlit("7");
            assert("7"@ =~= seq![dec_digit(7)]);
        }
        "7"
    } else if d == 8 {
        proof {
            reveal_strlit("8");
            assert("8"@ =~= seq![dec_digit(8)]);
        }
        "8"
    } else {
        proof {
            reveal_strlit("9");
            assert("9"@ =~= seq![dec_digit(9)]);
        }
        "9"
    }
}

/// `n` in decimal.
pub fn u64_dec(n: u64) -> (r: String)
    ensures
        r@ == dec_rep(n as nat),
    decreases n,
{
    if n < 10 {
        digit_str(n).to_owned()
    } else {
        let mut s = u64_dec(n / 10);
        s.append(digit_str(n % 10));
        proof {
            assert(s@ =~= dec_rep((n / 10) as nat).push(dec_digit((n % 10) as nat)));
        }
        s
    }
}

/// A duration, formatted as the status line shows it.
pub fn format_duration(secs: u64) -> (r: String)
    ensures
        r@ == duration_text(secs),
{
    if secs < 60 {
        let mut s = u64_dec(secs);
        s.append("s");
        s
    } else {
        let mut s = u64_dec(secs / 60);
        s.append("m ");
        let rest = u64_dec(secs % 60);
        s.append(rest.as_str());
        s.append("s");
        s
    }
}

/// The status label the pane renders for a job's state at time `now`.
pub fn status_label(state: &DownloadState, now: u64) -> (r: String)
    ensures
        r@ == status_text(state@, now),
{
    match state {
        DownloadState::Queued => "Queued".to_owned(),
        DownloadState::Downloading { started_at } => {
            let mut s = "Downloading... (".to_owned();
            let d = format_duration(elapsed_secs(now, *started_at));
            s.append(d.as_str());
            s.append(")");
            s
        },
        DownloadState::Completed { .. } => "Completed".to_owned(),
        DownloadState::AlreadyDownloaded { .. } => "Already Downloaded".to_owned(),
        DownloadState::Failed { logs } => {
            let mut s = "Failed: ".to_owned();
            let m = failure_summary(logs);
            s.append(m.as_str());
            s
        },
        DownloadState::Canceled => "Canceled".to_owned(),
    }
}

/// The color class the pane renders for a job's state.
pub fn status_color(state: &DownloadState) -> (c: StatusColor)
    ensures
        c == color_of(state@),
{
    match state {
        DownloadState::Queued => StatusColor::Gray,
        DownloadState::Downloading { .. } => StatusColor::Yellow,
        DownloadState::Completed { .. } => StatusColor::Green,
        DownloadState::AlreadyDownloaded { .. } => StatusColor::Green,
        DownloadState::Failed { .. } => StatusColor::Red,
        DownloadState::Canceled => StatusColor::Gray,
    }
}

} // verus!
