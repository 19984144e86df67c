//! The per-job state machine: the six job states, the events that drive
//! them, and the transition function. Terminal states absorb every event,
//! so spurious late signals are ignored rather than applied twice.

use vstd::prelude::*;

verus! {

/// The lifecycle state of one download job, as held by a job record.
#[derive(Debug, Clone)]
pub enum DownloadState {
    /// Submitted, worker not yet past its first checkpoint.
    Queued,
    /// An external downloader process is (or is about to be) running.
    Downloading { started_at: u64 },
    /// The process exited successfully; `path` is the produced output.
    Completed { path: String },
    /// The dedup check found existing output at `path`; nothing was run.
    AlreadyDownloaded { path: String },
    /// The process exited with a nonzero code; `logs` is the full capture.
    Failed { logs: Vec<String> },
    /// Cancellation was observed before any terminal outcome.
    Canceled,
}

/// Mathematical image of a `DownloadState`: strings become character
/// sequences so contracts can speak of them extensionally.
#[verifier::ext_equal]
pub enum StateModel {
    Queued,
    Downloading { started_at: u64 },
    Completed { path: Seq<char> },
    AlreadyDownloaded { path: Seq<char> },
    Failed { logs: Seq<Seq<char>> },
    Canceled,
}

impl View for DownloadState {
    type V = StateModel;

    open spec fn view(&self) -> StateModel {
        match self {
            DownloadState::Queued => StateModel::Queued,
            DownloadState::Downloading { started_at } => StateModel::Downloading {
                started_at: *started_at,
            },
            DownloadState::Completed { path } => StateModel::Completed { path: path@ },
            DownloadState::AlreadyDownloaded { path } => StateModel::AlreadyDownloaded {
                path: path@,
            },
            DownloadState::Failed { logs } => StateModel::Failed { logs: logs.deep_view() },
            DownloadState::Canceled => StateModel::Canceled,
        }
    }
}

impl DownloadState {
    /// Whether the job still sits in `Queued`.
    pub fn is_queued(&self) -> (r: bool)
        ensures
            r == (self@ matches StateModel::Queued),
    {
        match self {
            DownloadState::Queued => true,
            DownloadState::Downloading { .. } => false,
            DownloadState::Completed { .. } => false,
            DownloadState::AlreadyDownloaded { .. } => false,
            DownloadState::Failed { .. } => false,
            DownloadState::Canceled => false,
        }
    }

    /// Whether an external process is supposed to be running.
    pub fn is_downloading(&self) -> (r: bool)
        ensures
            r == (self@ matches StateModel::Downloading { .. }),
    {
        match self {
            DownloadState::Queued => false,
            DownloadState::Downloading { .. } => true,
            DownloadState::Completed { .. } => false,
            DownloadState::AlreadyDownloaded { .. } => false,
            DownloadState::Failed { .. } => false,
            DownloadState::Canceled => false,
        }
    }

    /// Whether the job has reached a state it never leaves.
    pub fn is_terminal(&self) -> (r: bool)
        ensures
            r == is_terminal(self@),
    {
        match self {
            DownloadState::Queued => false,
            DownloadState::Downloading { .. } => false,
            DownloadState::Completed { .. } => true,
            DownloadState::AlreadyDownloaded { .. } => true,
            DownloadState::Failed { .. } => true,
            DownloadState::Canceled => true,
        }
    }
}

/// The events a worker (or a cancellation request it observes) can apply
/// to a job's state.
pub enum EventModel {
    /// The dedup check found existing output at `path`.
    DedupHit { path: Seq<char> },
    /// The worker is about to spawn the external process.
    SpawnBegin { started_at: u64 },
    /// A pending cancellation request was observed at a checkpoint.
    CancelObserved,
    /// The external process exited with code zero.
    ExitSuccess { path: Seq<char> },
    /// The external process exited with a nonzero code; `logs` is the
    /// full captured output at that moment.
    ExitFailure { logs: Seq<Seq<char>> },
}

/// A state from which no further transition is ever applied.
pub open spec fn is_terminal(s: StateModel) -> bool {
    match s {
        StateModel::Queued => false,
        StateModel::Downloading { .. } => false,
        StateModel::Completed { .. } => true,
        StateModel::AlreadyDownloaded { .. } => true,
        StateModel::Failed { .. } => true,
        StateModel::Canceled => true,
    }
}

/// The transition function. Exactly the documented edges move a state;
/// every other pairing (a terminal state, or an event that does not
/// apply) leaves the state untouched.
pub open spec fn step(s: StateModel, e: EventModel) -> StateModel {
    match (s, e) {
        (StateModel::Queued, EventModel::DedupHit { path }) => StateModel::AlreadyDownloaded {
            path,
        },
        (StateModel::Queued, EventModel::SpawnBegin { started_at }) => StateModel::Downloading {
            started_at,
        },
        (StateModel::Queued, EventModel::CancelObserved) => StateModel::Canceled,
        (StateModel::Downloading { .. }, EventModel::ExitSuccess { path }) => StateModel::Completed {
            path,
        },
        (StateModel::Downloading { .. }, EventModel::ExitFailure { logs }) => StateModel::Failed {
            logs,
        },
        (StateModel::Downloading { .. }, EventModel::CancelObserved) => StateModel::Canceled,
        (_, _) => s,
    }
}

/// Once a job reaches a terminal state, no event moves it again: a
/// record transitions into at most one terminal state, exactly once,
/// and late completion or failure signals are ignored.
pub proof fn lemma_terminal_absorbs(s: StateModel, e: EventModel)
    requires
        is_terminal(s),
    ensures
        step(s, e) == s,
{
}

/// A transition out of `Queued` goes only to `Downloading`,
/// `AlreadyDownloaded` or `Canceled`: no job reaches `Completed` or
/// `Failed` without first passing through `Downloading`, and every path
/// begins at `Queued`.
pub proof fn lemma_queued_first(e: EventModel)
    ensures
        !(step(StateModel::Queued, e) matches StateModel::Completed { .. }),
        !(step(StateModel::Queued, e) matches StateModel::Failed { .. }),
{
}

} // verus!
