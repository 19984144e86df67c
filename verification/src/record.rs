//! One job record: immutable identity (id, kind, source URL, submission
//! time), the mutable state driven by the state machine, the append-only
//! log buffer, and the cancellation flag the owning worker polls.

use vstd::prelude::*;

use crate::state::{DownloadState, StateModel};

verus! {

/// Classification of the submitted source.
#[derive(Debug, Clone, Copy, PartialEq, Eq, Structural)]
pub enum DownloadKind {
    Video,
    AudioTrack,
}

/// One download request and its tracked lifecycle. `state` is written
/// only through the registry's transition methods; `logs` only grows,
/// and only while the job is in `Downloading`.
#[derive(Debug, Clone)]
pub struct JobRecord {
    pub id: u64,
    pub kind: DownloadKind,
    pub source_url: String,
    pub state: DownloadState,
    pub logs: Vec<String>,
    pub submitted_at: u64,
    pub cancel_requested: bool,
}

/// Mathematical image of a `JobRecord`.
#[verifier::ext_equal]
pub struct JobModel {
    pub id: u64,
    pub kind: DownloadKind,
    pub source_url: Seq<char>,
    pub state: StateModel,
    pub logs: Seq<Seq<char>>,
    pub submitted_at: u64,
    pub cancel_requested: bool,
}

impl View for JobRecord {
    type V = JobModel;

    open spec fn view(&self) -> JobModel {
        JobModel {
            id: self.id,
            kind: self.kind,
            source_url: self.source_url@,
            state: self.state@,
            logs: self.logs.deep_view(),
            submitted_at: self.submitted_at,
            cancel_requested: self.cancel_requested,
        }
    }
}

/// The record a fresh submission creates: state `Queued`, empty log
/// buffer, no cancellation requested.
pub open spec fn queued_job(
    id: u64,
    kind: DownloadKind,
    source_url: Seq<char>,
    submitted_at: u64,
) -> JobModel {
    JobModel {
        id,
        kind,
        source_url,
        state: StateModel::Queued,
        logs: Seq::empty(),
        submitted_at,
        cancel_requested: false,
    }
}

/// State and log buffer agree: a `Failed` state carries exactly the log
/// buffer that was captured, so a snapshot never pairs a failure with
/// logs from some other moment.
pub open spec fn job_coherent(j: JobModel) -> bool {
    j.state matches StateModel::Failed { logs } ==> logs == j.logs
}

} // verus!
