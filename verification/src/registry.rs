//! The shared job registry and the manager facade over it: submission,
//! cancellation, the worker's checkpoint transitions, log capture, and
//! snapshot reads. Insertion order is kept (submission order), ids are
//! never reused, and each mutation is pinned to a functional model so
//! the state-machine laws can be proved over it.

use vstd::prelude::*;

use crate::record::{job_coherent, queued_job, DownloadKind, JobModel, JobRecord};
use crate::state::{is_terminal, step, DownloadState, EventModel, StateModel};

verus! {

/// Why a submission was rejected; no job record exists in either case.
#[derive(Debug, Clone, Copy, PartialEq, Eq, Structural)]
pub enum SubmissionError {
    /// The submitted URL was empty.
    EmptyUrl,
    /// Every id has been handed out already.
    IdsExhausted,
}

/// What the worker must do after its first checkpoint.
#[derive(Debug, Clone, Copy, PartialEq, Eq, Structural)]
pub enum StartAction {
    /// Spawn the external downloader process.
    Spawn,
    /// Do not spawn anything: dedup hit, cancellation, or a stale call.
    NoSpawn,
}

/// How the external process ended.
#[derive(Debug, Clone)]
pub enum ExitOutcome {
    /// Exit code zero; `path` is the produced output.
    Success { path: String },
    /// Nonzero exit code.
    Failure,
}

/// Mathematical image of an `ExitOutcome`.
pub enum OutcomeModel {
    Success { path: Seq<char> },
    Failure,
}

impl View for ExitOutcome {
    type V = OutcomeModel;

    open spec fn view(&self) -> OutcomeModel {
        match self {
            ExitOutcome::Success { path } => OutcomeModel::Success { path: path@ },
            ExitOutcome::Failure => OutcomeModel::Failure,
        }
    }
}

/// Mathematical image of the whole registry.
#[verifier::ext_equal]
pub struct RegistryModel {
    pub jobs: Seq<JobModel>,
    pub next_id: u64,
}

impl RegistryModel {
    /// Registry invariant: ids strictly increase along the sequence
    /// (so they are unique and iteration order is submission order),
    /// every id is below the allocation counter, and each record pairs
    /// its state and its logs coherently.
    pub open spec fn inv(self) -> bool {
        &&& forall|i: int|
            0 <= i < self.jobs.len() ==> (#[trigger] self.jobs[i]).id < self.next_id
        &&& forall|i: int, k: int|
            0 <= i < k < self.jobs.len() ==> self.jobs[i].id < self.jobs[k].id
        &&& forall|i: int| 0 <= i < self.jobs.len() ==> job_coherent(#[trigger] self.jobs[i])
    }

    pub open spec fn has_job(self, id: u64) -> bool {
        exists|i: int| 0 <= i < self.jobs.len() && (#[trigger] self.jobs[i]).id == id
    }

    pub open spec fn job_ix(self, id: u64) -> int {
        choose|i: int| 0 <= i < self.jobs.len() && (#[trigger] self.jobs[i]).id == id
    }

    /// The record holding `id`; meaningful only when `has_job(id)`.
    pub open spec fn job(self, id: u64) -> JobModel {
        self.jobs[self.job_ix(id)]
    }
}

/// Within a well-formed registry an id occurs at most once.
pub proof fn lemma_id_unique(m: RegistryModel, i: int, k: int)
    requires
        m.inv(),
        0 <= i < m.jobs.len(),
        0 <= k < m.jobs.len(),
        m.jobs[i].id == m.jobs[k].id,
    ensures
        i == k,
{
    if i < k {
        assert(m.jobs[i].id < m.jobs[k].id);
    } else if k < i {
        assert(m.jobs[k].id < m.jobs[i].id);
    }
}

/// Apply `f` to the record holding `id` and leave every other record
/// untouched: the shape of every per-job mutation.
pub open spec fn touched(
    jobs: Seq<JobModel>,
    id: u64,
    f: spec_fn(JobModel) -> JobModel,
) -> Seq<JobModel> {
    jobs.map_values(|j: JobModel| if j.id == id { f(j) } else { j })
}

/// Requesting cancellation only raises the flag; the owning worker
/// applies the actual transition at its next checkpoint. On a record
/// already in a terminal state the request changes nothing at all.
pub open spec fn job_cancel(j: JobModel) -> JobModel {
    if is_terminal(j.state) {
        j
    } else {
        JobModel { cancel_requested: true, ..j }
    }
}

pub open spec fn cancel_model(jobs: Seq<JobModel>, id: u64) -> Seq<JobModel> {
    touched(jobs, id, |j: JobModel| job_cancel(j))
}

/// The event the worker's first checkpoint applies: a pending
/// cancellation wins over everything, then a dedup hit, then the spawn.
pub open spec fn start_event(j: JobModel, existing: Option<Seq<char>>, now: u64) -> EventModel {
    if j.cancel_requested {
        EventModel::CancelObserved
    } else {
        match existing {
            Option::Some(path) => EventModel::DedupHit { path },
            Option::None => EventModel::SpawnBegin { started_at: now },
        }
    }
}

pub open spec fn job_try_start(j: JobModel, existing: Option<Seq<char>>, now: u64) -> JobModel {
    JobModel { state: step(j.state, start_event(j, existing, now)), ..j }
}

pub open spec fn start_model(
    jobs: Seq<JobModel>,
    id: u64,
    existing: Option<Seq<char>>,
    now: u64,
) -> Seq<JobModel> {
    touched(jobs, id, |j: JobModel| job_try_start(j, existing, now))
}

/// A process is spawned exactly for a queued, uncanceled job whose
/// dedup probe found nothing.
pub open spec fn start_action_of(j: JobModel, existing: Option<Seq<char>>) -> StartAction {
    if (j.state matches StateModel::Queued) && !j.cancel_requested && (existing matches
    Option::None) {
        StartAction::Spawn
    } else {
        StartAction::NoSpawn
    }
}

/// The event the worker applies once the process has ended: a pending
/// cancellation wins the race against the exit report.
pub open spec fn finish_event(j: JobModel, out: OutcomeModel) -> EventModel {
    if j.cancel_requested {
        EventModel::CancelObserved
    } else {
        match out {
            OutcomeModel::Success { path } => EventModel::ExitSuccess { path },
            OutcomeModel::Failure => EventModel::ExitFailure { logs: j.logs },
        }
    }
}

pub open spec fn job_finish(j: JobModel, out: OutcomeModel) -> JobModel {
    JobModel { state: step(j.state, finish_event(j, out)), ..j }
}

pub open spec fn finish_model(jobs: Seq<JobModel>, id: u64, out: OutcomeModel) -> Seq<JobModel> {
    touched(jobs, id, |j: JobModel| job_finish(j, out))
}

/// A line of process output lands in the log buffer only while the job
/// is in `Downloading`; in particular the dedup path appends nothing.
pub open spec fn job_append(j: JobModel, line: Seq<char>) -> JobModel {
    if j.state matches StateModel::Downloading { .. } {
        JobModel { logs: j.logs.push(line), ..j }
    } else {
        j
    }
}

pub open spec fn append_model(jobs: Seq<JobModel>, id: u64, line: Seq<char>) -> Seq<JobModel> {
    touched(jobs, id, |j: JobModel| job_append(j, line))
}

/// What an accepted submission does: a fresh record in `Queued` at the
/// end of the sequence, under the next id.
pub open spec fn submit_model(
    m: RegistryModel,
    kind: DownloadKind,
    url: Seq<char>,
    submitted_at: u64,
) -> RegistryModel {
    RegistryModel {
        jobs: m.jobs.push(queued_job(m.next_id, kind, url, submitted_at)),
        next_id: (m.next_id + 1) as u64,
    }
}

/// A fresh submission enters the registry in `Queued`: no job skips
/// straight to a terminal state, and every lifecycle starts there.
pub proof fn lemma_submission_starts_queued(
    m: RegistryModel,
    kind: DownloadKind,
    url: Seq<char>,
    submitted_at: u64,
)
    ensures
        submit_model(m, kind, url, submitted_at).jobs.last().state == StateModel::Queued,
        submit_model(m, kind, url, submitted_at).jobs.last().logs =~= Seq::<Seq<char>>::empty(),
{
}

/// Submitting twice yields two records with distinct ids, and the
/// first record is still present, unchanged, after the second
/// submission: each job progresses independently.
pub proof fn lemma_submissions_independent(
    m: RegistryModel,
    kind1: DownloadKind,
    url1: Seq<char>,
    at1: u64,
    kind2: DownloadKind,
    url2: Seq<char>,
    at2: u64,
)
    requires
        m.next_id < u64::MAX,
    ensures
        ({
            let m1 = submit_model(m, kind1, url1, at1);
            let m2 = submit_model(m1, kind2, url2, at2);
            let n = m.jobs.len() as int;
            &&& m2.jobs[n].id != m2.jobs[n + 1].id
            &&& m2.jobs[n] == m1.jobs[n]
            &&& m2.jobs[n].state == StateModel::Queued
            &&& m2.jobs[n + 1].state == StateModel::Queued
        }),
{
}

/// A per-job mutation leaves every other record exactly as it was:
/// each state machine reflects only its own worker's events.
pub proof fn lemma_other_jobs_unchanged(
    jobs: Seq<JobModel>,
    id: u64,
    f: spec_fn(JobModel) -> JobModel,
    i: int,
)
    requires
        0 <= i < jobs.len(),
        jobs[i].id != id,
    ensures
        touched(jobs, id, f)[i] == jobs[i],
{
}

/// Canceling a queued job before its worker's first checkpoint makes
/// that checkpoint observe the cancellation: the job lands in
/// `Canceled`, its logs stay empty of process output, and no process
/// is spawned, whatever the dedup probe would have said.
pub proof fn lemma_cancel_before_spawn(j: JobModel, existing: Option<Seq<char>>, now: u64)
    requires
        j.state matches StateModel::Queued,
    ensures
        job_try_start(job_cancel(j), existing, now).state == StateModel::Canceled,
        job_try_start(job_cancel(j), existing, now).logs == j.logs,
        start_action_of(job_cancel(j), existing) == StartAction::NoSpawn,
{
}

/// The same, through the registry: requesting cancellation of a queued
/// job and then running its worker's first checkpoint leaves the job
/// in `Canceled`, and the checkpoint reports that no process is to be
/// spawned, whatever the dedup probe found.
pub proof fn lemma_registry_cancel_before_spawn(
    m: RegistryModel,
    id: u64,
    existing: Option<Seq<char>>,
    now: u64,
)
    requires
        m.inv(),
        m.has_job(id),
        m.job(id).state matches StateModel::Queued,
    ensures
        ({
            let after_cancel = cancel_model(m.jobs, id);
            let after_checkpoint = start_model(after_cancel, id, existing, now);
            &&& after_checkpoint[m.job_ix(id)].state == StateModel::Canceled
            &&& start_action_of(after_cancel[m.job_ix(id)], existing) == StartAction::NoSpawn
        }),
{
    let i = m.job_ix(id);
    let after_cancel = cancel_model(m.jobs, id);
    assert(after_cancel[i] == job_cancel(m.jobs[i]));
    assert(start_model(after_cancel, id, existing, now)[i] == job_try_start(
        after_cancel[i],
        existing,
        now,
    ));
    lemma_cancel_before_spawn(m.jobs[i], existing, now);
}

/// Once cancellation is requested, the exit report loses the race: the
/// worker's final checkpoint yields `Canceled` whether the process
/// reported success or failure.
pub proof fn lemma_cancel_wins_race(j: JobModel, outcome: OutcomeModel)
    requires
        j.cancel_requested,
        (j.state matches StateModel::Queued) || (j.state matches StateModel::Downloading { .. }),
    ensures
        job_finish(j, outcome).state == StateModel::Canceled,
{
}

/// A dedup hit on a queued, uncanceled job yields `AlreadyDownloaded`
/// with the found path, appends nothing to the logs, and spawns no
/// process.
pub proof fn lemma_dedup_hit_no_spawn(j: JobModel, path: Seq<char>, now: u64)
    requires
        j.state matches StateModel::Queued,
        !j.cancel_requested,
    ensures
        job_try_start(j, Option::Some(path), now).state == (StateModel::AlreadyDownloaded {
            path,
        }),
        job_try_start(j, Option::Some(path), now).logs == j.logs,
        start_action_of(j, Option::Some(path)) == StartAction::NoSpawn,
{
}

/// An uncanceled downloading job ends exactly as its process did: exit
/// code zero yields `Completed` with the reported path, a nonzero exit
/// yields `Failed` carrying the full log buffer captured so far.
pub proof fn lemma_exit_outcome(j: JobModel, out: OutcomeModel)
    requires
        !j.cancel_requested,
        j.state matches StateModel::Downloading { .. },
    ensures
        out matches OutcomeModel::Success { path } ==> job_finish(j, out).state
            == (StateModel::Completed { path }),
        out matches OutcomeModel::Failure ==> job_finish(j, out).state == (StateModel::Failed {
            logs: j.logs,
        }),
        job_coherent(job_finish(j, out)),
{
}

/// A record in a terminal state is immutable: no checkpoint, exit
/// report or log line changes any of its fields again.
pub proof fn lemma_terminal_record_fixed(
    j: JobModel,
    existing: Option<Seq<char>>,
    now: u64,
    out: OutcomeModel,
    line: Seq<char>,
)
    requires
        is_terminal(j.state),
    ensures
        job_cancel(j) == j,
        job_try_start(j, existing, now) == j,
        job_finish(j, out) == j,
        job_append(j, line) == j,
{
    assert(job_try_start(j, existing, now) =~= j);
    assert(job_finish(j, out) =~= j);
}

/// The fields assigned at submission agree between two images of a
/// record.
pub open spec fn same_identity(a: JobModel, b: JobModel) -> bool {
    &&& a.id == b.id
    &&& a.kind == b.kind
    &&& a.source_url == b.source_url
    &&& a.submitted_at == b.submitted_at
}

/// A record's identity is immutable: no operation after submission
/// changes its id, kind, source URL or submission time; the log buffer
/// only ever grows; and a requested cancellation is never forgotten.
pub proof fn lemma_identity_immutable(
    j: JobModel,
    existing: Option<Seq<char>>,
    now: u64,
    out: OutcomeModel,
    line: Seq<char>,
)
    ensures
        same_identity(job_cancel(j), j),
        same_identity(job_try_start(j, existing, now), j),
        same_identity(job_finish(j, out), j),
        same_identity(job_append(j, line), j),
        !is_terminal(j.state) ==> job_cancel(j).cancel_requested,
        j.cancel_requested ==> job_cancel(j).cancel_requested,
        job_try_start(j, existing, now).logs == j.logs,
        job_finish(j, out).logs == j.logs,
        j.logs.is_prefix_of(job_append(j, line).logs),
{
    assert(j.logs.is_prefix_of(job_append(j, line).logs)) by {
        if j.state matches StateModel::Downloading { .. } {
            assert(j.logs.push(line).take(j.logs.len() as int) =~= j.logs);
        } else {
            assert(j.logs.take(j.logs.len() as int) =~= j.logs);
        }
    }
}

/// Every record a snapshot of a well-formed registry exposes pairs its
/// state and its logs coherently: a `Failed` state carries exactly the
/// captured log buffer, never a half-applied transition.
pub proof fn lemma_snapshot_coherent(m: RegistryModel, i: int)
    requires
        m.inv(),
        0 <= i < m.jobs.len(),
    ensures
        job_coherent(m.jobs[i]),
{
}

/// Canceling twice has exactly the effect of canceling once.
pub proof fn lemma_cancel_idempotent(jobs: Seq<JobModel>, id: u64)
    ensures
        cancel_model(cancel_model(jobs, id), id) == cancel_model(jobs, id),
{
    assert(cancel_model(cancel_model(jobs, id), id) =~~= cancel_model(jobs, id));
}

/// The job registry itself: the single shared structure. Structural
/// changes happen only at submission; per-record changes only through
/// the checkpoint methods below.
pub struct JobRegistry {
    jobs: Vec<JobRecord>,
    next_id: u64,
}

impl View for JobRegistry {
    type V = RegistryModel;

    closed spec fn view(&self) -> RegistryModel {
        RegistryModel {
            jobs: self.jobs@.map_values(|r: JobRecord| r@),
            next_id: self.next_id,
        }
    }
}

impl JobRegistry {
    /// An empty registry; ids start at zero.
    pub fn new() -> (r: JobRegistry)
        ensures
            r@.inv(),
            r@.jobs.len() == 0,
            r@.next_id == 0,
    {
        JobRegistry { jobs: Vec::new(), next_id: 0 }
    }

    /// Index of the record holding `id`, if any.
    fn index_of(&self, id: u64) -> (r: Option<usize>)
        ensures
            match r {
                Option::Some(i) => 0 <= i < self@.jobs.len() && self@.jobs[i as int].id == id,
                Option::None => !self@.has_job(id),
            },
    {
        let n = self.jobs.len();
        let mut i: usize = 0;
        while i < n
            invariant
                i <= n,
                n == self.jobs.len(),
                forall|k: int| 0 <= k < i ==> (#[trigger] self@.jobs[k]).id != id,
            decreases n - i,
        {
            if self.jobs[i].id == id {
                return Some(i);
            }
            i += 1;
        }
        None
    }

    /// Number of jobs ever submitted and still held.
    pub fn len(&self) -> (n: usize)
        ensures
            n == self@.jobs.len(),
    {
        self.jobs.len()
    }

    /// Snapshot read of one record, exactly as the registry holds it.
    pub fn get(&self, i: usize) -> (r: &JobRecord)
        requires
            i < self@.jobs.len(),
        ensures
            r@ == self@.jobs[i as int],
    {
        &self.jobs[i]
    }

    /// Accept a submission: validate the URL, allocate the next id, and
    /// insert a fresh record in `Queued`. Succeeds if and only if the
    /// URL is nonempty and an id is still available; never waits for
    /// the download itself.
    pub fn download_url(
        &mut self,
        url: &str,
        kind: DownloadKind,
        submitted_at: u64,
    ) -> (r: Result<u64, SubmissionError>)
        requires
            old(self)@.inv(),
        ensures
            final(self)@.inv(),
            match r {
                Result::Ok(id) => {
                    &&& url@.len() > 0
                    &&& old(self)@.next_id < u64::MAX
                    &&& id == old(self)@.next_id
                    &&& final(self)@ == submit_model(old(self)@, kind, url@, submitted_at)
                },
                Result::Err(e) => {
                    &&& final(self)@ == old(self)@
                    &&& e == SubmissionError::EmptyUrl <==> url@.len() == 0
                    &&& e == SubmissionError::IdsExhausted <==> (url@.len() > 0
                        && old(self)@.next_id == u64::MAX)
                },
            },
    {
        if url.is_empty() {
            return Err(SubmissionError::EmptyUrl);
        }
        if self.next_id == u64::MAX {
            return Err(SubmissionError::IdsExhausted);
        }
        let id = self.next_id;
        let record = JobRecord {
            id,
            kind,
            source_url: url.to_owned(),
            state: DownloadState::Queued,
            logs: Vec::new(),
            submitted_at,
            cancel_requested: false,
        };
        self.jobs.push(record);
        self.next_id = id + 1;
        proof {
            assert(self@ =~~= submit_model(old(self)@, kind, url@, submitted_at));
            assert forall|i: int| 0 <= i < self@.jobs.len() implies (#[trigger] self@.jobs[i]).id
                < self@.next_id by {}
        }
        Ok(id)
    }

    /// Request cancellation of a job: raise its flag and return. A call
    /// on an unknown id, or a repeated call, changes nothing further;
    /// the owning worker applies the actual transition.
    pub fn cancel(&mut self, id: u64)
        requires
            old(self)@.inv(),
        ensures
            final(self)@.inv(),
            final(self)@.next_id == old(self)@.next_id,
            final(self)@.jobs == cancel_model(old(self)@.jobs, id),
    {
        match self.index_of(id) {
            None => {
                proof {
                    assert(self@.jobs =~~= cancel_model(self@.jobs, id));
                }
            },
            Some(i) => {
                let r = &mut self.jobs[i];
                if !r.state.is_terminal() {
                    r.cancel_requested = true;
                }
                proof {
                    assert forall|k: int|
                        0 <= k < self@.jobs.len() && k != i implies old(self)@.jobs[k].id
                        != id by {
                        if old(self)@.jobs[k].id == id {
                            lemma_id_unique(old(self)@, k, i as int);
                        }
                    }
                    assert(self@.jobs =~~= cancel_model(old(self)@.jobs, id));
                }
            },
        }
    }

    /// Whether cancellation of `id` has been requested; what the worker
    /// polls between reads of the process's output.
    pub fn is_cancel_requested(&self, id: u64) -> (r: bool)
        requires
            self@.inv(),
        ensures
            r == (self@.has_job(id) && self@.job(id).cancel_requested),
    {
        match self.index_of(id) {
            None => false,
            Some(i) => {
                proof {
                    if self@.has_job(id) {
                        lemma_id_unique(self@, i as int, self@.job_ix(id));
                    }
                }
                self.jobs[i].cancel_requested
            },
        }
    }

    /// The worker's first checkpoint, run before anything external: a
    /// pending cancellation moves the job to `Canceled`; a dedup hit
    /// moves it to `AlreadyDownloaded` with the found path; otherwise
    /// the job enters `Downloading` and the caller must spawn the
    /// process. Returns `Spawn` exactly in that last case.
    pub fn try_start(&mut self, id: u64, existing: Option<String>, now: u64) -> (a: StartAction)
        requires
            old(self)@.inv(),
        ensures
            final(self)@.inv(),
            final(self)@.next_id == old(self)@.next_id,
            final(self)@.jobs == start_model(old(self)@.jobs, id, existing.deep_view(), now),
            a == if old(self)@.has_job(id) {
                start_action_of(old(self)@.job(id), existing.deep_view())
            } else {
                StartAction::NoSpawn
            },
    {
        match self.index_of(id) {
            None => {
                proof {
                    assert(self@.jobs =~~= start_model(
                        self@.jobs,
                        id,
                        existing.deep_view(),
                        now,
                    ));
                }
                StartAction::NoSpawn
            },
            Some(i) => {
                proof {
                    lemma_id_unique(old(self)@, i as int, old(self)@.job_ix(id));
                    assert forall|k: int|
                        0 <= k < self@.jobs.len() && k != i implies old(self)@.jobs[k].id
                        != id by {
                        if old(self)@.jobs[k].id == id {
                            lemma_id_unique(old(self)@, k, i as int);
                        }
                    }
                }
                let r = &mut self.jobs[i];
                let queued = r.state.is_queued();
                let downloading = r.state.is_downloading();
                let action: StartAction;
                if r.cancel_requested {
                    if queued || downloading {
                        r.state = DownloadState::Canceled;
                    }
                    action = StartAction::NoSpawn;
                } else {
                    match existing {
                        Some(path) => {
                            if queued {
                                r.state = DownloadState::AlreadyDownloaded { path };
                            }
                            action = StartAction::NoSpawn;
                        },
                        None => {
                            if queued {
                                r.state = DownloadState::Downloading { started_at: now };
                                action = StartAction::Spawn;
                            } else {
                                action = StartAction::NoSpawn;
                            }
                        },
                    }
                }
                proof {
                    assert(self@.jobs =~~= start_model(
                        old(self)@.jobs,
                        id,
                        existing.deep_view(),
                        now,
                    ));
                }
                action
            },
        }
    }

    /// A line of the process's combined output: appended to the job's
    /// log buffer while it is in `Downloading`, visible to snapshot
    /// readers immediately; ignored in any other state.
    pub fn append_log(&mut self, id: u64, line: String)
        requires
            old(self)@.inv(),
        ensures
            final(self)@.inv(),
            final(self)@.next_id == old(self)@.next_id,
            final(self)@.jobs == append_model(old(self)@.jobs, id, line@),
    {
        match self.index_of(id) {
            None => {
                proof {
                    assert(self@.jobs =~~= append_model(self@.jobs, id, line@));
                }
            },
            Some(i) => {
                proof {
                    assert forall|k: int|
                        0 <= k < self@.jobs.len() && k != i implies old(self)@.jobs[k].id
                        != id by {
                        if old(self)@.jobs[k].id == id {
                            lemma_id_unique(old(self)@, k, i as int);
                        }
                    }
                }
                let r = &mut self.jobs[i];
                if r.state.is_downloading() {
                    r.logs.push(line);
                }
                proof {
                    assert(self@.jobs =~~= append_model(old(self)@.jobs, id, line@));
                }
            },
        }
    }

    /// The worker's final checkpoint, run once the process has ended
    /// (or failed to spawn): a pending cancellation wins and yields
    /// `Canceled`; otherwise exit code zero yields `Completed` and a
    /// nonzero exit yields `Failed` carrying the full captured logs.
    /// On a job no longer in `Downloading` the report is ignored.
    pub fn finish(&mut self, id: u64, outcome: ExitOutcome)
        requires
            old(self)@.inv(),
        ensures
            final(self)@.inv(),
            final(self)@.next_id == old(self)@.next_id,
            final(self)@.jobs == finish_model(old(self)@.jobs, id, outcome@),
    {
        match self.index_of(id) {
            None => {
                proof {
                    assert(self@.jobs =~~= finish_model(self@.jobs, id, outcome@));
                }
            },
            Some(i) => {
                proof {
                    assert forall|k: int|
                        0 <= k < self@.jobs.len() && k != i implies old(self)@.jobs[k].id
                        != id by {
                        if old(self)@.jobs[k].id == id {
                            lemma_id_unique(old(self)@, k, i as int);
                        }
                    }
                }
                let r = &mut self.jobs[i];
                let queued = r.state.is_queued();
                let downloading = r.state.is_downloading();
                if r.cancel_requested {
                    if queued || downloading {
                        r.state = DownloadState::Canceled;
                    }
                } else if downloading {
                    match outcome {
                        ExitOutcome::Success { path } => {
                            r.state = DownloadState::Completed { path };
                        },
                        ExitOutcome::Failure => {
                            let captured = r.logs.clone();
                            proof {
                                assert(captured.deep_view() =~~= r.logs.deep_view());
                            }
                            r.state = DownloadState::Failed { logs: captured };
                        },
                    }
                }
                proof {
                    assert(self@.jobs =~~= finish_model(old(self)@.jobs, id, outcome@));
                }
            },
        }
    }
}

} // verus!
