//! The scan cycle's decisions: what happens to a candidate between its
//! discovery and its admission, and what the service needs before it runs.

use vstd::prelude::*;
use crate::classify::{classify_source, kind_of, SourceType};
use crate::clock::unix_millis;
use crate::config::{Config, ConfigError, ConfigErrorView};
use crate::gates::{
    check_gates, gate_result_of, GateResult, GateResultView, GatesConfig, ProbeError,
    ProbeErrorView, ProbeResult, ProbeResultView,
};
use crate::job_executor::{JobError, JobErrorView, JobStateView};
use crate::jobs::{active_for, create_job, is_job_id, job_exists_for_path, new_job_record};
use crate::scan::{ScanCandidate, ScanCandidateView};
use crate::stability::StabilityResult;
use crate::startup::{StartupError, StartupErrorView};
use crate::text::{concat2, lowercase_of, texts};

verus! {

/// Why the service stopped.
#[derive(Debug, Clone, PartialEq, Eq)]
pub enum DaemonError {
    Config(ConfigError),
    Startup(StartupError),
    Job(JobError),
    Server(String),
    Io(String),
}

/// A `DaemonError` with its texts as sequences.
pub enum DaemonErrorView {
    Config(ConfigErrorView),
    Startup(StartupErrorView),
    Job(JobErrorView),
    Server(Seq<char>),
    Io(Seq<char>),
}

impl View for DaemonError {
    type V = DaemonErrorView;

    open spec fn view(&self) -> DaemonErrorView {
        match self {
            DaemonError::Config(e) => DaemonErrorView::Config(e@),
            DaemonError::Startup(e) => DaemonErrorView::Startup(e@),
            DaemonError::Job(e) => DaemonErrorView::Job(e@),
            DaemonError::Server(text) => DaemonErrorView::Server(text@),
            DaemonError::Io(text) => DaemonErrorView::Io(text@),
        }
    }
}

impl DaemonErrorView {
    /// The message of the error.
    pub open spec fn message(self) -> Seq<char> {
        match self {
            DaemonErrorView::Config(e) => "Configuration error: "@ + e.message(),
            DaemonErrorView::Startup(e) => "Startup check failed: "@ + e.message(),
            DaemonErrorView::Job(e) => "Job execution error: "@ + e.message(),
            DaemonErrorView::Server(text) => "Server error: "@ + text,
            DaemonErrorView::Io(text) => "IO error: "@ + text,
        }
    }
}

impl DaemonError {
    /// The message of the error.
    pub fn message(&self) -> (r: String)
        ensures
            r@ == self@.message(),
    {
        match self {
            DaemonError::Config(e) => concat2("Configuration error: ", e.message().as_str()),
            DaemonError::Startup(e) => concat2("Startup check failed: ", e.message().as_str()),
            DaemonError::Job(e) => concat2("Job execution error: ", e.message().as_str()),
            DaemonError::Server(text) => concat2("Server error: ", text.as_str()),
            DaemonError::Io(text) => concat2("IO error: ", text.as_str()),
        }
    }
}

/// The time now in milliseconds since the Unix epoch.
pub fn chrono_timestamp_ms() -> i64 {
    unix_millis()
}

/// The directories that must exist before the service runs: that of the job
/// records, then that of the intermediate outputs.
pub fn required_directories(cfg: &Config) -> (dirs: Vec<String>)
    ensures
        texts(dirs@) == seq![cfg.paths.job_state_dir@, cfg.paths.temp_output_dir@],
{
    let mut dirs: Vec<String> = Vec::new();
    dirs.push(cfg.paths.job_state_dir.clone());
    dirs.push(cfg.paths.temp_output_dir.clone());
    assert(texts(dirs@) =~= seq![cfg.paths.job_state_dir@, cfg.paths.temp_output_dir@]);
    dirs
}

/// What the scan cycle goes by.
#[derive(Debug, Clone, Copy, PartialEq, Eq, Structural)]
pub struct ScanSettings {
    pub gates: GatesConfig,
    pub write_why_sidecars: bool,
    pub stability_wait_secs: u64,
}

/// The scan cycle's settings from the configuration.
pub fn scan_settings(cfg: &Config) -> (r: ScanSettings)
    ensures
        r.gates == cfg.gates,
        r.write_why_sidecars == cfg.scan.write_why_sidecars,
        r.stability_wait_secs == cfg.scan.stability_wait_secs,
{
    ScanSettings {
        gates: cfg.gates,
        write_why_sidecars: cfg.scan.write_why_sidecars,
        stability_wait_secs: cfg.scan.stability_wait_secs,
    }
}

/// Which answer the handling of a candidate is waiting for.
#[derive(Debug, Clone, Copy, PartialEq, Eq, Structural)]
pub enum CandidatePhase {
    /// The second look at the file's size.
    Stability,
    /// The probe.
    Probe,
    /// None: the candidate is dealt with for this cycle.
    Settled,
}

/// What came back from outside.
#[derive(Debug, Clone, PartialEq, Eq)]
pub enum ScanEvent {
    /// The file's size was read again after the wait.
    StabilityChecked(StabilityResult),
    /// The file could not be read after the wait.
    StabilityFailed(String),
    /// The probe gave a result.
    Probed(ProbeResult),
    /// The probe failed.
    ProbeFailed(ProbeError),
}

/// A `ScanEvent` with its texts as sequences.
pub enum ScanEventView {
    StabilityChecked(StabilityResult),
    StabilityFailed(Seq<char>),
    Probed(ProbeResultView),
    ProbeFailed(ProbeErrorView),
}

impl View for ScanEvent {
    type V = ScanEventView;

    open spec fn view(&self) -> ScanEventView {
        match self {
            ScanEvent::StabilityChecked(r) => ScanEventView::StabilityChecked(*r),
            ScanEvent::StabilityFailed(text) => ScanEventView::StabilityFailed(text@),
            ScanEvent::Probed(probe) => ScanEventView::Probed(probe@),
            ScanEvent::ProbeFailed(e) => ScanEventView::ProbeFailed(e@),
        }
    }
}

/// What to do with a candidate next.
#[derive(Debug, Clone, PartialEq, Eq)]
pub enum ScanAction {
    /// Wait, then read the file's size again.
    CheckStability { path: String, initial_size: u64, wait_secs: u64 },
    /// Probe the file.
    Probe { path: String },
    /// Write a skip marker for the file, and the note if `write_why` is set.
    /// Failures of either are ignored.
    Mark { video_path: String, reason: String, write_why: bool },
    /// Create, save and queue a job for the file.
    Admit { probe: ProbeResult, source_type: SourceType },
    /// Leave the file for a later cycle; write nothing.
    Pass,
    /// The event did not answer what was asked; nothing has changed.
    Ignored,
}

/// A `ScanAction` with its texts as sequences.
pub enum ScanActionView {
    CheckStability { path: Seq<char>, initial_size: u64, wait_secs: u64 },
    Probe { path: Seq<char> },
    Mark { video_path: Seq<char>, reason: Seq<char>, write_why: bool },
    Admit { probe: ProbeResultView, source_type: SourceType },
    Pass,
    Ignored,
}

impl View for ScanAction {
    type V = ScanActionView;

    open spec fn view(&self) -> ScanActionView {
        match self {
            ScanAction::CheckStability { path, initial_size, wait_secs } => {
                ScanActionView::CheckStability {
                    path: path@,
                    initial_size: *initial_size,
                    wait_secs: *wait_secs,
                }
            },
            ScanAction::Probe { path } => ScanActionView::Probe { path: path@ },
            ScanAction::Mark { video_path, reason, write_why } => ScanActionView::Mark {
                video_path: video_path@,
                reason: reason@,
                write_why: *write_why,
            },
            ScanAction::Admit { probe, source_type } => ScanActionView::Admit {
                probe: probe@,
                source_type: *source_type,
            },
            ScanAction::Pass => ScanActionView::Pass,
            ScanAction::Ignored => ScanActionView::Ignored,
        }
    }
}

/// A candidate on its way through one scan cycle.
#[derive(Debug, Clone, PartialEq, Eq)]
pub struct Admission {
    pub candidate: ScanCandidate,
    pub phase: CandidatePhase,
}

/// An `Admission` with its texts as sequences.
pub struct AdmissionView {
    pub candidate: ScanCandidateView,
    pub phase: CandidatePhase,
}

impl View for Admission {
    type V = AdmissionView;

    open spec fn view(&self) -> AdmissionView {
        AdmissionView { candidate: self.candidate@, phase: self.phase }
    }
}

/// The start of a candidate's handling: a file with an active job is left
/// alone, and any other has its stability checked.
pub open spec fn first_action(
    has_active_job: bool,
    candidate: ScanCandidateView,
    settings: ScanSettings,
) -> (CandidatePhase, ScanActionView) {
    if has_active_job {
        (CandidatePhase::Settled, ScanActionView::Pass)
    } else {
        (
            CandidatePhase::Stability,
            ScanActionView::CheckStability {
                path: candidate.path,
                initial_size: candidate.size_bytes,
                wait_secs: settings.stability_wait_secs,
            },
        )
    }
}

/// What an event makes of a candidate.
///
/// * A stable file is probed. An unstable one, or one that cannot be read,
///   is left for a later cycle and nothing is written.
/// * A failed probe marks the file, with the probe's message as the reason.
/// * A probed file goes through the gates with its size at discovery. A file
///   that one of them refuses is marked with its reason; one that passes is
///   classified and admitted.
/// * An event that does not answer the question under way changes nothing.
pub open spec fn next_action(a: AdmissionView, settings: ScanSettings, event: ScanEventView) -> (
    CandidatePhase,
    ScanActionView,
) {
    match (a.phase, event) {
        (CandidatePhase::Stability, ScanEventView::StabilityChecked(StabilityResult::Stable)) => (
            CandidatePhase::Probe,
            ScanActionView::Probe { path: a.candidate.path },
        ),
        (CandidatePhase::Stability, ScanEventView::StabilityChecked(_)) => (
            CandidatePhase::Settled,
            ScanActionView::Pass,
        ),
        (CandidatePhase::Stability, ScanEventView::StabilityFailed(_)) => (
            CandidatePhase::Settled,
            ScanActionView::Pass,
        ),
        (CandidatePhase::Probe, ScanEventView::ProbeFailed(e)) => (
            CandidatePhase::Settled,
            ScanActionView::Mark {
                video_path: a.candidate.path,
                reason: "ffprobe failed: "@ + e.message(),
                write_why: settings.write_why_sidecars,
            },
        ),
        (CandidatePhase::Probe, ScanEventView::Probed(probe)) => (
            CandidatePhase::Settled,
            match gate_result_of(probe, a.candidate.size_bytes, settings.gates) {
                GateResultView::Skip { reason } => ScanActionView::Mark {
                    video_path: a.candidate.path,
                    reason,
                    write_why: settings.write_why_sidecars,
                },
                GateResultView::Pass(passed) => ScanActionView::Admit {
                    probe: passed,
                    source_type: kind_of(lowercase_of(a.candidate.path), passed),
                },
            },
        ),
        _ => (a.phase, ScanActionView::Ignored),
    }
}

impl Admission {
    /// Takes up a candidate, given the job records loaded at the start of
    /// the cycle.
    pub fn begin(existing_jobs: &[crate::jobs::Job], candidate: ScanCandidate, settings: &ScanSettings) -> (r:
        (Admission, ScanAction))
        ensures
            r.0@.candidate == candidate@,
            (r.0.phase, r.1@) == first_action(
                active_for(existing_jobs@, candidate.path@),
                candidate@,
                *settings,
            ),
    {
        if job_exists_for_path(existing_jobs, candidate.path.as_str()) {
            (Admission { candidate, phase: CandidatePhase::Settled }, ScanAction::Pass)
        } else {
            let action = ScanAction::CheckStability {
                path: candidate.path.clone(),
                initial_size: candidate.size_bytes,
                wait_secs: settings.stability_wait_secs,
            };
            (Admission { candidate, phase: CandidatePhase::Stability }, action)
        }
    }

    /// Takes the answer to the question under way and says what to do next.
    pub fn advance(&mut self, settings: &ScanSettings, event: ScanEvent) -> (action: ScanAction)
        ensures
            final(self)@.candidate == old(self)@.candidate,
            (final(self).phase, action@) == next_action(old(self)@, *settings, event@),
    {
        match (self.phase, event) {
            (CandidatePhase::Stability, ScanEvent::StabilityChecked(result)) => {
                match result {
                    StabilityResult::Stable => {
                        self.phase = CandidatePhase::Probe;
                        ScanAction::Probe { path: self.candidate.path.clone() }
                    },
                    StabilityResult::Unstable { initial_size, current_size } => {
                        self.phase = CandidatePhase::Settled;
                        ScanAction::Pass
                    },
                }
            },
            (CandidatePhase::Stability, ScanEvent::StabilityFailed(_)) => {
                self.phase = CandidatePhase::Settled;
                ScanAction::Pass
            },
            (CandidatePhase::Probe, ScanEvent::ProbeFailed(e)) => {
                self.phase = CandidatePhase::Settled;
                ScanAction::Mark {
                    video_path: self.candidate.path.clone(),
                    reason: concat2("ffprobe failed: ", e.message().as_str()),
                    write_why: settings.write_why_sidecars,
                }
            },
            (CandidatePhase::Probe, ScanEvent::Probed(probe)) => {
                self.phase = CandidatePhase::Settled;
                match check_gates(&probe, self.candidate.size_bytes, &settings.gates) {
                    GateResult::Skip { reason } => ScanAction::Mark {
                        video_path: self.candidate.path.clone(),
                        reason,
                        write_why: settings.write_why_sidecars,
                    },
                    GateResult::Pass(passed) => {
                        let source_type = classify_source(self.candidate.path.as_str(), &passed);
                        ScanAction::Admit { probe: passed, source_type }
                    },
                }
            },
            _ => ScanAction::Ignored,
        }
    }
}

/// The job that the executor gets for a record: queued, with the record's
/// id and paths and the candidate's size as the size before the encode.
pub open spec fn executor_job_of(record: crate::jobs::JobView, candidate: ScanCandidateView) -> crate::job_executor::JobView {
    crate::job_executor::JobView {
        id: record.id,
        input_path: record.input_path,
        output_path: record.output_path,
        state: JobStateView::Queued,
        total_frames: 0,
        size_in_bytes_before: candidate.size_bytes,
    }
}

/// Makes the executor's job for a record.
pub fn executor_job_for(record: &crate::jobs::Job, candidate: &ScanCandidate) -> (job:
    crate::job_executor::Job)
    ensures
        job@ == executor_job_of(record@, candidate@),
{
    let mut job = crate::job_executor::Job::new(
        record.id.clone(),
        record.input_path.clone(),
        record.output_path.clone(),
    );
    job.size_in_bytes_before = candidate.size_bytes;
    job
}

/// Admits a candidate: makes its record, to be saved, and the executor's
/// job, to be queued.
pub fn admit_candidate(
    candidate: &ScanCandidate,
    probe: ProbeResult,
    source_type: SourceType,
    temp_output_dir: &str,
) -> (r: (crate::jobs::Job, crate::job_executor::Job))
    ensures
        is_job_id(r.0@.id),
        r.0@ == new_job_record(
            r.0@.id,
            r.0.created_at,
            candidate@,
            probe@,
            source_type,
            temp_output_dir@,
        ),
        r.1@ == executor_job_of(r.0@, candidate@),
{
    let record = create_job(candidate, probe, source_type, temp_output_dir);
    let job = executor_job_for(&record, candidate);
    (record, job)
}

/// A file with an active job is not taken up again: nothing is asked of it
/// and nothing is written, for as long as that job is pending or running.
pub proof fn lemma_active_job_suppresses(candidate: ScanCandidateView, settings: ScanSettings)
    ensures
        first_action(true, candidate, settings) == (CandidatePhase::Settled, ScanActionView::Pass),
        first_action(false, candidate, settings).1 is CheckStability,
{
}

/// A file whose size changed, or that could not be read, is left for a later
/// cycle: it is not probed, not marked and not admitted.
pub proof fn lemma_unstable_file_is_left(a: AdmissionView, settings: ScanSettings, event: ScanEventView)
    requires
        a.phase is Stability,
        event is StabilityFailed || (event matches ScanEventView::StabilityChecked(r) && r
            is Unstable),
    ensures
        next_action(a, settings, event) == (CandidatePhase::Settled, ScanActionView::Pass),
{
}

/// A candidate is marked only after a probe: for the probe's failure or for
/// a gate's reason. It is admitted only if it passed every gate, and then
/// nothing is marked.
pub proof fn lemma_marked_or_admitted(a: AdmissionView, settings: ScanSettings, event: ScanEventView)
    ensures
        ({
            let (phase, action) = next_action(a, settings, event);
            &&& action is Mark ==> a.phase is Probe && (event is ProbeFailed || (
            event matches ScanEventView::Probed(probe) && gate_result_of(
                probe,
                a.candidate.size_bytes,
                settings.gates,
            ) is Skip))
            &&& action is Admit ==> a.phase is Probe && (event matches ScanEventView::Probed(probe)
                && gate_result_of(probe, a.candidate.size_bytes, settings.gates)
                == GateResultView::Pass(probe))
            &&& a.phase is Settled ==> action is Ignored && phase is Settled
        }),
{
}

} // verus!
