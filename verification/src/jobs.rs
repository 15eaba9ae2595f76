//! Job records: what is stored of a job from its admission to its end, and
//! the question whether a path already has an active job.

use vstd::prelude::*;
use crate::classify::SourceType;
use crate::clock::unix_millis;
use crate::gates::{ProbeResult, ProbeResultView};
use crate::paths::{join_path, joined_path};
use crate::scan::{ScanCandidate, ScanCandidateView};
use crate::text::{concat2, same_text};

verus! {

/// The stage of a job in the pipeline.
#[derive(Debug, Clone, Copy, PartialEq, Eq, Structural)]
pub enum JobStage {
    Queued,
    Encoding,
    Validating,
    SizeGating,
    Replacing,
    Complete,
}

impl Default for JobStage {
    fn default() -> (r: JobStage)
        ensures
            r == JobStage::Queued,
    {
        JobStage::Queued
    }
}

impl JobStage {
    /// The name under which the stage is stored.
    pub open spec fn label(self) -> Seq<char> {
        match self {
            JobStage::Queued => "queued"@,
            JobStage::Encoding => "encoding"@,
            JobStage::Validating => "validating"@,
            JobStage::SizeGating => "size_gating"@,
            JobStage::Replacing => "replacing"@,
            JobStage::Complete => "complete"@,
        }
    }

    /// The place of the stage in the order of the pipeline.
    pub open spec fn rank(self) -> nat {
        match self {
            JobStage::Queued => 0,
            JobStage::Encoding => 1,
            JobStage::Validating => 2,
            JobStage::SizeGating => 3,
            JobStage::Replacing => 4,
            JobStage::Complete => 5,
        }
    }

    /// A running job moves to `next` from this stage only by staying or by
    /// going one stage on.
    pub open spec fn steps_to(self, next: JobStage) -> bool {
        next.rank() == self.rank() || next.rank() == self.rank() + 1
    }

    /// The name under which the stage is stored.
    pub fn as_str(&self) -> (r: &'static str)
        ensures
            r@ == self.label(),
    {
        match self {
            JobStage::Queued => "queued",
            JobStage::Encoding => "encoding",
            JobStage::Validating => "validating",
            JobStage::SizeGating => "size_gating",
            JobStage::Replacing => "replacing",
            JobStage::Complete => "complete",
        }
    }
}

/// The status of a job.
#[derive(Debug, Clone, Copy, PartialEq, Eq, Structural)]
pub enum JobStatus {
    Pending,
    Running,
    Success,
    Failed,
    Skipped,
}

impl Default for JobStatus {
    fn default() -> (r: JobStatus)
        ensures
            r == JobStatus::Pending,
    {
        JobStatus::Pending
    }
}

impl JobStatus {
    /// The name under which the status is stored.
    pub open spec fn label(self) -> Seq<char> {
        match self {
            JobStatus::Pending => "pending"@,
            JobStatus::Running => "running"@,
            JobStatus::Success => "success"@,
            JobStatus::Failed => "failed"@,
            JobStatus::Skipped => "skipped"@,
        }
    }

    /// The name under which the status is stored.
    pub fn as_str(&self) -> (r: &'static str)
        ensures
            r@ == self.label(),
    {
        match self {
            JobStatus::Pending => "pending",
            JobStatus::Running => "running",
            JobStatus::Success => "success",
            JobStatus::Failed => "failed",
            JobStatus::Skipped => "skipped",
        }
    }

    /// The job is waiting or running.
    pub open spec fn active(self) -> bool {
        self == JobStatus::Pending || self == JobStatus::Running
    }

    /// The job is over.
    pub open spec fn terminal(self) -> bool {
        self == JobStatus::Success || self == JobStatus::Failed || self == JobStatus::Skipped
    }
}

/// The record of a job.
#[derive(Debug, Clone, PartialEq, Eq)]
pub struct Job {
    /// The job's identifier, unique and fixed for its lifetime.
    pub id: String,
    pub input_path: String,
    /// Where the encode is written before it replaces the input.
    pub output_path: String,
    pub stage: JobStage,
    pub status: JobStatus,
    pub source_type: SourceType,
    /// The probe result taken at admission.
    pub probe_result: ProbeResult,
    /// Milliseconds since the Unix epoch.
    pub created_at: i64,
    /// Milliseconds since the Unix epoch.
    pub updated_at: i64,
    /// Why the job failed or was skipped.
    pub error_reason: Option<String>,
}

/// A `Job` with its texts as sequences.
pub struct JobView {
    pub id: Seq<char>,
    pub input_path: Seq<char>,
    pub output_path: Seq<char>,
    pub stage: JobStage,
    pub status: JobStatus,
    pub source_type: SourceType,
    pub probe_result: ProbeResultView,
    pub created_at: i64,
    pub updated_at: i64,
    pub error_reason: Option<Seq<char>>,
}

impl View for Job {
    type V = JobView;

    open spec fn view(&self) -> JobView {
        JobView {
            id: self.id@,
            input_path: self.input_path@,
            output_path: self.output_path@,
            stage: self.stage,
            status: self.status,
            source_type: self.source_type,
            probe_result: self.probe_result@,
            created_at: self.created_at,
            updated_at: self.updated_at,
            error_reason: match self.error_reason {
                Some(text) => Some(text@),
                None => None,
            },
        }
    }
}

impl JobView {
    /// A reason is recorded exactly for a job that failed or was skipped.
    pub open spec fn reason_fits(self) -> bool {
        self.error_reason is Some <==> (self.status == JobStatus::Failed || self.status
            == JobStatus::Skipped)
    }
}

/// The time now in milliseconds since the Unix epoch.
pub fn current_timestamp_ms() -> i64 {
    unix_millis()
}

impl Job {
    /// Sets the time of the last update.
    pub fn stamp(&mut self, now_ms: i64)
        ensures
            final(self)@ == (JobView { updated_at: now_ms, ..old(self)@ }),
            final(self)@.reason_fits() == old(self)@.reason_fits(),
    {
        self.updated_at = now_ms;
    }

    /// Sets the time of the last update to now. Nothing else changes.
    pub fn touch(&mut self)
        ensures
            final(self)@ == (JobView { updated_at: final(self).updated_at, ..old(self)@ }),
            final(self)@.reason_fits() == old(self)@.reason_fits(),
    {
        self.stamp(current_timestamp_ms());
    }

    /// Sets the stage, and the time of the last update to now. While the job
    /// is running its stage may stay or go one stage on, and no other move
    /// is allowed; a job that is not running may be put at any stage.
    pub fn set_stage(&mut self, stage: JobStage)
        requires
            old(self).status == JobStatus::Running ==> old(self).stage.steps_to(stage),
        ensures
            final(self)@ == (JobView { stage, updated_at: final(self).updated_at, ..old(self)@ }),
            final(self)@.reason_fits() == old(self)@.reason_fits(),
            old(self).status == JobStatus::Running ==> final(self).stage.rank() >= old(
                self,
            ).stage.rank(),
    {
        self.stage = stage;
        self.touch();
    }

    /// Sets the status, and the time of the last update to now. A job that
    /// is over is not opened again: from success, failure or skip the status
    /// may only go to one of these three.
    ///
    /// The reason is left as it is. So the record has a reason exactly for a
    /// failed or skipped job afterwards only if `status` is one of these two
    /// and a reason was there, or is neither and none was there; `fail` and
    /// `skip` set both at once.
    pub fn set_status(&mut self, status: JobStatus)
        requires
            old(self).status.terminal() ==> status.terminal(),
        ensures
            final(self)@ == (JobView { status, updated_at: final(self).updated_at, ..old(self)@ }),
            final(self)@.reason_fits() == (old(self)@.error_reason is Some <==> (status
                == JobStatus::Failed || status == JobStatus::Skipped)),
            old(self).status.terminal() ==> final(self).status.terminal(),
    {
        self.status = status;
        self.touch();
    }

    /// Marks the job as failed for `reason`.
    pub fn fail(&mut self, reason: &str)
        ensures
            final(self)@ == (JobView {
                status: JobStatus::Failed,
                error_reason: Some(reason@),
                updated_at: final(self).updated_at,
                ..old(self)@
            }),
            final(self)@.reason_fits(),
    {
        self.status = JobStatus::Failed;
        self.error_reason = Some(String::from_str(reason));
        self.touch();
    }

    /// Marks the job as skipped for `reason`.
    pub fn skip(&mut self, reason: &str)
        ensures
            final(self)@ == (JobView {
                status: JobStatus::Skipped,
                error_reason: Some(reason@),
                updated_at: final(self).updated_at,
                ..old(self)@
            }),
            final(self)@.reason_fits(),
    {
        self.status = JobStatus::Skipped;
        self.error_reason = Some(String::from_str(reason));
        self.touch();
    }

    /// Whether the job is over: succeeded, failed or skipped.
    pub fn is_terminal(&self) -> (r: bool)
        ensures
            r == self.status.terminal(),
    {
        match self.status {
            JobStatus::Success => true,
            JobStatus::Failed => true,
            JobStatus::Skipped => true,
            _ => false,
        }
    }

    /// Whether the job is waiting or running.
    pub fn is_active(&self) -> (r: bool)
        ensures
            r == self.status.active(),
    {
        match self.status {
            JobStatus::Pending => true,
            JobStatus::Running => true,
            _ => false,
        }
    }
}

/// A character of a job id other than its hyphens: a digit or a letter from
/// `a` to `f`.
pub open spec fn is_hex_lower(c: char) -> bool {
    ('0' <= c <= '9') || ('a' <= c <= 'f')
}

/// The form of a job id: 36 characters, hyphens after the 8th, 12th, 16th and
/// 20th hexadecimal digit.
pub open spec fn is_job_id(id: Seq<char>) -> bool {
    &&& id.len() == 36
    &&& forall|i: int|
        0 <= i < 36 ==> if i == 8 || i == 13 || i == 18 || i == 23 {
            #[trigger] id[i] == '-'
        } else {
            is_hex_lower(id[i])
        }
}

/// Calls `Uuid::new_v4` and writes the identifier out. Which identifier
/// comes is a matter of chance; the contract claims only the form in which
/// the crate writes every identifier: hyphenated, in lower case.
#[verifier::external_body]
fn fresh_job_id() -> (id: String)
    ensures
        is_job_id(id@),
{
    uuid::Uuid::new_v4().to_string()
}

/// The record of a job admitted at `now_ms` under `id`: queued and pending,
/// created and updated at `now_ms`, with its output at `<id>.mkv` in the
/// output directory.
pub open spec fn new_job_record(
    id: Seq<char>,
    now_ms: i64,
    candidate: ScanCandidateView,
    probe: ProbeResultView,
    source_type: SourceType,
    temp_output_dir: Seq<char>,
) -> JobView {
    JobView {
        id,
        input_path: candidate.path,
        output_path: joined_path(temp_output_dir, id + ".mkv"@),
        stage: JobStage::Queued,
        status: JobStatus::Pending,
        source_type,
        probe_result: probe,
        created_at: now_ms,
        updated_at: now_ms,
        error_reason: None,
    }
}

/// Makes the record of a job admitted at `now_ms` under `id`.
pub fn assemble_job(
    id: String,
    now_ms: i64,
    candidate: &ScanCandidate,
    probe_result: ProbeResult,
    source_type: SourceType,
    temp_output_dir: &str,
) -> (job: Job)
    ensures
        job@ == new_job_record(
            id@,
            now_ms,
            candidate@,
            probe_result@,
            source_type,
            temp_output_dir@,
        ),
        job@.reason_fits(),
{
    let name = concat2(id.as_str(), ".mkv");
    let output_path = join_path(temp_output_dir, name.as_str());
    Job {
        id,
        input_path: candidate.path.clone(),
        output_path,
        stage: JobStage::Queued,
        status: JobStatus::Pending,
        source_type,
        probe_result,
        created_at: now_ms,
        updated_at: now_ms,
        error_reason: None,
    }
}

/// Makes the record of a job admitted now, under a fresh identifier.
pub fn create_job(
    candidate: &ScanCandidate,
    probe_result: ProbeResult,
    source_type: SourceType,
    temp_output_dir: &str,
) -> (job: Job)
    ensures
        is_job_id(job@.id),
        job@ == new_job_record(
            job@.id,
            job.created_at,
            candidate@,
            probe_result@,
            source_type,
            temp_output_dir@,
        ),
        job@.reason_fits(),
{
    let id = fresh_job_id();
    let now = current_timestamp_ms();
    assemble_job(id, now, candidate, probe_result, source_type, temp_output_dir)
}

/// The name of the file that holds the record of job `id`.
pub fn job_file_name(id: &str) -> (r: String)
    ensures
        r@ == id@ + ".json"@,
{
    concat2(id, ".json")
}

/// One of `jobs` is active and has `path` as its input.
pub open spec fn active_for(jobs: Seq<Job>, path: Seq<char>) -> bool {
    exists|i: int| 0 <= i < jobs.len() && (#[trigger] jobs[i]).input_path@ == path && jobs[i].status.active()
}

/// Whether an active job exists for `path`: one that is pending or running
/// and has `path` as its input.
pub fn job_exists_for_path(jobs: &[Job], path: &str) -> (r: bool)
    ensures
        r == active_for(jobs@, path@),
{
    let mut i: usize = 0;
    while i < jobs.len()
        invariant
            i <= jobs.len(),
            forall|k: int|
                0 <= k < i ==> !((#[trigger] jobs@[k]).input_path@ == path@ && jobs@[k].status.active()),
        decreases jobs.len() - i,
    {
        if jobs[i].is_active() && same_text(jobs[i].input_path.as_str(), path) {
            return true;
        }
        i += 1;
    }
    false
}

/// A path with an active job stops having one exactly when that job ends:
/// jobs that are over never count, and a list without a job for the path
/// has none.
pub proof fn lemma_only_active_jobs_count(jobs: Seq<Job>, path: Seq<char>)
    ensures
        (forall|i: int| 0 <= i < jobs.len() ==> (#[trigger] jobs[i]).status.terminal()) ==> !active_for(
            jobs,
            path,
        ),
        (forall|i: int| 0 <= i < jobs.len() ==> (#[trigger] jobs[i]).input_path@ != path)
            ==> !active_for(jobs, path),
        jobs.len() == 0 ==> !active_for(jobs, path),
{
}

} // verus!
