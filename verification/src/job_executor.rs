//! The job pipeline: encode, validate, size gate, replace. Each outside
//! action is asked for by a request, and its outcome comes back as an event.

use vstd::prelude::*;
use crate::concurrency::ConcurrencyPlan;
use crate::decimal::{decimal, decimal_digits};
use crate::encode::av1an::{Av1anEncodeParams, Av1anEncodeParamsView, EncodeError, EncodeErrorView};
use crate::metrics::{
    lemma_running_count_le_len, lemma_size_after_keeps_running_count, published, running_count,
    with_encoded, JobMetrics, JobMetricsView, MetricsSnapshot, MetricsView,
};
use crate::paths::{join_path, joined_path};
use crate::ratio::{ratio_text, Ratio};
use crate::replace::{ReplaceError, ReplaceErrorView};
use crate::size_gate::{
    actual_ratio, check_size_gate, describe_rejection, rejection_reason, size_gate, SizeGateResult,
};
use crate::text::concat2;

verus! {

/// Why a job did not complete.
#[derive(Debug, Clone, PartialEq, Eq)]
pub enum JobError {
    /// The encoder failed.
    Encode(EncodeError),
    /// The directory for the encoder's chunks could not be made.
    TempDirCreation(String),
    /// The encoder's output is missing or empty, or its task was lost.
    Validation(String),
    /// The original could not be replaced.
    Replacement(ReplaceError),
    /// The output is not small enough. `ratio` is output over original.
    SizeGateRejected { original_bytes: u64, output_bytes: u64, ratio: Option<Ratio> },
    /// The skip marker could not be written.
    SkipMarkerFailed(String),
}

/// A `JobError` with its texts as sequences.
pub enum JobErrorView {
    Encode(EncodeErrorView),
    TempDirCreation(Seq<char>),
    Validation(Seq<char>),
    Replacement(ReplaceErrorView),
    SizeGateRejected { original_bytes: u64, output_bytes: u64, ratio: Option<Ratio> },
    SkipMarkerFailed(Seq<char>),
}

impl View for JobError {
    type V = JobErrorView;

    open spec fn view(&self) -> JobErrorView {
        match self {
            JobError::Encode(e) => JobErrorView::Encode(e@),
            JobError::TempDirCreation(text) => JobErrorView::TempDirCreation(text@),
            JobError::Validation(text) => JobErrorView::Validation(text@),
            JobError::Replacement(e) => JobErrorView::Replacement(e@),
            JobError::SizeGateRejected { original_bytes, output_bytes, ratio } => {
                JobErrorView::SizeGateRejected {
                    original_bytes: *original_bytes,
                    output_bytes: *output_bytes,
                    ratio: *ratio,
                }
            },
            JobError::SkipMarkerFailed(text) => JobErrorView::SkipMarkerFailed(text@),
        }
    }
}

impl JobErrorView {
    /// The message of the error.
    pub open spec fn message(self) -> Seq<char> {
        match self {
            JobErrorView::Encode(e) => "Encode failed: "@ + e.message(),
            JobErrorView::TempDirCreation(text) => "Failed to create temp directory: "@ + text,
            JobErrorView::Validation(text) => "Validation failed: "@ + text,
            JobErrorView::Replacement(e) => "Replacement failed: "@ + e.message(),
            JobErrorView::SizeGateRejected { original_bytes, output_bytes, ratio } => {
                "Size gate rejected: output "@ + decimal_digits(output_bytes as nat)
                    + " >= original "@ + decimal_digits(original_bytes as nat) + " * "@ + match ratio {
                    Some(r) => ratio_text(r.millionths),
                    None => "inf"@,
                }
            },
            JobErrorView::SkipMarkerFailed(text) => "Failed to write skip marker: "@ + text,
        }
    }
}

impl JobError {
    /// The message of the error.
    pub fn message(&self) -> (r: String)
        ensures
            r@ == self@.message(),
    {
        match self {
            JobError::Encode(e) => concat2("Encode failed: ", e.message().as_str()),
            JobError::TempDirCreation(text) => concat2(
                "Failed to create temp directory: ",
                text.as_str(),
            ),
            JobError::Validation(text) => concat2("Validation failed: ", text.as_str()),
            JobError::Replacement(e) => concat2("Replacement failed: ", e.message().as_str()),
            JobError::SizeGateRejected { original_bytes, output_bytes, ratio } => {
                let share = match ratio {
                    Some(r) => r.to_text(),
                    None => String::from_str("inf"),
                };
                String::from_str("Size gate rejected: output ").concat(
                    decimal(*output_bytes as u128).as_str(),
                ).concat(" >= original ").concat(decimal(*original_bytes as u128).as_str()).concat(
                    " * ",
                ).concat(share.as_str())
            },
            JobError::SkipMarkerFailed(text) => concat2(
                "Failed to write skip marker: ",
                text.as_str(),
            ),
        }
    }
}

/// Where a job stands in the pipeline.
#[derive(Debug, Clone, PartialEq, Eq)]
pub enum JobState {
    /// Waiting for a slot.
    Queued,
    /// The encoder is running, or about to.
    Encoding,
    /// The encoder's output is being checked.
    Validating,
    /// The output's size is being held against the original's.
    SizeGating,
    /// The original is being replaced.
    Replacing,
    /// The original has been replaced.
    Completed,
    /// The output was not small enough; the text says by how much.
    Skipped(String),
    /// The job failed; the text says why.
    Failed(String),
}

/// A `JobState` with its text as a sequence.
pub enum JobStateView {
    Queued,
    Encoding,
    Validating,
    SizeGating,
    Replacing,
    Completed,
    Skipped(Seq<char>),
    Failed(Seq<char>),
}

impl View for JobState {
    type V = JobStateView;

    open spec fn view(&self) -> JobStateView {
        match self {
            JobState::Queued => JobStateView::Queued,
            JobState::Encoding => JobStateView::Encoding,
            JobState::Validating => JobStateView::Validating,
            JobState::SizeGating => JobStateView::SizeGating,
            JobState::Replacing => JobStateView::Replacing,
            JobState::Completed => JobStateView::Completed,
            JobState::Skipped(text) => JobStateView::Skipped(text@),
            JobState::Failed(text) => JobStateView::Failed(text@),
        }
    }
}

impl JobStateView {
    /// The state's name in the metrics.
    pub open spec fn label(self) -> Seq<char> {
        match self {
            JobStateView::Queued => "queued"@,
            JobStateView::Encoding => "encoding"@,
            JobStateView::Validating => "validating"@,
            JobStateView::SizeGating => "size_gating"@,
            JobStateView::Replacing => "replacing"@,
            JobStateView::Completed => "completed"@,
            JobStateView::Skipped(_) => "skipped"@,
            JobStateView::Failed(_) => "failed"@,
        }
    }

    /// The state's place in the order of the stages. The two states that end
    /// a job without completing it stand after all others.
    pub open spec fn rank(self) -> nat {
        match self {
            JobStateView::Queued => 0,
            JobStateView::Encoding => 1,
            JobStateView::Validating => 2,
            JobStateView::SizeGating => 3,
            JobStateView::Replacing => 4,
            JobStateView::Completed => 5,
            JobStateView::Skipped(_) => 6,
            JobStateView::Failed(_) => 6,
        }
    }

    /// The job will not move again from this state.
    pub open spec fn is_terminal(self) -> bool {
        self is Completed || self is Skipped || self is Failed
    }
}

impl JobState {
    /// The state's name in the metrics.
    pub fn as_str(&self) -> (r: &'static str)
        ensures
            r@ == self@.label(),
    {
        match self {
            JobState::Queued => "queued",
            JobState::Encoding => "encoding",
            JobState::Validating => "validating",
            JobState::SizeGating => "size_gating",
            JobState::Replacing => "replacing",
            JobState::Completed => "completed",
            JobState::Skipped(_) => "skipped",
            JobState::Failed(_) => "failed",
        }
    }
}

/// A job as the executor holds it.
#[derive(Debug, Clone, PartialEq, Eq)]
pub struct Job {
    pub id: String,
    pub input_path: String,
    pub output_path: String,
    pub state: JobState,
    pub total_frames: u64,
    pub size_in_bytes_before: u64,
}

/// A `Job` with its texts as sequences.
pub struct JobView {
    pub id: Seq<char>,
    pub input_path: Seq<char>,
    pub output_path: Seq<char>,
    pub state: JobStateView,
    pub total_frames: u64,
    pub size_in_bytes_before: u64,
}

impl View for Job {
    type V = JobView;

    open spec fn view(&self) -> JobView {
        JobView {
            id: self.id@,
            input_path: self.input_path@,
            output_path: self.output_path@,
            state: self.state@,
            total_frames: self.total_frames,
            size_in_bytes_before: self.size_in_bytes_before,
        }
    }
}

/// The metrics entry of a job: its id, path and stage, the fixed encoder
/// settings, and the sizes known before the encode.
pub open spec fn metrics_entry(job: JobView, workers: u32) -> JobMetricsView {
    JobMetricsView {
        id: job.id,
        input_path: job.input_path,
        stage: job.state.label(),
        crf: 8,
        encoder: "svt-av1"@,
        workers,
        frames_encoded: 0,
        total_frames: job.total_frames,
        size_in_bytes_before: job.size_in_bytes_before,
        size_in_bytes_after: 0,
    }
}

impl Job {
    /// A queued job with no frames counted and no size known.
    pub fn new(id: String, input_path: String, output_path: String) -> (r: Job)
        ensures
            r@ == (JobView {
                id: id@,
                input_path: input_path@,
                output_path: output_path@,
                state: JobStateView::Queued,
                total_frames: 0,
                size_in_bytes_before: 0,
            }),
    {
        Job {
            id,
            input_path,
            output_path,
            state: JobState::Queued,
            total_frames: 0,
            size_in_bytes_before: 0,
        }
    }

    /// The job's entry for the metrics.
    pub fn to_metrics(&self, workers: u32) -> (r: JobMetrics)
        ensures
            r@ == metrics_entry(self@, workers),
    {
        JobMetrics {
            id: self.id.clone(),
            input_path: self.input_path.clone(),
            stage: String::from_str(self.state.as_str()),
            crf: 8,
            encoder: String::from_str("svt-av1"),
            workers,
            frames_encoded: 0,
            total_frames: self.total_frames,
            size_in_bytes_before: self.size_in_bytes_before,
            size_in_bytes_after: 0,
        }
    }
}

/// The settings of the pipeline.
#[derive(Debug, Clone, Copy, PartialEq, Eq, Structural)]
pub struct JobExecutorConfig {
    /// The largest output, as a fraction of the original, that is kept.
    pub max_size_ratio: Ratio,
    /// Whether the backup of the original stays after a replacement.
    pub keep_original: bool,
    /// Whether a note is written beside a skip marker.
    pub write_why_sidecars: bool,
}

impl Default for JobExecutorConfig {
    fn default() -> (r: JobExecutorConfig)
        ensures
            r.max_size_ratio.millionths == 950_000,
            !r.keep_original,
            r.write_why_sidecars,
    {
        JobExecutorConfig {
            max_size_ratio: Ratio { millionths: 950_000 },
            keep_original: false,
            write_why_sidecars: true,
        }
    }
}

/// What the pipeline needs to know: the plan, the directory under which the
/// encoder's chunks go, and the settings.
#[derive(Debug, Clone, PartialEq, Eq)]
pub struct JobExecutor {
    pub concurrency_plan: ConcurrencyPlan,
    pub temp_base_dir: String,
    pub config: JobExecutorConfig,
}

impl JobExecutor {
    /// An executor with the default settings.
    pub fn new(plan: ConcurrencyPlan, temp_base_dir: String) -> (r: JobExecutor)
        ensures
            r.concurrency_plan == plan,
            r.temp_base_dir == temp_base_dir,
            r.config.max_size_ratio.millionths == 950_000,
            !r.config.keep_original,
            r.config.write_why_sidecars,
    {
        JobExecutor { concurrency_plan: plan, temp_base_dir, config: JobExecutorConfig::default() }
    }

    /// An executor with the given settings.
    pub fn with_config(plan: ConcurrencyPlan, temp_base_dir: String, config: JobExecutorConfig) -> (r:
        JobExecutor)
        ensures
            r.concurrency_plan == plan,
            r.temp_base_dir == temp_base_dir,
            r.config == config,
    {
        JobExecutor { concurrency_plan: plan, temp_base_dir, config }
    }

    /// The number of jobs that may run at once: the slots to admit with.
    pub fn permits(&self) -> (r: usize)
        ensures
            r == self.concurrency_plan.max_concurrent_jobs,
    {
        self.concurrency_plan.max_concurrent_jobs as usize
    }

    /// The plan.
    pub fn concurrency_plan(&self) -> (r: &ConcurrencyPlan)
        ensures
            *r == self.concurrency_plan,
    {
        &self.concurrency_plan
    }

    /// The directory for the chunks of job `id`: `chunks_<id>` under the
    /// base directory.
    pub fn chunks_dir(&self, id: &str) -> (r: String)
        ensures
            r@ == chunks_dir_of(self.temp_base_dir@, id@),
    {
        let name = concat2("chunks_", id);
        join_path(self.temp_base_dir.as_str(), name.as_str())
    }
}

/// The directory of a job's chunks: `chunks_<id>` under the base directory.
pub open spec fn chunks_dir_of(temp_base_dir: Seq<char>, id: Seq<char>) -> Seq<char> {
    joined_path(temp_base_dir, "chunks_"@ + id)
}

/// Which outside action the pipeline is waiting for.
#[derive(Debug, Clone, Copy, PartialEq, Eq, Structural)]
pub enum Phase {
    /// A slot, before anything is done.
    Admission,
    /// The making of the chunks directory.
    TempDir,
    /// The encoder.
    Encoder,
    /// The look at the encoder's output.
    OutputCheck,
    /// Nothing outside: the size gate is next.
    SizeGate,
    /// The replacement of the original.
    Replacement,
    /// The writing of the skip marker.
    Marker,
    /// Nothing: the job is over.
    Done,
}

/// The outcome of an outside action.
#[derive(Debug, Clone, PartialEq, Eq)]
pub enum Event {
    /// A slot was granted.
    PermitAcquired,
    /// The chunks directory exists.
    TempDirReady,
    /// The chunks directory could not be made.
    TempDirFailed(String),
    /// The encoder exited with success.
    EncoderSucceeded,
    /// The encoder failed.
    EncoderFailed(EncodeError),
    /// The task that ran the encoder was lost.
    EncoderPanicked(String),
    /// The output exists and has this many bytes.
    OutputFound(u64),
    /// The output could not be looked at.
    OutputMissing(String),
    /// Go on: the answer to `Request::Continue`.
    Continue,
    /// The original was replaced.
    Replaced,
    /// The original could not be replaced.
    ReplaceFailed(ReplaceError),
    /// The skip marker was written.
    MarkerWritten,
    /// The skip marker could not be written.
    MarkerFailed(String),
}

/// An `Event` with its texts as sequences.
pub enum EventView {
    PermitAcquired,
    TempDirReady,
    TempDirFailed(Seq<char>),
    EncoderSucceeded,
    EncoderFailed(EncodeErrorView),
    EncoderPanicked(Seq<char>),
    OutputFound(u64),
    OutputMissing(Seq<char>),
    Continue,
    Replaced,
    ReplaceFailed(ReplaceErrorView),
    MarkerWritten,
    MarkerFailed(Seq<char>),
}

impl View for Event {
    type V = EventView;

    open spec fn view(&self) -> EventView {
        match self {
            Event::PermitAcquired => EventView::PermitAcquired,
            Event::TempDirReady => EventView::TempDirReady,
            Event::TempDirFailed(text) => EventView::TempDirFailed(text@),
            Event::EncoderSucceeded => EventView::EncoderSucceeded,
            Event::EncoderFailed(e) => EventView::EncoderFailed(e@),
            Event::EncoderPanicked(text) => EventView::EncoderPanicked(text@),
            Event::OutputFound(bytes) => EventView::OutputFound(*bytes),
            Event::OutputMissing(text) => EventView::OutputMissing(text@),
            Event::Continue => EventView::Continue,
            Event::Replaced => EventView::Replaced,
            Event::ReplaceFailed(e) => EventView::ReplaceFailed(e@),
            Event::MarkerWritten => EventView::MarkerWritten,
            Event::MarkerFailed(text) => EventView::MarkerFailed(text@),
        }
    }
}

/// Something to tidy up. It is attempted, and a failure is ignored.
#[derive(Debug, Clone, PartialEq, Eq)]
pub enum Cleanup {
    /// Remove a directory and all below it.
    RemoveDirAll { path: String },
    /// Remove a file.
    RemoveFile { path: String },
    /// Write the note that says why a video was skipped.
    WriteWhySidecar { video_path: String, reason: String },
}

/// A `Cleanup` with its texts as sequences.
pub enum CleanupView {
    RemoveDirAll { path: Seq<char> },
    RemoveFile { path: Seq<char> },
    WriteWhySidecar { video_path: Seq<char>, reason: Seq<char> },
}

impl View for Cleanup {
    type V = CleanupView;

    open spec fn view(&self) -> CleanupView {
        match self {
            Cleanup::RemoveDirAll { path } => CleanupView::RemoveDirAll { path: path@ },
            Cleanup::RemoveFile { path } => CleanupView::RemoveFile { path: path@ },
            Cleanup::WriteWhySidecar { video_path, reason } => CleanupView::WriteWhySidecar {
                video_path: video_path@,
                reason: reason@,
            },
        }
    }
}

/// The outside action that the pipeline asks for next.
#[derive(Debug, PartialEq, Eq)]
pub enum Request {
    /// Make this directory and all above it.
    CreateTempDir { path: String },
    /// Run the encoder.
    RunEncoder { params: Av1anEncodeParams },
    /// Look at this file: is it there, and how large is it?
    CheckOutput { path: String },
    /// Nothing outside: hand in `Event::Continue`.
    Continue,
    /// Replace the original by the encode.
    Replace { original_path: String, encoded_path: String, keep_original: bool },
    /// Write the skip marker of this video.
    WriteSkipMarker { video_path: String },
    /// The job is over, with this result.
    Finish(Result<(), JobError>),
    /// The event did not answer what was asked; nothing has changed.
    Ignored,
}

/// A `Request` with its texts as sequences.
pub enum RequestView {
    CreateTempDir { path: Seq<char> },
    RunEncoder { params: Av1anEncodeParamsView },
    CheckOutput { path: Seq<char> },
    Continue,
    Replace { original_path: Seq<char>, encoded_path: Seq<char>, keep_original: bool },
    WriteSkipMarker { video_path: Seq<char> },
    Finish(Option<JobErrorView>),
    Ignored,
}

impl View for Request {
    type V = RequestView;

    open spec fn view(&self) -> RequestView {
        match self {
            Request::CreateTempDir { path } => RequestView::CreateTempDir { path: path@ },
            Request::RunEncoder { params } => RequestView::RunEncoder { params: params@ },
            Request::CheckOutput { path } => RequestView::CheckOutput { path: path@ },
            Request::Continue => RequestView::Continue,
            Request::Replace { original_path, encoded_path, keep_original } => {
                RequestView::Replace {
                    original_path: original_path@,
                    encoded_path: encoded_path@,
                    keep_original: *keep_original,
                }
            },
            Request::WriteSkipMarker { video_path } => RequestView::WriteSkipMarker {
                video_path: video_path@,
            },
            Request::Finish(Ok(_)) => RequestView::Finish(None),
            Request::Finish(Err(e)) => RequestView::Finish(Some(e@)),
            Request::Ignored => RequestView::Ignored,
        }
    }
}

/// The views of a list of things to tidy up.
pub open spec fn cleanup_views(list: Seq<Cleanup>) -> Seq<CleanupView> {
    list.map_values(|c: Cleanup| c@)
}

/// The pipeline's answer to an event: what to tidy up first, in order, and
/// the action to take then.
#[derive(Debug, PartialEq, Eq)]
pub struct Step {
    pub cleanup: Vec<Cleanup>,
    pub request: Request,
}

/// A `Step` with its texts as sequences.
pub struct StepView {
    pub cleanup: Seq<CleanupView>,
    pub request: RequestView,
}

impl View for Step {
    type V = StepView;

    open spec fn view(&self) -> StepView {
        StepView { cleanup: cleanup_views(self.cleanup@), request: self.request@ }
    }
}

/// One job on its way through the pipeline.
#[derive(Debug, Clone, PartialEq, Eq)]
pub struct Pipeline {
    pub job: Job,
    pub phase: Phase,
    /// The directory of the encoder's chunks, once it is chosen.
    pub temp_chunks_dir: String,
    /// The size of the encoder's output, once it is known.
    pub output_bytes: u64,
}

/// A `Pipeline` with its texts as sequences.
pub struct PipelineView {
    pub job: JobView,
    pub phase: Phase,
    pub temp_chunks_dir: Seq<char>,
    pub output_bytes: u64,
}

impl View for Pipeline {
    type V = PipelineView;

    open spec fn view(&self) -> PipelineView {
        PipelineView {
            job: self.job@,
            phase: self.phase,
            temp_chunks_dir: self.temp_chunks_dir@,
            output_bytes: self.output_bytes,
        }
    }
}

/// The settings of an executor, with its directory as a text.
pub struct ExecutorView {
    pub concurrency_plan: ConcurrencyPlan,
    pub temp_base_dir: Seq<char>,
    pub config: JobExecutorConfig,
}

impl View for JobExecutor {
    type V = ExecutorView;

    open spec fn view(&self) -> ExecutorView {
        ExecutorView {
            concurrency_plan: self.concurrency_plan,
            temp_base_dir: self.temp_base_dir@,
            config: self.config,
        }
    }
}

/// What one step makes of the pipeline, the metrics and the next action.
pub struct Transition {
    pub pipeline: PipelineView,
    pub metrics: MetricsView,
    pub step: StepView,
}

/// The metrics after the job, now in `state`, is published.
pub open spec fn metrics_with(m: MetricsView, job: JobView, state: JobStateView, workers: u32) -> MetricsView {
    published(m, metrics_entry(JobView { state, ..job }, workers))
}

/// The metrics with one more failed job.
pub open spec fn one_more_failed(m: MetricsView) -> MetricsView {
    MetricsView { failed_jobs: (m.failed_jobs + 1) as u64, ..m }
}

/// The metrics with one more completed job.
pub open spec fn one_more_completed(m: MetricsView) -> MetricsView {
    MetricsView { completed_jobs: (m.completed_jobs + 1) as u64, ..m }
}

/// The job moves to `state`, which is published, and `request` is made.
pub open spec fn advance_to(
    p: PipelineView,
    m: MetricsView,
    workers: u32,
    state: JobStateView,
    phase: Phase,
    cleanup: Seq<CleanupView>,
    request: RequestView,
) -> Transition {
    Transition {
        pipeline: PipelineView { job: JobView { state, ..p.job }, phase, ..p },
        metrics: metrics_with(m, p.job, state, workers),
        step: StepView { cleanup, request },
    }
}

/// The job fails with `reason`: the failure is published and counted, the
/// listed things are tidied up, and the job ends with `error`.
pub open spec fn fail_with(
    p: PipelineView,
    m: MetricsView,
    workers: u32,
    reason: Seq<char>,
    cleanup: Seq<CleanupView>,
    error: JobErrorView,
) -> Transition {
    Transition {
        pipeline: PipelineView {
            job: JobView { state: JobStateView::Failed(reason), ..p.job },
            phase: Phase::Done,
            ..p
        },
        metrics: one_more_failed(metrics_with(m, p.job, JobStateView::Failed(reason), workers)),
        step: StepView { cleanup, request: RequestView::Finish(Some(error)) },
    }
}

/// What is tidied up when a skip ends, whether or not its marker could be
/// written: the note that says why, where notes are on, and then the chunks.
pub open spec fn skip_cleanup(x: ExecutorView, p: PipelineView) -> Seq<CleanupView> {
    let remove_chunks = CleanupView::RemoveDirAll { path: p.temp_chunks_dir };
    if x.config.write_why_sidecars {
        seq![
            CleanupView::WriteWhySidecar {
                video_path: p.job.input_path,
                reason: match p.job.state {
                    JobStateView::Skipped(reason) => reason,
                    _ => seq![],
                },
            },
            remove_chunks,
        ]
    } else {
        seq![remove_chunks]
    }
}

/// The pipeline's rule: what an event makes of the job, of the metrics, and
/// what is asked for next.
///
/// * A granted slot starts the encode: the job is `Encoding`, and its chunks
///   directory is to be made. If that fails the job ends as it stands.
/// * The encoder runs. If it fails, or its task is lost, the job fails and
///   the chunks are removed; the original is not touched.
/// * The output is looked at. A missing output fails the job; an empty one
///   fails it and is removed.
/// * The size gate decides. An accepted output replaces the original; a
///   rejected one is removed, the job is `Skipped`, it is counted with the
///   failed jobs, and a skip marker is written.
/// * After a replacement the job is `Completed`, the output size is recorded,
///   and chunks and output are removed. A failed replacement fails the job
///   and removes nothing.
/// * After the marker the note is written where notes are on, and the chunks
///   are removed. A marker that cannot be written is reported as the job's
///   error, and the skip stands: the note and the chunks are dealt with in
///   the same way.
/// * An event that does not answer the request under way changes nothing.
pub open spec fn transition(x: ExecutorView, p: PipelineView, m: MetricsView, event: EventView) -> Transition {
    let workers = x.concurrency_plan.av1an_workers;
    let remove_chunks = CleanupView::RemoveDirAll { path: p.temp_chunks_dir };
    let remove_output = CleanupView::RemoveFile { path: p.job.output_path };
    match (p.phase, event) {
        (Phase::Admission, EventView::PermitAcquired) => advance_to(
            p,
            m,
            workers,
            JobStateView::Encoding,
            Phase::TempDir,
            seq![],
            RequestView::CreateTempDir { path: p.temp_chunks_dir },
        ),
        (Phase::TempDir, EventView::TempDirReady) => Transition {
            pipeline: PipelineView { phase: Phase::Encoder, ..p },
            metrics: m,
            step: StepView {
                cleanup: seq![],
                request: RequestView::RunEncoder {
                    params: Av1anEncodeParamsView {
                        input_path: p.job.input_path,
                        output_path: p.job.output_path,
                        temp_chunks_dir: p.temp_chunks_dir,
                        concurrency: x.concurrency_plan,
                    },
                },
            },
        },
        (Phase::TempDir, EventView::TempDirFailed(text)) => Transition {
            pipeline: PipelineView { phase: Phase::Done, ..p },
            metrics: m,
            step: StepView {
                cleanup: seq![],
                request: RequestView::Finish(Some(JobErrorView::TempDirCreation(text))),
            },
        },
        (Phase::Encoder, EventView::EncoderSucceeded) => advance_to(
            p,
            m,
            workers,
            JobStateView::Validating,
            Phase::OutputCheck,
            seq![],
            RequestView::CheckOutput { path: p.job.output_path },
        ),
        (Phase::Encoder, EventView::EncoderFailed(e)) => fail_with(
            p,
            m,
            workers,
            e.message(),
            seq![remove_chunks],
            JobErrorView::Encode(e),
        ),
        (Phase::Encoder, EventView::EncoderPanicked(text)) => fail_with(
            p,
            m,
            workers,
            "Encoding task panicked: "@ + text,
            seq![remove_chunks],
            JobErrorView::Validation("Encoding task panicked: "@ + text),
        ),
        (Phase::OutputCheck, EventView::OutputMissing(text)) => fail_with(
            p,
            m,
            workers,
            "Output file not found: "@ + text,
            seq![remove_chunks],
            JobErrorView::Validation("Output file not found: "@ + text),
        ),
        (Phase::OutputCheck, EventView::OutputFound(bytes)) => if bytes == 0 {
            fail_with(
                p,
                m,
                workers,
                "Output file is empty"@,
                seq![remove_chunks, remove_output],
                JobErrorView::Validation("Output file is empty"@),
            )
        } else {
            advance_to(
                PipelineView { output_bytes: bytes, ..p },
                m,
                workers,
                JobStateView::SizeGating,
                Phase::SizeGate,
                seq![],
                RequestView::Continue,
            )
        },
        (Phase::SizeGate, EventView::Continue) => {
            if size_gate(p.job.size_in_bytes_before, p.output_bytes, x.config.max_size_ratio)
                is Accept {
                advance_to(
                    p,
                    m,
                    workers,
                    JobStateView::Replacing,
                    Phase::Replacement,
                    seq![],
                    RequestView::Replace {
                        original_path: p.job.input_path,
                        encoded_path: p.job.output_path,
                        keep_original: x.config.keep_original,
                    },
                )
            } else {
                let reason = rejection_reason(
                    p.job.size_in_bytes_before,
                    p.output_bytes,
                    x.config.max_size_ratio,
                );
                Transition {
                    pipeline: PipelineView {
                        job: JobView { state: JobStateView::Skipped(reason), ..p.job },
                        phase: Phase::Marker,
                        ..p
                    },
                    metrics: one_more_failed(
                        metrics_with(m, p.job, JobStateView::Skipped(reason), workers),
                    ),
                    step: StepView {
                        cleanup: seq![remove_output],
                        request: RequestView::WriteSkipMarker { video_path: p.job.input_path },
                    },
                }
            }
        },
        (Phase::Replacement, EventView::Replaced) => Transition {
            pipeline: PipelineView {
                job: JobView { state: JobStateView::Completed, ..p.job },
                phase: Phase::Done,
                ..p
            },
            metrics: with_encoded(
                one_more_completed(metrics_with(m, p.job, JobStateView::Completed, workers)),
                p.job.id,
                p.output_bytes,
            ),
            step: StepView {
                cleanup: seq![remove_chunks, remove_output],
                request: RequestView::Finish(None),
            },
        },
        (Phase::Replacement, EventView::ReplaceFailed(e)) => fail_with(
            p,
            m,
            workers,
            e.message(),
            seq![],
            JobErrorView::Replacement(e),
        ),
        (Phase::Marker, EventView::MarkerWritten) => Transition {
            pipeline: PipelineView { phase: Phase::Done, ..p },
            metrics: m,
            step: StepView {
                cleanup: skip_cleanup(x, p),
                request: RequestView::Finish(
                    Some(
                        JobErrorView::SizeGateRejected {
                            original_bytes: p.job.size_in_bytes_before,
                            output_bytes: p.output_bytes,
                            ratio: actual_ratio(p.job.size_in_bytes_before, p.output_bytes),
                        },
                    ),
                ),
            },
        },
        (Phase::Marker, EventView::MarkerFailed(text)) => Transition {
            pipeline: PipelineView { phase: Phase::Done, ..p },
            metrics: m,
            step: StepView {
                cleanup: skip_cleanup(x, p),
                request: RequestView::Finish(Some(JobErrorView::SkipMarkerFailed(text))),
            },
        },
        _ => Transition {
            pipeline: p,
            metrics: m,
            step: StepView { cleanup: seq![], request: RequestView::Ignored },
        },
    }
}

/// The event fails or skips the job, which counts one more failed job.
pub open spec fn counts_failed(x: ExecutorView, p: PipelineView, event: EventView) -> bool {
    match (p.phase, event) {
        (Phase::Encoder, EventView::EncoderFailed(_)) => true,
        (Phase::Encoder, EventView::EncoderPanicked(_)) => true,
        (Phase::OutputCheck, EventView::OutputMissing(_)) => true,
        (Phase::OutputCheck, EventView::OutputFound(bytes)) => bytes == 0,
        (Phase::SizeGate, EventView::Continue) => !(size_gate(
            p.job.size_in_bytes_before,
            p.output_bytes,
            x.config.max_size_ratio,
        ) is Accept),
        (Phase::Replacement, EventView::ReplaceFailed(_)) => true,
        _ => false,
    }
}

/// The event completes the job, which counts one more completed job and its
/// output's bytes.
pub open spec fn counts_completed(p: PipelineView, event: EventView) -> bool {
    p.phase is Replacement && event is Replaced
}

/// The counters have room for what the event adds to them. An event that
/// counts nothing needs no room.
pub open spec fn room_for(x: ExecutorView, p: PipelineView, m: MetricsView, event: EventView) -> bool {
    &&& counts_failed(x, p, event) ==> m.failed_jobs < u64::MAX
    &&& counts_completed(p, event) ==> m.completed_jobs < u64::MAX && m.total_bytes_encoded
        + p.output_bytes <= u64::MAX
}

impl Pipeline {
    /// A pipeline for `job`, waiting for a slot, with the encoder's chunks to
    /// go to `temp_chunks_dir`.
    pub fn new(job: Job, temp_chunks_dir: String) -> (r: Pipeline)
        ensures
            r@ == (PipelineView {
                job: job@,
                phase: Phase::Admission,
                temp_chunks_dir: temp_chunks_dir@,
                output_bytes: 0,
            }),
    {
        Pipeline { job, phase: Phase::Admission, temp_chunks_dir, output_bytes: 0 }
    }

    /// A pipeline for `job` under `executor`, waiting for a slot.
    pub fn for_job(executor: &JobExecutor, job: Job) -> (r: Pipeline)
        ensures
            r@ == (PipelineView {
                job: job@,
                phase: Phase::Admission,
                temp_chunks_dir: chunks_dir_of(executor.temp_base_dir@, job.id@),
                output_bytes: 0,
            }),
    {
        let chunks = executor.chunks_dir(job.id.as_str());
        Pipeline::new(job, chunks)
    }

    /// The job moves to `state` and is published.
    fn publish(&mut self, executor: &JobExecutor, metrics: &mut MetricsSnapshot, state: JobState)
        ensures
            final(self)@ == (PipelineView {
                job: JobView { state: state@, ..old(self)@.job },
                ..old(self)@
            }),
            final(metrics)@ == metrics_with(
                old(metrics)@,
                old(self)@.job,
                state@,
                executor.concurrency_plan.av1an_workers,
            ),
    {
        self.job.state = state;
        metrics.update_job(self.job.to_metrics(executor.concurrency_plan.av1an_workers));
    }

    /// The job fails with `reason`, which is published and counted.
    fn fail(
        &mut self,
        executor: &JobExecutor,
        metrics: &mut MetricsSnapshot,
        reason: String,
        cleanup: Vec<Cleanup>,
        error: JobError,
    ) -> (step: Step)
        requires
            old(metrics).failed_jobs < u64::MAX,
        ensures
            (Transition { pipeline: final(self)@, metrics: final(metrics)@, step: step@ })
                == fail_with(
                old(self)@,
                old(metrics)@,
                executor.concurrency_plan.av1an_workers,
                reason@,
                cleanup_views(cleanup@),
                error@,
            ),
    {
        self.publish(executor, metrics, JobState::Failed(reason));
        self.phase = Phase::Done;
        metrics.increment_failed_jobs();
        Step { cleanup, request: Request::Finish(Err(error)) }
    }

    /// What is tidied up when a skip ends.
    fn cleanup_after_skip(&self, executor: &JobExecutor) -> (cleanup: Vec<Cleanup>)
        ensures
            cleanup_views(cleanup@) == skip_cleanup(executor@, self@),
    {
        let mut cleanup: Vec<Cleanup> = Vec::new();
        if executor.config.write_why_sidecars {
            let reason = match &self.job.state {
                JobState::Skipped(reason) => reason.clone(),
                _ => String::new(),
            };
            cleanup.push(
                Cleanup::WriteWhySidecar { video_path: self.job.input_path.clone(), reason },
            );
        }
        cleanup.push(Cleanup::RemoveDirAll { path: self.temp_chunks_dir.clone() });
        assert(cleanup_views(cleanup@) =~= skip_cleanup(executor@, self@));
        cleanup
    }

    /// Whether the counters have room for what `event` adds to them. `step`
    /// may be called exactly when they have.
    pub fn has_room(&self, executor: &JobExecutor, metrics: &MetricsSnapshot, event: &Event) -> (r:
        bool)
        ensures
            r == room_for(executor@, self@, metrics@, event@),
    {
        let fails = match (self.phase, event) {
            (Phase::Encoder, Event::EncoderFailed(_)) => true,
            (Phase::Encoder, Event::EncoderPanicked(_)) => true,
            (Phase::OutputCheck, Event::OutputMissing(_)) => true,
            (Phase::OutputCheck, Event::OutputFound(bytes)) => *bytes == 0,
            (Phase::SizeGate, Event::Continue) => {
                match check_size_gate(
                    self.job.size_in_bytes_before,
                    self.output_bytes,
                    executor.config.max_size_ratio,
                ) {
                    SizeGateResult::Accept => false,
                    _ => true,
                }
            },
            (Phase::Replacement, Event::ReplaceFailed(_)) => true,
            _ => false,
        };
        let completes = match (self.phase, event) {
            (Phase::Replacement, Event::Replaced) => true,
            _ => false,
        };
        (!fails || metrics.failed_jobs < u64::MAX) && (!completes || (metrics.completed_jobs
            < u64::MAX && metrics.total_bytes_encoded <= u64::MAX - self.output_bytes))
    }

    /// Takes the outcome of the action under way, updates the job and the
    /// metrics, and says what to tidy up and what to do next.
    pub fn step(&mut self, executor: &JobExecutor, metrics: &mut MetricsSnapshot, event: Event) -> (step:
        Step)
        requires
            room_for(executor@, old(self)@, old(metrics)@, event@),
        ensures
            (Transition { pipeline: final(self)@, metrics: final(metrics)@, step: step@ })
                == transition(executor@, old(self)@, old(metrics)@, event@),
    {
        let workers = executor.concurrency_plan.av1an_workers;
        match (self.phase, event) {
            (Phase::Admission, Event::PermitAcquired) => {
                self.publish(executor, metrics, JobState::Encoding);
                self.phase = Phase::TempDir;
                let cleanup: Vec<Cleanup> = Vec::new();
                assert(cleanup_views(cleanup@) =~= seq![]);
                Step { cleanup, request: Request::CreateTempDir { path: self.temp_chunks_dir.clone() } }
            },
            (Phase::TempDir, Event::TempDirReady) => {
                self.phase = Phase::Encoder;
                let cleanup: Vec<Cleanup> = Vec::new();
                assert(cleanup_views(cleanup@) =~= seq![]);
                Step {
                    cleanup,
                    request: Request::RunEncoder {
                        params: Av1anEncodeParams::new(
                            self.job.input_path.clone(),
                            self.job.output_path.clone(),
                            self.temp_chunks_dir.clone(),
                            executor.concurrency_plan,
                        ),
                    },
                }
            },
            (Phase::TempDir, Event::TempDirFailed(text)) => {
                self.phase = Phase::Done;
                let cleanup: Vec<Cleanup> = Vec::new();
                assert(cleanup_views(cleanup@) =~= seq![]);
                Step { cleanup, request: Request::Finish(Err(JobError::TempDirCreation(text))) }
            },
            (Phase::Encoder, Event::EncoderSucceeded) => {
                self.publish(executor, metrics, JobState::Validating);
                self.phase = Phase::OutputCheck;
                let cleanup: Vec<Cleanup> = Vec::new();
                assert(cleanup_views(cleanup@) =~= seq![]);
                Step { cleanup, request: Request::CheckOutput { path: self.job.output_path.clone() } }
            },
            (Phase::Encoder, Event::EncoderFailed(e)) => {
                let mut cleanup: Vec<Cleanup> = Vec::new();
                cleanup.push(Cleanup::RemoveDirAll { path: self.temp_chunks_dir.clone() });
                assert(cleanup_views(cleanup@) =~= seq![
                    CleanupView::RemoveDirAll { path: self.temp_chunks_dir@ },
                ]);
                let reason = e.message();
                self.fail(executor, metrics, reason, cleanup, JobError::Encode(e))
            },
            (Phase::Encoder, Event::EncoderPanicked(text)) => {
                let mut cleanup: Vec<Cleanup> = Vec::new();
                cleanup.push(Cleanup::RemoveDirAll { path: self.temp_chunks_dir.clone() });
                assert(cleanup_views(cleanup@) =~= seq![
                    CleanupView::RemoveDirAll { path: self.temp_chunks_dir@ },
                ]);
                let reason = concat2("Encoding task panicked: ", text.as_str());
                let copy = reason.clone();
                self.fail(executor, metrics, reason, cleanup, JobError::Validation(copy))
            },
            (Phase::OutputCheck, Event::OutputMissing(text)) => {
                let mut cleanup: Vec<Cleanup> = Vec::new();
                cleanup.push(Cleanup::RemoveDirAll { path: self.temp_chunks_dir.clone() });
                assert(cleanup_views(cleanup@) =~= seq![
                    CleanupView::RemoveDirAll { path: self.temp_chunks_dir@ },
                ]);
                let reason = concat2("Output file not found: ", text.as_str());
                let copy = reason.clone();
                self.fail(executor, metrics, reason, cleanup, JobError::Validation(copy))
            },
            (Phase::OutputCheck, Event::OutputFound(bytes)) => {
                if bytes == 0 {
                    let mut cleanup: Vec<Cleanup> = Vec::new();
                    cleanup.push(Cleanup::RemoveDirAll { path: self.temp_chunks_dir.clone() });
                    cleanup.push(Cleanup::RemoveFile { path: self.job.output_path.clone() });
                    assert(cleanup_views(cleanup@) =~= seq![
                        CleanupView::RemoveDirAll { path: self.temp_chunks_dir@ },
                        CleanupView::RemoveFile { path: self.job.output_path@ },
                    ]);
                    let reason = String::from_str("Output file is empty");
                    let copy = reason.clone();
                    self.fail(executor, metrics, reason, cleanup, JobError::Validation(copy))
                } else {
                    self.output_bytes = bytes;
                    self.publish(executor, metrics, JobState::SizeGating);
                    self.phase = Phase::SizeGate;
                    let cleanup: Vec<Cleanup> = Vec::new();
                    assert(cleanup_views(cleanup@) =~= seq![]);
                    Step { cleanup, request: Request::Continue }
                }
            },
            (Phase::SizeGate, Event::Continue) => {
                match check_size_gate(
                    self.job.size_in_bytes_before,
                    self.output_bytes,
                    executor.config.max_size_ratio,
                ) {
                    SizeGateResult::Accept => {
                        self.publish(executor, metrics, JobState::Replacing);
                        self.phase = Phase::Replacement;
                        let cleanup: Vec<Cleanup> = Vec::new();
                        assert(cleanup_views(cleanup@) =~= seq![]);
                        Step {
                            cleanup,
                            request: Request::Replace {
                                original_path: self.job.input_path.clone(),
                                encoded_path: self.job.output_path.clone(),
                                keep_original: executor.config.keep_original,
                            },
                        }
                    },
                    SizeGateResult::Reject { original_bytes, output_bytes, ratio } => {
                        let reason = describe_rejection(
                            original_bytes,
                            output_bytes,
                            executor.config.max_size_ratio,
                        );
                        self.publish(executor, metrics, JobState::Skipped(reason));
                        self.phase = Phase::Marker;
                        metrics.increment_failed_jobs();
                        let mut cleanup: Vec<Cleanup> = Vec::new();
                        cleanup.push(Cleanup::RemoveFile { path: self.job.output_path.clone() });
                        assert(cleanup_views(cleanup@) =~= seq![
                            CleanupView::RemoveFile { path: self.job.output_path@ },
                        ]);
                        Step {
                            cleanup,
                            request: Request::WriteSkipMarker {
                                video_path: self.job.input_path.clone(),
                            },
                        }
                    },
                }
            },
            (Phase::Replacement, Event::Replaced) => {
                self.publish(executor, metrics, JobState::Completed);
                self.phase = Phase::Done;
                metrics.increment_completed_jobs();
                metrics.record_encoded(self.job.id.as_str(), self.output_bytes);
                let mut cleanup: Vec<Cleanup> = Vec::new();
                cleanup.push(Cleanup::RemoveDirAll { path: self.temp_chunks_dir.clone() });
                cleanup.push(Cleanup::RemoveFile { path: self.job.output_path.clone() });
                assert(cleanup_views(cleanup@) =~= seq![
                    CleanupView::RemoveDirAll { path: self.temp_chunks_dir@ },
                    CleanupView::RemoveFile { path: self.job.output_path@ },
                ]);
                Step { cleanup, request: Request::Finish(Ok(())) }
            },
            (Phase::Replacement, Event::ReplaceFailed(e)) => {
                let cleanup: Vec<Cleanup> = Vec::new();
                assert(cleanup_views(cleanup@) =~= seq![]);
                let reason = e.message();
                self.fail(executor, metrics, reason, cleanup, JobError::Replacement(e))
            },
            (Phase::Marker, Event::MarkerWritten) => {
                let cleanup = self.cleanup_after_skip(executor);
                self.phase = Phase::Done;
                let ratio = if self.job.size_in_bytes_before == 0 {
                    None
                } else {
                    Some(Ratio::of_quotient(self.output_bytes, self.job.size_in_bytes_before))
                };
                Step {
                    cleanup,
                    request: Request::Finish(
                        Err(
                            JobError::SizeGateRejected {
                                original_bytes: self.job.size_in_bytes_before,
                                output_bytes: self.output_bytes,
                                ratio,
                            },
                        ),
                    ),
                }
            },
            (Phase::Marker, Event::MarkerFailed(text)) => {
                let cleanup = self.cleanup_after_skip(executor);
                self.phase = Phase::Done;
                Step { cleanup, request: Request::Finish(Err(JobError::SkipMarkerFailed(text))) }
            },
            _ => {
                let cleanup: Vec<Cleanup> = Vec::new();
                assert(cleanup_views(cleanup@) =~= seq![]);
                Step { cleanup, request: Request::Ignored }
            },
        }
    }
}

/// The phase fits the job's state: a pipeline that started from a queued job
/// and was moved by `step` alone is always so.
pub open spec fn in_step(p: PipelineView) -> bool {
    match p.phase {
        Phase::Admission => p.job.state is Queued,
        Phase::TempDir => p.job.state is Encoding,
        Phase::Encoder => p.job.state is Encoding,
        Phase::OutputCheck => p.job.state is Validating,
        Phase::SizeGate => p.job.state is SizeGating,
        Phase::Replacement => p.job.state is Replacing,
        Phase::Marker => p.job.state is Skipped,
        Phase::Done => true,
    }
}

/// The stages come in their order. A step leaves the state as it is, moves
/// it to the next stage, or fails the job; the one other move is from the
/// size gate to skipped. Nothing else of the job changes.
pub proof fn lemma_stages_in_order(x: ExecutorView, p: PipelineView, m: MetricsView, event: EventView)
    requires
        in_step(p),
    ensures
        ({
            let t = transition(x, p, m, event);
            &&& in_step(t.pipeline)
            &&& t.pipeline.job == (JobView { state: t.pipeline.job.state, ..p.job })
            &&& (t.pipeline.job.state == p.job.state || t.pipeline.job.state.rank()
                == p.job.state.rank() + 1 || t.pipeline.job.state is Failed || (
            t.pipeline.job.state is Skipped && p.job.state is SizeGating))
            &&& p.job.state.is_terminal() ==> t.pipeline.job.state == p.job.state
        }),
{
}

/// The place of a phase in the order in which a pipeline passes through
/// them.
pub open spec fn phase_rank(phase: Phase) -> nat {
    match phase {
        Phase::Admission => 0,
        Phase::TempDir => 1,
        Phase::Encoder => 2,
        Phase::OutputCheck => 3,
        Phase::SizeGate => 4,
        Phase::Replacement => 5,
        Phase::Marker => 5,
        Phase::Done => 6,
    }
}

/// Every event that is not ignored moves the pipeline forward, so a job is
/// over after at most six of them; and the job's result is handed out by
/// exactly the step that ends it.
pub proof fn lemma_pipeline_progresses(x: ExecutorView, p: PipelineView, m: MetricsView, event: EventView)
    ensures
        ({
            let t = transition(x, p, m, event);
            &&& t.step.request is Ignored ==> t.pipeline == p && t.metrics == m
            &&& !(t.step.request is Ignored) ==> phase_rank(t.pipeline.phase) > phase_rank(p.phase)
            &&& t.step.request is Finish <==> (t.pipeline.phase is Done && !(p.phase is Done))
            &&& t.step.request is Finish && t.step.request->Finish_0 is None
                ==> t.pipeline.job.state is Completed
        }),
{
}

/// A job that is over stays as it is: every further event is ignored.
pub proof fn lemma_done_absorbs(x: ExecutorView, p: PipelineView, m: MetricsView, event: EventView)
    requires
        p.phase is Done,
    ensures
        transition(x, p, m, event) == (Transition {
            pipeline: p,
            metrics: m,
            step: StepView { cleanup: seq![], request: RequestView::Ignored },
        }),
{
}

/// The running count stays the number of entries in a running stage.
pub proof fn lemma_running_count_kept(x: ExecutorView, p: PipelineView, m: MetricsView, event: EventView)
    requires
        m.jobs.len() < usize::MAX,
        m.running_jobs == running_count(m.jobs),
    ensures
        ({
            let t = transition(x, p, m, event);
            t.metrics.running_jobs == running_count(t.metrics.jobs)
        }),
{
    let t = transition(x, p, m, event);
    let workers = x.concurrency_plan.av1an_workers;
    assert forall|state: JobStateView|
        (#[trigger] metrics_with(m, p.job, state, workers)).running_jobs == running_count(
            metrics_with(m, p.job, state, workers).jobs,
        ) by {
        let entry = metrics_entry(JobView { state, ..p.job }, workers);
        lemma_upserted_len(m.jobs, entry);
        lemma_running_count_le_len(crate::metrics::upserted(m.jobs, entry));
    }
    if p.phase is Replacement && event is Replaced {
        let published = one_more_completed(
            metrics_with(m, p.job, JobStateView::Completed, workers),
        );
        lemma_size_after_keeps_running_count(published.jobs, p.job.id, p.output_bytes);
    }
}

/// Publishing adds at most one entry.
pub proof fn lemma_upserted_len(jobs: Seq<JobMetricsView>, entry: JobMetricsView)
    ensures
        jobs.len() <= crate::metrics::upserted(jobs, entry).len() <= jobs.len() + 1,
    decreases jobs.len(),
{
    if jobs.len() > 0 && jobs[0].id != entry.id {
        lemma_upserted_len(jobs.drop_first(), entry);
    }
}

/// An encoder that fails, or whose task is lost, fails the job and has its
/// chunks removed. No marker is written and no replacement is asked for.
pub proof fn lemma_encoder_failure_spares_the_original(
    x: ExecutorView,
    p: PipelineView,
    m: MetricsView,
    event: EventView,
)
    requires
        p.phase is Encoder,
        event is EncoderFailed || event is EncoderPanicked,
    ensures
        ({
            let t = transition(x, p, m, event);
            &&& t.pipeline.job.state is Failed
            &&& t.pipeline.phase is Done
            &&& t.step.request is Finish
            &&& t.step.request->Finish_0 is Some
            &&& t.step.cleanup == seq![CleanupView::RemoveDirAll { path: p.temp_chunks_dir }]
            &&& t.metrics.failed_jobs == (m.failed_jobs + 1) as u64
            &&& t.metrics.completed_jobs == m.completed_jobs
        }),
{
}

/// At the size gate the original is replaced exactly when the output is
/// below the floor of the scaled original; otherwise the job is skipped, the
/// output is removed and a skip marker is asked for.
pub proof fn lemma_replace_iff_accepted(x: ExecutorView, p: PipelineView, m: MetricsView)
    requires
        p.phase is SizeGate,
    ensures
        ({
            let t = transition(x, p, m, EventView::Continue);
            let accepted = (p.output_bytes as nat) < crate::ratio::scaled_floor(
                p.job.size_in_bytes_before as nat,
                x.config.max_size_ratio.millionths as nat,
            );
            &&& accepted <==> t.step.request is Replace
            &&& !accepted <==> t.step.request is WriteSkipMarker
            &&& accepted ==> t.pipeline.job.state is Replacing && t.step.cleanup.len() == 0
            &&& !accepted ==> t.pipeline.job.state is Skipped && t.step.cleanup == seq![
                CleanupView::RemoveFile { path: p.job.output_path },
            ] && t.step.request == (RequestView::WriteSkipMarker { video_path: p.job.input_path })
        }),
{
}

/// A marker that cannot be written does not undo the skip. The job, the
/// metrics and what is tidied up are the same as after a marker that was
/// written; only the error that the job ends with says that the marker is
/// missing.
pub proof fn lemma_marker_failure_keeps_the_skip(
    x: ExecutorView,
    p: PipelineView,
    m: MetricsView,
    text: Seq<char>,
)
    requires
        p.phase is Marker,
    ensures
        ({
            let failed = transition(x, p, m, EventView::MarkerFailed(text));
            let written = transition(x, p, m, EventView::MarkerWritten);
            &&& failed.pipeline == written.pipeline
            &&& failed.pipeline.job == p.job
            &&& failed.metrics == m
            &&& failed.step.cleanup == written.step.cleanup
            &&& failed.step.cleanup.len() > 0
            &&& failed.step.cleanup.last() == (CleanupView::RemoveDirAll { path: p.temp_chunks_dir })
            &&& failed.step.request == RequestView::Finish(Some(JobErrorView::SkipMarkerFailed(text)))
        }),
{
}

/// A job is counted once: as completed by the step that completes it, as
/// failed by the step that fails or skips it, and by no other.
pub proof fn lemma_counted_once(x: ExecutorView, p: PipelineView, m: MetricsView, event: EventView)
    requires
        in_step(p),
        room_for(x, p, m, event),
    ensures
        ({
            let t = transition(x, p, m, event);
            let completes = t.pipeline.job.state is Completed && !(p.job.state is Completed);
            let fails = (t.pipeline.job.state is Failed || t.pipeline.job.state is Skipped) && !(
            p.job.state is Failed || p.job.state is Skipped);
            &&& t.metrics.completed_jobs == m.completed_jobs + if completes {
                1int
            } else {
                0int
            }
            &&& t.metrics.failed_jobs == m.failed_jobs + if fails {
                1int
            } else {
                0int
            }
            &&& t.metrics.total_bytes_encoded == m.total_bytes_encoded + if completes {
                p.output_bytes as int
            } else {
                0int
            }
            &&& t.metrics.queue_len == m.queue_len
        }),
{
}

} // verus!
