//! The encoder's command line and the reading of its exit.

use vstd::prelude::*;
use crate::concurrency::ConcurrencyPlan;
use crate::decimal::{decimal, decimal_digits, signed_decimal, signed_decimal_digits};
use crate::text::texts;

verus! {

/// The fixed encoder parameters: quality, preset, film grain, quantisation
/// matrices, key interval and lookahead.
pub const SVT_PARAMS: &'static str =
    "--crf 8 --preset 3 --film-grain 20 --enable-qm 1 --qm-min 1 --qm-max 15 --keyint 240 --lookahead 40";

/// Why an encode failed.
#[derive(Debug, Clone, PartialEq, Eq)]
pub enum EncodeError {
    /// The encoder exited with this non-zero code.
    Av1anFailed(i32),
    /// The encoder was ended by a signal.
    Av1anTerminated,
    /// The encoder could not be started.
    Io(String),
}

/// An `EncodeError` with its text as a sequence.
pub enum EncodeErrorView {
    Av1anFailed(i32),
    Av1anTerminated,
    Io(Seq<char>),
}

impl View for EncodeError {
    type V = EncodeErrorView;

    open spec fn view(&self) -> EncodeErrorView {
        match self {
            EncodeError::Av1anFailed(code) => EncodeErrorView::Av1anFailed(*code),
            EncodeError::Av1anTerminated => EncodeErrorView::Av1anTerminated,
            EncodeError::Io(text) => EncodeErrorView::Io(text@),
        }
    }
}

impl EncodeErrorView {
    /// The message of the error.
    pub open spec fn message(self) -> Seq<char> {
        match self {
            EncodeErrorView::Av1anFailed(code) => "Av1an failed with exit code: "@
                + signed_decimal_digits(code as int),
            EncodeErrorView::Av1anTerminated => "Av1an process was terminated by signal"@,
            EncodeErrorView::Io(text) => "IO error: "@ + text,
        }
    }
}

impl EncodeError {
    /// The message of the error.
    pub fn message(&self) -> (r: String)
        ensures
            r@ == self@.message(),
    {
        match self {
            EncodeError::Av1anFailed(code) => String::from_str("Av1an failed with exit code: ")
                .concat(signed_decimal(*code as i64).as_str()),
            EncodeError::Av1anTerminated => String::from_str(
                "Av1an process was terminated by signal",
            ),
            EncodeError::Io(text) => String::from_str("IO error: ").concat(text.as_str()),
        }
    }
}

/// What one encode needs: the three paths and the plan.
#[derive(Debug, Clone, PartialEq, Eq)]
pub struct Av1anEncodeParams {
    pub input_path: String,
    pub output_path: String,
    pub temp_chunks_dir: String,
    pub concurrency: ConcurrencyPlan,
}

/// An `Av1anEncodeParams` with its paths as texts.
pub struct Av1anEncodeParamsView {
    pub input_path: Seq<char>,
    pub output_path: Seq<char>,
    pub temp_chunks_dir: Seq<char>,
    pub concurrency: ConcurrencyPlan,
}

impl View for Av1anEncodeParams {
    type V = Av1anEncodeParamsView;

    open spec fn view(&self) -> Av1anEncodeParamsView {
        Av1anEncodeParamsView {
            input_path: self.input_path@,
            output_path: self.output_path@,
            temp_chunks_dir: self.temp_chunks_dir@,
            concurrency: self.concurrency,
        }
    }
}

impl Av1anEncodeParams {
    /// The parameters of one encode.
    pub fn new(
        input_path: String,
        output_path: String,
        temp_chunks_dir: String,
        concurrency: ConcurrencyPlan,
    ) -> (r: Av1anEncodeParams)
        ensures
            r.input_path == input_path,
            r.output_path == output_path,
            r.temp_chunks_dir == temp_chunks_dir,
            r.concurrency == concurrency,
    {
        Av1anEncodeParams { input_path, output_path, temp_chunks_dir, concurrency }
    }
}

/// The encoder's argument vector, program name first.
pub open spec fn av1an_argv(params: Av1anEncodeParamsView) -> Seq<Seq<char>> {
    seq![
        "av1an"@,
        "-i"@,
        params.input_path,
        "-o"@,
        params.output_path,
        "--encoder"@,
        "svt-av1"@,
        "--pix-format"@,
        "yuv420p10le"@,
        "--video-params"@,
        SVT_PARAMS@,
        "--audio-params"@,
        "-c:a copy"@,
        "--workers"@,
        decimal_digits(params.concurrency.av1an_workers as nat),
        "--temp"@,
        params.temp_chunks_dir,
    ]
}

/// Builds the encoder's argument vector, program name first.
pub fn build_av1an_command(params: &Av1anEncodeParams) -> (argv: Vec<String>)
    ensures
        texts(argv@) == av1an_argv(params@),
{
    let mut argv: Vec<String> = Vec::new();
    argv.push(String::from_str("av1an"));
    argv.push(String::from_str("-i"));
    argv.push(params.input_path.clone());
    argv.push(String::from_str("-o"));
    argv.push(params.output_path.clone());
    argv.push(String::from_str("--encoder"));
    argv.push(String::from_str("svt-av1"));
    argv.push(String::from_str("--pix-format"));
    argv.push(String::from_str("yuv420p10le"));
    argv.push(String::from_str("--video-params"));
    argv.push(String::from_str(SVT_PARAMS));
    argv.push(String::from_str("--audio-params"));
    argv.push(String::from_str("-c:a copy"));
    argv.push(String::from_str("--workers"));
    argv.push(decimal(params.concurrency.av1an_workers as u128));
    argv.push(String::from_str("--temp"));
    argv.push(params.temp_chunks_dir.clone());
    assert(texts(argv@) =~= av1an_argv(params@));
    argv
}

/// How the encoder process ended.
#[derive(Debug, Clone, PartialEq, Eq)]
pub enum ExitOutcome {
    /// It exited with success.
    Success,
    /// It exited with this code.
    Code(i32),
    /// A signal ended it.
    Signal,
    /// It could not be started.
    SpawnFailed(String),
}

/// An `ExitOutcome` with its text as a sequence.
pub enum ExitOutcomeView {
    Success,
    Code(i32),
    Signal,
    SpawnFailed(Seq<char>),
}

impl View for ExitOutcome {
    type V = ExitOutcomeView;

    open spec fn view(&self) -> ExitOutcomeView {
        match self {
            ExitOutcome::Success => ExitOutcomeView::Success,
            ExitOutcome::Code(code) => ExitOutcomeView::Code(*code),
            ExitOutcome::Signal => ExitOutcomeView::Signal,
            ExitOutcome::SpawnFailed(text) => ExitOutcomeView::SpawnFailed(text@),
        }
    }
}

/// The error that an exit stands for, if it stands for one: exit code zero
/// is success, and any other code, a signal, and a process that did not
/// start are each an error of their own.
pub open spec fn exit_error(outcome: ExitOutcomeView) -> Option<EncodeErrorView> {
    match outcome {
        ExitOutcomeView::Success => None,
        ExitOutcomeView::Code(code) => if code == 0 {
            None
        } else {
            Some(EncodeErrorView::Av1anFailed(code))
        },
        ExitOutcomeView::Signal => Some(EncodeErrorView::Av1anTerminated),
        ExitOutcomeView::SpawnFailed(text) => Some(EncodeErrorView::Io(text)),
    }
}

/// The result of an encode from the way the process ended.
pub fn encode_result(outcome: ExitOutcome) -> (r: Result<(), EncodeError>)
    ensures
        r is Ok <==> exit_error(outcome@) is None,
        r matches Err(e) ==> exit_error(outcome@) == Some(e@),
{
    match outcome {
        ExitOutcome::Success => Ok(()),
        ExitOutcome::Code(code) => {
            if code == 0 {
                Ok(())
            } else {
                Err(EncodeError::Av1anFailed(code))
            }
        },
        ExitOutcome::Signal => Err(EncodeError::Av1anTerminated),
        ExitOutcome::SpawnFailed(text) => Err(EncodeError::Io(text)),
    }
}

} // verus!
