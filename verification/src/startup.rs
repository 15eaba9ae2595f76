//! The checks before the first scan: no hardware encoder is named, the
//! encoder is there, and the media tools are recent enough.

use vstd::prelude::*;
use crate::config::Config;
use crate::decimal::{decimal, decimal_digits, parse_unsigned, unsigned_of};
use crate::text::{
    chars_of, concat2, contains, contains_text, find_first, first_occurrence, first_of,
    lemma_first_occurrence_contains, lowercase, lowercase_of, scan, CharClass,
};

verus! {

/// The words that name a hardware encoder, in the order in which they are
/// looked for.
pub const FORBIDDEN_HW_FLAGS: [&'static str; 7] = [
    "nvenc",
    "qsv",
    "vaapi",
    "cuda",
    "amf",
    "vce",
    "qsvenc",
];

/// Why the service does not start.
#[derive(Debug, Clone, PartialEq, Eq)]
pub enum StartupError {
    Av1anUnavailable(String),
    FfmpegVersion(String),
    HardwareEncodingDetected(String),
    Io(String),
}

/// A `StartupError` with its text as a sequence.
pub enum StartupErrorView {
    Av1anUnavailable(Seq<char>),
    FfmpegVersion(Seq<char>),
    HardwareEncodingDetected(Seq<char>),
    Io(Seq<char>),
}

impl View for StartupError {
    type V = StartupErrorView;

    open spec fn view(&self) -> StartupErrorView {
        match self {
            StartupError::Av1anUnavailable(text) => StartupErrorView::Av1anUnavailable(text@),
            StartupError::FfmpegVersion(text) => StartupErrorView::FfmpegVersion(text@),
            StartupError::HardwareEncodingDetected(text) => {
                StartupErrorView::HardwareEncodingDetected(text@)
            },
            StartupError::Io(text) => StartupErrorView::Io(text@),
        }
    }
}

impl StartupErrorView {
    /// The message of the error.
    pub open spec fn message(self) -> Seq<char> {
        match self {
            StartupErrorView::Av1anUnavailable(text) => "Av1an not available: "@ + text,
            StartupErrorView::FfmpegVersion(text) => "FFmpeg version requirement not met: "@ + text,
            StartupErrorView::HardwareEncodingDetected(text) => "Hardware encoding detected: "@
                + text,
            StartupErrorView::Io(text) => "IO error: "@ + text,
        }
    }
}

impl StartupError {
    /// The message of the error.
    pub fn message(&self) -> (r: String)
        ensures
            r@ == self@.message(),
    {
        match self {
            StartupError::Av1anUnavailable(text) => concat2("Av1an not available: ", text.as_str()),
            StartupError::FfmpegVersion(text) => concat2(
                "FFmpeg version requirement not met: ",
                text.as_str(),
            ),
            StartupError::HardwareEncodingDetected(text) => concat2(
                "Hardware encoding detected: ",
                text.as_str(),
            ),
            StartupError::Io(text) => concat2("IO error: ", text.as_str()),
        }
    }
}

/// The index of the first forbidden word from `k` on that is a part of
/// `lower`.
pub open spec fn flag_index_from(lower: Seq<char>, k: int) -> Option<int>
    decreases 7 - k,
{
    if k < 0 || k >= 7 {
        None
    } else if contains(lower, FORBIDDEN_HW_FLAGS[k]@) {
        Some(k)
    } else {
        flag_index_from(lower, k + 1)
    }
}

/// The first forbidden word, in the order of the list, that is a part of
/// `lower`.
pub open spec fn detected_flag(lower: Seq<char>) -> Option<Seq<char>> {
    match flag_index_from(lower, 0) {
        Some(k) => Some(FORBIDDEN_HW_FLAGS[k]@),
        None => None,
    }
}

/// Finds the first forbidden word in a text given in lower case.
pub fn detect_in_lowered(lower: &str) -> (r: Option<&'static str>)
    ensures
        r matches Some(flag) ==> detected_flag(lower@) == Some(flag@),
        r is None ==> detected_flag(lower@) is None,
{
    let hay = chars_of(lower);
    let mut k: usize = 0;
    while k < 7
        invariant
            k <= 7,
            hay@ == lower@,
            flag_index_from(lower@, 0) == flag_index_from(lower@, k as int),
        decreases 7 - k,
    {
        if contains_text(&hay, FORBIDDEN_HW_FLAGS[k]) {
            return Some(FORBIDDEN_HW_FLAGS[k]);
        }
        k += 1;
    }
    None
}

/// Finds the first forbidden word in a text, without regard to case.
pub fn detect_hardware_flag(s: &str) -> (r: Option<&'static str>)
    ensures
        r matches Some(flag) ==> detected_flag(lowercase_of(s@)) == Some(flag@),
        r is None ==> detected_flag(lowercase_of(s@)) is None,
{
    let lower = lowercase(s);
    detect_in_lowered(lower.as_str())
}

/// A text is clean exactly when none of the forbidden words is a part of
/// it, and a word that is a part of it is always found.
pub proof fn lemma_flag_found_iff_present(lower: Seq<char>)
    ensures
        detected_flag(lower) is None <==> (forall|k: int|
            0 <= k < 7 ==> !contains(lower, #[trigger] FORBIDDEN_HW_FLAGS[k]@)),
        detected_flag(lower) matches Some(flag) ==> contains(lower, flag),
{
    lemma_flag_index(lower, 0);
}

/// Where the search from `k` ends.
pub proof fn lemma_flag_index(lower: Seq<char>, k: int)
    requires
        0 <= k <= 7,
    ensures
        flag_index_from(lower, k) is None <==> (forall|j: int|
            k <= j < 7 ==> !contains(lower, #[trigger] FORBIDDEN_HW_FLAGS[j]@)),
        flag_index_from(lower, k) matches Some(i) ==> k <= i < 7 && contains(
            lower,
            FORBIDDEN_HW_FLAGS[i]@,
        ),
    decreases 7 - k,
{
    if k < 7 && !contains(lower, FORBIDDEN_HW_FLAGS[k]@) {
        lemma_flag_index(lower, k + 1);
        assert forall|j: int| k <= j < 7 && flag_index_from(lower, k) is None implies !contains(
            lower,
            #[trigger] FORBIDDEN_HW_FLAGS[j]@,
        ) by {
            if j > k {
            }
        }
    }
}

/// The texts of a list of string slices.
pub open spec fn slice_texts(args: Seq<&str>) -> Seq<Seq<char>> {
    args.map_values(|s: &str| s@)
}

/// The complaint about a forbidden word in an argument.
pub open spec fn flag_complaint(flag: Seq<char>, arg: Seq<char>) -> Seq<char> {
    "Hardware encoding flag '"@ + flag + "' found in '"@ + arg
        + "', but hardware encoding is disabled"@
}

/// The complaint about the first of `args` that holds a forbidden word,
/// without regard to case; none where no argument holds one.
pub open spec fn first_complaint(args: Seq<Seq<char>>) -> Option<Seq<char>>
    decreases args.len(),
{
    if args.len() == 0 {
        None
    } else {
        match detected_flag(lowercase_of(args[0])) {
            Some(flag) => Some(flag_complaint(flag, args[0])),
            None => first_complaint(args.drop_first()),
        }
    }
}

/// The outcome of checking `args`: refused for the first complaint where
/// hardware encoding is disallowed, and accepted otherwise.
pub open spec fn args_verdict(args: Seq<Seq<char>>, disallow: bool) -> Option<StartupErrorView> {
    if !disallow {
        None
    } else {
        match first_complaint(args) {
            Some(text) => Some(StartupErrorView::HardwareEncodingDetected(text)),
            None => None,
        }
    }
}

/// Checks a list of arguments for forbidden words. With hardware encoding
/// allowed every list passes.
pub fn check_args_for_hardware_flags(args: &[&str], disallow_hardware_encoding: bool) -> (r: Result<
    (),
    StartupError,
>)
    ensures
        r is Ok <==> args_verdict(slice_texts(args@), disallow_hardware_encoding) is None,
        r matches Err(e) ==> args_verdict(slice_texts(args@), disallow_hardware_encoding) == Some(
            e@,
        ),
{
    if !disallow_hardware_encoding {
        return Ok(());
    }
    let ghost texts = slice_texts(args@);
    let mut i: usize = 0;
    assert(texts.skip(0) =~= texts);
    while i < args.len()
        invariant
            i <= args.len(),
            disallow_hardware_encoding,
            texts == slice_texts(args@),
            first_complaint(texts) == first_complaint(texts.skip(i as int)),
        decreases args.len() - i,
    {
        assert(texts.skip(i as int)[0] == args@[i as int]@);
        assert(texts.skip(i as int).drop_first() =~= texts.skip(i + 1));
        match detect_hardware_flag(args[i]) {
            Some(flag) => {
                let text = String::from_str("Hardware encoding flag '").concat(flag).concat(
                    "' found in '",
                ).concat(args[i]).concat("', but hardware encoding is disabled");
                return Err(StartupError::HardwareEncodingDetected(text));
            },
            None => {},
        }
        i += 1;
    }
    Ok(())
}

/// With hardware encoding disallowed, a list is refused as soon as one of
/// its arguments holds a forbidden word, and a list of clean arguments
/// passes; with it allowed, nothing is refused.
pub proof fn lemma_flagged_argument_refuses(args: Seq<Seq<char>>, i: int)
    requires
        0 <= i < args.len(),
        detected_flag(lowercase_of(args[i])) is Some,
    ensures
        args_verdict(args, true) is Some,
        args_verdict(args, false) is None,
    decreases args.len(),
{
    if i > 0 && detected_flag(lowercase_of(args[0])) is None {
        assert(args.drop_first()[i - 1] == args[i]);
        lemma_flagged_argument_refuses(args.drop_first(), i - 1);
    }
}

/// The strings of a configuration that are checked for forbidden words: the
/// two directories and the library roots.
pub open spec fn checked_strings(cfg: Config) -> Seq<Seq<char>> {
    seq![cfg.paths.job_state_dir@, cfg.paths.temp_output_dir@] + cfg.scan.library_roots@.map_values(
        |s: String| s@,
    )
}

/// Refuses a configuration that names a hardware encoder in one of its
/// strings, where hardware encoding is disallowed.
pub fn assert_software_only(cfg: &Config) -> (r: Result<(), StartupError>)
    ensures
        r is Ok <==> args_verdict(
            checked_strings(*cfg),
            cfg.encoder_safety.disallow_hardware_encoding,
        ) is None,
        r matches Err(e) ==> args_verdict(
            checked_strings(*cfg),
            cfg.encoder_safety.disallow_hardware_encoding,
        ) == Some(e@),
{
    let mut strings: Vec<&str> = Vec::new();
    strings.push(cfg.paths.job_state_dir.as_str());
    strings.push(cfg.paths.temp_output_dir.as_str());
    let mut i: usize = 0;
    while i < cfg.scan.library_roots.len()
        invariant
            i <= cfg.scan.library_roots.len(),
            slice_texts(strings@) == seq![cfg.paths.job_state_dir@, cfg.paths.temp_output_dir@]
                + cfg.scan.library_roots@.map_values(|s: String| s@).take(i as int),
        decreases cfg.scan.library_roots.len() - i,
    {
        let ghost before = slice_texts(strings@);
        strings.push(cfg.scan.library_roots[i].as_str());
        assert(slice_texts(strings@) =~= before.push(cfg.scan.library_roots@[i as int]@));
        assert(slice_texts(strings@) =~= seq![
            cfg.paths.job_state_dir@,
            cfg.paths.temp_output_dir@,
        ] + cfg.scan.library_roots@.map_values(|s: String| s@).take(i + 1));
        i += 1;
    }
    assert(cfg.scan.library_roots@.map_values(|s: String| s@).take(i as int)
        =~= cfg.scan.library_roots@.map_values(|s: String| s@));
    check_args_for_hardware_flags(strings.as_slice(), cfg.encoder_safety.disallow_hardware_encoding)
}

/// The words that precede the version in the media tool's banner.
pub open spec fn version_marker() -> Seq<char> {
    "ffmpeg version"@
}

/// The major version that a banner line in lower case states.
///
/// The version is the first run of characters that are not white space
/// after the marker, up to the marker's next occurrence. Leading letters `n`
/// are dropped, and what stands before the first point or hyphen is read as
/// a number of at most 32 bits. A line without the marker states none.
pub open spec fn version_of_line(lower: Seq<char>) -> Option<u32> {
    if !contains(lower, version_marker()) {
        None
    } else {
        let after = lower.skip(first_occurrence(lower, version_marker()) + version_marker().len());
        let segment = after.take(first_occurrence(after, version_marker()));
        let rest = segment.skip(first_of(segment, CharClass::NotSpace));
        let token = rest.take(first_of(rest, CharClass::Space));
        let bare = token.skip(first_of(token, CharClass::NotN));
        let major = bare.take(first_of(bare, CharClass::DotOrDash));
        match unsigned_of(major, u32::MAX as nat) {
            Some(v) => Some(v as u32),
            None => None,
        }
    }
}

/// The major version that the tool's output states: that of its first line
/// whose lower-case form holds the marker.
pub open spec fn version_in(output: Seq<char>) -> Option<u32>
    decreases output.len(),
{
    let end = first_of(output, CharClass::Newline);
    let lower = lowercase_of(output.take(end));
    if contains(lower, version_marker()) {
        version_of_line(lower)
    } else if 0 <= end < output.len() {
        version_in(output.skip(end + 1))
    } else {
        None
    }
}

/// The marker as characters.
fn marker_chars() -> (m: Vec<char>)
    ensures
        m@ == version_marker(),
        m.len() == 14,
{
    proof {
        reveal_strlit("ffmpeg version");
    }
    chars_of("ffmpeg version")
}

/// The version of a line is read from the part of it that the six indices
/// mark out: the marker ends at `a`, its next occurrence begins at `b`, the
/// version's token is `lower[c..d]` and its leading number `lower[e..f]`.
pub proof fn lemma_version_of_line(lower: Seq<char>, a: int, b: int, c: int, d: int, e: int, f: int)
    requires
        version_marker().len() > 0,
        contains(lower, version_marker()),
        a == first_occurrence(lower, version_marker()) + version_marker().len(),
        0 <= a <= c <= e <= f <= d <= b <= lower.len(),
        b == a + first_occurrence(lower.subrange(a, lower.len() as int), version_marker()),
        c == a + first_of(lower.subrange(a, b), CharClass::NotSpace),
        d == c + first_of(lower.subrange(c, b), CharClass::Space),
        e == c + first_of(lower.subrange(c, d), CharClass::NotN),
        f == e + first_of(lower.subrange(e, d), CharClass::DotOrDash),
    ensures
        version_of_line(lower) == match unsigned_of(lower.subrange(e, f), u32::MAX as nat) {
            Some(v) => Some(v as u32),
            None => None::<u32>,
        },
{
    let after = lower.skip(a);
    assert(after =~= lower.subrange(a, lower.len() as int));
    let segment = after.take(b - a);
    assert(segment =~= lower.subrange(a, b));
    let rest = segment.skip(c - a);
    assert(rest =~= lower.subrange(c, b));
    let token = rest.take(d - c);
    assert(token =~= lower.subrange(c, d));
    let bare = token.skip(e - c);
    assert(bare =~= lower.subrange(e, d));
    let major = bare.take(f - e);
    assert(major =~= lower.subrange(e, f));
}

/// Reads the major version from a banner line given in lower case.
pub fn version_of_lowered_line(lower: &str) -> (r: Option<u32>)
    ensures
        r == version_of_line(lower@),
{
    let s = chars_of(lower);
    let m = marker_chars();
    proof {
        lemma_first_occurrence_contains(s@, m@);
        assert(s@.subrange(0, s@.len() as int) =~= s@);
    }
    let at = find_first(&s, &m, 0, s.len());
    if at == s.len() {
        return None;
    }
    let a: usize = at + m.len();
    let b = find_first(&s, &m, a, s.len());
    let c = scan(&s, a, b, CharClass::NotSpace);
    let d = scan(&s, c, b, CharClass::Space);
    let e = scan(&s, c, d, CharClass::NotN);
    let f = scan(&s, e, d, CharClass::DotOrDash);
    proof {
        lemma_version_of_line(s@, a as int, b as int, c as int, d as int, e as int, f as int);
    }
    match parse_unsigned(&s, e, f, 0xffff_ffff) {
        Some(v) => Some(v as u32),
        None => None,
    }
}

/// Reads the major version from the output of the media tool's version
/// command.
pub fn parse_ffmpeg_version(version_output: &str) -> (r: Option<u32>)
    ensures
        r == version_in(version_output@),
{
    let chars = chars_of(version_output);
    let mut pos: usize = 0;
    assert(version_output@.skip(0) =~= version_output@);
    loop
        invariant
            pos <= chars.len(),
            chars@ == version_output@,
            version_in(version_output@) == version_in(version_output@.skip(pos as int)),
        decreases chars.len() - pos,
    {
        let end = scan(&chars, pos, chars.len(), CharClass::Newline);
        let line = version_output.substring_char(pos, end);
        let lower = lowercase(line);
        proof {
            let rest = version_output@.skip(pos as int);
            assert(rest =~= chars@.subrange(pos as int, chars@.len() as int));
            assert(rest.take(end - pos) =~= line@);
            if end < chars.len() {
                assert(rest.skip(end - pos + 1) =~= version_output@.skip(end + 1));
            }
        }
        let lower_chars = chars_of(lower.as_str());
        if contains_text(&lower_chars, "ffmpeg version") {
            return version_of_lowered_line(lower.as_str());
        }
        if end >= chars.len() {
            return None;
        }
        pos = end + 1;
    }
}

/// How a run of a tool's version command ended.
#[derive(Debug, Clone, PartialEq, Eq)]
pub enum ToolOutcome {
    /// The tool could not be run.
    NotRun(String),
    /// The tool ran; `success` says whether it exited with code zero, and
    /// `stdout` is what it printed.
    Exited { success: bool, stdout: String },
}

/// The verdict on the encoder from the run of `av1an --version`: it must
/// have run and exited with success.
pub open spec fn av1an_verdict(outcome: ToolOutcome) -> Option<StartupErrorView> {
    match outcome {
        ToolOutcome::NotRun(text) => Some(
            StartupErrorView::Av1anUnavailable(
                "av1an --version failed; is Av1an built and in PATH? Error: "@ + text@,
            ),
        ),
        ToolOutcome::Exited { success, stdout } => if success {
            None
        } else {
            Some(
                StartupErrorView::Av1anUnavailable(
                    "av1an --version failed; is Av1an built and in PATH?"@,
                ),
            )
        },
    }
}

/// Judges the run of `av1an --version`.
pub fn check_av1an_available(outcome: &ToolOutcome) -> (r: Result<(), StartupError>)
    ensures
        r is Ok <==> av1an_verdict(*outcome) is None,
        r matches Err(e) ==> av1an_verdict(*outcome) == Some(e@),
{
    match outcome {
        ToolOutcome::NotRun(text) => Err(
            StartupError::Av1anUnavailable(
                concat2(
                    "av1an --version failed; is Av1an built and in PATH? Error: ",
                    text.as_str(),
                ),
            ),
        ),
        ToolOutcome::Exited { success, stdout } => {
            if *success {
                Ok(())
            } else {
                Err(
                    StartupError::Av1anUnavailable(
                        String::from_str("av1an --version failed; is Av1an built and in PATH?"),
                    ),
                )
            }
        },
    }
}

/// The first line of a text for a message: up to the first line feed,
/// without a carriage return before it; `(empty)` for an empty text.
pub open spec fn first_line_of(output: Seq<char>) -> Seq<char> {
    let end = first_of(output, CharClass::Newline);
    if output.len() == 0 {
        "(empty)"@
    } else if 0 < end < output.len() && output[end - 1] == '\r' {
        output.take(end - 1)
    } else {
        output.take(end)
    }
}

/// The verdict on the media tools from the run of `ffmpeg -version`: it
/// must have run, exited with success, and stated a major version of 8 or
/// more.
pub open spec fn ffmpeg_verdict(outcome: ToolOutcome) -> Option<StartupErrorView> {
    match outcome {
        ToolOutcome::NotRun(text) => Some(
            StartupErrorView::FfmpegVersion("Failed to run ffmpeg -version: "@ + text@),
        ),
        ToolOutcome::Exited { success, stdout } => if !success {
            Some(StartupErrorView::FfmpegVersion("ffmpeg -version failed"@))
        } else {
            match version_in(stdout@) {
                None => Some(
                    StartupErrorView::FfmpegVersion(
                        "Could not parse FFmpeg version from output: "@ + first_line_of(stdout@),
                    ),
                ),
                Some(major) => if major < 8 {
                    Some(
                        StartupErrorView::FfmpegVersion(
                            "FFmpeg 8.x required, got: "@ + decimal_digits(major as nat),
                        ),
                    )
                } else {
                    None
                },
            }
        },
    }
}

/// The first line of a text for a message.
fn first_line(output: &str) -> (r: String)
    ensures
        r@ == first_line_of(output@),
{
    let chars = chars_of(output);
    if chars.len() == 0 {
        return String::from_str("(empty)");
    }
    assert(chars@.subrange(0, chars@.len() as int) =~= output@);
    let end = scan(&chars, 0, chars.len(), CharClass::Newline);
    let stop = if 0 < end && end < chars.len() && chars[end - 1] == '\r' {
        end - 1
    } else {
        end
    };
    assert(output@.subrange(0, stop as int) =~= output@.take(stop as int));
    String::from_str(output.substring_char(0, stop))
}

/// Judges the run of `ffmpeg -version`.
pub fn check_ffmpeg_version_8_or_newer(outcome: &ToolOutcome) -> (r: Result<(), StartupError>)
    ensures
        r is Ok <==> ffmpeg_verdict(*outcome) is None,
        r matches Err(e) ==> ffmpeg_verdict(*outcome) == Some(e@),
{
    match outcome {
        ToolOutcome::NotRun(text) => Err(
            StartupError::FfmpegVersion(concat2("Failed to run ffmpeg -version: ", text.as_str())),
        ),
        ToolOutcome::Exited { success, stdout } => {
            if !*success {
                return Err(StartupError::FfmpegVersion(String::from_str("ffmpeg -version failed")));
            }
            match parse_ffmpeg_version(stdout.as_str()) {
                None => Err(
                    StartupError::FfmpegVersion(
                        concat2(
                            "Could not parse FFmpeg version from output: ",
                            first_line(stdout.as_str()).as_str(),
                        ),
                    ),
                ),
                Some(major) => {
                    if major < 8 {
                        Err(
                            StartupError::FfmpegVersion(
                                concat2(
                                    "FFmpeg 8.x required, got: ",
                                    decimal(major as u128).as_str(),
                                ),
                            ),
                        )
                    } else {
                        Ok(())
                    }
                },
            }
        },
    }
}

/// What the startup sequence does next.
#[derive(Debug, PartialEq, Eq)]
pub enum StartupStep {
    /// Run `av1an --version` and hand its outcome to `after_av1an`.
    RunAv1anVersion,
    /// Run `ffmpeg -version` and hand its outcome to `after_ffmpeg`.
    RunFfmpegVersion,
    /// Every check passed.
    Ready,
    /// A check failed; the service must not start.
    Abort(StartupError),
}

/// A `StartupStep` with its text as a sequence.
pub enum StartupStepView {
    RunAv1anVersion,
    RunFfmpegVersion,
    Ready,
    Abort(StartupErrorView),
}

impl View for StartupStep {
    type V = StartupStepView;

    open spec fn view(&self) -> StartupStepView {
        match self {
            StartupStep::RunAv1anVersion => StartupStepView::RunAv1anVersion,
            StartupStep::RunFfmpegVersion => StartupStepView::RunFfmpegVersion,
            StartupStep::Ready => StartupStepView::Ready,
            StartupStep::Abort(e) => StartupStepView::Abort(e@),
        }
    }
}

/// `next` unless the verdict is an error.
pub open spec fn step_after(verdict: Option<StartupErrorView>, next: StartupStepView) -> StartupStepView {
    match verdict {
        Some(e) => StartupStepView::Abort(e),
        None => next,
    }
}

/// The first of the startup checks: the configuration must name no hardware
/// encoder. Only then is the encoder looked for.
pub fn run_startup_checks(cfg: &Config) -> (r: StartupStep)
    ensures
        r@ == step_after(
            args_verdict(checked_strings(*cfg), cfg.encoder_safety.disallow_hardware_encoding),
            StartupStepView::RunAv1anVersion,
        ),
{
    match assert_software_only(cfg) {
        Ok(_) => StartupStep::RunAv1anVersion,
        Err(e) => StartupStep::Abort(e),
    }
}

/// The second check: the encoder must be there. Only then are the media
/// tools looked at.
pub fn after_av1an(outcome: &ToolOutcome) -> (r: StartupStep)
    ensures
        r@ == step_after(av1an_verdict(*outcome), StartupStepView::RunFfmpegVersion),
{
    match check_av1an_available(outcome) {
        Ok(_) => StartupStep::RunFfmpegVersion,
        Err(e) => StartupStep::Abort(e),
    }
}

/// The third check: the media tools must be of major version 8 or newer.
pub fn after_ffmpeg(outcome: &ToolOutcome) -> (r: StartupStep)
    ensures
        r@ == step_after(ffmpeg_verdict(*outcome), StartupStepView::Ready),
{
    match check_ffmpeg_version_8_or_newer(outcome) {
        Ok(_) => StartupStep::Ready,
        Err(e) => StartupStep::Abort(e),
    }
}

} // verus!
