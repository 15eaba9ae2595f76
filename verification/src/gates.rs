//! The probe's result, how it is read from the probe tool's report, and the
//! gates that admit a file to encoding.

use vstd::prelude::*;
use crate::decimal::{parse_thousandths, parse_unsigned, thousandths_reading, unsigned_of};
use crate::ratio::Ratio;
use crate::text::{
    chars_of, concat2, contains, contains_text, lowercase, lowercase_of, same_text, texts, trim,
    trimmed,
};

verus! {

/// Why a probe gave no result.
#[derive(Debug, Clone, PartialEq, Eq)]
pub enum ProbeError {
    /// The probe tool exited with a failure.
    FfprobeFailed(String),
    /// The probe tool's report could not be read.
    ParseError(String),
    /// The probe tool could not be run.
    Io(String),
}

/// A `ProbeError` with its text as a sequence.
pub enum ProbeErrorView {
    FfprobeFailed(Seq<char>),
    ParseError(Seq<char>),
    Io(Seq<char>),
}

impl View for ProbeError {
    type V = ProbeErrorView;

    open spec fn view(&self) -> ProbeErrorView {
        match self {
            ProbeError::FfprobeFailed(text) => ProbeErrorView::FfprobeFailed(text@),
            ProbeError::ParseError(text) => ProbeErrorView::ParseError(text@),
            ProbeError::Io(text) => ProbeErrorView::Io(text@),
        }
    }
}

impl ProbeErrorView {
    /// The message of the error.
    pub open spec fn message(self) -> Seq<char> {
        match self {
            ProbeErrorView::FfprobeFailed(text) => "ffprobe failed: "@ + text,
            ProbeErrorView::ParseError(text) => "Failed to parse ffprobe output: "@ + text,
            ProbeErrorView::Io(text) => "IO error: "@ + text,
        }
    }
}

impl ProbeError {
    /// The message of the error.
    pub fn message(&self) -> (r: String)
        ensures
            r@ == self@.message(),
    {
        match self {
            ProbeError::FfprobeFailed(text) => concat2("ffprobe failed: ", text.as_str()),
            ProbeError::ParseError(text) => concat2(
                "Failed to parse ffprobe output: ",
                text.as_str(),
            ),
            ProbeError::Io(text) => concat2("IO error: ", text.as_str()),
        }
    }
}

/// A video stream of a file.
#[derive(Debug, Clone, PartialEq, Eq)]
pub struct VideoStream {
    pub codec_name: String,
    pub width: u32,
    pub height: u32,
    /// The bit rate in whole kilobits per second, where the file states one.
    pub bitrate_kbps: Option<u64>,
}

/// A `VideoStream` with its codec as a text.
pub struct VideoStreamView {
    pub codec_name: Seq<char>,
    pub width: u32,
    pub height: u32,
    pub bitrate_kbps: Option<u64>,
}

impl View for VideoStream {
    type V = VideoStreamView;

    open spec fn view(&self) -> VideoStreamView {
        VideoStreamView {
            codec_name: self.codec_name@,
            width: self.width,
            height: self.height,
            bitrate_kbps: self.bitrate_kbps,
        }
    }
}

/// An audio stream of a file.
#[derive(Debug, Clone, PartialEq, Eq)]
pub struct AudioStream {
    pub codec_name: String,
    pub channels: u32,
}

/// An `AudioStream` with its codec as a text.
pub struct AudioStreamView {
    pub codec_name: Seq<char>,
    pub channels: u32,
}

impl View for AudioStream {
    type V = AudioStreamView;

    open spec fn view(&self) -> AudioStreamView {
        AudioStreamView { codec_name: self.codec_name@, channels: self.channels }
    }
}

/// What the container says of the whole file.
#[derive(Debug, Clone, Copy, PartialEq, Eq, Structural)]
pub struct FormatInfo {
    /// The duration in milliseconds.
    pub duration_millis: u64,
    /// The size in bytes.
    pub size_bytes: u64,
}

/// The media properties of a file. The first video stream, where there is
/// one, is the one that gating and classification go by.
#[derive(Debug, Clone, PartialEq, Eq)]
pub struct ProbeResult {
    pub video_streams: Vec<VideoStream>,
    pub audio_streams: Vec<AudioStream>,
    pub format: FormatInfo,
}

/// A `ProbeResult` with its streams as sequences of views.
pub struct ProbeResultView {
    pub video_streams: Seq<VideoStreamView>,
    pub audio_streams: Seq<AudioStreamView>,
    pub format: FormatInfo,
}

/// The views of a list of video streams.
pub open spec fn video_views(streams: Seq<VideoStream>) -> Seq<VideoStreamView> {
    streams.map_values(|s: VideoStream| s@)
}

/// The views of a list of audio streams.
pub open spec fn audio_views(streams: Seq<AudioStream>) -> Seq<AudioStreamView> {
    streams.map_values(|s: AudioStream| s@)
}

impl View for ProbeResult {
    type V = ProbeResultView;

    open spec fn view(&self) -> ProbeResultView {
        ProbeResultView {
            video_streams: video_views(self.video_streams@),
            audio_streams: audio_views(self.audio_streams@),
            format: self.format,
        }
    }
}

impl ProbeResult {
    /// A copy of the result.
    pub fn duplicate(&self) -> (r: ProbeResult)
        ensures
            r@ == self@,
    {
        let mut video_streams: Vec<VideoStream> = Vec::new();
        let mut i: usize = 0;
        while i < self.video_streams.len()
            invariant
                i <= self.video_streams.len(),
                video_views(video_streams@) == video_views(self.video_streams@).take(i as int),
            decreases self.video_streams.len() - i,
        {
            let s = &self.video_streams[i];
            let ghost before = video_views(video_streams@);
            assert(video_views(self.video_streams@)[i as int] == self.video_streams@[i as int]@);
            video_streams.push(
                VideoStream {
                    codec_name: s.codec_name.clone(),
                    width: s.width,
                    height: s.height,
                    bitrate_kbps: s.bitrate_kbps,
                },
            );
            assert(video_views(video_streams@) =~= before.push(self.video_streams@[i as int]@));
            assert(video_views(video_streams@) =~= video_views(self.video_streams@).take(i + 1));
            i += 1;
        }
        let mut audio_streams: Vec<AudioStream> = Vec::new();
        let mut k: usize = 0;
        while k < self.audio_streams.len()
            invariant
                k <= self.audio_streams.len(),
                audio_views(audio_streams@) == audio_views(self.audio_streams@).take(k as int),
            decreases self.audio_streams.len() - k,
        {
            let s = &self.audio_streams[k];
            let ghost before = audio_views(audio_streams@);
            assert(audio_views(self.audio_streams@)[k as int] == self.audio_streams@[k as int]@);
            audio_streams.push(
                AudioStream { codec_name: s.codec_name.clone(), channels: s.channels },
            );
            assert(audio_views(audio_streams@) =~= before.push(self.audio_streams@[k as int]@));
            assert(audio_views(audio_streams@) =~= audio_views(self.audio_streams@).take(k + 1));
            k += 1;
        }
        assert(video_views(video_streams@) =~= video_views(self.video_streams@));
        assert(audio_views(audio_streams@) =~= audio_views(self.audio_streams@));
        ProbeResult { video_streams, audio_streams, format: self.format }
    }
}

/// The limits that the gates and the size gate go by.
#[derive(Debug, Clone, Copy, PartialEq, Eq, Structural)]
pub struct GatesConfig {
    /// Files below this size are not encoded.
    pub min_bytes: u64,
    /// The largest output, as a fraction of the original, that is kept.
    pub max_size_ratio: Ratio,
    /// Whether the backup of the original stays after a replacement.
    pub keep_original: bool,
}

impl Default for GatesConfig {
    fn default() -> (r: GatesConfig)
        ensures
            r.min_bytes == 1_048_576,
            r.max_size_ratio.millionths == 950_000,
            !r.keep_original,
    {
        GatesConfig {
            min_bytes: 1_048_576,
            max_size_ratio: Ratio { millionths: 950_000 },
            keep_original: false,
        }
    }
}

/// What the gates decided.
#[derive(Debug, Clone, PartialEq, Eq)]
pub enum GateResult {
    /// The file may be encoded; its probe result is handed on.
    Pass(ProbeResult),
    /// The file is not to be encoded, for this reason.
    Skip { reason: String },
}

/// A `GateResult` with its texts as sequences.
pub enum GateResultView {
    Pass(ProbeResultView),
    Skip { reason: Seq<char> },
}

impl View for GateResult {
    type V = GateResultView;

    open spec fn view(&self) -> GateResultView {
        match self {
            GateResult::Pass(probe) => GateResultView::Pass(probe@),
            GateResult::Skip { reason } => GateResultView::Skip { reason: reason@ },
        }
    }
}

/// One stream as the probe tool reports it. Every field may be missing.
#[derive(Debug, Clone, PartialEq, Eq)]
pub struct Stream {
    pub codec_type: Option<String>,
    pub codec_name: Option<String>,
    pub width: Option<u32>,
    pub height: Option<u32>,
    pub bit_rate: Option<String>,
    pub channels: Option<u32>,
}

/// The container's entry as the probe tool reports it.
#[derive(Debug, Clone, PartialEq, Eq)]
pub struct Format {
    pub duration: Option<String>,
    pub size: Option<String>,
}

/// The probe tool's report.
#[derive(Debug, Clone, PartialEq, Eq)]
pub struct FfprobeOutput {
    pub streams: Option<Vec<Stream>>,
    pub format: Option<Format>,
}

/// The text of an optional string, empty where it is missing.
pub open spec fn text_or_empty(value: Option<String>) -> Seq<char> {
    match value {
        Some(text) => text@,
        None => Seq::<char>::empty(),
    }
}

/// The number of an optional field, zero where it is missing.
pub open spec fn number_or_zero(value: Option<u32>) -> u32 {
    match value {
        Some(n) => n,
        None => 0,
    }
}

/// The bit rate in whole kilobits per second that a reported bit rate
/// spells: the number of bits per second divided by 1000.
pub open spec fn kbps_of(bit_rate: Option<String>) -> Option<u64> {
    match bit_rate {
        Some(text) => match unsigned_of(text@, u64::MAX as nat) {
            Some(bps) => Some((bps / 1000) as u64),
            None => None,
        },
        None => None,
    }
}

/// A reported stream is a video stream.
pub open spec fn is_video(s: Stream) -> bool {
    text_or_empty(s.codec_type) == "video"@
}

/// A reported stream is an audio stream.
pub open spec fn is_audio(s: Stream) -> bool {
    text_or_empty(s.codec_type) == "audio"@
}

/// The video stream that a reported stream describes.
pub open spec fn video_of(s: Stream) -> VideoStreamView {
    VideoStreamView {
        codec_name: text_or_empty(s.codec_name),
        width: number_or_zero(s.width),
        height: number_or_zero(s.height),
        bitrate_kbps: kbps_of(s.bit_rate),
    }
}

/// The audio stream that a reported stream describes.
pub open spec fn audio_of(s: Stream) -> AudioStreamView {
    AudioStreamView {
        codec_name: text_or_empty(s.codec_name),
        channels: number_or_zero(s.channels),
    }
}

/// The video streams among the reported streams, in their order.
pub open spec fn videos_of(streams: Seq<Stream>) -> Seq<VideoStreamView>
    decreases streams.len(),
{
    if streams.len() == 0 {
        Seq::<VideoStreamView>::empty()
    } else if is_video(streams.last()) {
        videos_of(streams.drop_last()).push(video_of(streams.last()))
    } else {
        videos_of(streams.drop_last())
    }
}

/// The audio streams among the reported streams, in their order.
pub open spec fn audios_of(streams: Seq<Stream>) -> Seq<AudioStreamView>
    decreases streams.len(),
{
    if streams.len() == 0 {
        Seq::<AudioStreamView>::empty()
    } else if is_audio(streams.last()) {
        audios_of(streams.drop_last()).push(audio_of(streams.last()))
    } else {
        audios_of(streams.drop_last())
    }
}

/// The format that a reported container entry describes: a duration or size
/// that is missing or cannot be read counts as zero.
pub open spec fn format_of(format: Format) -> FormatInfo {
    FormatInfo {
        duration_millis: match format.duration {
            Some(text) => match thousandths_reading(text@) {
                Some(v) => v as u64,
                None => 0,
            },
            None => 0,
        },
        size_bytes: match format.size {
            Some(text) => match unsigned_of(text@, u64::MAX as nat) {
                Some(v) => v as u64,
                None => 0,
            },
            None => 0,
        },
    }
}

/// The reported streams, none where the report has no list of them.
pub open spec fn reported_streams(raw: FfprobeOutput) -> Seq<Stream> {
    match raw.streams {
        Some(list) => list@,
        None => Seq::<Stream>::empty(),
    }
}

/// The probe result that a report describes. A report without a container
/// entry describes none.
pub open spec fn probe_of(raw: FfprobeOutput) -> Option<ProbeResultView> {
    match raw.format {
        Some(format) => Some(
            ProbeResultView {
                video_streams: videos_of(reported_streams(raw)),
                audio_streams: audios_of(reported_streams(raw)),
                format: format_of(format),
            },
        ),
        None => None,
    }
}

/// Reads a whole number of at most 64 bits.
fn parse_u64(text: &str) -> (r: Option<u64>)
    ensures
        r matches Some(v) ==> unsigned_of(text@, u64::MAX as nat) == Some(v as nat),
        r is None ==> unsigned_of(text@, u64::MAX as nat) is None,
{
    let chars = chars_of(text);
    assert(chars@.subrange(0, chars@.len() as int) =~= text@);
    parse_unsigned(&chars, 0, chars.len(), u64::MAX)
}

/// The text of an optional string, empty where it is missing.
fn copy_or_empty(value: &Option<String>) -> (r: String)
    ensures
        r@ == text_or_empty(*value),
{
    match value {
        Some(text) => text.clone(),
        None => String::new(),
    }
}

/// Adds to the two lists what one reported stream describes.
fn take_stream(stream: &Stream, videos: &mut Vec<VideoStream>, audios: &mut Vec<AudioStream>)
    ensures
        video_views(final(videos)@) == if is_video(*stream) {
            video_views(old(videos)@).push(video_of(*stream))
        } else {
            video_views(old(videos)@)
        },
        audio_views(final(audios)@) == if is_audio(*stream) {
            audio_views(old(audios)@).push(audio_of(*stream))
        } else {
            audio_views(old(audios)@)
        },
{
    let kind = copy_or_empty(&stream.codec_type);
    let ghost v0 = video_views(videos@);
    let ghost a0 = audio_views(audios@);
    if same_text(kind.as_str(), "video") {
        let bitrate_kbps = match &stream.bit_rate {
            Some(text) => match parse_u64(text.as_str()) {
                Some(bps) => Some(bps / 1000),
                None => None,
            },
            None => None,
        };
        let width = match stream.width {
            Some(n) => n,
            None => 0,
        };
        let height = match stream.height {
            Some(n) => n,
            None => 0,
        };
        videos.push(
            VideoStream {
                codec_name: copy_or_empty(&stream.codec_name),
                width,
                height,
                bitrate_kbps,
            },
        );
        assert(video_views(videos@) =~= v0.push(video_of(*stream)));
        proof {
            reveal_strlit("video");
            reveal_strlit("audio");
            assert("video"@[0] != "audio"@[0]);
        }
    } else if same_text(kind.as_str(), "audio") {
        let channels = match stream.channels {
            Some(n) => n,
            None => 0,
        };
        audios.push(AudioStream { codec_name: copy_or_empty(&stream.codec_name), channels });
        assert(audio_views(audios@) =~= a0.push(audio_of(*stream)));
    }
}

/// Reads the probe tool's report into a probe result.
///
/// Streams of type `video` and `audio` are taken in their order and all
/// others are passed over. A missing codec name is empty, a missing width,
/// height or channel count is zero, and a bit rate that is missing or is not
/// a whole number is absent. A report without a container entry is an error.
pub fn parse_ffprobe_output(raw: &FfprobeOutput) -> (r: Result<ProbeResult, ProbeError>)
    ensures
        match r {
            Ok(probe) => probe_of(*raw) == Some(probe@),
            Err(e) => probe_of(*raw) is None && e@ == ProbeErrorView::ParseError(
                "Missing format information in ffprobe output"@,
            ),
        },
{
    let format = match &raw.format {
        Some(format) => format,
        None => {
            return Err(
                ProbeError::ParseError(
                    String::from_str("Missing format information in ffprobe output"),
                ),
            );
        },
    };
    let mut video_streams: Vec<VideoStream> = Vec::new();
    let mut audio_streams: Vec<AudioStream> = Vec::new();
    assert(video_views(video_streams@) =~= Seq::<VideoStreamView>::empty());
    assert(audio_views(audio_streams@) =~= Seq::<AudioStreamView>::empty());
    match &raw.streams {
        Some(list) => {
            let mut i: usize = 0;
            while i < list.len()
                invariant
                    i <= list.len(),
                    video_views(video_streams@) == videos_of(list@.take(i as int)),
                    audio_views(audio_streams@) == audios_of(list@.take(i as int)),
                decreases list.len() - i,
            {
                assert(list@.take(i + 1).drop_last() =~= list@.take(i as int));
                assert(list@.take(i + 1).last() == list@[i as int]);
                take_stream(&list[i], &mut video_streams, &mut audio_streams);
                i += 1;
            }
            assert(list@.take(i as int) =~= list@);
        },
        None => {},
    }
    let duration_millis = match &format.duration {
        Some(text) => match parse_thousandths(text.as_str()) {
            Some(v) => v,
            None => 0,
        },
        None => 0,
    };
    let size_bytes = match &format.size {
        Some(text) => match parse_u64(text.as_str()) {
            Some(v) => v,
            None => 0,
        },
        None => 0,
    };
    Ok(
        ProbeResult {
            video_streams,
            audio_streams,
            format: FormatInfo { duration_millis, size_bytes },
        },
    )
}

/// The probe tool's argument vector for a path, program name first.
pub open spec fn ffprobe_argv(path: Seq<char>) -> Seq<Seq<char>> {
    seq![
        "ffprobe"@,
        "-v"@,
        "quiet"@,
        "-print_format"@,
        "json"@,
        "-show_streams"@,
        "-show_format"@,
        path,
    ]
}

/// Builds the probe tool's argument vector for a path, program name first.
pub fn ffprobe_command(path: &str) -> (argv: Vec<String>)
    ensures
        texts(argv@) == ffprobe_argv(path@),
{
    let mut argv: Vec<String> = Vec::new();
    argv.push(String::from_str("ffprobe"));
    argv.push(String::from_str("-v"));
    argv.push(String::from_str("quiet"));
    argv.push(String::from_str("-print_format"));
    argv.push(String::from_str("json"));
    argv.push(String::from_str("-show_streams"));
    argv.push(String::from_str("-show_format"));
    argv.push(String::from_str(path));
    assert(texts(argv@) =~= ffprobe_argv(path@));
    argv
}

/// How a run of the probe tool ended.
#[derive(Debug, Clone, PartialEq, Eq)]
pub enum ProbeOutcome {
    /// The tool could not be run.
    NotRun(String),
    /// The tool exited with a failure; `status` describes the exit and
    /// `stderr` is what it wrote to its error stream.
    Failed { status: String, stderr: String },
    /// The tool succeeded but its report is not of the expected form.
    Malformed(String),
    /// The tool succeeded with this report.
    Report(FfprobeOutput),
}

/// The text of a failed run: the exit, and the error stream without the
/// white space at its ends.
pub open spec fn failure_text(status: Seq<char>, stderr: Seq<char>) -> Seq<char> {
    "ffprobe exited with status "@ + status + ": "@ + trimmed(stderr)
}

/// The probe's result from the way the tool's run ended.
pub fn probe_result(outcome: &ProbeOutcome) -> (r: Result<ProbeResult, ProbeError>)
    ensures
        match *outcome {
            ProbeOutcome::NotRun(text) => r is Err && r->Err_0@ == ProbeErrorView::Io(text@),
            ProbeOutcome::Failed { status, stderr } => r is Err && r->Err_0@
                == ProbeErrorView::FfprobeFailed(failure_text(status@, stderr@)),
            ProbeOutcome::Malformed(text) => r is Err && r->Err_0@ == ProbeErrorView::ParseError(
                text@,
            ),
            ProbeOutcome::Report(raw) => match r {
                Ok(probe) => probe_of(raw) == Some(probe@),
                Err(e) => probe_of(raw) is None && e@ == ProbeErrorView::ParseError(
                    "Missing format information in ffprobe output"@,
                ),
            },
        },
{
    match outcome {
        ProbeOutcome::NotRun(text) => Err(ProbeError::Io(text.clone())),
        ProbeOutcome::Failed { status, stderr } => {
            let text = concat2("ffprobe exited with status ", status.as_str()).concat(": ").concat(
                trim(stderr.as_str()).as_str(),
            );
            Err(ProbeError::FfprobeFailed(text))
        },
        ProbeOutcome::Malformed(text) => Err(ProbeError::ParseError(text.clone())),
        ProbeOutcome::Report(raw) => parse_ffprobe_output(raw),
    }
}

/// The reason for which a file is not admitted, if there is one. The gates
/// are tried in this order and the first that fails decides: no video
/// stream; a size below the minimum; a first video stream whose codec, in
/// lower case, contains `av1`.
pub open spec fn skip_reason_of(
    video_count: nat,
    file_size: u64,
    min_bytes: u64,
    lower_codec: Seq<char>,
) -> Option<Seq<char>> {
    if video_count == 0 {
        Some("no video streams"@)
    } else if file_size < min_bytes {
        Some("below minimum size"@)
    } else if contains(lower_codec, "av1"@) {
        Some("already AV1"@)
    } else {
        None
    }
}

/// Tries the gates on the count of video streams, the file's size and the
/// first video codec in lower case.
pub fn skip_reason(video_count: usize, file_size: u64, min_bytes: u64, lower_codec: &str) -> (r:
    Option<String>)
    ensures
        r matches Some(reason) ==> skip_reason_of(
            video_count as nat,
            file_size,
            min_bytes,
            lower_codec@,
        ) == Some(reason@),
        r is None ==> skip_reason_of(video_count as nat, file_size, min_bytes, lower_codec@)
            is None,
{
    if video_count == 0 {
        return Some(String::from_str("no video streams"));
    }
    if file_size < min_bytes {
        return Some(String::from_str("below minimum size"));
    }
    let codec = chars_of(lower_codec);
    if contains_text(&codec, "av1") {
        return Some(String::from_str("already AV1"));
    }
    None
}

/// The codec of the first video stream in lower case, empty where there is
/// no video stream.
pub open spec fn first_codec_lowered(probe: ProbeResultView) -> Seq<char> {
    if probe.video_streams.len() > 0 {
        lowercase_of(probe.video_streams[0].codec_name)
    } else {
        Seq::<char>::empty()
    }
}

/// What the gates decide of a probed file of `file_size` bytes.
pub open spec fn gate_result_of(probe: ProbeResultView, file_size: u64, cfg: GatesConfig) -> GateResultView {
    match skip_reason_of(
        probe.video_streams.len(),
        file_size,
        cfg.min_bytes,
        first_codec_lowered(probe),
    ) {
        Some(reason) => GateResultView::Skip { reason },
        None => GateResultView::Pass(probe),
    }
}

/// Decides whether a probed file is admitted to encoding.
pub fn check_gates(probe: &ProbeResult, file_size: u64, cfg: &GatesConfig) -> (r: GateResult)
    ensures
        r@ == gate_result_of(probe@, file_size, *cfg),
{
    let lower_codec = if probe.video_streams.len() > 0 {
        lowercase(probe.video_streams[0].codec_name.as_str())
    } else {
        String::new()
    };
    match skip_reason(probe.video_streams.len(), file_size, cfg.min_bytes, lower_codec.as_str()) {
        Some(reason) => GateResult::Skip { reason },
        None => GateResult::Pass(probe.duplicate()),
    }
}

/// The first gate that fails decides, whatever the later ones would say: a
/// file without video is skipped for that; a file with video that is too
/// small is skipped for its size; only a file that passes both can be
/// skipped for its codec; and a file that passes all three is admitted.
pub proof fn lemma_first_failing_gate_decides(
    video_count: nat,
    file_size: u64,
    min_bytes: u64,
    lower_codec: Seq<char>,
)
    ensures
        video_count == 0 ==> skip_reason_of(video_count, file_size, min_bytes, lower_codec)
            == Some("no video streams"@),
        video_count > 0 && file_size < min_bytes ==> skip_reason_of(
            video_count,
            file_size,
            min_bytes,
            lower_codec,
        ) == Some("below minimum size"@),
        video_count > 0 && file_size >= min_bytes && contains(lower_codec, "av1"@)
            ==> skip_reason_of(video_count, file_size, min_bytes, lower_codec) == Some(
            "already AV1"@,
        ),
        video_count > 0 && file_size >= min_bytes && !contains(lower_codec, "av1"@)
            ==> skip_reason_of(video_count, file_size, min_bytes, lower_codec) is None,
{
}

} // verus!
