//! The classifier: whether a file looks like a web release or a disc
//! release, from its path and its first video stream.

use vstd::prelude::*;
use crate::gates::{ProbeResult, ProbeResultView};
use crate::text::{chars_of, contains, contains_text, lowercase, lowercase_of};

verus! {

/// The kind of source a file comes from.
#[derive(Debug, Clone, Copy, PartialEq, Eq, Structural)]
pub enum SourceType {
    /// A web release: low bit rate for its resolution.
    WebLike,
    /// A disc release: high bit rate for its resolution.
    DiscLike,
    /// Neither could be told.
    Unknown,
}

impl Default for SourceType {
    fn default() -> (r: SourceType)
        ensures
            r == SourceType::Unknown,
    {
        SourceType::Unknown
    }
}

impl SourceType {
    /// The name under which the kind is stored.
    pub open spec fn label(self) -> Seq<char> {
        match self {
            SourceType::WebLike => "web_like"@,
            SourceType::DiscLike => "disc_like"@,
            SourceType::Unknown => "unknown"@,
        }
    }

    /// The name under which the kind is stored.
    pub fn as_str(&self) -> (r: &'static str)
        ensures
            r@ == self.label(),
    {
        match self {
            SourceType::WebLike => "web_like",
            SourceType::DiscLike => "disc_like",
            SourceType::Unknown => "unknown",
        }
    }
}

/// The words that mark a web release.
pub const WEB_KEYWORDS: [&'static str; 28] = [
    "webrip",
    "web-rip",
    "webdl",
    "web-dl",
    "web.dl",
    "web.rip",
    "amzn",
    "amazon",
    "nf",
    "netflix",
    "hulu",
    "dsnp",
    "disney",
    "atvp",
    "appletv",
    "hmax",
    "hbo",
    "pcok",
    "peacock",
    "pmtp",
    "paramount",
    "stan",
    "it",
    "hdtv",
    "pdtv",
    "webhd",
    "web",
    "streaming",
];

/// The words that mark a disc release.
pub const DISC_KEYWORDS: [&'static str; 17] = [
    "bluray",
    "blu-ray",
    "bdrip",
    "bd-rip",
    "brrip",
    "br-rip",
    "remux",
    "bdremux",
    "bd.remux",
    "dvdrip",
    "dvd-rip",
    "dvd",
    "uhd",
    "ultrahd",
    "4k.uhd",
    "hddvd",
    "hd-dvd",
];

/// Below this many kilobits per second and megapixel a stream counts as a
/// web release.
pub const BITRATE_THRESHOLD_KBPS_PER_MP: u64 = 6000;

/// One of `keywords` is a part of `text`.
pub open spec fn has_keyword(text: Seq<char>, keywords: Seq<&'static str>) -> bool {
    exists|k: int| 0 <= k < keywords.len() && contains(text, (#[trigger] keywords[k])@)
}

/// Whether one of `keywords` is a part of `path_str`.
pub fn contains_any_keyword(path_str: &str, keywords: &[&'static str]) -> (r: bool)
    ensures
        r == has_keyword(path_str@, keywords@),
{
    let hay = chars_of(path_str);
    let mut i: usize = 0;
    while i < keywords.len()
        invariant
            i <= keywords.len(),
            hay@ == path_str@,
            forall|k: int| 0 <= k < i ==> !contains(path_str@, (#[trigger] keywords@[k])@),
        decreases keywords.len() - i,
    {
        if contains_text(&hay, keywords[i]) {
            return true;
        }
        i += 1;
    }
    false
}

/// What the first video stream says of the source: with a bit rate above
/// zero and a width and height above zero, a web release if the bit rate per
/// megapixel is below the threshold and a disc release otherwise; unknown
/// without a video stream, a bit rate or a size.
pub open spec fn kind_by_bitrate(probe: ProbeResultView) -> SourceType {
    if probe.video_streams.len() == 0 {
        SourceType::Unknown
    } else {
        let v = probe.video_streams[0];
        match v.bitrate_kbps {
            Some(kbps) => if kbps > 0 && v.width > 0 && v.height > 0 {
                if kbps * 1_000_000 < BITRATE_THRESHOLD_KBPS_PER_MP * v.width * v.height {
                    SourceType::WebLike
                } else {
                    SourceType::DiscLike
                }
            } else {
                SourceType::Unknown
            },
            None => SourceType::Unknown,
        }
    }
}

/// The kind of a file from its path in lower case and its probe result: a
/// web keyword in the path decides first, then a disc keyword, then the bit
/// rate.
pub open spec fn kind_of(lower_path: Seq<char>, probe: ProbeResultView) -> SourceType {
    if has_keyword(lower_path, WEB_KEYWORDS@) {
        SourceType::WebLike
    } else if has_keyword(lower_path, DISC_KEYWORDS@) {
        SourceType::DiscLike
    } else {
        kind_by_bitrate(probe)
    }
}

/// Classifies by the bit rate of the first video stream for its resolution.
pub fn classify_by_bitrate_ratio(probe: &ProbeResult) -> (r: SourceType)
    ensures
        r == kind_by_bitrate(probe@),
{
    if probe.video_streams.len() == 0 {
        return SourceType::Unknown;
    }
    let v = &probe.video_streams[0];
    assert(probe@.video_streams[0] == v@);
    let kbps = match v.bitrate_kbps {
        Some(kbps) => kbps,
        None => {
            return SourceType::Unknown;
        },
    };
    if kbps == 0 || v.width == 0 || v.height == 0 {
        return SourceType::Unknown;
    }
    assert(v.width * v.height <= 0xffff_ffff * 0xffff_ffff) by (nonlinear_arith)
        requires
            v.width <= 0xffff_ffff,
            v.height <= 0xffff_ffff,
    ;
    let pixels: u128 = v.width as u128 * v.height as u128;
    assert(BITRATE_THRESHOLD_KBPS_PER_MP * v.width * v.height == 6000 * (v.width * v.height))
        by (nonlinear_arith);
    if kbps as u128 * 1_000_000 < 6000 * pixels {
        SourceType::WebLike
    } else {
        SourceType::DiscLike
    }
}

/// Classifies a file whose path is given in lower case.
pub fn classify_lowered(lower_path: &str, probe: &ProbeResult) -> (r: SourceType)
    ensures
        r == kind_of(lower_path@, probe@),
{
    if contains_any_keyword(lower_path, WEB_KEYWORDS.as_slice()) {
        return SourceType::WebLike;
    }
    if contains_any_keyword(lower_path, DISC_KEYWORDS.as_slice()) {
        return SourceType::DiscLike;
    }
    classify_by_bitrate_ratio(probe)
}

/// Classifies a file by its path, without regard to case, and its probe
/// result.
pub fn classify_source(path: &str, probe: &ProbeResult) -> (r: SourceType)
    ensures
        r == kind_of(lowercase_of(path@), probe@),
{
    let lower = lowercase(path);
    classify_lowered(lower.as_str(), probe)
}

/// A path that holds a web keyword is a web release whatever else it holds;
/// a path that holds a disc keyword and no web keyword is a disc release;
/// and a path without keywords is classed by its first video stream alone.
pub proof fn lemma_keywords_decide(lower_path: Seq<char>, probe: ProbeResultView)
    ensures
        has_keyword(lower_path, WEB_KEYWORDS@) ==> kind_of(lower_path, probe) == SourceType::WebLike,
        has_keyword(lower_path, DISC_KEYWORDS@) && !has_keyword(lower_path, WEB_KEYWORDS@)
            ==> kind_of(lower_path, probe) == SourceType::DiscLike,
        !has_keyword(lower_path, DISC_KEYWORDS@) && !has_keyword(lower_path, WEB_KEYWORDS@)
            ==> kind_of(lower_path, probe) == kind_by_bitrate(probe),
{
}

/// A single keyword in the path is enough: the path need only hold it
/// somewhere.
pub proof fn lemma_one_keyword_suffices(lower_path: Seq<char>, probe: ProbeResultView, k: int)
    requires
        0 <= k < 28,
        contains(lower_path, WEB_KEYWORDS[k]@),
    ensures
        kind_of(lower_path, probe) == SourceType::WebLike,
{
    assert(WEB_KEYWORDS@[k] == WEB_KEYWORDS[k]);
}

/// Every file has exactly one kind, and the kind depends on nothing but the
/// path in lower case and the probe result.
pub proof fn lemma_one_kind(lower_path: Seq<char>, probe: ProbeResultView)
    ensures
        ({
            let kind = kind_of(lower_path, probe);
            (kind == SourceType::WebLike && kind != SourceType::DiscLike && kind
                != SourceType::Unknown) || (kind == SourceType::DiscLike && kind
                != SourceType::WebLike && kind != SourceType::Unknown) || (kind
                == SourceType::Unknown && kind != SourceType::WebLike && kind
                != SourceType::DiscLike)
        }),
{
}

} // verus!
