//! The scanner's rules: which files are videos, where a skip marker lies,
//! which directories are walked and which entries become candidates.

use vstd::prelude::*;
use crate::paths::{extension, extension_of};
use crate::text::{chars_of, concat2, lowercase, lowercase_of, same_text};

verus! {

/// The extensions of video files, each with its leading dot, in lower case.
pub const VIDEO_EXTENSIONS: [&'static str; 7] = [
    ".mkv",
    ".mp4",
    ".avi",
    ".mov",
    ".m4v",
    ".ts",
    ".m2ts",
];

/// A video file found by a scan.
#[derive(Debug, Clone, PartialEq, Eq)]
pub struct ScanCandidate {
    /// The file's path.
    pub path: String,
    /// Its size when it was found.
    pub size_bytes: u64,
    /// Its modification time in seconds since the Unix epoch.
    pub modified_time: u64,
}

/// A `ScanCandidate` with its path as a text.
pub struct ScanCandidateView {
    pub path: Seq<char>,
    pub size_bytes: u64,
    pub modified_time: u64,
}

impl View for ScanCandidate {
    type V = ScanCandidateView;

    open spec fn view(&self) -> ScanCandidateView {
        ScanCandidateView {
            path: self.path@,
            size_bytes: self.size_bytes,
            modified_time: self.modified_time,
        }
    }
}

/// The marker's path: the video's path with `.av1skip` appended.
pub open spec fn marker_path_of(video_path: Seq<char>) -> Seq<char> {
    video_path + ".av1skip"@
}

/// The path of the skip marker of a video: the video's path with `.av1skip`
/// appended, so that the marker lies beside the video.
pub fn skip_marker_path(video_path: &str) -> (r: String)
    ensures
        r@ == marker_path_of(video_path@),
{
    concat2(video_path, ".av1skip")
}

/// The marker lies beside the video: its path is the video's path, whole and
/// unchanged, followed by eight characters none of which separates
/// directories.
pub proof fn lemma_marker_beside_video(video_path: Seq<char>)
    ensures
        marker_path_of(video_path).len() == video_path.len() + 8,
        marker_path_of(video_path).take(video_path.len() as int) == video_path,
        forall|i: int|
            video_path.len() <= i < marker_path_of(video_path).len() ==> marker_path_of(
                video_path,
            )[i] != '/',
{
    reveal_strlit(".av1skip");
    assert(marker_path_of(video_path).take(video_path.len() as int) =~= video_path);
}

/// `lower_ext`, an extension without its dot and in lower case, is one of the
/// video extensions.
pub open spec fn is_video_extension(lower_ext: Seq<char>) -> bool {
    "."@ + lower_ext == ".mkv"@ || "."@ + lower_ext == ".mp4"@ || "."@ + lower_ext == ".avi"@ || "."@
        + lower_ext == ".mov"@ || "."@ + lower_ext == ".m4v"@ || "."@ + lower_ext == ".ts"@ || "."@
        + lower_ext == ".m2ts"@
}

/// Whether a path names a video file: it has an extension whose lower-case
/// form is one of the video extensions.
pub open spec fn video_file(path: Seq<char>) -> bool {
    match extension_of(path) {
        Some(ext) => is_video_extension(lowercase_of(ext)),
        None => false,
    }
}

/// Whether an extension, given without its dot and in lower case, is one of
/// the video extensions.
pub fn video_extension(lower_ext: &str) -> (r: bool)
    ensures
        r == is_video_extension(lower_ext@),
{
    let dotted = concat2(".", lower_ext);
    let mut i: usize = 0;
    let mut found = false;
    while i < 7
        invariant
            i <= 7,
            dotted@ == "."@ + lower_ext@,
            found == (exists|k: int| 0 <= k < i && dotted@ == (#[trigger] VIDEO_EXTENSIONS[k])@),
        decreases 7 - i,
    {
        if same_text(dotted.as_str(), VIDEO_EXTENSIONS[i]) {
            found = true;
        }
        i += 1;
    }
    proof {
        if is_video_extension(lower_ext@) {
            let k = choose|k: int| 0 <= k < 7 && dotted@ == (#[trigger] VIDEO_EXTENSIONS[k])@;
        }
        assert(VIDEO_EXTENSIONS[0]@ == ".mkv"@);
        assert(VIDEO_EXTENSIONS[1]@ == ".mp4"@);
        assert(VIDEO_EXTENSIONS[2]@ == ".avi"@);
        assert(VIDEO_EXTENSIONS[3]@ == ".mov"@);
        assert(VIDEO_EXTENSIONS[4]@ == ".m4v"@);
        assert(VIDEO_EXTENSIONS[5]@ == ".ts"@);
        assert(VIDEO_EXTENSIONS[6]@ == ".m2ts"@);
    }
    found
}

/// Whether a path names a video file, by its extension and without regard
/// to case.
pub fn is_video_file(path: &str) -> (r: bool)
    ensures
        r == video_file(path@),
{
    match extension(path) {
        Some(ext) => {
            let lower = lowercase(ext.as_str());
            video_extension(lower.as_str())
        },
        None => false,
    }
}

/// A directory is left out of the walk when its name starts with a dot and it
/// is not a root of the walk.
pub open spec fn pruned(name: Seq<char>, is_dir: bool, depth: nat) -> bool {
    is_dir && depth > 0 && name.len() > 0 && name[0] == '.'
}

/// Whether the walk goes on through an entry: everything but a hidden
/// directory below a root. `name` is the entry's own name, `depth` its depth
/// with the root at zero.
pub fn should_descend(name: &str, is_dir: bool, depth: usize) -> (r: bool)
    ensures
        r == !pruned(name@, is_dir, depth as nat),
{
    if !is_dir || depth == 0 {
        return true;
    }
    let chars = chars_of(name);
    !(chars.len() > 0 && chars[0] == '.')
}

/// What the walk saw of one entry that it reached.
#[derive(Debug, Clone, PartialEq, Eq)]
pub struct WalkEntry {
    /// The entry's path.
    pub path: String,
    /// Whether it is a regular file.
    pub is_file: bool,
    /// Whether a skip marker lies beside it.
    pub has_marker: bool,
    /// Its size and modification time, where its metadata could be read.
    pub metadata: Option<(u64, u64)>,
}

/// The candidate that an entry yields, if any: a regular file with a video
/// extension, no skip marker and readable metadata.
pub open spec fn candidate_of(entry: WalkEntry) -> Option<ScanCandidateView> {
    if entry.is_file && video_file(entry.path@) && !entry.has_marker {
        match entry.metadata {
            Some((size_bytes, modified_time)) => Some(
                ScanCandidateView { path: entry.path@, size_bytes, modified_time },
            ),
            None => None,
        }
    } else {
        None
    }
}

/// Turns an entry of the walk into a candidate, or passes it over.
pub fn consider_entry(entry: &WalkEntry) -> (r: Option<ScanCandidate>)
    ensures
        r matches Some(c) ==> candidate_of(*entry) == Some(c@),
        r is None ==> candidate_of(*entry) is None,
{
    if !entry.is_file {
        return None;
    }
    if !is_video_file(entry.path.as_str()) {
        return None;
    }
    if entry.has_marker {
        return None;
    }
    match entry.metadata {
        Some((size_bytes, modified_time)) => Some(
            ScanCandidate { path: entry.path.clone(), size_bytes, modified_time },
        ),
        None => None,
    }
}

/// A file with a skip marker is never a candidate; a regular video file
/// without one, whose metadata can be read, always is, with its path
/// unchanged; and no hidden directory below a root is walked.
pub proof fn lemma_scanner_rules(entry: WalkEntry, name: Seq<char>, depth: nat)
    ensures
        entry.has_marker ==> candidate_of(entry) is None,
        entry.is_file && video_file(entry.path@) && !entry.has_marker && entry.metadata is Some
            ==> candidate_of(entry) is Some && candidate_of(entry)->0.path == entry.path@,
        depth > 0 && name.len() > 0 && name[0] == '.' ==> pruned(name, true, depth),
        !pruned(name, true, 0),
{
}

} // verus!
