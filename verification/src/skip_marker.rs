//! The files that record a decision not to try a video again: the marker and
//! the note that says why.

use vstd::prelude::*;
use crate::text::concat2;

verus! {

/// The note's path: the video's path with `.why.txt` appended.
pub open spec fn sidecar_path_of(video_path: Seq<char>) -> Seq<char> {
    video_path + ".why.txt"@
}

/// The path of the note that explains a skip: the video's path with
/// `.why.txt` appended.
pub fn why_sidecar_path(video_path: &str) -> (r: String)
    ensures
        r@ == sidecar_path_of(video_path@),
{
    concat2(video_path, ".why.txt")
}

/// The note lies beside the video: its path is the video's path, whole and
/// unchanged, followed by eight characters none of which separates
/// directories.
pub proof fn lemma_sidecar_beside_video(video_path: Seq<char>)
    ensures
        sidecar_path_of(video_path).len() == video_path.len() + 8,
        sidecar_path_of(video_path).take(video_path.len() as int) == video_path,
        forall|i: int|
            video_path.len() <= i < sidecar_path_of(video_path).len() ==> sidecar_path_of(
                video_path,
            )[i] != '/',
{
    reveal_strlit(".why.txt");
    assert(sidecar_path_of(video_path).take(video_path.len() as int) =~= video_path);
}

/// The note's content: the reason on a line of its own.
pub open spec fn sidecar_text_of(reason: Seq<char>) -> Seq<char> {
    reason + "\n"@
}

/// What is written into the note: the reason and a line end, or nothing
/// where notes are switched off.
pub fn why_sidecar_contents(reason: &str, enabled: bool) -> (r: Option<String>)
    ensures
        enabled ==> r is Some && r->0@ == sidecar_text_of(reason@),
        !enabled ==> r is None,
{
    if !enabled {
        return None;
    }
    Some(concat2(reason, "\n"))
}

} // verus!
