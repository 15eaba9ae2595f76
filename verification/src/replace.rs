//! Replacing an original by its encode: the backup's name, and the order of
//! the file operations with what follows each failure.

use vstd::prelude::*;
use crate::clock::unix_seconds;
use crate::decimal::{decimal, decimal_digits};
use crate::text::concat2;

verus! {

/// Why a replacement failed.
#[derive(Debug, Clone, PartialEq, Eq)]
pub enum ReplaceError {
    /// The original could not be moved to its backup. It is untouched.
    BackupFailed(String),
    /// The encode could not be copied into place. The backup was moved back.
    CopyFailed(String),
    /// The backup could not be deleted. The encode is in place.
    DeleteBackupFailed(String),
}

/// A `ReplaceError` with its text as a sequence.
pub enum ReplaceErrorView {
    BackupFailed(Seq<char>),
    CopyFailed(Seq<char>),
    DeleteBackupFailed(Seq<char>),
}

impl View for ReplaceError {
    type V = ReplaceErrorView;

    open spec fn view(&self) -> ReplaceErrorView {
        match self {
            ReplaceError::BackupFailed(text) => ReplaceErrorView::BackupFailed(text@),
            ReplaceError::CopyFailed(text) => ReplaceErrorView::CopyFailed(text@),
            ReplaceError::DeleteBackupFailed(text) => ReplaceErrorView::DeleteBackupFailed(text@),
        }
    }
}

impl ReplaceErrorView {
    /// The message of the error.
    pub open spec fn message(self) -> Seq<char> {
        match self {
            ReplaceErrorView::BackupFailed(text) => "Failed to create backup: "@ + text,
            ReplaceErrorView::CopyFailed(text) => "Failed to copy encoded file: "@ + text,
            ReplaceErrorView::DeleteBackupFailed(text) => "Failed to delete backup: "@ + text,
        }
    }
}

impl ReplaceError {
    /// The message of the error.
    pub fn message(&self) -> (r: String)
        ensures
            r@ == self@.message(),
    {
        match self {
            ReplaceError::BackupFailed(text) => concat2("Failed to create backup: ", text.as_str()),
            ReplaceError::CopyFailed(text) => concat2(
                "Failed to copy encoded file: ",
                text.as_str(),
            ),
            ReplaceError::DeleteBackupFailed(text) => concat2(
                "Failed to delete backup: ",
                text.as_str(),
            ),
        }
    }
}

/// The backup's path: the original's path, `.orig.` and the time in seconds.
pub open spec fn backup_path_of(original: Seq<char>, unix_seconds: u64) -> Seq<char> {
    original + ".orig."@ + decimal_digits(unix_seconds as nat)
}

/// The backup path of `original` for a backup made at `unix_seconds`.
pub fn backup_path_at(original: &str, unix_seconds: u64) -> (r: String)
    ensures
        r@ == backup_path_of(original@, unix_seconds),
{
    concat2(original, ".orig.").concat(decimal(unix_seconds as u128).as_str())
}

/// The backup path of `original` for a backup made now.
pub fn backup_path(original: &str) -> (r: String)
    ensures
        exists|unix_seconds: u64| r@ == backup_path_of(original@, unix_seconds),
{
    let now = unix_seconds();
    backup_path_at(original, now)
}

/// One operation on files.
#[derive(Debug, Clone, PartialEq, Eq)]
pub enum FileOp {
    Rename { from: String, to: String },
    Copy { from: String, to: String },
    Remove { path: String },
}

/// A `FileOp` with its paths as texts.
pub enum FileOpView {
    Rename { from: Seq<char>, to: Seq<char> },
    Copy { from: Seq<char>, to: Seq<char> },
    Remove { path: Seq<char> },
}

impl View for FileOp {
    type V = FileOpView;

    open spec fn view(&self) -> FileOpView {
        match self {
            FileOp::Rename { from, to } => FileOpView::Rename { from: from@, to: to@ },
            FileOp::Copy { from, to } => FileOpView::Copy { from: from@, to: to@ },
            FileOp::Remove { path } => FileOpView::Remove { path: path@ },
        }
    }
}

/// Which operation of a replacement is under way.
#[derive(Debug, Clone, Copy, PartialEq, Eq, Structural)]
pub enum ReplaceStage {
    /// Renaming the original to the backup.
    MovingOriginal,
    /// The rename failed; copying the original to the backup.
    CopyingOriginal,
    /// The copy is made; removing the original.
    RemovingOriginal,
    /// Copying the encode to the original's path.
    CopyingEncoded,
    /// Removing the backup.
    RemovingBackup,
    /// Nothing is left to do.
    Finished,
}

/// What comes after an operation.
#[derive(Debug, PartialEq, Eq)]
pub enum ReplaceNext {
    /// Perform this operation and report how it went.
    Perform(FileOp),
    /// The replacement is over, with this result.
    Done(Result<(), ReplaceError>),
}

/// A `ReplaceNext` with its texts as sequences.
pub enum ReplaceNextView {
    Perform(FileOpView),
    Done(Option<ReplaceErrorView>),
}

impl View for ReplaceNext {
    type V = ReplaceNextView;

    open spec fn view(&self) -> ReplaceNextView {
        match self {
            ReplaceNext::Perform(op) => ReplaceNextView::Perform(op@),
            ReplaceNext::Done(Ok(_)) => ReplaceNextView::Done(None),
            ReplaceNext::Done(Err(e)) => ReplaceNextView::Done(Some(e@)),
        }
    }
}

/// The answer to a reported outcome: an operation to try without regard to
/// how it goes, and what comes next.
#[derive(Debug, PartialEq, Eq)]
pub struct ReplaceStep {
    /// An operation to attempt first, whose failure is ignored.
    pub restore: Option<FileOp>,
    pub next: ReplaceNext,
}

/// A `ReplaceStep` with its texts as sequences.
pub struct ReplaceStepView {
    pub restore: Option<FileOpView>,
    pub next: ReplaceNextView,
}

impl View for ReplaceStep {
    type V = ReplaceStepView;

    open spec fn view(&self) -> ReplaceStepView {
        ReplaceStepView {
            restore: match self.restore {
                Some(op) => Some(op@),
                None => None,
            },
            next: self.next@,
        }
    }
}

/// A replacement under way.
#[derive(Debug, Clone, PartialEq, Eq)]
pub struct Replacement {
    pub original_path: String,
    pub encoded_path: String,
    pub backup_path: String,
    pub keep_original: bool,
    pub stage: ReplaceStage,
}

/// A `Replacement` with its paths as texts.
pub struct ReplacementView {
    pub original_path: Seq<char>,
    pub encoded_path: Seq<char>,
    pub backup_path: Seq<char>,
    pub keep_original: bool,
    pub stage: ReplaceStage,
}

impl View for Replacement {
    type V = ReplacementView;

    open spec fn view(&self) -> ReplacementView {
        ReplacementView {
            original_path: self.original_path@,
            encoded_path: self.encoded_path@,
            backup_path: self.backup_path@,
            keep_original: self.keep_original,
            stage: self.stage,
        }
    }
}

/// The failure that an outcome carries, if it is one.
pub open spec fn failure_of(outcome: Result<(), String>) -> Option<Seq<char>> {
    match outcome {
        Ok(_) => None,
        Err(text) => Some(text@),
    }
}

/// The stage after an outcome, and the answer to it.
///
/// The original is first renamed to the backup; if that fails it is copied
/// there and then removed, and a failure of either ends the replacement with
/// the original untouched. The encode is then copied into place; if that
/// fails the backup is renamed back. Last, the backup is removed unless it is
/// to be kept. An outcome reported after the end changes nothing.
pub open spec fn replace_transition(r: ReplacementView, failure: Option<Seq<char>>) -> (
    ReplaceStage,
    ReplaceStepView,
) {
    let copy_encode = ReplaceStepView {
        restore: None,
        next: ReplaceNextView::Perform(
            FileOpView::Copy { from: r.encoded_path, to: r.original_path },
        ),
    };
    let done = |result: Option<ReplaceErrorView>|
        ReplaceStepView { restore: None, next: ReplaceNextView::Done(result) };
    match (r.stage, failure) {
        (ReplaceStage::MovingOriginal, None) => (ReplaceStage::CopyingEncoded, copy_encode),
        (ReplaceStage::MovingOriginal, Some(_)) => (
            ReplaceStage::CopyingOriginal,
            ReplaceStepView {
                restore: None,
                next: ReplaceNextView::Perform(
                    FileOpView::Copy { from: r.original_path, to: r.backup_path },
                ),
            },
        ),
        (ReplaceStage::CopyingOriginal, None) => (
            ReplaceStage::RemovingOriginal,
            ReplaceStepView {
                restore: None,
                next: ReplaceNextView::Perform(FileOpView::Remove { path: r.original_path }),
            },
        ),
        (ReplaceStage::CopyingOriginal, Some(text)) => (
            ReplaceStage::Finished,
            done(Some(ReplaceErrorView::BackupFailed(text))),
        ),
        (ReplaceStage::RemovingOriginal, None) => (ReplaceStage::CopyingEncoded, copy_encode),
        (ReplaceStage::RemovingOriginal, Some(text)) => (
            ReplaceStage::Finished,
            done(Some(ReplaceErrorView::BackupFailed(text))),
        ),
        (ReplaceStage::CopyingEncoded, None) => if r.keep_original {
            (ReplaceStage::Finished, done(None))
        } else {
            (
                ReplaceStage::RemovingBackup,
                ReplaceStepView {
                    restore: None,
                    next: ReplaceNextView::Perform(FileOpView::Remove { path: r.backup_path }),
                },
            )
        },
        (ReplaceStage::CopyingEncoded, Some(text)) => (
            ReplaceStage::Finished,
            ReplaceStepView {
                restore: Some(FileOpView::Rename { from: r.backup_path, to: r.original_path }),
                next: ReplaceNextView::Done(Some(ReplaceErrorView::CopyFailed(text))),
            },
        ),
        (ReplaceStage::RemovingBackup, None) => (ReplaceStage::Finished, done(None)),
        (ReplaceStage::RemovingBackup, Some(text)) => (
            ReplaceStage::Finished,
            done(Some(ReplaceErrorView::DeleteBackupFailed(text))),
        ),
        (ReplaceStage::Finished, _) => (ReplaceStage::Finished, done(None)),
    }
}

impl Replacement {
    /// Starts a replacement with a backup named for `unix_seconds`. The first
    /// operation renames the original to the backup.
    pub fn begin(original_path: &str, encoded_path: &str, keep_original: bool, unix_seconds: u64) -> (r:
        (Replacement, FileOp))
        ensures
            r.0@ == (ReplacementView {
                original_path: original_path@,
                encoded_path: encoded_path@,
                backup_path: backup_path_of(original_path@, unix_seconds),
                keep_original,
                stage: ReplaceStage::MovingOriginal,
            }),
            r.1@ == (FileOpView::Rename {
                from: original_path@,
                to: backup_path_of(original_path@, unix_seconds),
            }),
    {
        let backup = backup_path_at(original_path, unix_seconds);
        let first = FileOp::Rename { from: String::from_str(original_path), to: backup.clone() };
        (
            Replacement {
                original_path: String::from_str(original_path),
                encoded_path: String::from_str(encoded_path),
                backup_path: backup,
                keep_original,
                stage: ReplaceStage::MovingOriginal,
            },
            first,
        )
    }

    /// Takes the outcome of the operation under way and says what comes next.
    pub fn advance(&mut self, outcome: Result<(), String>) -> (step: ReplaceStep)
        ensures
            final(self)@ == (ReplacementView {
                stage: replace_transition(old(self)@, failure_of(outcome)).0,
                ..old(self)@
            }),
            step@ == replace_transition(old(self)@, failure_of(outcome)).1,
    {
        match self.stage {
            ReplaceStage::MovingOriginal => match outcome {
                Ok(_) => {
                    self.stage = ReplaceStage::CopyingEncoded;
                    ReplaceStep {
                        restore: None,
                        next: ReplaceNext::Perform(
                            FileOp::Copy {
                                from: self.encoded_path.clone(),
                                to: self.original_path.clone(),
                            },
                        ),
                    }
                },
                Err(_) => {
                    self.stage = ReplaceStage::CopyingOriginal;
                    ReplaceStep {
                        restore: None,
                        next: ReplaceNext::Perform(
                            FileOp::Copy {
                                from: self.original_path.clone(),
                                to: self.backup_path.clone(),
                            },
                        ),
                    }
                },
            },
            ReplaceStage::CopyingOriginal => match outcome {
                Ok(_) => {
                    self.stage = ReplaceStage::RemovingOriginal;
                    ReplaceStep {
                        restore: None,
                        next: ReplaceNext::Perform(
                            FileOp::Remove { path: self.original_path.clone() },
                        ),
                    }
                },
                Err(text) => {
                    self.stage = ReplaceStage::Finished;
                    ReplaceStep {
                        restore: None,
                        next: ReplaceNext::Done(Err(ReplaceError::BackupFailed(text))),
                    }
                },
            },
            ReplaceStage::RemovingOriginal => match outcome {
                Ok(_) => {
                    self.stage = ReplaceStage::CopyingEncoded;
                    ReplaceStep {
                        restore: None,
                        next: ReplaceNext::Perform(
                            FileOp::Copy {
                                from: self.encoded_path.clone(),
                                to: self.original_path.clone(),
                            },
                        ),
                    }
                },
                Err(text) => {
                    self.stage = ReplaceStage::Finished;
                    ReplaceStep {
                        restore: None,
                        next: ReplaceNext::Done(Err(ReplaceError::BackupFailed(text))),
                    }
                },
            },
            ReplaceStage::CopyingEncoded => match outcome {
                Ok(_) => {
                    if self.keep_original {
                        self.stage = ReplaceStage::Finished;
                        ReplaceStep { restore: None, next: ReplaceNext::Done(Ok(())) }
                    } else {
                        self.stage = ReplaceStage::RemovingBackup;
                        ReplaceStep {
                            restore: None,
                            next: ReplaceNext::Perform(
                                FileOp::Remove { path: self.backup_path.clone() },
                            ),
                        }
                    }
                },
                Err(text) => {
                    self.stage = ReplaceStage::Finished;
                    ReplaceStep {
                        restore: Some(
                            FileOp::Rename {
                                from: self.backup_path.clone(),
                                to: self.original_path.clone(),
                            },
                        ),
                        next: ReplaceNext::Done(Err(ReplaceError::CopyFailed(text))),
                    }
                },
            },
            ReplaceStage::RemovingBackup => match outcome {
                Ok(_) => {
                    self.stage = ReplaceStage::Finished;
                    ReplaceStep { restore: None, next: ReplaceNext::Done(Ok(())) }
                },
                Err(text) => {
                    self.stage = ReplaceStage::Finished;
                    ReplaceStep {
                        restore: None,
                        next: ReplaceNext::Done(Err(ReplaceError::DeleteBackupFailed(text))),
                    }
                },
            },
            ReplaceStage::Finished => ReplaceStep {
                restore: None,
                next: ReplaceNext::Done(Ok(())),
            },
        }
    }
}

/// What a path holds, as far as a replacement can tell.
pub enum Content {
    /// No file.
    Nothing,
    /// The file that is to be replaced, whole.
    Original,
    /// The encode, whole.
    Encoded,
    /// A file that a failed copy left behind.
    Partial,
}

/// What the original's path and the backup's path hold.
pub struct Files {
    pub original: Content,
    pub backup: Content,
}

/// The operation that a replacement in `stage` has under way.
pub open spec fn operation_of(r: ReplacementView) -> FileOpView {
    match r.stage {
        ReplaceStage::MovingOriginal => FileOpView::Rename {
            from: r.original_path,
            to: r.backup_path,
        },
        ReplaceStage::CopyingOriginal => FileOpView::Copy {
            from: r.original_path,
            to: r.backup_path,
        },
        ReplaceStage::RemovingOriginal => FileOpView::Remove { path: r.original_path },
        ReplaceStage::CopyingEncoded => FileOpView::Copy {
            from: r.encoded_path,
            to: r.original_path,
        },
        ReplaceStage::RemovingBackup => FileOpView::Remove { path: r.backup_path },
        ReplaceStage::Finished => FileOpView::Remove { path: r.backup_path },
    }
}

/// What the two paths hold after an operation on the replacement's paths. An
/// operation that succeeds does what its name says; one that fails changes
/// nothing, except that a failed copy may leave a partial file at its
/// target.
pub open spec fn files_after(r: ReplacementView, files: Files, op: FileOpView, ok: bool) -> Files {
    match op {
        FileOpView::Rename { from, to } => if !ok {
            files
        } else if from == r.original_path && to == r.backup_path {
            Files { original: Content::Nothing, backup: files.original }
        } else if from == r.backup_path && to == r.original_path {
            Files { original: files.backup, backup: Content::Nothing }
        } else {
            files
        },
        FileOpView::Copy { from, to } => if to == r.backup_path {
            Files {
                backup: if !ok {
                    Content::Partial
                } else if from == r.original_path {
                    files.original
                } else {
                    Content::Encoded
                },
                ..files
            }
        } else if to == r.original_path {
            Files {
                original: if !ok {
                    Content::Partial
                } else if from == r.backup_path {
                    files.backup
                } else {
                    Content::Encoded
                },
                ..files
            }
        } else {
            files
        },
        FileOpView::Remove { path } => if !ok {
            files
        } else if path == r.original_path {
            Files { original: Content::Nothing, ..files }
        } else if path == r.backup_path {
            Files { backup: Content::Nothing, ..files }
        } else {
            files
        },
    }
}

/// What must hold of the files while a replacement is in `stage`.
pub open spec fn files_fit(stage: ReplaceStage, files: Files) -> bool {
    match stage {
        ReplaceStage::MovingOriginal => files.original is Original,
        ReplaceStage::CopyingOriginal => files.original is Original,
        ReplaceStage::RemovingOriginal => files.original is Original && files.backup is Original,
        ReplaceStage::CopyingEncoded => files.backup is Original,
        ReplaceStage::RemovingBackup => files.original is Encoded && files.backup is Original,
        ReplaceStage::Finished => true,
    }
}

/// A replacement never loses the original's content and never ends with a
/// partial file in its place, whichever operations fail.
///
/// Given files that fit the stage, the operation under way with either
/// outcome, and the restoring operation with either outcome: the files fit
/// the next stage; the next operation asked for is that of the next stage;
/// the original's content is still at its own path or at the backup's,
/// unless the replacement succeeded; and at the end the original's path
/// holds the encode after a success or a failure to delete the backup, the
/// untouched original after a failure to back it up, and after a failed copy
/// the original is at its path or at the backup's.
pub proof fn lemma_replacement_keeps_data(r: ReplacementView, files: Files, ok: bool, failure: Seq<char>, restore_ok: bool)
    requires
        !(r.stage is Finished),
        files_fit(r.stage, files),
        r.original_path != r.backup_path,
        r.encoded_path != r.original_path,
        r.encoded_path != r.backup_path,
    ensures
        ({
            let t = replace_transition(
                r,
                if ok {
                    None
                } else {
                    Some(failure)
                },
            );
            let moved = files_after(r, files, operation_of(r), ok);
            let after = match t.1.restore {
                Some(op) => files_after(r, moved, op, restore_ok),
                None => moved,
            };
            &&& files_fit(t.0, after)
            &&& t.1.next matches ReplaceNextView::Perform(op) ==> op == operation_of(
                ReplacementView { stage: t.0, ..r },
            )
            &&& t.1.next is Done <==> t.0 is Finished
            &&& after.original is Original || after.backup is Original || (t.1.next
                == ReplaceNextView::Done(None) && after.original is Encoded)
            &&& t.1.next matches ReplaceNextView::Done(result) ==> match result {
                None => after.original is Encoded,
                Some(ReplaceErrorView::BackupFailed(_)) => after.original is Original,
                Some(ReplaceErrorView::CopyFailed(_)) => after.original is Original
                    || after.backup is Original,
                Some(ReplaceErrorView::DeleteBackupFailed(_)) => after.original is Encoded
                    && after.backup is Original,
            }
        }),
{
}

} // verus!
