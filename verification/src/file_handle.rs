//! Handles for the files an engine run reads and writes.
//!
//! A handle is either a path the caller owns or a temporary file made for
//! one run. This module never touches the file system: whoever drives it
//! performs each file operation and reports what came of it, and the
//! functions here decide what that means.

use vstd::prelude::*;
use vstd::std_specs::convert::FromSpecImpl;

use crate::error::{result_view, MustangError, MustangErrorView};
use crate::path::{path_file_name, path_join, path_parent};

verus! {

/// The step of handling a temporary file that can fail.
#[derive(Debug, Clone, Copy, PartialEq, Eq, Structural)]
pub enum TempFileStep {
    Create,
    Write,
    Flush,
    Delete,
}

/// A failed step on a temporary file, with the system's explanation.
#[derive(Debug)]
pub struct TempFileFailure {
    pub step: TempFileStep,
    pub detail: String,
}

impl TempFileStep {
    /// How the failure of this step is introduced in an error message.
    pub open spec fn failure_prefix(self) -> Seq<char> {
        match self {
            TempFileStep::Create => "Failed to create temp file: "@,
            TempFileStep::Write => "Failed to write to temp file: "@,
            TempFileStep::Flush => "Failed to flush temp file: "@,
            TempFileStep::Delete => "Failed to delete temp file: "@,
        }
    }
}

impl TempFileFailure {
    /// The message of the error this failure is reported as.
    pub open spec fn message(self) -> Seq<char> {
        self.step.failure_prefix() + self.detail@
    }

    /// The `TempFile` error for this failure.
    pub fn into_error(self) -> (e: MustangError)
        ensures
            e@ == MustangErrorView::TempFile(self.message()),
    {
        let prefix = match self.step {
            TempFileStep::Create => "Failed to create temp file: ",
            TempFileStep::Write => "Failed to write to temp file: ",
            TempFileStep::Flush => "Failed to flush temp file: ",
            TempFileStep::Delete => "Failed to delete temp file: ",
        };
        MustangError::TempFile(String::from_str(prefix).concat(self.detail.as_str()))
    }
}

/// A file the engine reads.
#[derive(Debug)]
pub enum FileInput {
    /// A file of the caller's, at this path.
    Path(String),
    /// A temporary file at this path, made from bytes for this handle alone.
    Temp(String),
}

/// A [`FileInput`] with its path as a sequence of characters.
pub enum FileInputView {
    Path(Seq<char>),
    Temp(Seq<char>),
}

impl View for FileInput {
    type V = FileInputView;

    open spec fn view(&self) -> FileInputView {
        match self {
            FileInput::Path(p) => FileInputView::Path(p@),
            FileInput::Temp(p) => FileInputView::Temp(p@),
        }
    }
}

impl FileInputView {
    /// The path, whoever owns the file.
    pub open spec fn path(self) -> Seq<char> {
        match self {
            FileInputView::Path(p) => p,
            FileInputView::Temp(p) => p,
        }
    }
}

/// The input handle on the caller's file at `path`: there is one exactly
/// if something exists at the path, and it holds the path as given.
pub open spec fn existing_input(path: Seq<char>, exists: bool) -> Result<
    FileInputView,
    MustangErrorView,
> {
    if exists {
        Ok(FileInputView::Path(path))
    } else {
        Err(MustangErrorView::FileNotFound(path))
    }
}

/// The input handle on a temporary file: there is one exactly if the file
/// was written in full.
pub open spec fn temp_input(written: Result<String, TempFileFailure>) -> Result<
    FileInputView,
    MustangErrorView,
> {
    match written {
        Ok(path) => Ok(FileInputView::Temp(path@)),
        Err(failure) => Err(MustangErrorView::TempFile(failure.message())),
    }
}

impl FileInput {
    /// A handle on the caller's file at `path`, given whether anything
    /// exists there: without a file there is no handle.
    pub fn from_path(path: &str, exists: bool) -> (r: Result<Self, MustangError>)
        ensures
            result_view(r) == existing_input(path@, exists),
    {
        if !exists {
            return Err(MustangError::FileNotFound(path.to_owned()));
        }
        Ok(Self::Path(path.to_owned()))
    }

    /// A handle on a temporary file that was to be filled with bytes, given
    /// how that went: the file's path if every byte was written and flushed,
    /// or the step that failed.
    pub fn from_bytes(written: Result<String, TempFileFailure>) -> (r: Result<Self, MustangError>)
        ensures
            result_view(r) == temp_input(written),
    {
        match written {
            Ok(path) => Ok(Self::Temp(path)),
            Err(failure) => Err(failure.into_error()),
        }
    }

    /// The path of the file, as it is handed to the engine.
    pub fn path(&self) -> (p: &str)
        ensures
            p@ == self@.path(),
    {
        match self {
            Self::Path(p) => p.as_str(),
            Self::Temp(t) => t.as_str(),
        }
    }
}

/// A file the engine writes.
#[derive(Debug)]
pub enum FileOutput {
    /// A destination of the caller's, at this path.
    Path(String),
    /// A temporary destination at this path, kept for this handle alone.
    Temp(String),
}

/// A [`FileOutput`] with its path as a sequence of characters.
pub enum FileOutputView {
    Path(Seq<char>),
    Temp(Seq<char>),
}

impl View for FileOutput {
    type V = FileOutputView;

    open spec fn view(&self) -> FileOutputView {
        match self {
            FileOutput::Path(p) => FileOutputView::Path(p@),
            FileOutput::Temp(p) => FileOutputView::Temp(p@),
        }
    }
}

impl FileOutputView {
    /// The path, whoever owns the file.
    pub open spec fn path(self) -> Seq<char> {
        match self {
            FileOutputView::Path(p) => p,
            FileOutputView::Temp(p) => p,
        }
    }

    /// The input handle that takes over the file of this output handle.
    pub open spec fn into_input(self) -> FileInputView {
        match self {
            FileOutputView::Path(p) => FileInputView::Path(p),
            FileOutputView::Temp(p) => FileInputView::Temp(p),
        }
    }
}

/// The outcome of resolving a path, with the resolved path as a sequence of
/// characters.
pub open spec fn text_outcome(outcome: Result<String, std::io::Error>) -> Result<
    Seq<char>,
    std::io::Error,
> {
    match outcome {
        Ok(path) => Ok(path@),
        Err(error) => Err(error),
    }
}

/// What exists at a path.
#[derive(Debug, Clone, Copy, PartialEq, Eq, Structural)]
pub enum Found {
    /// Nothing exists there.
    Nothing,
    /// Something exists there that is not a directory.
    File,
    /// A directory exists there.
    Directory,
}

impl Found {
    /// What exists at a path, given whether anything exists there and
    /// whether it is a directory.
    pub open spec fn from_probes(exists: bool, is_dir: bool) -> Found {
        if !exists {
            Found::Nothing
        } else if is_dir {
            Found::Directory
        } else {
            Found::File
        }
    }

    /// What exists at a path, given whether anything exists there and
    /// whether it is a directory: what does not exist is nothing, whatever
    /// else is said of it.
    pub fn of(exists: bool, is_dir: bool) -> (found: Found)
        ensures
            found == Found::from_probes(exists, is_dir),
    {
        if !exists {
            Found::Nothing
        } else if is_dir {
            Found::Directory
        } else {
            Found::File
        }
    }
}

/// A destination that has been split into directory and file name. Next its
/// directory is to be resolved to canonical form, and the outcome reported
/// with [`PendingParent::resolved`].
#[derive(Debug)]
pub struct PendingParent {
    /// The directory to resolve.
    pub parent: String,
    /// The name of the destination within that directory.
    pub file: String,
    pub overwrite: bool,
}

/// A [`PendingParent`] with its texts as sequences of characters.
pub struct PendingParentView {
    pub parent: Seq<char>,
    pub file: Seq<char>,
    pub overwrite: bool,
}

impl View for PendingParent {
    type V = PendingParentView;

    open spec fn view(&self) -> PendingParentView {
        PendingParentView { parent: self.parent@, file: self.file@, overwrite: self.overwrite }
    }
}

/// A destination whose full path is known. Next that path is to be looked
/// at, and what is there reported with [`PendingProbe::probed`].
#[derive(Debug)]
pub struct PendingProbe {
    pub path: String,
    pub overwrite: bool,
}

/// A [`PendingProbe`] with its path as a sequence of characters.
pub struct PendingProbeView {
    pub path: Seq<char>,
    pub overwrite: bool,
}

impl View for PendingProbe {
    type V = PendingProbeView;

    open spec fn view(&self) -> PendingProbeView {
        PendingProbeView { path: self.path@, overwrite: self.overwrite }
    }
}

/// A destination occupied by a file that may be overwritten. Next that file
/// is to be deleted, and the outcome reported with
/// [`PendingRemoval::removed`].
#[derive(Debug)]
pub struct PendingRemoval {
    pub path: String,
}

/// What looking at a destination settles, where it does not end the claim
/// with an error.
#[derive(Debug)]
pub enum Probed {
    /// The path is free: the claim is complete.
    Free(FileOutput),
    /// A file is in the way and has to go first.
    Occupied(PendingRemoval),
}

/// A [`Probed`] with its path as a sequence of characters.
pub enum ProbedView {
    Free(FileOutputView),
    Occupied(Seq<char>),
}

impl View for Probed {
    type V = ProbedView;

    open spec fn view(&self) -> ProbedView {
        match self {
            Probed::Free(output) => ProbedView::Free(output@),
            Probed::Occupied(pending) => ProbedView::Occupied(pending.path@),
        }
    }
}

/// The directory to resolve for a destination whose parent has text
/// `parent`: the parent itself, or the current directory where the
/// destination is a bare file name.
pub open spec fn directory_to_resolve(parent: Seq<char>) -> Seq<char> {
    if parent.len() == 0 {
        seq!['.']
    } else {
        parent
    }
}

/// How the claim of the destination `path` begins, given its parent and
/// its file name as far as it has them: with the directory to resolve and
/// the file name, or refused because one of the two is missing.
pub open spec fn split_parts(
    path: Seq<char>,
    parent: Option<Seq<char>>,
    file: Option<Seq<char>>,
    overwrite: bool,
) -> Result<PendingParentView, MustangErrorView> {
    match (parent, file) {
        (Some(parent), Some(file)) => Ok(
            PendingParentView { parent: directory_to_resolve(parent), file, overwrite },
        ),
        _ => Err(MustangErrorView::InvalidPath(path)),
    }
}

/// How the claim of the destination `path` begins: split at its last
/// component as the standard library splits a path.
pub open spec fn split_outcome(path: Seq<char>, overwrite: bool) -> Result<
    PendingParentView,
    MustangErrorView,
> {
    split_parts(path, path_parent(path), path_file_name(path), overwrite)
}

/// How a claim goes on once its directory was resolved, or was not: the
/// destination is the file name adjoined to the canonical directory.
pub open spec fn resolve_outcome(
    pending: PendingParentView,
    outcome: Result<Seq<char>, std::io::Error>,
) -> Result<PendingProbeView, MustangErrorView> {
    match outcome {
        Ok(directory) => Ok(
            PendingProbeView {
                path: path_join(directory, pending.file),
                overwrite: pending.overwrite,
            },
        ),
        Err(error) => Err(MustangErrorView::Io(error)),
    }
}

/// How a claim ends once the file in its way was deleted, or was not.
pub open spec fn removal_outcome(path: Seq<char>, outcome: Result<(), std::io::Error>) -> Result<
    FileOutputView,
    MustangErrorView,
> {
    match outcome {
        Ok(_) => Ok(FileOutputView::Path(path)),
        Err(error) => Err(MustangErrorView::Io(error)),
    }
}

/// What looking at the destination `path` settles, given what is there and
/// whether a file there may be overwritten. A directory is never given up; a
/// file only if it may be overwritten, and then it must be deleted first.
pub open spec fn probe_outcome(path: Seq<char>, overwrite: bool, found: Found) -> Result<
    ProbedView,
    MustangErrorView,
> {
    match found {
        Found::Nothing => Ok(ProbedView::Free(FileOutputView::Path(path))),
        Found::Directory => Err(MustangErrorView::FileIsDirectory(path)),
        Found::File => if overwrite {
            Ok(ProbedView::Occupied(path))
        } else {
            Err(MustangErrorView::FileAlreadyExists(path))
        },
    }
}

/// The output handle on a temporary destination: there is one exactly if
/// the path was reserved and freed again.
pub open spec fn temp_output(reserved: Result<String, TempFileFailure>) -> Result<
    FileOutputView,
    MustangErrorView,
> {
    match reserved {
        Ok(path) => Ok(FileOutputView::Temp(path@)),
        Err(failure) => Err(MustangErrorView::TempFile(failure.message())),
    }
}

impl FileOutput {
    /// Begins the claim of the caller's destination `path`: splits it into
    /// the directory to resolve and the file name. A path without a parent
    /// or without a file name is no destination; the empty path and `.` are
    /// two such paths.
    pub fn from_path(path: &str, overwrite: bool) -> (r: Result<PendingParent, MustangError>)
        ensures
            result_view(r) == split_outcome(path@, overwrite),
            path@.len() == 0 || path@ == seq!['.'] ==> (r matches Err(e) && e@
                == MustangErrorView::InvalidPath(path@)),
    {
        let parent = crate::path::parent(path);
        let file = crate::path::file_name(path);
        Self::from_parts(path, parent, file, overwrite)
    }

    /// Begins the claim of the caller's destination `path`, given its
    /// parent and its file name as far as it has them: both are needed, and
    /// an empty parent stands for the current directory.
    pub fn from_parts(
        path: &str,
        parent: Option<String>,
        file: Option<String>,
        overwrite: bool,
    ) -> (r: Result<PendingParent, MustangError>)
        ensures
            result_view(r) == split_parts(path@, parent.deep_view(), file.deep_view(), overwrite),
    {
        let Some(parent) = parent else {
            return Err(MustangError::InvalidPath(path.to_owned()));
        };
        let Some(file) = file else {
            return Err(MustangError::InvalidPath(path.to_owned()));
        };
        let ghost given = parent@;
        let parent = if parent.as_str().is_empty() {
            String::from_str(".")
        } else {
            parent
        };
        proof {
            reveal_strlit(".");
            assert(parent@ =~= directory_to_resolve(given));
        }
        Ok(PendingParent { parent, file, overwrite })
    }

    /// A handle on a temporary destination, given how reserving it went: the
    /// path of a temporary file that was created and deleted again, so that
    /// the engine finds the path free, or the step that failed.
    pub fn temp(reserved: Result<String, TempFileFailure>) -> (r: Result<Self, MustangError>)
        ensures
            result_view(r) == temp_output(reserved),
    {
        match reserved {
            Ok(path) => Ok(Self::Temp(path)),
            Err(failure) => Err(failure.into_error()),
        }
    }

    /// The path of the file, as it is handed to the engine.
    pub fn path(&self) -> (p: &str)
        ensures
            p@ == self@.path(),
    {
        match self {
            Self::Path(p) => p.as_str(),
            Self::Temp(t) => t.as_str(),
        }
    }

    /// The bytes of the file behind this handle, given how reading it went:
    /// the bytes as read, or the system's error where the file could not be
    /// read, as when the engine wrote none.
    pub fn read_bytes(&self, read: Result<Vec<u8>, std::io::Error>) -> (r: Result<
        Vec<u8>,
        MustangError,
    >)
        ensures
            read matches Ok(bytes) ==> r == Ok::<Vec<u8>, MustangError>(bytes),
            read matches Err(error) ==> (r matches Err(e) && e@ == MustangErrorView::Io(error)),
    {
        match read {
            Ok(bytes) => Ok(bytes),
            Err(error) => Err(MustangError::Io(error)),
        }
    }
}

impl PendingParent {
    /// Continues the claim with the outcome of resolving
    /// [`parent`](PendingParent::parent): the destination is the file name
    /// adjoined to the canonical directory. A directory that does not
    /// resolve ends the claim with the system's error.
    pub fn resolved(self, outcome: Result<String, std::io::Error>) -> (r: Result<
        PendingProbe,
        MustangError,
    >)
        ensures
            result_view(r) == resolve_outcome(self@, text_outcome(outcome)),
    {
        match outcome {
            Ok(directory) => Ok(
                PendingProbe {
                    path: crate::path::join(directory.as_str(), self.file.as_str()),
                    overwrite: self.overwrite,
                },
            ),
            Err(error) => Err(MustangError::Io(error)),
        }
    }
}

impl PendingProbe {
    /// Continues the claim with what was found at
    /// [`path`](PendingProbe::path).
    pub fn probed(self, found: Found) -> (r: Result<Probed, MustangError>)
        ensures
            result_view(r) == probe_outcome(self.path@, self.overwrite, found),
    {
        match found {
            Found::Nothing => Ok(Probed::Free(FileOutput::Path(self.path))),
            Found::Directory => Err(MustangError::FileIsDirectory(self.path)),
            Found::File => {
                if self.overwrite {
                    Ok(Probed::Occupied(PendingRemoval { path: self.path }))
                } else {
                    Err(MustangError::FileAlreadyExists(self.path))
                }
            },
        }
    }
}

impl PendingRemoval {
    /// Completes the claim with the outcome of deleting the file at
    /// [`path`](PendingRemoval::path): the handle only once the file is
    /// gone, else the system's error.
    pub fn removed(self, outcome: Result<(), std::io::Error>) -> (r: Result<
        FileOutput,
        MustangError,
    >)
        ensures
            result_view(r) == removal_outcome(self.path@, outcome),
    {
        match outcome {
            Ok(_) => Ok(FileOutput::Path(self.path)),
            Err(error) => Err(MustangError::Io(error)),
        }
    }
}

/// What the file system answers in the course of one claim. An answer that
/// the claim never asks for has no bearing on it.
pub struct Answers {
    /// The canonical form of the destination's directory, where it has one.
    pub resolved: Result<Seq<char>, std::io::Error>,
    /// What is at the destination.
    pub found: Found,
    /// How deleting the file at the destination went.
    pub removed: Result<(), std::io::Error>,
}

/// Where the claim of the destination `path` ends, from
/// [`FileOutput::from_path`] through every stage it passes, given what the
/// file system answers on the way.
pub open spec fn claim_outcome(path: Seq<char>, overwrite: bool, answers: Answers) -> Result<
    FileOutputView,
    MustangErrorView,
> {
    match split_outcome(path, overwrite) {
        Err(e) => Err(e),
        Ok(pending) => match resolve_outcome(pending, answers.resolved) {
            Err(e) => Err(e),
            Ok(probe) => match probe_outcome(probe.path, probe.overwrite, answers.found) {
                Err(e) => Err(e),
                Ok(ProbedView::Free(output)) => Ok(output),
                Ok(ProbedView::Occupied(occupied)) => removal_outcome(occupied, answers.removed),
            },
        },
    }
}

/// The full path of the destination `path` once its directory has resolved
/// to `directory`.
pub open spec fn destination(path: Seq<char>, directory: Seq<char>) -> Seq<char>
    recommends
        path_file_name(path) is Some,
{
    path_join(directory, path_file_name(path).unwrap())
}

/// A claim that succeeds yields a handle on the caller's own path, never a
/// temporary one, and does so only where nothing is left at the destination:
/// nothing was found there, or a file was found, overwriting was allowed and
/// the file has been deleted.
pub proof fn lemma_claimed_destination_is_free(path: Seq<char>, overwrite: bool, answers: Answers)
    requires
        claim_outcome(path, overwrite, answers) is Ok,
    ensures
        answers.resolved is Ok,
        claim_outcome(path, overwrite, answers) == Ok::<FileOutputView, MustangErrorView>(
            FileOutputView::Path(destination(path, answers.resolved.unwrap())),
        ),
        answers.found == Found::Nothing || (answers.found == Found::File && overwrite
            && answers.removed is Ok),
{
}

/// A claim asks for a deletion only of a file, and only if it may
/// overwrite: what is found to be a directory is never deleted.
pub proof fn lemma_only_a_file_is_deleted(path: Seq<char>, overwrite: bool, found: Found)
    ensures
        probe_outcome(path, overwrite, found) == Ok::<ProbedView, MustangErrorView>(
            ProbedView::Occupied(path),
        ) <==> found == Found::File && overwrite,
        probe_outcome(path, overwrite, found) matches Ok(probed) ==> probed
            == ProbedView::Occupied(path) || probed == ProbedView::Free(
            FileOutputView::Path(path),
        ),
{
}

/// The directory that a claim asks to resolve is never the empty path.
pub proof fn lemma_directory_to_resolve_is_named(path: Seq<char>, overwrite: bool)
    ensures
        split_outcome(path, overwrite) matches Ok(pending) ==> pending.parent.len() > 0,
{
}

/// A file at the destination is in the way of a claim that may not
/// overwrite: the claim fails and names the destination.
pub proof fn lemma_existing_file_is_kept(path: Seq<char>, answers: Answers)
    requires
        split_outcome(path, false) is Ok,
        answers.resolved is Ok,
        answers.found == Found::File,
    ensures
        claim_outcome(path, false, answers) == Err::<FileOutputView, MustangErrorView>(
            MustangErrorView::FileAlreadyExists(destination(path, answers.resolved.unwrap())),
        ),
{
}

/// A file at the destination gives way to a claim that may overwrite: the
/// claim succeeds if the file could be deleted and fails with the system's
/// error if it could not.
pub proof fn lemma_existing_file_is_replaced(path: Seq<char>, answers: Answers)
    requires
        split_outcome(path, true) is Ok,
        answers.resolved is Ok,
        answers.found == Found::File,
    ensures
        answers.removed is Ok ==> claim_outcome(path, true, answers) == Ok::<
            FileOutputView,
            MustangErrorView,
        >(FileOutputView::Path(destination(path, answers.resolved.unwrap()))),
        answers.removed matches Err(error) ==> claim_outcome(path, true, answers) == Err::<
            FileOutputView,
            MustangErrorView,
        >(MustangErrorView::Io(error)),
{
}

/// A directory at the destination is never given up, whether or not the
/// claim may overwrite.
pub proof fn lemma_directory_is_never_claimed(path: Seq<char>, overwrite: bool, answers: Answers)
    requires
        split_outcome(path, overwrite) is Ok,
        answers.resolved is Ok,
        answers.found == Found::Directory,
    ensures
        claim_outcome(path, overwrite, answers) == Err::<FileOutputView, MustangErrorView>(
            MustangErrorView::FileIsDirectory(destination(path, answers.resolved.unwrap())),
        ),
{
}

/// A path without a parent or without a file name is refused before the
/// file system is asked anything.
pub proof fn lemma_unsplittable_path_is_invalid(path: Seq<char>, overwrite: bool, answers: Answers)
    requires
        path_parent(path) is None || path_file_name(path) is None,
    ensures
        claim_outcome(path, overwrite, answers) == Err::<FileOutputView, MustangErrorView>(
            MustangErrorView::InvalidPath(path),
        ),
{
}

/// An input handle on the caller's file exists exactly if the file does,
/// and then renders as the path it was made from.
pub proof fn lemma_input_follows_existence(path: Seq<char>, exists: bool)
    ensures
        exists ==> (existing_input(path, exists) matches Ok(input) && input.path() == path),
        !exists ==> existing_input(path, exists) == Err::<FileInputView, MustangErrorView>(
            MustangErrorView::FileNotFound(path),
        ),
{
}

/// Handing an output on as an input keeps the path and keeps who owns the
/// file.
pub proof fn lemma_handover_keeps_path(output: FileOutputView)
    ensures
        output.into_input().path() == output.path(),
        output.into_input() is Temp <==> output is Temp,
{
}

impl From<FileOutput> for FileInput {
    /// Hands the file of an output handle on as an input, so that what one
    /// run wrote the next can read. Nothing on disk is touched.
    fn from(output: FileOutput) -> (input: FileInput)
        ensures
            input@ == output@.into_input(),
    {
        match output {
            FileOutput::Temp(t) => Self::Temp(t),
            FileOutput::Path(p) => Self::Path(p),
        }
    }
}

impl FromSpecImpl<FileOutput> for FileInput {
    open spec fn obeys_from_spec() -> bool {
        true
    }

    open spec fn from_spec(output: FileOutput) -> FileInput {
        match output {
            FileOutput::Temp(t) => FileInput::Temp(t),
            FileOutput::Path(p) => FileInput::Path(p),
        }
    }
}

} // verus!
