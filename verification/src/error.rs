//! The closed set of ways an operation of this library can fail.

use vstd::prelude::*;
use vstd::std_specs::convert::FromSpecImpl;

verus! {

/// The operating system's own error value, carried through untouched.
#[verifier::external_type_specification]
#[verifier::external_body]
pub struct ExIoError(std::io::Error);

/// Every failure this library reports. None is retried; each is handed to
/// the caller as it arose.
#[derive(Debug)]
pub enum MustangError {
    /// The file system or the process launcher failed.
    Io(std::io::Error),
    /// The engine ran and ended with anything but exit code zero. Its
    /// diagnostics exist only as the text of its two output streams.
    ExecutionFailed { status: Option<i32>, stdout: String, stderr: String },
    /// The engine's executable, or the java launcher, could not be resolved.
    ExecutableOrJavaNotFound(std::io::Error),
    /// The path has no parent directory or no file name.
    InvalidPath(String),
    /// Nothing exists at the path of an input.
    FileNotFound(String),
    MissingParameter(String),
    InvalidParameter(String),
    /// Allocating, filling or freeing a temporary file failed.
    TempFile(String),
    /// The destination exists and may not be overwritten.
    FileAlreadyExists(String),
    /// The destination is a directory.
    FileIsDirectory(String),
}

/// A [`MustangError`] with each text as a sequence of characters.
pub enum MustangErrorView {
    Io(std::io::Error),
    ExecutionFailed { status: Option<i32>, stdout: Seq<char>, stderr: Seq<char> },
    ExecutableOrJavaNotFound(std::io::Error),
    InvalidPath(Seq<char>),
    FileNotFound(Seq<char>),
    MissingParameter(Seq<char>),
    InvalidParameter(Seq<char>),
    TempFile(Seq<char>),
    FileAlreadyExists(Seq<char>),
    FileIsDirectory(Seq<char>),
}

impl View for MustangError {
    type V = MustangErrorView;

    open spec fn view(&self) -> MustangErrorView {
        match self {
            MustangError::Io(e) => MustangErrorView::Io(*e),
            MustangError::ExecutionFailed { status, stdout, stderr } => {
                MustangErrorView::ExecutionFailed {
                    status: *status,
                    stdout: stdout@,
                    stderr: stderr@,
                }
            },
            MustangError::ExecutableOrJavaNotFound(e) => MustangErrorView::ExecutableOrJavaNotFound(
                *e,
            ),
            MustangError::InvalidPath(p) => MustangErrorView::InvalidPath(p@),
            MustangError::FileNotFound(p) => MustangErrorView::FileNotFound(p@),
            MustangError::MissingParameter(p) => MustangErrorView::MissingParameter(p@),
            MustangError::InvalidParameter(p) => MustangErrorView::InvalidParameter(p@),
            MustangError::TempFile(m) => MustangErrorView::TempFile(m@),
            MustangError::FileAlreadyExists(p) => MustangErrorView::FileAlreadyExists(p@),
            MustangError::FileIsDirectory(p) => MustangErrorView::FileIsDirectory(p@),
        }
    }
}

impl From<std::io::Error> for MustangError {
    /// A failure of the system, reported as it is.
    fn from(error: std::io::Error) -> (e: MustangError) {
        MustangError::Io(error)
    }
}

impl FromSpecImpl<std::io::Error> for MustangError {
    open spec fn obeys_from_spec() -> bool {
        true
    }

    open spec fn from_spec(error: std::io::Error) -> MustangError {
        MustangError::Io(error)
    }
}

/// A result with the view of whichever side it holds.
pub open spec fn result_view<T: View, E: View>(r: Result<T, E>) -> Result<T::V, E::V> {
    match r {
        Ok(t) => Ok(t@),
        Err(e) => Err(e@),
    }
}

} // verus!
