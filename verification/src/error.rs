//! The errors of loading and of writing.

use vstd::prelude::*;
use crate::source::SourceInfo;

verus! {

/// What went wrong.
#[derive(Clone, Debug, PartialEq, Eq)]
pub enum ErrorKind {
    /// The file at `path` exists and could not be read.
    FileReadAccess { path: String },
    /// The file at `path` could not be written; `error` says why.
    FileWriteAccess { path: String, error: String },
}

/// An error, with the place in the source that it belongs to.
#[derive(Clone, Debug, PartialEq, Eq)]
pub struct Error {
    pub source_info: SourceInfo,
    pub kind: ErrorKind,
    /// Whether the whole run has to stop. The errors of this library leave
    /// that to the caller and are never fatal.
    pub fatal: bool,
}

/// An [`ErrorKind`] with its texts as sequences of characters.
pub enum ErrorKindView {
    FileReadAccess { path: Seq<char> },
    FileWriteAccess { path: Seq<char>, error: Seq<char> },
}

/// An [`Error`] with its texts as sequences of characters.
pub struct ErrorView {
    pub source_info: SourceInfo,
    pub kind: ErrorKindView,
    pub fatal: bool,
}

impl View for ErrorKind {
    type V = ErrorKindView;

    open spec fn view(&self) -> ErrorKindView {
        match self {
            ErrorKind::FileReadAccess { path } => ErrorKindView::FileReadAccess { path: path@ },
            ErrorKind::FileWriteAccess { path, error } => ErrorKindView::FileWriteAccess {
                path: path@,
                error: error@,
            },
        }
    }
}

impl View for Error {
    type V = ErrorView;

    open spec fn view(&self) -> ErrorView {
        ErrorView { source_info: self.source_info, kind: self.kind@, fatal: self.fatal }
    }
}

/// The error for a file that exists and cannot be read.
pub open spec fn read_access_error(source_info: SourceInfo, path: Seq<char>) -> ErrorView {
    ErrorView { source_info, kind: ErrorKindView::FileReadAccess { path }, fatal: false }
}

/// The error for a file that cannot be written, with the cause as the file
/// system gave it.
pub open spec fn write_access_error(
    source_info: SourceInfo,
    path: Seq<char>,
    cause: Seq<char>,
) -> ErrorView {
    ErrorView {
        source_info,
        kind: ErrorKindView::FileWriteAccess { path, error: cause },
        fatal: false,
    }
}

impl Error {
    /// The error for a file that exists and cannot be read.
    pub fn file_read_access(source_info: SourceInfo, path: String) -> (error: Error)
        ensures
            error@ == read_access_error(source_info, path@),
    {
        Error { source_info, kind: ErrorKind::FileReadAccess { path }, fatal: false }
    }

    /// The error for a file that cannot be written.
    pub fn file_write_access(source_info: SourceInfo, path: String, cause: String) -> (error:
        Error)
        ensures
            error@ == write_access_error(source_info, path@, cause@),
    {
        Error { source_info, kind: ErrorKind::FileWriteAccess { path, error: cause }, fatal: false }
    }
}

} // verus!
