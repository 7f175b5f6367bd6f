//! Writing a variable back to its file.
//!
//! A bound variable is written in four requests, each made only once the one
//! before it has succeeded: make sure that the directory of the file exists,
//! write the text to a temporary file beside it and flush it, rename the
//! temporary file over the file, and take all access rights from everyone but
//! the owner. The caller performs each request and reports how it ended.
//! Until the rename the file itself is not touched, so it holds the old
//! text or the new one, never a part of either.

use vstd::prelude::*;
use vstd::string::*;
use crate::error::{Error, ErrorView, write_access_error};
use crate::registry::BoundVariables;
use crate::source::SourceInfo;
use crate::value::Value;

verus! {

/// The access rights of a written file: the owner reads and writes, nobody
/// else has any access.
pub const OWNER_READ_WRITE: u32 = 0o600;

/// What is put behind a file's path to name its temporary file.
pub open spec fn temporary_suffix() -> Seq<char> {
    seq!['.', 't', 'm', 'p']
}

/// The path of the temporary file of a file. It lies in the same directory.
pub open spec fn temporary_path(target: Seq<char>) -> Seq<char> {
    target + temporary_suffix()
}

/// How a request ended.
#[derive(Clone, Debug, PartialEq, Eq)]
pub enum Outcome {
    Succeeded,
    /// The request failed, for the cause given.
    Failed(String),
}

/// An [`Outcome`] with its cause as a sequence of characters.
pub enum OutcomeView {
    Succeeded,
    Failed(Seq<char>),
}

impl View for Outcome {
    type V = OutcomeView;

    open spec fn view(&self) -> OutcomeView {
        match self {
            Outcome::Succeeded => OutcomeView::Succeeded,
            Outcome::Failed(cause) => OutcomeView::Failed(cause@),
        }
    }
}

/// What the caller is asked to do next.
#[derive(Clone, Debug, PartialEq, Eq)]
pub enum WriteAction {
    /// Make sure that the directory in which `path` lies exists: create it,
    /// and every directory above it that is missing.
    EnsureParentDirectory { path: String },
    /// Create the file at `path`, or empty it, write `content` to it and
    /// nothing else, flush it to the disk and close it.
    WriteTemporary { path: String, content: String },
    /// Rename `from` to `to` in one step, in place of what is at `to`.
    Rename { from: String, to: String },
    /// Set the access rights of the file at `path` to `mode`, where the
    /// platform has such rights.
    RestrictPermissions { path: String, mode: u32 },
    /// The variable is written, or was not bound: there is nothing more to do.
    Done,
    /// Writing failed: there is nothing more to do.
    Fail(Error),
    /// The outcome answered no request.
    Ignored,
}

/// A [`WriteAction`] with its texts as sequences of characters.
pub enum WriteActionView {
    EnsureParentDirectory { path: Seq<char> },
    WriteTemporary { path: Seq<char>, content: Seq<char> },
    Rename { from: Seq<char>, to: Seq<char> },
    RestrictPermissions { path: Seq<char>, mode: u32 },
    Done,
    Fail(ErrorView),
    Ignored,
}

impl View for WriteAction {
    type V = WriteActionView;

    open spec fn view(&self) -> WriteActionView {
        match self {
            WriteAction::EnsureParentDirectory { path } => WriteActionView::EnsureParentDirectory {
                path: path@,
            },
            WriteAction::WriteTemporary { path, content } => WriteActionView::WriteTemporary {
                path: path@,
                content: content@,
            },
            WriteAction::Rename { from, to } => WriteActionView::Rename { from: from@, to: to@ },
            WriteAction::RestrictPermissions { path, mode } => WriteActionView::RestrictPermissions {
                path: path@,
                mode: *mode,
            },
            WriteAction::Done => WriteActionView::Done,
            WriteAction::Fail(error) => WriteActionView::Fail(error@),
            WriteAction::Ignored => WriteActionView::Ignored,
        }
    }
}

/// The request whose outcome a writer waits for.
#[derive(Clone, Copy, Debug, PartialEq, Eq, Structural)]
pub enum WriteStage {
    Directory,
    Temporary,
    Replace,
    Permissions,
}

/// How far the writing of one variable has come.
#[derive(Clone, Debug, PartialEq, Eq)]
pub enum Writer {
    /// A request is out: `content` is on its way to the file at `target`.
    Active { stage: WriteStage, target: String, content: String, source_info: SourceInfo },
    /// Nothing is left to do.
    Finished,
}

/// A [`Writer`] with its texts as sequences of characters.
pub enum WriterView {
    Active { stage: WriteStage, target: Seq<char>, content: Seq<char>, source_info: SourceInfo },
    Finished,
}

impl View for Writer {
    type V = WriterView;

    open spec fn view(&self) -> WriterView {
        match self {
            Writer::Active { stage, target, content, source_info } => WriterView::Active {
                stage: *stage,
                target: target@,
                content: content@,
                source_info: *source_info,
            },
            Writer::Finished => WriterView::Finished,
        }
    }
}

/// The first request for writing `content` as the value of `name`. For a
/// name that is not bound there is none: the writing is over before it began.
pub open spec fn write_start(
    registry: Map<Seq<char>, Seq<char>>,
    name: Seq<char>,
    content: Seq<char>,
    source_info: SourceInfo,
) -> (WriterView, WriteActionView) {
    if registry.contains_key(name) {
        (
            WriterView::Active {
                stage: WriteStage::Directory,
                target: registry[name],
                content,
                source_info,
            },
            WriteActionView::EnsureParentDirectory { path: registry[name] },
        )
    } else {
        (WriterView::Finished, WriteActionView::Done)
    }
}

/// The request that follows on the outcome of the one before it. The first
/// failure ends the writing with an error that names the file, not its
/// temporary file. Only the access rights are given up without an error.
pub open spec fn write_step(writer: WriterView, outcome: OutcomeView) -> (
    WriterView,
    WriteActionView,
) {
    match writer {
        WriterView::Finished => (WriterView::Finished, WriteActionView::Ignored),
        WriterView::Active { stage, target, content, source_info } => match (stage, outcome) {
            (WriteStage::Permissions, _) => (WriterView::Finished, WriteActionView::Done),
            (_, OutcomeView::Failed(cause)) => (
                WriterView::Finished,
                WriteActionView::Fail(write_access_error(source_info, target, cause)),
            ),
            (WriteStage::Directory, OutcomeView::Succeeded) => (
                WriterView::Active { stage: WriteStage::Temporary, target, content, source_info },
                WriteActionView::WriteTemporary { path: temporary_path(target), content },
            ),
            (WriteStage::Temporary, OutcomeView::Succeeded) => (
                WriterView::Active { stage: WriteStage::Replace, target, content, source_info },
                WriteActionView::Rename { from: temporary_path(target), to: target },
            ),
            (WriteStage::Replace, OutcomeView::Succeeded) => (
                WriterView::Active { stage: WriteStage::Permissions, target, content, source_info },
                WriteActionView::RestrictPermissions { path: target, mode: OWNER_READ_WRITE },
            ),
        },
    }
}

/// Where a writer stands once it has been told the outcomes, one after the
/// other, and what it answered to the last of them. `action` is the request
/// that was out before the first.
pub open spec fn write_run(
    writer: WriterView,
    action: WriteActionView,
    outcomes: Seq<OutcomeView>,
) -> (WriterView, WriteActionView)
    decreases outcomes.len(),
{
    if outcomes.len() == 0 {
        (writer, action)
    } else {
        let next = write_step(writer, outcomes[0]);
        write_run(next.0, next.1, outcomes.drop_first())
    }
}

/// The path of the temporary file of the file at `target`.
fn temporary_file(target: &String) -> (path: String)
    ensures
        path@ == temporary_path(target@),
{
    proof {
        reveal_strlit(".tmp");
        assert(".tmp"@ =~= temporary_suffix());
    }
    target.clone().concat(".tmp")
}

impl BoundVariables {
    /// Starts writing the value of a variable to the file that the variable
    /// is bound to. Where the variable is not bound, nothing is asked for and
    /// the writing has succeeded. Errors will carry `source_info`.
    pub fn bind_variable(&self, var_name: &str, value: &Value, source_info: SourceInfo) -> (start:
        (Writer, WriteAction))
        ensures
            (start.0@, start.1@) == write_start(
                self@,
                var_name@,
                value.canonical(),
                source_info,
            ),
    {
        match self.resolve(var_name) {
            Some(path) => {
                let content = value.canonical_text();
                (
                    Writer::Active {
                        stage: WriteStage::Directory,
                        target: path.clone(),
                        content,
                        source_info,
                    },
                    WriteAction::EnsureParentDirectory { path: path.clone() },
                )
            },
            None => (Writer::Finished, WriteAction::Done),
        }
    }
}

impl Writer {
    /// Takes the outcome of the request that is out and gives the next one.
    pub fn advance(self, outcome: Outcome) -> (next: (Writer, WriteAction))
        ensures
            (next.0@, next.1@) == write_step(self@, outcome@),
    {
        match self {
            Writer::Finished => (Writer::Finished, WriteAction::Ignored),
            Writer::Active { stage, target, content, source_info } => match stage {
                WriteStage::Permissions => (Writer::Finished, WriteAction::Done),
                _ => match outcome {
                    Outcome::Failed(cause) => (
                        Writer::Finished,
                        WriteAction::Fail(Error::file_write_access(source_info, target, cause)),
                    ),
                    Outcome::Succeeded => match stage {
                        WriteStage::Directory => {
                            let path = temporary_file(&target);
                            let written = content.clone();
                            (
                                Writer::Active {
                                    stage: WriteStage::Temporary,
                                    target,
                                    content,
                                    source_info,
                                },
                                WriteAction::WriteTemporary { path, content: written },
                            )
                        },
                        WriteStage::Temporary => {
                            let from = temporary_file(&target);
                            let to = target.clone();
                            (
                                Writer::Active {
                                    stage: WriteStage::Replace,
                                    target,
                                    content,
                                    source_info,
                                },
                                WriteAction::Rename { from, to },
                            )
                        },
                        _ => {
                            let path = target.clone();
                            (
                                Writer::Active {
                                    stage: WriteStage::Permissions,
                                    target,
                                    content,
                                    source_info,
                                },
                                WriteAction::RestrictPermissions { path, mode: OWNER_READ_WRITE },
                            )
                        },
                    },
                },
            },
        }
    }
}

} // verus!
