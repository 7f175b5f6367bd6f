//! A model of the files that the requests of a writer work on.
//!
//! The library performs no request itself. What it promises of the files
//! holds of every caller that carries the requests out as this model says a
//! file system does: a rename takes place whole or not at all, and a request
//! that names one path leaves the files at all other paths alone.

use vstd::prelude::*;
use crate::writer::{OutcomeView, WriteActionView, WriterView, write_step};

verus! {

/// A file: its text and its access rights.
pub struct FileView {
    pub content: Seq<char>,
    pub mode: u32,
}

/// The files that are there, by path.
pub type Files = Map<Seq<char>, FileView>;

/// The file at a path, if there is one.
pub open spec fn file_at(files: Files, path: Seq<char>) -> Option<FileView> {
    if files.contains_key(path) {
        Some(files[path])
    } else {
        None
    }
}

/// There is a file at the path, and its text is exactly `content`.
pub open spec fn holds(files: Files, path: Seq<char>, content: Seq<char>) -> bool {
    file_at(files, path) matches Some(file) && file.content == content
}

/// At every path but the one given, the same file or the same absence.
pub open spec fn same_elsewhere(
    before: Files,
    after: Files,
    path: Seq<char>,
) -> bool {
    forall|other: Seq<char>| other != path ==> #[trigger] file_at(after, other) == file_at(before, other)
}

/// Whether `after` can be what is there once the request was carried out on
/// `before` and ended as `outcome` says.
///
/// - Making directories changes no file.
/// - Writing the temporary file changes at most that file. When it succeeds
///   the file holds the text handed over; when it fails the file may be
///   missing or hold anything.
/// - A rename that succeeds moves the file; one that fails changes nothing.
/// - Setting the access rights changes the rights of that file when it
///   succeeds, and nothing when it fails.
/// - What is no request changes nothing.
pub open spec fn performed(
    before: Files,
    action: WriteActionView,
    outcome: OutcomeView,
    after: Files,
) -> bool {
    match action {
        WriteActionView::EnsureParentDirectory { path } => after == before,
        WriteActionView::WriteTemporary { path, content } => {
            &&& same_elsewhere(before, after, path)
            &&& outcome is Succeeded ==> holds(after, path, content)
        },
        WriteActionView::Rename { from, to } => match outcome {
            OutcomeView::Succeeded => before.contains_key(from) && after == before.remove(
                from,
            ).insert(to, before[from]),
            OutcomeView::Failed(_) => after == before,
        },
        WriteActionView::RestrictPermissions { path, mode } => match outcome {
            OutcomeView::Succeeded => before.contains_key(path) && after == before.insert(
                path,
                FileView { content: before[path].content, mode },
            ),
            OutcomeView::Failed(_) => after == before,
        },
        WriteActionView::Done => after == before,
        WriteActionView::Fail(_) => after == before,
        WriteActionView::Ignored => after == before,
    }
}

/// The requests of a writer were carried out one after the other, each
/// ending as `outcomes` says. `files[0]` is what was there before the first
/// request, here `action`, and `files[k + 1]` what was there once the request
/// with outcome `k` was over.
pub open spec fn carried_out(
    writer: WriterView,
    action: WriteActionView,
    outcomes: Seq<OutcomeView>,
    files: Seq<Files>,
) -> bool
    decreases outcomes.len(),
{
    &&& files.len() == outcomes.len() + 1
    &&& outcomes.len() > 0 ==> {
        let next = write_step(writer, outcomes[0]);
        &&& performed(files[0], action, outcomes[0], files[1])
        &&& carried_out(next.0, next.1, outcomes.drop_first(), files.drop_first())
    }
}

} // verus!
