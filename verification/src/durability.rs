//! What writing a variable does to its file, step by step.
//!
//! The statements here are about the files as `files` models them: they hold
//! of every run in which the requests of a writer were carried out in turn.

use vstd::prelude::*;
use crate::error::write_access_error;
use crate::files::{FileView, Files, carried_out, file_at, holds, performed};
use crate::source::SourceInfo;
use crate::text::{line_end, strip_line_end};
use crate::writer::{
    OutcomeView, WriteActionView, WriteStage, WriterView, OWNER_READ_WRITE, temporary_path,
    write_run, write_start, write_step,
};

verus! {

/// What holds of the files while `content` is on its way to the file at
/// `target`, which was `initial` before the first request: the file is as it
/// was until the rename has succeeded, and holds the whole text from then on.
spec fn on_course(
    writer: WriterView,
    action: WriteActionView,
    files: Files,
    initial: Option<FileView>,
    target: Seq<char>,
    content: Seq<char>,
) -> bool {
    match writer {
        WriterView::Active { stage, target: to, content: text, source_info } => {
            &&& to == target
            &&& text == content
            &&& match stage {
                WriteStage::Directory => {
                    &&& action == WriteActionView::EnsureParentDirectory { path: target }
                    &&& file_at(files, target) == initial
                },
                WriteStage::Temporary => {
                    &&& action == WriteActionView::WriteTemporary {
                        path: temporary_path(target),
                        content,
                    }
                    &&& file_at(files, target) == initial
                },
                WriteStage::Replace => {
                    &&& action == WriteActionView::Rename {
                        from: temporary_path(target),
                        to: target,
                    }
                    &&& file_at(files, target) == initial
                    &&& holds(files, temporary_path(target), content)
                },
                WriteStage::Permissions => {
                    &&& action == WriteActionView::RestrictPermissions {
                        path: target,
                        mode: OWNER_READ_WRITE,
                    }
                    &&& holds(files, target, content)
                },
            }
        },
        WriterView::Finished => match action {
            WriteActionView::Done => holds(files, target, content),
            WriteActionView::Fail(_) => file_at(files, target) == initial,
            WriteActionView::Ignored => file_at(files, target) == initial || holds(
                files,
                target,
                content,
            ),
            _ => false,
        },
    }
}

/// A file and its temporary file lie at different paths.
proof fn lemma_temporary_path_differs(target: Seq<char>)
    ensures
        temporary_path(target) != target,
{
    assert(temporary_path(target).len() == target.len() + 4);
}

/// One request, carried out, keeps the writing on course.
proof fn lemma_step_stays_on_course(
    writer: WriterView,
    action: WriteActionView,
    outcome: OutcomeView,
    before: Files,
    after: Files,
    initial: Option<FileView>,
    target: Seq<char>,
    content: Seq<char>,
)
    requires
        on_course(writer, action, before, initial, target, content),
        performed(before, action, outcome, after),
    ensures
        on_course(
            write_step(writer, outcome).0,
            write_step(writer, outcome).1,
            after,
            initial,
            target,
            content,
        ),
{
    lemma_temporary_path_differs(target);
    match writer {
        WriterView::Active { stage, target: to, content: text, source_info } => {
            match stage {
                WriteStage::Temporary => {
                    assert(file_at(after, target) == file_at(before, target));
                },
                _ => {},
            }
        },
        WriterView::Finished => {},
    }
}

/// A run that starts on course is on course after every outcome.
proof fn lemma_run_stays_on_course(
    writer: WriterView,
    action: WriteActionView,
    outcomes: Seq<OutcomeView>,
    files: Seq<Files>,
    done: int,
    initial: Option<FileView>,
    target: Seq<char>,
    content: Seq<char>,
)
    requires
        carried_out(writer, action, outcomes, files),
        on_course(writer, action, files[0], initial, target, content),
        0 <= done <= outcomes.len(),
    ensures
        on_course(
            write_run(writer, action, outcomes.take(done)).0,
            write_run(writer, action, outcomes.take(done)).1,
            files[done],
            initial,
            target,
            content,
        ),
    decreases done,
{
    if done == 0 {
        assert(outcomes.take(0) =~= Seq::<OutcomeView>::empty());
    } else {
        let next = write_step(writer, outcomes[0]);
        lemma_step_stays_on_course(
            writer,
            action,
            outcomes[0],
            files[0],
            files[1],
            initial,
            target,
            content,
        );
        assert(files.drop_first()[0] == files[1]);
        lemma_run_stays_on_course(
            next.0,
            next.1,
            outcomes.drop_first(),
            files.drop_first(),
            done - 1,
            initial,
            target,
            content,
        );
        assert(outcomes.take(done).drop_first() =~= outcomes.drop_first().take(done - 1));
        assert(outcomes.take(done)[0] == outcomes[0]);
        assert(files.drop_first()[done - 1] == files[done]);
    }
}

/// Writing a variable that is not bound asks for nothing, whatever is
/// reported to the writer afterwards: no file, no directory and no temporary
/// file comes of it.
pub proof fn lemma_unbound_variable_asks_for_nothing(
    registry: Map<Seq<char>, Seq<char>>,
    name: Seq<char>,
    content: Seq<char>,
    source_info: SourceInfo,
    outcomes: Seq<OutcomeView>,
    files: Seq<Files>,
)
    requires
        !registry.contains_key(name),
        carried_out(
            write_start(registry, name, content, source_info).0,
            write_start(registry, name, content, source_info).1,
            outcomes,
            files,
        ),
    ensures
        write_start(registry, name, content, source_info) == (
            WriterView::Finished,
            WriteActionView::Done,
        ),
        outcomes.len() > 0 ==> write_run(
            WriterView::Finished,
            WriteActionView::Done,
            outcomes,
        ) == (WriterView::Finished, WriteActionView::Ignored),
        forall|k: int| 0 <= k < files.len() ==> #[trigger] files[k] == files[0],
{
    lemma_finished_writer_changes_nothing(WriteActionView::Done, outcomes, files);
}

/// Once a writer has finished, it asks for nothing more and the files stay
/// as they are.
proof fn lemma_finished_writer_changes_nothing(
    action: WriteActionView,
    outcomes: Seq<OutcomeView>,
    files: Seq<Files>,
)
    requires
        action is Done || action is Fail || action is Ignored,
        carried_out(WriterView::Finished, action, outcomes, files),
    ensures
        outcomes.len() > 0 ==> write_run(WriterView::Finished, action, outcomes) == (
            WriterView::Finished,
            WriteActionView::Ignored,
        ),
        forall|k: int| 0 <= k < files.len() ==> #[trigger] files[k] == files[0],
    decreases outcomes.len(),
{
    if outcomes.len() > 0 {
        let rest = outcomes.drop_first();
        lemma_finished_writer_changes_nothing(WriteActionView::Ignored, rest, files.drop_first());
        assert(write_run(WriterView::Finished, WriteActionView::Ignored, rest) == (
            WriterView::Finished,
            WriteActionView::Ignored,
        ));
        assert forall|k: int| 0 <= k < files.len() implies #[trigger] files[k] == files[0] by {
            if k > 0 {
                assert(files.drop_first()[k - 1] == files[k]);
                assert(files.drop_first()[0] == files[1]);
            }
        }
    }
}

/// An error of a writer is a write error for the file itself, not for its
/// temporary file. It carries the cause as it was reported and the place
/// that the writing was started with, and it is not fatal.
pub proof fn lemma_write_errors_name_the_file(writer: WriterView, outcome: OutcomeView)
    ensures
        write_step(writer, outcome).1 matches WriteActionView::Fail(error) ==> {
            &&& writer matches WriterView::Active { target, source_info, .. }
            &&& outcome matches OutcomeView::Failed(cause)
            &&& error == write_access_error(source_info, target, cause)
            &&& !error.fatal
        },
{
}

/// At no time does the file of a bound variable hold a part of the new
/// text. After any number of the requests, ended in any way, the file is as
/// it was before the first of them, or it holds the whole text. It is as it
/// was for as long as the rename has not succeeded: also when the temporary
/// file is written and flushed and the writing stops there, and when the
/// writing has ended with an error.
pub proof fn lemma_file_is_old_or_new(
    registry: Map<Seq<char>, Seq<char>>,
    name: Seq<char>,
    content: Seq<char>,
    source_info: SourceInfo,
    outcomes: Seq<OutcomeView>,
    files: Seq<Files>,
    done: int,
)
    requires
        registry.contains_key(name),
        carried_out(
            write_start(registry, name, content, source_info).0,
            write_start(registry, name, content, source_info).1,
            outcomes,
            files,
        ),
        0 <= done <= outcomes.len(),
    ensures
        file_at(files[done], registry[name]) == file_at(files[0], registry[name]) || holds(
            files[done],
            registry[name],
            content,
        ),
        write_run(
            write_start(registry, name, content, source_info).0,
            write_start(registry, name, content, source_info).1,
            outcomes.take(done),
        ).0 matches WriterView::Active { stage, .. } && stage != WriteStage::Permissions
            ==> file_at(files[done], registry[name]) == file_at(files[0], registry[name]),
        write_run(
            write_start(registry, name, content, source_info).0,
            write_start(registry, name, content, source_info).1,
            outcomes.take(done),
        ).1 is Fail ==> file_at(files[done], registry[name]) == file_at(files[0], registry[name]),
{
    let start = write_start(registry, name, content, source_info);
    lemma_run_stays_on_course(
        start.0,
        start.1,
        outcomes,
        files,
        done,
        file_at(files[0], registry[name]),
        registry[name],
        content,
    );
}

/// When the writing of a bound variable has ended well, the file holds
/// exactly the text of the value: nothing before it and nothing after it.
/// Text that does not end in a line feed is read back as it was written.
pub proof fn lemma_written_file_holds_the_text(
    registry: Map<Seq<char>, Seq<char>>,
    name: Seq<char>,
    content: Seq<char>,
    source_info: SourceInfo,
    outcomes: Seq<OutcomeView>,
    files: Seq<Files>,
)
    requires
        registry.contains_key(name),
        carried_out(
            write_start(registry, name, content, source_info).0,
            write_start(registry, name, content, source_info).1,
            outcomes,
            files,
        ),
        write_run(
            write_start(registry, name, content, source_info).0,
            write_start(registry, name, content, source_info).1,
            outcomes,
        ).1 is Done,
    ensures
        holds(files.last(), registry[name], content),
        !(content.len() > 0 && content.last() == line_end()) ==> strip_line_end(
            files.last()[registry[name]].content,
        ) == content,
{
    let start = write_start(registry, name, content, source_info);
    lemma_run_stays_on_course(
        start.0,
        start.1,
        outcomes,
        files,
        outcomes.len() as int,
        file_at(files[0], registry[name]),
        registry[name],
        content,
    );
    assert(outcomes.take(outcomes.len() as int) =~= outcomes);
}

/// Rights that grant nothing to the group and nothing to others.
pub open spec fn owner_only(mode: u32) -> bool {
    mode & 0o077 == 0
}

/// When all four requests for a bound variable have succeeded, the file
/// holds the text and only its owner has access to it, whatever rights the
/// temporary file was created with.
pub proof fn lemma_written_file_is_owner_only(
    registry: Map<Seq<char>, Seq<char>>,
    name: Seq<char>,
    content: Seq<char>,
    source_info: SourceInfo,
    outcomes: Seq<OutcomeView>,
    files: Seq<Files>,
)
    requires
        registry.contains_key(name),
        carried_out(
            write_start(registry, name, content, source_info).0,
            write_start(registry, name, content, source_info).1,
            outcomes,
            files,
        ),
        outcomes.len() == 4,
        forall|k: int| 0 <= k < 4 ==> outcomes[k] is Succeeded,
    ensures
        file_at(files[4], registry[name]) == Some(
            FileView { content, mode: OWNER_READ_WRITE },
        ),
        owner_only(OWNER_READ_WRITE),
        write_run(
            write_start(registry, name, content, source_info).0,
            write_start(registry, name, content, source_info).1,
            outcomes,
        ).1 is Done,
{
    let start = write_start(registry, name, content, source_info);
    let target = registry[name];
    lemma_run_stays_on_course(
        start.0,
        start.1,
        outcomes,
        files,
        3,
        file_at(files[0], target),
        target,
        content,
    );
    let three = outcomes.take(3);
    assert(three[0] is Succeeded && three[1] is Succeeded && three[2] is Succeeded) by {
        assert(outcomes[0] is Succeeded && outcomes[1] is Succeeded && outcomes[2] is Succeeded);
    }
    reveal_with_fuel(write_run, 5);
    reveal_with_fuel(carried_out, 5);
    assert(three.drop_first().len() == 2);
    assert(three.drop_first().drop_first().len() == 1);
    assert(three.drop_first().drop_first().drop_first().len() == 0);
    let after_three = write_run(start.0, start.1, three);
    assert(after_three.1 == WriteActionView::RestrictPermissions {
        path: target,
        mode: OWNER_READ_WRITE,
    });
    assert(OWNER_READ_WRITE & 0o077 == 0) by (bit_vector);
    // The last request sets the rights of the file that holds the text.
    lemma_carried_out_at(start.0, start.1, outcomes, files, 3);
    lemma_run_extends(start.0, start.1, outcomes, 3);
    assert(outcomes.take(4) =~= outcomes);
}

/// In a run, each request is carried out on the files that the one before
/// it left.
proof fn lemma_carried_out_at(
    writer: WriterView,
    action: WriteActionView,
    outcomes: Seq<OutcomeView>,
    files: Seq<Files>,
    done: int,
)
    requires
        carried_out(writer, action, outcomes, files),
        0 <= done < outcomes.len(),
    ensures
        performed(
            files[done],
            write_run(writer, action, outcomes.take(done)).1,
            outcomes[done],
            files[done + 1],
        ),
    decreases done,
{
    if done == 0 {
        assert(outcomes.take(0) =~= Seq::<OutcomeView>::empty());
    } else {
        let next = write_step(writer, outcomes[0]);
        lemma_carried_out_at(next.0, next.1, outcomes.drop_first(), files.drop_first(), done - 1);
        assert(outcomes.take(done).drop_first() =~= outcomes.drop_first().take(done - 1));
        assert(outcomes.take(done)[0] == outcomes[0]);
        assert(files.drop_first()[done - 1] == files[done]);
        assert(files.drop_first()[done] == files[done + 1]);
        assert(outcomes.drop_first()[done - 1] == outcomes[done]);
    }
}

/// One more outcome takes a run one step further.
proof fn lemma_run_extends(
    writer: WriterView,
    action: WriteActionView,
    outcomes: Seq<OutcomeView>,
    done: int,
)
    requires
        0 <= done < outcomes.len(),
    ensures
        write_run(writer, action, outcomes.take(done + 1)) == write_step(
            write_run(writer, action, outcomes.take(done)).0,
            outcomes[done],
        ),
    decreases done,
{
    if done == 0 {
        let next = write_step(writer, outcomes[0]);
        assert(outcomes.take(0) =~= Seq::<OutcomeView>::empty());
        assert(outcomes.take(1).drop_first() =~= Seq::<OutcomeView>::empty());
        assert(outcomes.take(1)[0] == outcomes[0]);
        assert(write_run(next.0, next.1, outcomes.take(1).drop_first()) == next);
    } else {
        let next = write_step(writer, outcomes[0]);
        lemma_run_extends(next.0, next.1, outcomes.drop_first(), done - 1);
        assert(outcomes.take(done).drop_first() =~= outcomes.drop_first().take(done - 1));
        assert(outcomes.take(done + 1).drop_first() =~= outcomes.drop_first().take(done));
        assert(outcomes.take(done)[0] == outcomes[0]);
        assert(outcomes.take(done + 1)[0] == outcomes[0]);
        assert(outcomes.drop_first()[done - 1] == outcomes[done]);
    }
}

} // verus!
