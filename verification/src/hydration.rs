//! What loading does to the registry and to the variables, step by step.

use vstd::prelude::*;
use crate::error::read_access_error;
use crate::loader::{
    LoadActionView, LoadEventView, LoadPhaseView, LoadStep, LoaderView, load_step, turn_to,
};
use crate::text::{lemma_strip_removes_one_line_end, line_end, strip_line_end};

verus! {

/// What is bound, and where the loader stands, once the events were
/// reported one after the other.
pub open spec fn load_run<E>(
    registry: Map<Seq<char>, Seq<char>>,
    loader: LoaderView,
    events: Seq<LoadEventView<E>>,
) -> (Map<Seq<char>, Seq<char>>, LoaderView)
    decreases events.len(),
{
    if events.len() == 0 {
        (registry, loader)
    } else {
        let next = load_step(registry, loader, events[0]);
        load_run(next.registry, next.loader, events.drop_first())
    }
}

/// The variables once the caller has done what it was asked to do: storing
/// a value is the one request that changes them.
pub open spec fn stored<E>(
    variables: Map<Seq<char>, Seq<char>>,
    action: LoadActionView<E>,
) -> Map<Seq<char>, Seq<char>> {
    match action {
        LoadActionView::StoreVariable { name, value } => variables.insert(name, value),
        _ => variables,
    }
}

/// No step unbinds a name.
pub proof fn lemma_step_keeps_names_bound<E>(
    registry: Map<Seq<char>, Seq<char>>,
    loader: LoaderView,
    event: LoadEventView<E>,
    name: Seq<char>,
)
    requires
        registry.contains_key(name),
    ensures
        load_step(registry, loader, event).registry.contains_key(name),
{
}

/// No run of steps unbinds a name.
pub proof fn lemma_run_keeps_names_bound<E>(
    registry: Map<Seq<char>, Seq<char>>,
    loader: LoaderView,
    events: Seq<LoadEventView<E>>,
    name: Seq<char>,
)
    requires
        registry.contains_key(name),
    ensures
        load_run(registry, loader, events).0.contains_key(name),
    decreases events.len(),
{
    if events.len() > 0 {
        let next = load_step(registry, loader, events[0]);
        lemma_step_keeps_names_bound(registry, loader, events[0], name);
        lemma_run_keeps_names_bound(next.registry, next.loader, events.drop_first(), name);
    }
}

/// A run can be cut anywhere: the events behind the cut go on from where
/// the events before it have led.
pub proof fn lemma_run_splits<E>(
    registry: Map<Seq<char>, Seq<char>>,
    loader: LoaderView,
    events: Seq<LoadEventView<E>>,
    cut: int,
)
    requires
        0 <= cut <= events.len(),
    ensures
        load_run(registry, loader, events) == load_run(
            load_run(registry, loader, events.take(cut)).0,
            load_run(registry, loader, events.take(cut)).1,
            events.skip(cut),
        ),
    decreases cut,
{
    if cut == 0 {
        assert(events.take(0) =~= Seq::<LoadEventView<E>>::empty());
        assert(events.skip(0) =~= events);
    } else {
        let next = load_step(registry, loader, events[0]);
        lemma_run_splits(next.registry, next.loader, events.drop_first(), cut - 1);
        assert(events.take(cut).drop_first() =~= events.drop_first().take(cut - 1));
        assert(events.take(cut)[0] == events[0]);
        assert(events.drop_first().skip(cut - 1) =~= events.skip(cut));
    }
}

/// The name of every declaration that a run gets to is bound when the run
/// is over. It is bound to the declaration's path on the step that learns
/// the path, and it stays bound whatever is reported afterwards: that there
/// is no file, that the file cannot be read, or anything else.
pub proof fn lemma_declared_name_is_bound<E>(
    registry: Map<Seq<char>, Seq<char>>,
    loader: LoaderView,
    events: Seq<LoadEventView<E>>,
    at: int,
    name: Seq<char>,
    path: Seq<char>,
)
    requires
        0 <= at < events.len(),
        load_run(registry, loader, events.take(at)).1.phase == (LoadPhaseView::Path { name }),
        events[at] == LoadEventView::<E>::Resolved(path),
    ensures
        load_run(registry, loader, events.take(at + 1)).0 == load_run(
            registry,
            loader,
            events.take(at),
        ).0.insert(name, path),
        load_run(registry, loader, events).0.contains_key(name),
{
    let before = load_run(registry, loader, events.take(at));
    let step = load_step(before.0, before.1, events[at]);
    assert(step.registry == before.0.insert(name, path));
    let upto = events.take(at + 1);
    lemma_run_splits(registry, loader, upto, at);
    assert(upto.take(at) =~= events.take(at));
    assert(upto.skip(at) =~= seq![events[at]]);
    assert(upto.skip(at).drop_first() =~= Seq::<LoadEventView<E>>::empty());
    assert(load_run(before.0, before.1, upto.skip(at)) == (step.registry, step.loader)) by {
        assert(upto.skip(at)[0] == events[at]);
        assert(load_run(step.registry, step.loader, upto.skip(at).drop_first()) == (
            step.registry,
            step.loader,
        ));
    }
    lemma_run_splits(registry, loader, events, at + 1);
    lemma_run_keeps_names_bound(step.registry, step.loader, events.skip(at + 1), name);
}

/// An error of a loader is a read error for the file of the declaration
/// that was being loaded. It carries the place of that declaration's name,
/// and it is not fatal.
pub proof fn lemma_load_errors_name_the_file<E>(
    registry: Map<Seq<char>, Seq<char>>,
    loader: LoaderView,
    event: LoadEventView<E>,
)
    ensures
        load_step(registry, loader, event).action matches LoadActionView::Fail(error) ==> {
            &&& loader.phase matches LoadPhaseView::Read { path, .. }
            &&& event is ReadFailed
            &&& error == read_access_error(loader.sources[loader.index as int], path)
            &&& !error.fatal
        },
{
}

/// Where no file is at the path of a declaration, the declaration is passed
/// over without an error: the name stays bound, no value is stored, so that
/// every variable is as it was, and the loading turns to the next
/// declaration.
pub proof fn lemma_missing_file_is_passed_over<E>(
    registry: Map<Seq<char>, Seq<char>>,
    loader: LoaderView,
    variables: Map<Seq<char>, Seq<char>>,
)
    requires
        loader.phase is Probe,
    ensures
        load_step::<E>(registry, loader, LoadEventView::Probed(false)) == turn_to::<E>(
            registry,
            loader,
            loader.index + 1,
        ),
        load_step::<E>(registry, loader, LoadEventView::Probed(false)).action
            is RenderName || load_step::<E>(
            registry,
            loader,
            LoadEventView::Probed(false),
        ).action is Done,
        stored(variables, load_step::<E>(registry, loader, LoadEventView::Probed(false)).action)
            == variables,
{
}

/// Where the file of a declaration is read, the value stored for the name
/// is the file's text without one final line feed. The text is kept whole
/// where it does not end in a line feed; whatever stands before the final
/// line feed stays, be it a blank or another line feed.
pub proof fn lemma_file_text_is_stored<E>(
    registry: Map<Seq<char>, Seq<char>>,
    loader: LoaderView,
    name: Seq<char>,
    path: Seq<char>,
    content: Seq<char>,
    variables: Map<Seq<char>, Seq<char>>,
)
    requires
        loader.phase == (LoadPhaseView::Read { name, path }),
    ensures
        load_step::<E>(registry, loader, LoadEventView::Read(content)).action == (
            LoadActionView::<E>::StoreVariable { name, value: strip_line_end(content) }
        ),
        stored(
            variables,
            load_step::<E>(registry, loader, LoadEventView::Read(content)).action,
        ) == variables.insert(name, strip_line_end(content)),
        content.len() > 0 && content.last() == line_end() ==> strip_line_end(content).push(
            line_end(),
        ) == content,
        !(content.len() > 0 && content.last() == line_end()) ==> strip_line_end(content)
            == content,
{
    lemma_strip_removes_one_line_end(content);
}

} // verus!
