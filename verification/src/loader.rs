//! Loading bound variables from their files.
//!
//! The declarations are taken in the order in which they stand. For each
//! one the caller is asked, in turn, to render the name, to render the file
//! name, and to resolve the file name to an absolute path. The name is then
//! bound to the path, whether or not a file is there. Where a file is there
//! it is read, and the caller is asked to store its text, without the line
//! feed that may end it, as the variable's value. The first rendering that
//! fails, and the first file that is there and cannot be read, end the
//! loading; what was bound until then stays bound.

use vstd::prelude::*;
use crate::error::{Error, ErrorView, read_access_error};
use crate::registry::BoundVariables;
use crate::source::SourceInfo;
use crate::text::{hydrated_text, strip_line_end};

verus! {

/// What the caller reports: how the request that was out has ended.
#[derive(Debug, PartialEq, Eq)]
pub enum LoadEvent<E> {
    /// Nothing was asked for yet: the loading is to begin.
    Begin,
    /// The template was rendered to this text.
    Rendered(String),
    /// The template could not be rendered.
    RenderFailed(E),
    /// The file name stands for this absolute path.
    Resolved(String),
    /// Whether a file is there.
    Probed(bool),
    /// The file was read to its end and holds this text.
    Read(String),
    /// The file is there and could not be read.
    ReadFailed,
    /// The value was stored.
    Stored,
}

/// A [`LoadEvent`] with its texts as sequences of characters.
pub enum LoadEventView<E> {
    Begin,
    Rendered(Seq<char>),
    RenderFailed(E),
    Resolved(Seq<char>),
    Probed(bool),
    Read(Seq<char>),
    ReadFailed,
    Stored,
}

impl<E> View for LoadEvent<E> {
    type V = LoadEventView<E>;

    open spec fn view(&self) -> LoadEventView<E> {
        match self {
            LoadEvent::Begin => LoadEventView::Begin,
            LoadEvent::Rendered(text) => LoadEventView::Rendered(text@),
            LoadEvent::RenderFailed(error) => LoadEventView::RenderFailed(*error),
            LoadEvent::Resolved(path) => LoadEventView::Resolved(path@),
            LoadEvent::Probed(exists) => LoadEventView::Probed(*exists),
            LoadEvent::Read(content) => LoadEventView::Read(content@),
            LoadEvent::ReadFailed => LoadEventView::ReadFailed,
            LoadEvent::Stored => LoadEventView::Stored,
        }
    }
}

/// What the caller is asked to do next.
#[derive(Debug, PartialEq, Eq)]
pub enum LoadAction<E> {
    /// Render the name of the declaration at `index`, with the variables as
    /// they now are.
    RenderName { index: usize },
    /// Render the file name of the declaration at `index`.
    RenderFilename { index: usize },
    /// Resolve the file name to an absolute path.
    ResolvePath { filename: String },
    /// Find out whether a file is at the path.
    ProbeFile { path: String },
    /// Read the whole file at the path as text.
    ReadFile { path: String },
    /// Make the string `value` the value of the variable `name`, in place of
    /// any value that it has.
    StoreVariable { name: String, value: String },
    /// All declarations are loaded: there is nothing more to do.
    Done,
    /// A template could not be rendered: the loading ends with the
    /// renderer's own error, handed on as it came.
    Propagate(E),
    /// The loading ends with this error.
    Fail(Error),
    /// The event answered no request. Nothing has changed, and the request
    /// that was out is still out.
    Ignored,
}

/// A [`LoadAction`] with its texts as sequences of characters.
pub enum LoadActionView<E> {
    RenderName { index: nat },
    RenderFilename { index: nat },
    ResolvePath { filename: Seq<char> },
    ProbeFile { path: Seq<char> },
    ReadFile { path: Seq<char> },
    StoreVariable { name: Seq<char>, value: Seq<char> },
    Done,
    Propagate(E),
    Fail(ErrorView),
    Ignored,
}

impl<E> View for LoadAction<E> {
    type V = LoadActionView<E>;

    open spec fn view(&self) -> LoadActionView<E> {
        match self {
            LoadAction::RenderName { index } => LoadActionView::RenderName { index: *index as nat },
            LoadAction::RenderFilename { index } => LoadActionView::RenderFilename {
                index: *index as nat,
            },
            LoadAction::ResolvePath { filename } => LoadActionView::ResolvePath {
                filename: filename@,
            },
            LoadAction::ProbeFile { path } => LoadActionView::ProbeFile { path: path@ },
            LoadAction::ReadFile { path } => LoadActionView::ReadFile { path: path@ },
            LoadAction::StoreVariable { name, value } => LoadActionView::StoreVariable {
                name: name@,
                value: value@,
            },
            LoadAction::Done => LoadActionView::Done,
            LoadAction::Propagate(error) => LoadActionView::Propagate(*error),
            LoadAction::Fail(error) => LoadActionView::Fail(error@),
            LoadAction::Ignored => LoadActionView::Ignored,
        }
    }
}

/// The request whose answer a loader waits for, with what it has learnt of
/// the declaration so far.
#[derive(Debug)]
enum LoadPhase {
    Fresh,
    Name,
    Filename { name: String },
    Path { name: String },
    Probe { name: String, path: String },
    Read { name: String, path: String },
    Store,
    Finished,
}

/// The request whose answer a loader waits for, with what it has learnt of
/// the declaration so far.
pub enum LoadPhaseView {
    /// Nothing was asked for yet.
    Fresh,
    /// The name is being rendered.
    Name,
    /// The file name is being rendered.
    Filename { name: Seq<char> },
    /// The file name is being resolved.
    Path { name: Seq<char> },
    /// The name is bound to the path, and the file is being looked for.
    Probe { name: Seq<char>, path: Seq<char> },
    /// The file is being read.
    Read { name: Seq<char>, path: Seq<char> },
    /// The value is being stored.
    Store,
    /// The loading is over.
    Finished,
}

impl View for LoadPhase {
    type V = LoadPhaseView;

    closed spec fn view(&self) -> LoadPhaseView {
        match self {
            LoadPhase::Fresh => LoadPhaseView::Fresh,
            LoadPhase::Name => LoadPhaseView::Name,
            LoadPhase::Filename { name } => LoadPhaseView::Filename { name: name@ },
            LoadPhase::Path { name } => LoadPhaseView::Path { name: name@ },
            LoadPhase::Probe { name, path } => LoadPhaseView::Probe { name: name@, path: path@ },
            LoadPhase::Read { name, path } => LoadPhaseView::Read { name: name@, path: path@ },
            LoadPhase::Store => LoadPhaseView::Store,
            LoadPhase::Finished => LoadPhaseView::Finished,
        }
    }
}

/// How far the loading of a list of declarations has come.
#[derive(Debug)]
pub struct Loader {
    sources: Vec<SourceInfo>,
    index: usize,
    phase: LoadPhase,
}

/// Where a [`Loader`] stands.
pub struct LoaderView {
    /// Where the name of each declaration stands in the source.
    pub sources: Seq<SourceInfo>,
    /// The declaration that is being loaded.
    pub index: nat,
    /// The request that is out.
    pub phase: LoadPhaseView,
}

impl LoaderView {
    /// While a declaration is being loaded, there is such a declaration.
    pub open spec fn wf(self) -> bool {
        &&& self.index <= self.sources.len()
        &&& !(self.phase is Fresh || self.phase is Finished) ==> self.index < self.sources.len()
    }
}

impl View for Loader {
    type V = LoaderView;

    closed spec fn view(&self) -> LoaderView {
        LoaderView { sources: self.sources@, index: self.index as nat, phase: self.phase@ }
    }
}

/// A step of the loading: what is bound after it, where the loader then
/// stands, and what the caller is asked to do.
pub struct LoadStep<E> {
    pub registry: Map<Seq<char>, Seq<char>>,
    pub loader: LoaderView,
    pub action: LoadActionView<E>,
}

/// Turning to the declaration at `index`: its name is asked for, or the
/// loading is over because no declaration is left.
pub open spec fn turn_to<E>(
    registry: Map<Seq<char>, Seq<char>>,
    loader: LoaderView,
    index: nat,
) -> LoadStep<E> {
    if index < loader.sources.len() {
        LoadStep {
            registry,
            loader: LoaderView { index, phase: LoadPhaseView::Name, ..loader },
            action: LoadActionView::RenderName { index },
        }
    } else {
        LoadStep {
            registry,
            loader: LoaderView { index, phase: LoadPhaseView::Finished, ..loader },
            action: LoadActionView::Done,
        }
    }
}

/// The loading is over, with this to tell the caller.
pub open spec fn finish<E>(
    registry: Map<Seq<char>, Seq<char>>,
    loader: LoaderView,
    action: LoadActionView<E>,
) -> LoadStep<E> {
    LoadStep {
        registry,
        loader: LoaderView { phase: LoadPhaseView::Finished, ..loader },
        action,
    }
}

/// The loader goes on to wait for another answer.
pub open spec fn proceed<E>(
    registry: Map<Seq<char>, Seq<char>>,
    loader: LoaderView,
    phase: LoadPhaseView,
    action: LoadActionView<E>,
) -> LoadStep<E> {
    LoadStep { registry, loader: LoaderView { phase, ..loader }, action }
}

/// What an event leads to.
///
/// An event that answers the request that is out moves the loading on; any
/// other event is ignored. The name is bound as soon as its path is known,
/// before the file is looked for. A file that is not there is passed over:
/// no value is stored and the next declaration is taken up. The error for a
/// file that cannot be read carries the path and the place of the
/// declaration's name.
pub open spec fn load_step<E>(
    registry: Map<Seq<char>, Seq<char>>,
    loader: LoaderView,
    event: LoadEventView<E>,
) -> LoadStep<E> {
    match (loader.phase, event) {
        (LoadPhaseView::Fresh, LoadEventView::Begin) => turn_to(registry, loader, 0),
        (LoadPhaseView::Name, LoadEventView::Rendered(name)) => proceed(
            registry,
            loader,
            LoadPhaseView::Filename { name },
            LoadActionView::RenderFilename { index: loader.index },
        ),
        (LoadPhaseView::Name, LoadEventView::RenderFailed(error)) => finish(
            registry,
            loader,
            LoadActionView::Propagate(error),
        ),
        (LoadPhaseView::Filename { name }, LoadEventView::Rendered(filename)) => proceed(
            registry,
            loader,
            LoadPhaseView::Path { name },
            LoadActionView::ResolvePath { filename },
        ),
        (LoadPhaseView::Filename { name }, LoadEventView::RenderFailed(error)) => finish(
            registry,
            loader,
            LoadActionView::Propagate(error),
        ),
        (LoadPhaseView::Path { name }, LoadEventView::Resolved(path)) => proceed(
            registry.insert(name, path),
            loader,
            LoadPhaseView::Probe { name, path },
            LoadActionView::ProbeFile { path },
        ),
        (LoadPhaseView::Probe { name, path }, LoadEventView::Probed(exists)) => if exists {
            proceed(
                registry,
                loader,
                LoadPhaseView::Read { name, path },
                LoadActionView::ReadFile { path },
            )
        } else {
            turn_to(registry, loader, loader.index + 1)
        },
        (LoadPhaseView::Read { name, path }, LoadEventView::Read(content)) => proceed(
            registry,
            loader,
            LoadPhaseView::Store,
            LoadActionView::StoreVariable { name, value: strip_line_end(content) },
        ),
        (LoadPhaseView::Read { name, path }, LoadEventView::ReadFailed) => finish(
            registry,
            loader,
            LoadActionView::Fail(read_access_error(loader.sources[loader.index as int], path)),
        ),
        (LoadPhaseView::Store, LoadEventView::Stored) => turn_to(
            registry,
            loader,
            loader.index + 1,
        ),
        _ => LoadStep { registry, loader, action: LoadActionView::Ignored },
    }
}

impl Loader {
    #[verifier::type_invariant]
    spec fn well_formed(self) -> bool {
        self@.wf()
    }

    /// A loader for as many declarations as there are places in `sources`:
    /// for each declaration, in order, the place of its name in the source.
    pub fn new(sources: Vec<SourceInfo>) -> (loader: Loader)
        ensures
            loader@ == (LoaderView { sources: sources@, index: 0, phase: LoadPhaseView::Fresh }),
    {
        Loader { sources, index: 0, phase: LoadPhase::Fresh }
    }
}

/// The loader and the request for the declaration at `index`.
fn turn_to_declaration<E>(sources: Vec<SourceInfo>, index: usize) -> (next: (Loader, LoadAction<E>))
    requires
        index <= sources.len(),
    ensures
        next.0@.sources == sources@,
        next.0@.index == index,
        next.0@.phase == if index < sources.len() {
            LoadPhaseView::Name
        } else {
            LoadPhaseView::Finished
        },
        next.1@ == if index < sources.len() {
            LoadActionView::<E>::RenderName { index: index as nat }
        } else {
            LoadActionView::<E>::Done
        },
{
    if index < sources.len() {
        (Loader { sources, index, phase: LoadPhase::Name }, LoadAction::RenderName { index })
    } else {
        (Loader { sources, index, phase: LoadPhase::Finished }, LoadAction::Done)
    }
}

impl BoundVariables {
    /// Takes one step of the loading: `event` says how the request that was
    /// out has ended, and the answer is the loader as it then stands with
    /// the next request. The variable of a declaration is bound on the step
    /// that learns its path; no other step changes the registry.
    pub fn process_bindings<E>(&mut self, loader: Loader, event: LoadEvent<E>) -> (next: (
        Loader,
        LoadAction<E>,
    ))
        ensures
            final(self)@ == load_step(old(self)@, loader@, event@).registry,
            next.0@ == load_step(old(self)@, loader@, event@).loader,
            next.1@ == load_step(old(self)@, loader@, event@).action,
    {
        proof {
            use_type_invariant(&loader);
        }
        let Loader { sources, index, phase } = loader;
        assert(!(phase@ is Fresh || phase@ is Finished) ==> index < sources.len());
        match phase {
            LoadPhase::Fresh => match event {
                LoadEvent::Begin => turn_to_declaration(sources, 0),
                _ => (Loader { sources, index, phase: LoadPhase::Fresh }, LoadAction::Ignored),
            },
            LoadPhase::Name => match event {
                LoadEvent::Rendered(name) => (
                    Loader { sources, index, phase: LoadPhase::Filename { name } },
                    LoadAction::RenderFilename { index },
                ),
                LoadEvent::RenderFailed(error) => (
                    Loader { sources, index, phase: LoadPhase::Finished },
                    LoadAction::Propagate(error),
                ),
                _ => (Loader { sources, index, phase: LoadPhase::Name }, LoadAction::Ignored),
            },
            LoadPhase::Filename { name } => match event {
                LoadEvent::Rendered(filename) => (
                    Loader { sources, index, phase: LoadPhase::Path { name } },
                    LoadAction::ResolvePath { filename },
                ),
                LoadEvent::RenderFailed(error) => (
                    Loader { sources, index, phase: LoadPhase::Finished },
                    LoadAction::Propagate(error),
                ),
                _ => (
                    Loader { sources, index, phase: LoadPhase::Filename { name } },
                    LoadAction::Ignored,
                ),
            },
            LoadPhase::Path { name } => match event {
                LoadEvent::Resolved(path) => {
                    self.register(name.clone(), path.clone());
                    let probed = path.clone();
                    (
                        Loader { sources, index, phase: LoadPhase::Probe { name, path } },
                        LoadAction::ProbeFile { path: probed },
                    )
                },
                _ => (
                    Loader { sources, index, phase: LoadPhase::Path { name } },
                    LoadAction::Ignored,
                ),
            },
            LoadPhase::Probe { name, path } => match event {
                LoadEvent::Probed(exists) => {
                    if exists {
                        let read = path.clone();
                        (
                            Loader { sources, index, phase: LoadPhase::Read { name, path } },
                            LoadAction::ReadFile { path: read },
                        )
                    } else {
                        turn_to_declaration(sources, index + 1)
                    }
                },
                _ => (
                    Loader { sources, index, phase: LoadPhase::Probe { name, path } },
                    LoadAction::Ignored,
                ),
            },
            LoadPhase::Read { name, path } => match event {
                LoadEvent::Read(content) => {
                    let value = hydrated_text(content.as_str());
                    (
                        Loader { sources, index, phase: LoadPhase::Store },
                        LoadAction::StoreVariable { name, value },
                    )
                },
                LoadEvent::ReadFailed => {
                    let error = Error::file_read_access(sources[index], path);
                    (
                        Loader { sources, index, phase: LoadPhase::Finished },
                        LoadAction::Fail(error),
                    )
                },
                _ => (
                    Loader { sources, index, phase: LoadPhase::Read { name, path } },
                    LoadAction::Ignored,
                ),
            },
            LoadPhase::Store => match event {
                LoadEvent::Stored => turn_to_declaration(sources, index + 1),
                _ => (Loader { sources, index, phase: LoadPhase::Store }, LoadAction::Ignored),
            },
            LoadPhase::Finished => (
                Loader { sources, index, phase: LoadPhase::Finished },
                LoadAction::Ignored,
            ),
        }
    }
}

} // verus!
