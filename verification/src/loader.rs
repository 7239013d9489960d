//! Loading the library's script. A load is started by the host, which injects
//! the script and reports how that ended; the load settles exactly once, and
//! only a load that settled well opens the namespace.
use vstd::prelude::*;
use crate::error::{LoadError, SymbolError};
use crate::graph::{GraphView, ObjectGraph};
use crate::namespace::{
    application_options_path,
    application_path,
    lazily_resolved,
    offers_documented_symbols,
    resolve,
    resolved,
    sprite_path,
    NamespaceHandle,
};
use crate::value::{ForeignReference, Value, ValueView};

verus! {

/// How far a load has come.
#[derive(Debug, PartialEq, Eq)]
enum LoadState {
    /// The host has not reported yet.
    Pending,
    /// The script ran, and the library's symbols are defined.
    Loaded,
    /// The script could not be fetched, parsed or run.
    Failed(LoadError),
}

/// How far a load has come: pending, settled well, or failed with the
/// payload that the host reported.
pub ghost enum LoadStateView {
    Pending,
    Loaded,
    Failed(ValueView),
}

spec fn state_view(state: LoadState) -> LoadStateView {
    match state {
        LoadState::Pending => LoadStateView::Pending,
        LoadState::Loaded => LoadStateView::Loaded,
        LoadState::Failed(error) => LoadStateView::Failed(error.payload@),
    }
}

/// One load of the library's script, from its start to its single
/// settlement. It cannot be cancelled: a caller that has lost interest drops
/// it.
#[derive(Debug, PartialEq, Eq)]
pub struct ScriptLoad {
    source: String,
    state: LoadState,
}

pub ghost struct ScriptLoadView {
    pub source: Seq<char>,
    pub state: LoadStateView,
}

impl View for ScriptLoad {
    type V = ScriptLoadView;

    closed spec fn view(&self) -> ScriptLoadView {
        ScriptLoadView { source: self.source@, state: state_view(self.state) }
    }
}

/// The state of a load after the host has reported an outcome: the first
/// report settles the load, and every later one is ignored.
pub open spec fn settled(state: LoadStateView, outcome: Result<(), ValueView>) -> LoadStateView {
    match state {
        LoadStateView::Pending => match outcome {
            Ok(_) => LoadStateView::Loaded,
            Err(payload) => LoadStateView::Failed(payload),
        },
        _ => state,
    }
}

/// The view of what the host reports.
pub open spec fn report_view(outcome: Result<(), Value>) -> Result<(), ValueView> {
    match outcome {
        Ok(_) => Ok(()),
        Err(payload) => Err(payload@),
    }
}

/// What opening the namespace yields: the member `name` of `global`, and that
/// only once the load has settled well.
pub open spec fn opened(
    state: LoadStateView,
    graph: GraphView,
    global: ForeignReference,
    name: Seq<char>,
) -> Result<NamespaceHandle, SymbolError> {
    if state is Loaded {
        match resolved(graph, global, name) {
            Ok(root) => Ok(
                NamespaceHandle {
                    root,
                    application: None,
                    sprite: None,
                    application_options: None,
                },
            ),
            Err(error) => Err(error),
        }
    } else {
        Err(SymbolError::Missing)
    }
}

/// Starts a load of the script at `source`, a URL or the script's own text.
/// The host injects the script; nothing here waits for it.
pub fn load(source: &str) -> (pending: ScriptLoad)
    ensures
        pending@ == (ScriptLoadView { source: source@, state: LoadStateView::Pending }),
{
    ScriptLoad { source: source.to_owned(), state: LoadState::Pending }
}

impl ScriptLoad {
    /// The URL or text that the host is to inject.
    pub fn source(&self) -> (source: &str)
        ensures
            source@ == self@.source,
    {
        self.source.as_str()
    }

    /// Takes the host's report of how the injection ended. The first report
    /// settles the load and is answered with `true`; a later one changes
    /// nothing and is answered with `false`. A failure's payload is kept as
    /// it came.
    pub fn settle(&mut self, outcome: Result<(), Value>) -> (first: bool)
        ensures
            first == (old(self)@.state is Pending),
            final(self)@ == (ScriptLoadView {
                source: old(self)@.source,
                state: settled(old(self)@.state, report_view(outcome)),
            }),
    {
        match self.state {
            LoadState::Pending => {
                match outcome {
                    Ok(_) => {
                        self.state = LoadState::Loaded;
                    },
                    Err(payload) => {
                        self.state = LoadState::Failed(LoadError { payload });
                    },
                }
                true
            },
            _ => false,
        }
    }

    pub fn is_pending(&self) -> (pending: bool)
        ensures
            pending == (self@.state is Pending),
    {
        match self.state {
            LoadState::Pending => true,
            _ => false,
        }
    }

    pub fn is_loaded(&self) -> (loaded: bool)
        ensures
            loaded == (self@.state is Loaded),
    {
        match self.state {
            LoadState::Loaded => true,
            _ => false,
        }
    }

    /// What the load resolved with: nothing while it is pending, then its
    /// success or its failure with the payload that the host reported.
    pub fn poll(&self) -> (resolution: Option<Result<(), LoadError>>)
        ensures
            match self@.state {
                LoadStateView::Pending => resolution is None,
                LoadStateView::Loaded => resolution == Some(Ok::<(), LoadError>(())),
                LoadStateView::Failed(payload) => resolution matches Some(Err(error))
                    && error.payload@ == payload,
            },
    {
        match &self.state {
            LoadState::Pending => None,
            LoadState::Loaded => Some(Ok(())),
            LoadState::Failed(error) => Some(Err(LoadError { payload: error.payload.clone() })),
        }
    }

    /// Opens the library's namespace: the member `name` of the foreign
    /// runtime's global scope. Before the load has settled well there is no
    /// namespace, and the answer is a missing symbol.
    pub fn namespace(&self, graph: &ObjectGraph, global: ForeignReference, name: &str) -> (outcome:
        Result<NamespaceHandle, SymbolError>)
        ensures
            outcome == opened(self@.state, graph@, global, name@),
    {
        if !self.is_loaded() {
            return Err(SymbolError::Missing);
        }
        match resolve(graph, global, name) {
            Ok(root) => Ok(NamespaceHandle::new(root)),
            Err(error) => Err(error),
        }
    }
}

/// A load settles exactly once: after the first report, no report changes
/// what it resolved with.
pub proof fn lemma_load_settles_once(
    state: LoadStateView,
    first: Result<(), ValueView>,
    second: Result<(), ValueView>,
)
    ensures
        !(settled(state, first) is Pending),
        settled(settled(state, first), second) == settled(state, first),
        state is Pending && first is Ok ==> settled(state, first) is Loaded,
        state is Pending && first is Err ==> settled(state, first) == LoadStateView::Failed(
            first->Err_0,
        ),
{
}

/// A load that has not settled well opens no namespace, whatever the foreign
/// heap holds.
pub proof fn lemma_no_namespace_without_load(
    state: LoadStateView,
    graph: GraphView,
    global: ForeignReference,
    name: Seq<char>,
)
    requires
        !(state is Loaded),
    ensures
        opened(state, graph, global, name) == Err::<NamespaceHandle, SymbolError>(
            SymbolError::Missing,
        ),
{
}

/// After a load that settled well, in a runtime whose global scope holds the
/// namespace with every documented constructor, the namespace opens and each
/// of its constructors is found.
pub proof fn lemma_loaded_library_resolves(
    graph: GraphView,
    global: ForeignReference,
    name: Seq<char>,
    root: ForeignReference,
)
    requires
        resolved(graph, global, name) == Ok::<ForeignReference, SymbolError>(root),
        offers_documented_symbols(graph, root),
    ensures
        ({
            let state = settled(LoadStateView::Pending, Ok(()));
            let namespace = opened(state, graph, global, name);
            &&& state is Loaded
            &&& namespace is Ok
            &&& namespace->Ok_0.root == root
            &&& lazily_resolved(
                namespace->Ok_0.application,
                graph,
                root,
                application_path(),
            ) is Ok
            &&& lazily_resolved(namespace->Ok_0.sprite, graph, root, sprite_path()) is Ok
            &&& lazily_resolved(
                namespace->Ok_0.application_options,
                graph,
                root,
                application_options_path(),
            ) is Ok
        }),
{
}

/// After a load that failed, the load stays failed with the payload that was
/// reported, and no namespace opens, whatever the foreign heap holds.
pub proof fn lemma_failed_load_opens_nothing(
    payload: ValueView,
    graph: GraphView,
    global: ForeignReference,
    name: Seq<char>,
)
    ensures
        settled(LoadStateView::Pending, Err(payload)) == LoadStateView::Failed(payload),
        opened(settled(LoadStateView::Pending, Err(payload)), graph, global, name) == Err::<
            NamespaceHandle,
            SymbolError,
        >(SymbolError::Missing),
{
}

} // verus!
