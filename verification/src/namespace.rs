//! Locating the library's members in the foreign runtime's scope. A member
//! that is absent, or of the wrong kind, is an explicit failure here and
//! never a surprise at a later call.
use vstd::prelude::*;
use crate::error::SymbolError;
use crate::graph::{GraphView, ObjectGraph};
use crate::handle::ForeignHandle;
use crate::value::{ForeignReference, Value, ValueView};

verus! {

/// What looking up `path` on `root` yields: the object or function stored
/// there. A stale root, an absent property and a property that holds a
/// primitive are all a missing symbol.
pub open spec fn resolved(graph: GraphView, root: ForeignReference, path: Seq<char>) -> Result<
    ForeignReference,
    SymbolError,
> {
    match graph.read(root, path).referent() {
        Some(member) => Ok(member),
        None => Err(SymbolError::Missing),
    }
}

/// What looking up a function at `path` on `root` yields. Anything but a
/// function is a missing symbol.
pub open spec fn resolved_function(graph: GraphView, root: ForeignReference, path: Seq<char>)
    -> Result<ForeignReference, SymbolError> {
    match graph.read(root, path) {
        ValueView::Function(member) => Ok(member),
        _ => Err(SymbolError::Missing),
    }
}

/// Looks up a member of `root` that is an object or a function.
pub fn resolve(graph: &ObjectGraph, root: ForeignReference, path: &str) -> (outcome: Result<
    ForeignReference,
    SymbolError,
>)
    ensures
        outcome == resolved(graph@, root, path@),
{
    match graph.read(root, path) {
        Ok(value) => match value.expect_reference() {
            Ok(member) => Ok(member),
            Err(_) => Err(SymbolError::Missing),
        },
        Err(_) => Err(SymbolError::Missing),
    }
}

/// Looks up a member of `root` that is a function: a constructor or a
/// factory.
pub fn resolve_function(graph: &ObjectGraph, root: ForeignReference, path: &str) -> (outcome:
    Result<ForeignReference, SymbolError>)
    ensures
        outcome == resolved_function(graph@, root, path@),
{
    match graph.read(root, path) {
        Ok(Value::Function(member)) => Ok(member),
        _ => Err(SymbolError::Missing),
    }
}

/// The name of the application constructor in the library's namespace.
pub open spec fn application_path() -> Seq<char> {
    "Application"@
}

/// The name of the sprite constructor in the library's namespace.
pub open spec fn sprite_path() -> Seq<char> {
    "Sprite"@
}

/// The name of the application options constructor in the library's
/// namespace.
pub open spec fn application_options_path() -> Seq<char> {
    "ApplicationOptions"@
}

/// Whether the namespace at `root` offers every constructor that the facades
/// are written against.
pub open spec fn offers_documented_symbols(graph: GraphView, root: ForeignReference) -> bool {
    &&& resolved_function(graph, root, application_path()) is Ok
    &&& resolved_function(graph, root, sprite_path()) is Ok
    &&& resolved_function(graph, root, application_options_path()) is Ok
}

/// The library's root object, with the members that were already looked up.
/// A member is looked up on first use and kept: later uses answer from what
/// was kept, without asking the foreign runtime again.
#[derive(Clone, Copy, Debug, PartialEq, Eq, Structural)]
pub struct NamespaceHandle {
    pub root: ForeignReference,
    pub application: Option<ForeignReference>,
    pub sprite: Option<ForeignReference>,
    pub application_options: Option<ForeignReference>,
}

/// What a lazy lookup answers: what was kept, or else what the foreign
/// runtime holds now.
pub open spec fn lazily_resolved(
    kept: Option<ForeignReference>,
    graph: GraphView,
    root: ForeignReference,
    path: Seq<char>,
) -> Result<ForeignReference, SymbolError> {
    match kept {
        Some(member) => Ok(member),
        None => resolved_function(graph, root, path),
    }
}

/// What a lazy lookup keeps: a success, never a failure, so that a failed
/// lookup may be tried again.
pub open spec fn kept_after(
    kept: Option<ForeignReference>,
    graph: GraphView,
    root: ForeignReference,
    path: Seq<char>,
) -> Option<ForeignReference> {
    match lazily_resolved(kept, graph, root, path) {
        Ok(member) => Some(member),
        Err(_) => None,
    }
}

fn lazy_member(
    kept: Option<ForeignReference>,
    graph: &ObjectGraph,
    root: ForeignReference,
    path: &str,
) -> (outcome: Result<ForeignReference, SymbolError>)
    ensures
        outcome == lazily_resolved(kept, graph@, root, path@),
{
    match kept {
        Some(member) => Ok(member),
        None => resolve_function(graph, root, path),
    }
}

fn keep(outcome: Result<ForeignReference, SymbolError>) -> (kept: Option<ForeignReference>)
    ensures
        kept == match outcome {
            Ok(member) => Some(member),
            Err(_) => None::<ForeignReference>,
        },
{
    match outcome {
        Ok(member) => Some(member),
        Err(_) => None,
    }
}

fn as_handle(outcome: Result<ForeignReference, SymbolError>) -> (handle: Result<
    ForeignHandle,
    SymbolError,
>)
    ensures
        handle == match outcome {
            Ok(member) => Ok::<ForeignHandle, SymbolError>(ForeignHandle { reference: member }),
            Err(error) => Err::<ForeignHandle, SymbolError>(error),
        },
{
    match outcome {
        Ok(member) => Ok(ForeignHandle { reference: member }),
        Err(error) => Err(error),
    }
}

impl NamespaceHandle {
    /// Wraps the library's root object. Nothing is looked up yet.
    pub fn new(root: ForeignReference) -> (namespace: NamespaceHandle)
        ensures
            namespace == (NamespaceHandle {
                root,
                application: None,
                sprite: None,
                application_options: None,
            }),
    {
        NamespaceHandle { root, application: None, sprite: None, application_options: None }
    }

    /// The application constructor.
    pub fn application(&mut self, graph: &ObjectGraph) -> (outcome: Result<
        ForeignHandle,
        SymbolError,
    >)
        ensures
            outcome == match lazily_resolved(
                old(self).application,
                graph@,
                old(self).root,
                application_path(),
            ) {
                Ok(member) => Ok::<ForeignHandle, SymbolError>(
                    ForeignHandle { reference: member },
                ),
                Err(error) => Err::<ForeignHandle, SymbolError>(error),
            },
            *final(self) == (NamespaceHandle {
                application: kept_after(
                    old(self).application,
                    graph@,
                    old(self).root,
                    application_path(),
                ),
                ..*old(self)
            }),
    {
        let found = lazy_member(self.application, graph, self.root, "Application");
        self.application = keep(found);
        as_handle(found)
    }

    /// The sprite constructor, which carries the sprite factories.
    pub fn sprite(&mut self, graph: &ObjectGraph) -> (outcome: Result<ForeignHandle, SymbolError>)
        ensures
            outcome == match lazily_resolved(
                old(self).sprite,
                graph@,
                old(self).root,
                sprite_path(),
            ) {
                Ok(member) => Ok::<ForeignHandle, SymbolError>(
                    ForeignHandle { reference: member },
                ),
                Err(error) => Err::<ForeignHandle, SymbolError>(error),
            },
            *final(self) == (NamespaceHandle {
                sprite: kept_after(old(self).sprite, graph@, old(self).root, sprite_path()),
                ..*old(self)
            }),
    {
        let found = lazy_member(self.sprite, graph, self.root, "Sprite");
        self.sprite = keep(found);
        as_handle(found)
    }

    /// The application options constructor.
    pub fn application_options(&mut self, graph: &ObjectGraph) -> (outcome: Result<
        ForeignHandle,
        SymbolError,
    >)
        ensures
            outcome == match lazily_resolved(
                old(self).application_options,
                graph@,
                old(self).root,
                application_options_path(),
            ) {
                Ok(member) => Ok::<ForeignHandle, SymbolError>(
                    ForeignHandle { reference: member },
                ),
                Err(error) => Err::<ForeignHandle, SymbolError>(error),
            },
            *final(self) == (NamespaceHandle {
                application_options: kept_after(
                    old(self).application_options,
                    graph@,
                    old(self).root,
                    application_options_path(),
                ),
                ..*old(self)
            }),
    {
        let found = lazy_member(
            self.application_options,
            graph,
            self.root,
            "ApplicationOptions",
        );
        self.application_options = keep(found);
        as_handle(found)
    }
}

/// A namespace that has looked nothing up yet finds every documented
/// constructor in a runtime that offers them all.
pub proof fn lemma_documented_symbols_resolve(graph: GraphView, root: ForeignReference)
    requires
        offers_documented_symbols(graph, root),
    ensures
        lazily_resolved(None, graph, root, application_path()) is Ok,
        lazily_resolved(None, graph, root, sprite_path()) is Ok,
        lazily_resolved(None, graph, root, application_options_path()) is Ok,
{
}

/// Once a member was found, every later lookup of it answers with the same
/// reference, whatever has become of the foreign heap since.
pub proof fn lemma_kept_member_is_stable(
    kept: Option<ForeignReference>,
    first: GraphView,
    later: GraphView,
    root: ForeignReference,
    path: Seq<char>,
)
    requires
        lazily_resolved(kept, first, root, path) is Ok,
    ensures
        lazily_resolved(kept_after(kept, first, root, path), later, root, path)
            == lazily_resolved(kept, first, root, path),
{
}

/// A lookup through a root that the foreign runtime does not back, as before
/// any script was loaded, is a missing symbol.
pub proof fn lemma_stale_root_resolves_nothing(
    graph: GraphView,
    root: ForeignReference,
    path: Seq<char>,
)
    requires
        !graph.is_live(root),
    ensures
        resolved(graph, root, path) == Err::<ForeignReference, SymbolError>(SymbolError::Missing),
        resolved_function(graph, root, path) == Err::<ForeignReference, SymbolError>(
            SymbolError::Missing,
        ),
{
}

} // verus!
