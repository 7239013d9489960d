//! The error taxonomy of the binding layer. No layer recovers from any of
//! these: each is handed to the caller as it was raised.
use vstd::prelude::*;
use vstd::std_specs::convert::FromSpecImpl;
use crate::value::{ForeignReference, Kind, Value};

verus! {

/// The script could not be fetched, parsed or executed. The payload is the
/// foreign runtime's diagnostic, forwarded without interpretation.
#[derive(Debug, PartialEq, Eq)]
pub struct LoadError {
    pub payload: Value,
}

/// An expected member of a namespace is absent or of the wrong kind.
#[derive(Clone, Copy, Debug, PartialEq, Eq, Structural)]
pub enum SymbolError {
    Missing,
}

/// A foreign value's runtime kind did not match the host type asked for.
#[derive(Clone, Copy, Debug, PartialEq, Eq, Structural)]
pub struct ConversionError {
    pub expected: Kind,
    pub found: Kind,
}

/// An operation was attempted through a reference that the foreign runtime
/// no longer backs.
#[derive(Clone, Copy, Debug, PartialEq, Eq, Structural)]
pub struct ReferenceError {
    pub reference: ForeignReference,
}

/// A foreign invocation failed. The payload is the foreign runtime's
/// diagnostic, forwarded without interpretation.
#[derive(Debug, PartialEq, Eq)]
pub struct CallError {
    pub payload: Value,
}

/// What a typed property read can fail with.
#[derive(Clone, Copy, Debug, PartialEq, Eq, Structural)]
pub enum AccessError {
    Reference(ReferenceError),
    Conversion(ConversionError),
}

/// What wrapping a reference in a typed facade can fail with: the reference
/// is stale, or the object lacks a member of the shape that the facade
/// stands for.
#[derive(Clone, Copy, Debug, PartialEq, Eq, Structural)]
pub enum ShapeError {
    Reference(ReferenceError),
    Symbol(SymbolError),
}

/// What interpreting the outcome of a foreign invocation can fail with: the
/// foreign code raised, or it returned a value of the wrong kind.
#[derive(Debug, PartialEq, Eq)]
pub enum InvokeError {
    Call(CallError),
    Conversion(ConversionError),
}

/// Any failure of the binding layer, as the layer that met it raised it.
#[derive(Debug, PartialEq, Eq)]
pub enum BindingError {
    Load(LoadError),
    Symbol(SymbolError),
    Conversion(ConversionError),
    Reference(ReferenceError),
    Call(CallError),
}

/// What a caller can do about a failure.
#[derive(Clone, Copy, Debug, PartialEq, Eq, Structural)]
pub enum Remedy {
    /// The whole load may be tried again.
    Retry,
    /// The binding and the library do not fit: the code has to change.
    CodeFix,
    /// A stale handle was used: the caller has to keep its handles fresh.
    CallerDiscipline,
}

impl BindingError {
    /// The remedy for each kind of failure. A failed load can be retried; a
    /// missing symbol and a failed conversion show a mismatch between
    /// binding and library; a stale reference is the caller's to avoid. For
    /// a failed call there is none to name: what the foreign code raised is
    /// opaque.
    pub open spec fn remedy_of(self) -> Option<Remedy> {
        match self {
            BindingError::Load(_) => Some(Remedy::Retry),
            BindingError::Symbol(_) => Some(Remedy::CodeFix),
            BindingError::Conversion(_) => Some(Remedy::CodeFix),
            BindingError::Reference(_) => Some(Remedy::CallerDiscipline),
            BindingError::Call(_) => None,
        }
    }

    pub fn remedy(&self) -> (remedy: Option<Remedy>)
        ensures
            remedy == self.remedy_of(),
    {
        match self {
            BindingError::Load(_) => Some(Remedy::Retry),
            BindingError::Symbol(_) => Some(Remedy::CodeFix),
            BindingError::Conversion(_) => Some(Remedy::CodeFix),
            BindingError::Reference(_) => Some(Remedy::CallerDiscipline),
            BindingError::Call(_) => None,
        }
    }
}

impl From<LoadError> for BindingError {
    fn from(error: LoadError) -> (widened: BindingError) {
        BindingError::Load(error)
    }
}

impl FromSpecImpl<LoadError> for BindingError {
    open spec fn obeys_from_spec() -> bool {
        true
    }

    open spec fn from_spec(error: LoadError) -> BindingError {
        BindingError::Load(error)
    }
}

impl From<SymbolError> for BindingError {
    fn from(error: SymbolError) -> (widened: BindingError) {
        BindingError::Symbol(error)
    }
}

impl FromSpecImpl<SymbolError> for BindingError {
    open spec fn obeys_from_spec() -> bool {
        true
    }

    open spec fn from_spec(error: SymbolError) -> BindingError {
        BindingError::Symbol(error)
    }
}

impl From<ConversionError> for BindingError {
    fn from(error: ConversionError) -> (widened: BindingError) {
        BindingError::Conversion(error)
    }
}

impl FromSpecImpl<ConversionError> for BindingError {
    open spec fn obeys_from_spec() -> bool {
        true
    }

    open spec fn from_spec(error: ConversionError) -> BindingError {
        BindingError::Conversion(error)
    }
}

impl From<ReferenceError> for BindingError {
    fn from(error: ReferenceError) -> (widened: BindingError) {
        BindingError::Reference(error)
    }
}

impl FromSpecImpl<ReferenceError> for BindingError {
    open spec fn obeys_from_spec() -> bool {
        true
    }

    open spec fn from_spec(error: ReferenceError) -> BindingError {
        BindingError::Reference(error)
    }
}

impl From<CallError> for BindingError {
    fn from(error: CallError) -> (widened: BindingError) {
        BindingError::Call(error)
    }
}

impl FromSpecImpl<CallError> for BindingError {
    open spec fn obeys_from_spec() -> bool {
        true
    }

    open spec fn from_spec(error: CallError) -> BindingError {
        BindingError::Call(error)
    }
}

impl From<AccessError> for BindingError {
    fn from(error: AccessError) -> (widened: BindingError) {
        match error {
            AccessError::Reference(inner) => BindingError::Reference(inner),
            AccessError::Conversion(inner) => BindingError::Conversion(inner),
        }
    }
}

impl FromSpecImpl<AccessError> for BindingError {
    open spec fn obeys_from_spec() -> bool {
        true
    }

    open spec fn from_spec(error: AccessError) -> BindingError {
        match error {
            AccessError::Reference(inner) => BindingError::Reference(inner),
            AccessError::Conversion(inner) => BindingError::Conversion(inner),
        }
    }
}

impl From<ShapeError> for BindingError {
    fn from(error: ShapeError) -> (widened: BindingError) {
        match error {
            ShapeError::Reference(inner) => BindingError::Reference(inner),
            ShapeError::Symbol(inner) => BindingError::Symbol(inner),
        }
    }
}

impl FromSpecImpl<ShapeError> for BindingError {
    open spec fn obeys_from_spec() -> bool {
        true
    }

    open spec fn from_spec(error: ShapeError) -> BindingError {
        match error {
            ShapeError::Reference(inner) => BindingError::Reference(inner),
            ShapeError::Symbol(inner) => BindingError::Symbol(inner),
        }
    }
}

impl From<InvokeError> for BindingError {
    fn from(error: InvokeError) -> (widened: BindingError) {
        match error {
            InvokeError::Call(inner) => BindingError::Call(inner),
            InvokeError::Conversion(inner) => BindingError::Conversion(inner),
        }
    }
}

impl FromSpecImpl<InvokeError> for BindingError {
    open spec fn obeys_from_spec() -> bool {
        true
    }

    open spec fn from_spec(error: InvokeError) -> BindingError {
        match error {
            InvokeError::Call(inner) => BindingError::Call(inner),
            InvokeError::Conversion(inner) => BindingError::Conversion(inner),
        }
    }
}

} // verus!
