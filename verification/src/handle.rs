//! The generic wrapper primitive: the one place where a foreign value of any
//! kind meets a host value of a fixed type.
use vstd::prelude::*;
use crate::error::{
    AccessError,
    CallError,
    ConversionError,
    InvokeError,
    ReferenceError,
    ShapeError,
    SymbolError,
};
use crate::graph::{GraphView, ObjectGraph};
use crate::value::{ForeignReference, Kind, Number, Value, ValueView};

verus! {

/// Whether a value of kind `found` may stand where `expected` is asked for.
/// A function is an object too; nothing else stands in for another kind.
pub open spec fn kind_fits(expected: Kind, found: Kind) -> bool {
    expected == found || (expected == Kind::Object && found == Kind::Function)
}

/// Whether the object carries a member of the expected kind.
pub open spec fn member_fits(
    graph: GraphView,
    reference: ForeignReference,
    name: Seq<char>,
    expected: Kind,
) -> bool {
    kind_fits(expected, graph.read(reference, name).kind())
}

/// What a typed read of a number yields.
pub open spec fn number_read(graph: GraphView, reference: ForeignReference, name: Seq<char>)
    -> Result<Number, AccessError> {
    if !graph.is_live(reference) {
        Err(AccessError::Reference(ReferenceError { reference }))
    } else {
        match graph.read(reference, name) {
            ValueView::Number(number) => Ok(number),
            other => Err(
                AccessError::Conversion(
                    ConversionError { expected: Kind::Number, found: other.kind() },
                ),
            ),
        }
    }
}

/// What a typed read of a boolean yields.
pub open spec fn boolean_read(graph: GraphView, reference: ForeignReference, name: Seq<char>)
    -> Result<bool, AccessError> {
    if !graph.is_live(reference) {
        Err(AccessError::Reference(ReferenceError { reference }))
    } else {
        match graph.read(reference, name) {
            ValueView::Boolean(flag) => Ok(flag),
            other => Err(
                AccessError::Conversion(
                    ConversionError { expected: Kind::Boolean, found: other.kind() },
                ),
            ),
        }
    }
}

/// What a typed read of text yields.
pub open spec fn text_read(graph: GraphView, reference: ForeignReference, name: Seq<char>)
    -> Result<Seq<char>, AccessError> {
    if !graph.is_live(reference) {
        Err(AccessError::Reference(ReferenceError { reference }))
    } else {
        match graph.read(reference, name) {
            ValueView::Text(text) => Ok(text),
            other => Err(
                AccessError::Conversion(
                    ConversionError { expected: Kind::Text, found: other.kind() },
                ),
            ),
        }
    }
}

/// What a typed read of a nested reference yields.
pub open spec fn reference_read(graph: GraphView, reference: ForeignReference, name: Seq<char>)
    -> Result<ForeignReference, AccessError> {
    if !graph.is_live(reference) {
        Err(AccessError::Reference(ReferenceError { reference }))
    } else {
        match graph.read(reference, name).referent() {
            Some(nested) => Ok(nested),
            None => Err(
                AccessError::Conversion(
                    ConversionError {
                        expected: Kind::Object,
                        found: graph.read(reference, name).kind(),
                    },
                ),
            ),
        }
    }
}

/// What a typed read of an optional number yields: `undefined` reads as
/// absent.
pub open spec fn optional_number_read(
    graph: GraphView,
    reference: ForeignReference,
    name: Seq<char>,
) -> Result<Option<Number>, AccessError> {
    if !graph.is_live(reference) {
        Err(AccessError::Reference(ReferenceError { reference }))
    } else {
        match graph.read(reference, name) {
            ValueView::Undefined => Ok(None),
            ValueView::Number(number) => Ok(Some(number)),
            other => Err(
                AccessError::Conversion(
                    ConversionError { expected: Kind::Number, found: other.kind() },
                ),
            ),
        }
    }
}

/// The heap after an optional number was set: a given number is written, and
/// for an absent one nothing is written at all.
pub open spec fn optional_write(
    graph: GraphView,
    reference: ForeignReference,
    name: Seq<char>,
    number: Option<Number>,
) -> GraphView {
    match number {
        Some(n) => graph.write(reference, name, ValueView::Number(n)),
        None => graph,
    }
}

/// The views of a list of argument values, position by position.
pub open spec fn argument_views(arguments: Seq<Value>) -> Seq<ValueView> {
    arguments.map_values(|value: Value| value@)
}

/// A foreign method call that the host is to perform: the receiver, the
/// method's name, and every argument in its position.
#[derive(Debug, PartialEq, Eq)]
pub struct Invocation {
    pub target: ForeignReference,
    pub method: String,
    pub arguments: Vec<Value>,
}

pub ghost struct InvocationView {
    pub target: ForeignReference,
    pub method: Seq<char>,
    pub arguments: Seq<ValueView>,
}

impl View for Invocation {
    type V = InvocationView;

    open spec fn view(&self) -> InvocationView {
        InvocationView {
            target: self.target,
            method: self.method@,
            arguments: argument_views(self.arguments@),
        }
    }
}

/// A foreign constructor call that the host is to perform.
#[derive(Debug, PartialEq, Eq)]
pub struct Construction {
    pub constructor: ForeignReference,
    pub arguments: Vec<Value>,
}

pub ghost struct ConstructionView {
    pub constructor: ForeignReference,
    pub arguments: Seq<ValueView>,
}

impl View for Construction {
    type V = ConstructionView;

    open spec fn view(&self) -> ConstructionView {
        ConstructionView {
            constructor: self.constructor,
            arguments: argument_views(self.arguments@),
        }
    }
}

/// A typed handle on one foreign object. Copies of a handle refer to the same
/// object: what is written through one is read through every other.
#[derive(Clone, Copy, Debug, PartialEq, Eq, Structural)]
pub struct ForeignHandle {
    pub reference: ForeignReference,
}

impl ForeignHandle {
    pub fn new(reference: ForeignReference) -> (handle: ForeignHandle)
        ensures
            handle.reference == reference,
    {
        ForeignHandle { reference }
    }

    /// Builds a handle from a value that the foreign runtime produced.
    /// Objects and functions give a handle; any other kind is refused.
    pub fn from_value(value: &Value) -> (outcome: Result<ForeignHandle, ConversionError>)
        ensures
            value@.referent() is Some ==> outcome == Ok::<ForeignHandle, ConversionError>(
                ForeignHandle { reference: value@.referent()->Some_0 },
            ),
            value@.referent() is None ==> outcome == Err::<ForeignHandle, ConversionError>(
                ConversionError { expected: Kind::Object, found: value@.kind() },
            ),
    {
        match value.expect_reference() {
            Ok(reference) => Ok(ForeignHandle { reference }),
            Err(error) => Err(error),
        }
    }

    pub fn reference(&self) -> (reference: ForeignReference)
        ensures
            reference == self.reference,
    {
        self.reference
    }

    /// Reads a property as it is, of whatever kind.
    pub fn get_property(&self, graph: &ObjectGraph, name: &str) -> (outcome: Result<
        Value,
        ReferenceError,
    >)
        ensures
            graph@.is_live(self.reference) ==> outcome is Ok && outcome->Ok_0@ == graph@.read(
                self.reference,
                name@,
            ),
            !graph@.is_live(self.reference) ==> outcome == Err::<Value, ReferenceError>(
                ReferenceError { reference: self.reference },
            ),
    {
        graph.read(self.reference, name)
    }

    /// Reads a property as a number.
    pub fn get_number(&self, graph: &ObjectGraph, name: &str) -> (outcome: Result<
        Number,
        AccessError,
    >)
        ensures
            outcome == number_read(graph@, self.reference, name@),
    {
        match graph.read(self.reference, name) {
            Err(error) => Err(AccessError::Reference(error)),
            Ok(value) => match value.expect_number() {
                Ok(number) => Ok(number),
                Err(error) => Err(AccessError::Conversion(error)),
            },
        }
    }

    /// Reads a property as a number that may be absent: `undefined` reads as
    /// `None`.
    pub fn get_optional_number(&self, graph: &ObjectGraph, name: &str) -> (outcome: Result<
        Option<Number>,
        AccessError,
    >)
        ensures
            outcome == optional_number_read(graph@, self.reference, name@),
    {
        match graph.read(self.reference, name) {
            Err(error) => Err(AccessError::Reference(error)),
            Ok(value) => match value {
                Value::Undefined => Ok(None),
                other => match other.expect_number() {
                    Ok(number) => Ok(Some(number)),
                    Err(error) => Err(AccessError::Conversion(error)),
                },
            },
        }
    }

    /// Reads a property as a boolean.
    pub fn get_boolean(&self, graph: &ObjectGraph, name: &str) -> (outcome: Result<
        bool,
        AccessError,
    >)
        ensures
            outcome == boolean_read(graph@, self.reference, name@),
    {
        match graph.read(self.reference, name) {
            Err(error) => Err(AccessError::Reference(error)),
            Ok(value) => match value.expect_boolean() {
                Ok(flag) => Ok(flag),
                Err(error) => Err(AccessError::Conversion(error)),
            },
        }
    }

    /// Reads a property as text.
    pub fn get_text(&self, graph: &ObjectGraph, name: &str) -> (outcome: Result<
        String,
        AccessError,
    >)
        ensures
            match text_read(graph@, self.reference, name@) {
                Ok(text) => outcome is Ok && outcome->Ok_0@ == text,
                Err(error) => outcome == Err::<String, AccessError>(error),
            },
    {
        match graph.read(self.reference, name) {
            Err(error) => Err(AccessError::Reference(error)),
            Ok(value) => match value.expect_text() {
                Ok(text) => Ok(text),
                Err(error) => Err(AccessError::Conversion(error)),
            },
        }
    }

    /// Reads a property as a reference to a nested foreign object.
    pub fn get_reference(&self, graph: &ObjectGraph, name: &str) -> (outcome: Result<
        ForeignReference,
        AccessError,
    >)
        ensures
            outcome == reference_read(graph@, self.reference, name@),
    {
        match graph.read(self.reference, name) {
            Err(error) => Err(AccessError::Reference(error)),
            Ok(value) => match value.expect_reference() {
                Ok(nested) => Ok(nested),
                Err(error) => Err(AccessError::Conversion(error)),
            },
        }
    }

    /// Writes a property. Only a stale reference can make this fail, and then
    /// nothing is written.
    pub fn set_property(&self, graph: &mut ObjectGraph, name: &str, value: Value) -> (outcome:
        Result<(), ReferenceError>)
        ensures
            old(graph)@.is_live(self.reference) ==> outcome is Ok,
            !old(graph)@.is_live(self.reference) ==> outcome == Err::<(), ReferenceError>(
                ReferenceError { reference: self.reference },
            ),
            final(graph)@ == old(graph)@.write(self.reference, name@, value@),
    {
        graph.write(self.reference, name, value)
    }

    /// Writes a number to a property.
    pub fn set_number(&self, graph: &mut ObjectGraph, name: &str, number: Number) -> (outcome:
        Result<(), ReferenceError>)
        ensures
            old(graph)@.is_live(self.reference) ==> outcome is Ok,
            !old(graph)@.is_live(self.reference) ==> outcome == Err::<(), ReferenceError>(
                ReferenceError { reference: self.reference },
            ),
            final(graph)@ == old(graph)@.write(
                self.reference,
                name@,
                ValueView::Number(number),
            ),
    {
        graph.write(self.reference, name, Value::Number(number))
    }

    /// Writes a number to a property where one is given, and writes nothing
    /// where none is: an option left unset never reaches the foreign object,
    /// which keeps its own default.
    pub fn set_optional_number(
        &self,
        graph: &mut ObjectGraph,
        name: &str,
        number: Option<Number>,
    ) -> (outcome: Result<(), ReferenceError>)
        ensures
            old(graph)@.is_live(self.reference) ==> outcome is Ok,
            !old(graph)@.is_live(self.reference) ==> outcome == Err::<(), ReferenceError>(
                ReferenceError { reference: self.reference },
            ),
            final(graph)@ == optional_write(old(graph)@, self.reference, name@, number),
    {
        match number {
            Some(n) => graph.write(self.reference, name, Value::Number(n)),
            None => {
                if graph.is_live(self.reference) {
                    Ok(())
                } else {
                    Err(ReferenceError { reference: self.reference })
                }
            },
        }
    }

    /// Prepares a call of a method of this object with a fixed, explicit
    /// argument list: nothing is dropped, added or reordered.
    pub fn call_method(&self, name: &str, arguments: Vec<Value>) -> (invocation: Invocation)
        ensures
            invocation@ == (InvocationView {
                target: self.reference,
                method: name@,
                arguments: argument_views(arguments@),
            }),
    {
        Invocation { target: self.reference, method: name.to_owned(), arguments }
    }

    /// Prepares a call of this object as a constructor with a fixed, explicit
    /// argument list.
    pub fn construct(&self, arguments: Vec<Value>) -> (construction: Construction)
        ensures
            construction@ == (ConstructionView {
                constructor: self.reference,
                arguments: argument_views(arguments@),
            }),
    {
        Construction { constructor: self.reference, arguments }
    }

    /// Checks that the object carries a member of the expected kind.
    pub fn check_member(&self, graph: &ObjectGraph, name: &str, expected: Kind) -> (outcome:
        Result<(), ShapeError>)
        ensures
            outcome == if !graph@.is_live(self.reference) {
                Err::<(), ShapeError>(
                    ShapeError::Reference(ReferenceError { reference: self.reference }),
                )
            } else if member_fits(graph@, self.reference, name@, expected) {
                Ok::<(), ShapeError>(())
            } else {
                Err::<(), ShapeError>(ShapeError::Symbol(SymbolError::Missing))
            },
    {
        match graph.read(self.reference, name) {
            Err(error) => Err(ShapeError::Reference(error)),
            Ok(value) => {
                let found = value.kind();
                let fits = match (expected, found) {
                    (Kind::Undefined, Kind::Undefined) => true,
                    (Kind::Null, Kind::Null) => true,
                    (Kind::Boolean, Kind::Boolean) => true,
                    (Kind::Number, Kind::Number) => true,
                    (Kind::Text, Kind::Text) => true,
                    (Kind::Object, Kind::Object) => true,
                    (Kind::Object, Kind::Function) => true,
                    (Kind::Function, Kind::Function) => true,
                    _ => false,
                };
                if fits {
                    Ok(())
                } else {
                    Err(ShapeError::Symbol(SymbolError::Missing))
                }
            },
        }
    }
}

/// What a foreign invocation hands back: the value it returned, or the value
/// it raised.
pub type ForeignOutcome = Result<Value, Value>;

/// Interprets the outcome of an invocation that is to return an object. A
/// raised value becomes a `CallError` that carries it untouched; a returned
/// value that is no object or function is a conversion failure.
pub fn returned_reference(outcome: ForeignOutcome) -> (result: Result<
    ForeignReference,
    InvokeError,
>)
    ensures
        match outcome {
            Ok(value) => match value@.referent() {
                Some(reference) => result == Ok::<ForeignReference, InvokeError>(reference),
                None => result == Err::<ForeignReference, InvokeError>(
                    InvokeError::Conversion(
                        ConversionError { expected: Kind::Object, found: value@.kind() },
                    ),
                ),
            },
            Err(raised) => result matches Err(InvokeError::Call(error)) && error.payload
                == raised,
        },
{
    match outcome {
        Ok(value) => match value.expect_reference() {
            Ok(reference) => Ok(reference),
            Err(error) => Err(InvokeError::Conversion(error)),
        },
        Err(raised) => Err(InvokeError::Call(CallError { payload: raised })),
    }
}

/// Interprets the outcome of an invocation whose result is not used. Only a
/// raised value is a failure.
pub fn returned_nothing(outcome: ForeignOutcome) -> (result: Result<(), CallError>)
    ensures
        match outcome {
            Ok(_) => result is Ok,
            Err(raised) => result matches Err(error) && error.payload == raised,
        },
{
    match outcome {
        Ok(_) => Ok(()),
        Err(raised) => Err(CallError { payload: raised }),
    }
}

/// What is written through one handle is read through every handle on the
/// same object.
pub proof fn lemma_write_is_seen_through_alias(
    graph: GraphView,
    first: ForeignHandle,
    second: ForeignHandle,
    name: Seq<char>,
    value: ValueView,
)
    requires
        first.reference == second.reference,
        graph.is_live(first.reference),
    ensures
        graph.write(first.reference, name, value).is_live(second.reference),
        graph.write(first.reference, name, value).has_key(second.reference, name),
        graph.write(first.reference, name, value).read(second.reference, name) == value,
{
}

/// A number that is written through one handle is what a typed read through
/// any handle on the same object yields.
pub proof fn lemma_number_is_seen_through_alias(
    graph: GraphView,
    first: ForeignHandle,
    second: ForeignHandle,
    name: Seq<char>,
    number: Number,
)
    requires
        first.reference == second.reference,
        graph.is_live(first.reference),
    ensures
        number_read(
            graph.write(first.reference, name, ValueView::Number(number)),
            second.reference,
            name,
        ) == Ok::<Number, AccessError>(number),
{
}

/// A write changes one property of one object: every other property, of
/// that object or of another, reads as before, and no object becomes live or
/// stale by it.
pub proof fn lemma_write_touches_one_property(
    graph: GraphView,
    written: ForeignReference,
    name: Seq<char>,
    value: ValueView,
    read: ForeignReference,
    other: Seq<char>,
)
    requires
        read != written || other != name,
    ensures
        graph.write(written, name, value).is_live(read) == graph.is_live(read),
        graph.write(written, name, value).has_key(read, other) == graph.has_key(read, other),
        graph.write(written, name, value).read(read, other) == graph.read(read, other),
{
}

/// An option that is left unset is never written: the foreign object keeps
/// exactly the keys it had. An option that is set to a number is always
/// written, whatever the number, positive zero included.
pub proof fn lemma_only_set_options_are_written(
    graph: GraphView,
    reference: ForeignReference,
    name: Seq<char>,
    number: Option<Number>,
)
    requires
        graph.is_live(reference),
    ensures
        number is None ==> optional_write(graph, reference, name, number) == graph,
        number is None ==> optional_write(graph, reference, name, number).has_key(
            reference,
            name,
        ) == graph.has_key(reference, name),
        number is Some ==> optional_write(graph, reference, name, number).has_key(
            reference,
            name,
        ),
        number is Some ==> optional_write(graph, reference, name, number).read(reference, name)
            == ValueView::Number(number->Some_0),
        optional_write(graph, reference, name, Some(Number { bits: 0 })).has_key(
            reference,
            name,
        ),
{
}

/// On a freshly created object, an option is a key exactly when it was set.
pub proof fn lemma_fresh_object_holds_only_set_options(
    graph: GraphView,
    name: Seq<char>,
    number: Option<Number>,
)
    ensures
        ({
            let fresh = ForeignReference { id: graph.objects.len() as usize };
            graph.objects.len() <= usize::MAX ==> optional_write(
                graph.allocate(),
                fresh,
                name,
                number,
            ).has_key(fresh, name) == (number is Some)
        }),
{
}

} // verus!
