//! Plain images of foreign values.
use vstd::prelude::*;
use crate::error::ConversionError;

verus! {

/// A foreign number, held as the bit pattern of an IEEE 754 binary64 value.
#[derive(Clone, Copy, Debug, PartialEq, Eq, Structural)]
pub struct Number {
    pub bits: u64,
}

/// The bit pattern of positive infinity: the largest pattern that is neither
/// negative nor a NaN.
pub const POSITIVE_INFINITY_BITS: u64 = 0x7FF0_0000_0000_0000;

impl Number {
    pub open spec fn non_negative(self) -> bool {
        self.bits <= POSITIVE_INFINITY_BITS
    }

    pub fn from_bits(bits: u64) -> (number: Number)
        ensures
            number.bits == bits,
    {
        Number { bits }
    }

    pub fn to_bits(self) -> (bits: u64)
        ensures
            bits == self.bits,
    {
        self.bits
    }

    /// Positive zero, the number that the foreign runtime treats as falsy.
    pub fn zero() -> (number: Number)
        ensures
            number.bits == 0,
            number.non_negative(),
    {
        Number { bits: 0 }
    }

    /// Whether the number is at least positive zero: its sign bit is clear and
    /// it is not a NaN.
    pub fn is_non_negative(self) -> (answer: bool)
        ensures
            answer == self.non_negative(),
    {
        self.bits <= POSITIVE_INFINITY_BITS
    }
}

/// An opaque handle to an object of the foreign heap. Two references are the
/// same object exactly when their ids are equal.
#[derive(Clone, Copy, Debug, PartialEq, Eq, Structural)]
pub struct ForeignReference {
    pub id: usize,
}

/// The runtime kind of a foreign value.
#[derive(Clone, Copy, Debug, PartialEq, Eq, Structural)]
pub enum Kind {
    Undefined,
    Null,
    Boolean,
    Number,
    Text,
    Object,
    Function,
}

/// The host's image of one foreign value.
#[derive(Debug, PartialEq, Eq)]
pub enum Value {
    Undefined,
    Null,
    Boolean(bool),
    Number(Number),
    Text(String),
    Object(ForeignReference),
    Function(ForeignReference),
}

/// The mathematical content of a [`Value`].
pub ghost enum ValueView {
    Undefined,
    Null,
    Boolean(bool),
    Number(Number),
    Text(Seq<char>),
    Object(ForeignReference),
    Function(ForeignReference),
}

impl ValueView {
    pub open spec fn kind(self) -> Kind {
        match self {
            ValueView::Undefined => Kind::Undefined,
            ValueView::Null => Kind::Null,
            ValueView::Boolean(_) => Kind::Boolean,
            ValueView::Number(_) => Kind::Number,
            ValueView::Text(_) => Kind::Text,
            ValueView::Object(_) => Kind::Object,
            ValueView::Function(_) => Kind::Function,
        }
    }

    /// The object that the value refers to, where it refers to one.
    pub open spec fn referent(self) -> Option<ForeignReference> {
        match self {
            ValueView::Object(reference) => Some(reference),
            ValueView::Function(reference) => Some(reference),
            _ => None,
        }
    }
}

/// The argument that stands for an optional number: the number, or an
/// explicit `undefined`.
pub open spec fn optional_number_view(number: Option<Number>) -> ValueView {
    match number {
        Some(n) => ValueView::Number(n),
        None => ValueView::Undefined,
    }
}

/// The argument that stands for an optional boolean: the boolean, or an
/// explicit `undefined`.
pub open spec fn optional_boolean_view(flag: Option<bool>) -> ValueView {
    match flag {
        Some(b) => ValueView::Boolean(b),
        None => ValueView::Undefined,
    }
}

impl View for Value {
    type V = ValueView;

    open spec fn view(&self) -> ValueView {
        match self {
            Value::Undefined => ValueView::Undefined,
            Value::Null => ValueView::Null,
            Value::Boolean(flag) => ValueView::Boolean(*flag),
            Value::Number(number) => ValueView::Number(*number),
            Value::Text(text) => ValueView::Text(text@),
            Value::Object(reference) => ValueView::Object(*reference),
            Value::Function(reference) => ValueView::Function(*reference),
        }
    }
}

impl Clone for Value {
    fn clone(&self) -> (copy: Value)
        ensures
            copy@ == self@,
    {
        match self {
            Value::Undefined => Value::Undefined,
            Value::Null => Value::Null,
            Value::Boolean(flag) => Value::Boolean(*flag),
            Value::Number(number) => Value::Number(*number),
            Value::Text(text) => Value::Text(text.clone()),
            Value::Object(reference) => Value::Object(*reference),
            Value::Function(reference) => Value::Function(*reference),
        }
    }
}

impl Value {
    pub fn kind(&self) -> (kind: Kind)
        ensures
            kind == self@.kind(),
    {
        match self {
            Value::Undefined => Kind::Undefined,
            Value::Null => Kind::Null,
            Value::Boolean(_) => Kind::Boolean,
            Value::Number(_) => Kind::Number,
            Value::Text(_) => Kind::Text,
            Value::Object(_) => Kind::Object,
            Value::Function(_) => Kind::Function,
        }
    }

    /// Reads the value as a number. Only a value of kind `Number` converts.
    pub fn expect_number(&self) -> (outcome: Result<Number, ConversionError>)
        ensures
            self@ is Number ==> outcome == Ok::<Number, ConversionError>(self@->Number_0),
            !(self@ is Number) ==> outcome == Err::<Number, ConversionError>(
                ConversionError { expected: Kind::Number, found: self@.kind() },
            ),
    {
        match self {
            Value::Number(number) => Ok(*number),
            _ => Err(ConversionError { expected: Kind::Number, found: self.kind() }),
        }
    }

    /// Reads the value as a boolean. Only a value of kind `Boolean` converts:
    /// truthiness is never consulted.
    pub fn expect_boolean(&self) -> (outcome: Result<bool, ConversionError>)
        ensures
            self@ is Boolean ==> outcome == Ok::<bool, ConversionError>(self@->Boolean_0),
            !(self@ is Boolean) ==> outcome == Err::<bool, ConversionError>(
                ConversionError { expected: Kind::Boolean, found: self@.kind() },
            ),
    {
        match self {
            Value::Boolean(flag) => Ok(*flag),
            _ => Err(ConversionError { expected: Kind::Boolean, found: self.kind() }),
        }
    }

    /// Reads the value as text. Only a value of kind `Text` converts.
    pub fn expect_text(&self) -> (outcome: Result<String, ConversionError>)
        ensures
            self@ is Text ==> outcome is Ok && outcome->Ok_0@ == self@->Text_0,
            !(self@ is Text) ==> outcome == Err::<String, ConversionError>(
                ConversionError { expected: Kind::Text, found: self@.kind() },
            ),
    {
        match self {
            Value::Text(text) => Ok(text.clone()),
            _ => Err(ConversionError { expected: Kind::Text, found: self.kind() }),
        }
    }

    /// Reads the value as a reference to a foreign object. Objects and
    /// functions convert; primitives, `null` and `undefined` do not.
    pub fn expect_reference(&self) -> (outcome: Result<ForeignReference, ConversionError>)
        ensures
            self@.referent() is Some ==> outcome == Ok::<ForeignReference, ConversionError>(
                self@.referent()->Some_0,
            ),
            self@.referent() is None ==> outcome == Err::<ForeignReference, ConversionError>(
                ConversionError { expected: Kind::Object, found: self@.kind() },
            ),
    {
        match self {
            Value::Object(reference) => Ok(*reference),
            Value::Function(reference) => Ok(*reference),
            _ => Err(ConversionError { expected: Kind::Object, found: self.kind() }),
        }
    }

    /// Marshals an optional number into an argument position: an absent one
    /// becomes an explicit `undefined`, so that later arguments keep their
    /// positions.
    pub fn from_optional_number(number: Option<Number>) -> (value: Value)
        ensures
            value@ == optional_number_view(number),
    {
        match number {
            Some(n) => Value::Number(n),
            None => Value::Undefined,
        }
    }

    /// Marshals an optional boolean into an argument position: an absent one
    /// becomes an explicit `undefined`.
    pub fn from_optional_boolean(flag: Option<bool>) -> (value: Value)
        ensures
            value@ == optional_boolean_view(flag),
    {
        match flag {
            Some(b) => Value::Boolean(b),
            None => Value::Undefined,
        }
    }

    /// Marshals text into an argument position.
    pub fn from_text(text: &str) -> (value: Value)
        ensures
            value@ == ValueView::Text(text@),
    {
        Value::Text(text.to_owned())
    }
}

} // verus!
