use pixi_bridge::error::ConversionError;
use pixi_bridge::handle::ForeignHandle;
use pixi_bridge::value::{ForeignReference, Kind, Number, Value};

fn num(x: f64) -> Number {
    Number::from_bits(x.to_bits())
}

#[test]
fn number_keeps_its_bits() {
    let n = num(0.5);
    assert_eq!(n.to_bits(), 0x3FE0_0000_0000_0000);
    assert_eq!(f64::from_bits(n.to_bits()), 0.5);
}

#[test]
fn zero_is_positive_zero() {
    assert_eq!(Number::zero().to_bits(), 0);
    assert_eq!(Number::zero(), num(0.0));
    assert!(Number::zero().is_non_negative());
}

#[test]
fn non_negative_numbers() {
    assert!(num(1.0).is_non_negative());
    assert!(num(16.6).is_non_negative());
    assert!(num(f64::INFINITY).is_non_negative());
    assert!(!num(-0.0).is_non_negative());
    assert!(!num(-1.5).is_non_negative());
    assert!(!num(f64::NAN).is_non_negative());
    assert!(!num(f64::NEG_INFINITY).is_non_negative());
}

#[test]
fn kinds_of_values() {
    let r = ForeignReference { id: 3 };
    assert_eq!(Value::Undefined.kind(), Kind::Undefined);
    assert_eq!(Value::Null.kind(), Kind::Null);
    assert_eq!(Value::Boolean(false).kind(), Kind::Boolean);
    assert_eq!(Value::Number(num(2.0)).kind(), Kind::Number);
    assert_eq!(Value::Text("a".to_string()).kind(), Kind::Text);
    assert_eq!(Value::Object(r).kind(), Kind::Object);
    assert_eq!(Value::Function(r).kind(), Kind::Function);
}

#[test]
fn clone_keeps_the_value() {
    let text = Value::Text("bunny.png".to_string());
    assert_eq!(text.clone(), text);
    let object = Value::Object(ForeignReference { id: 9 });
    assert_eq!(object.clone(), object);
    assert_ne!(object.clone(), Value::Function(ForeignReference { id: 9 }));
}

#[test]
fn expect_number_takes_numbers_only() {
    assert_eq!(Value::Number(num(800.0)).expect_number(), Ok(num(800.0)));
    assert_eq!(
        Value::Object(ForeignReference { id: 1 }).expect_number(),
        Err(ConversionError { expected: Kind::Number, found: Kind::Object })
    );
    assert_eq!(
        Value::Text("800".to_string()).expect_number(),
        Err(ConversionError { expected: Kind::Number, found: Kind::Text })
    );
    assert_eq!(
        Value::Undefined.expect_number(),
        Err(ConversionError { expected: Kind::Number, found: Kind::Undefined })
    );
}

#[test]
fn expect_boolean_ignores_truthiness() {
    assert_eq!(Value::Boolean(true).expect_boolean(), Ok(true));
    assert_eq!(Value::Boolean(false).expect_boolean(), Ok(false));
    assert_eq!(
        Value::Number(num(1.0)).expect_boolean(),
        Err(ConversionError { expected: Kind::Boolean, found: Kind::Number })
    );
    assert_eq!(
        Value::Null.expect_boolean(),
        Err(ConversionError { expected: Kind::Boolean, found: Kind::Null })
    );
}

#[test]
fn expect_text_takes_text_only() {
    assert_eq!(Value::Text("view".to_string()).expect_text(), Ok("view".to_string()));
    assert_eq!(Value::Text(String::new()).expect_text(), Ok(String::new()));
    assert_eq!(
        Value::Boolean(true).expect_text(),
        Err(ConversionError { expected: Kind::Text, found: Kind::Boolean })
    );
}

#[test]
fn expect_reference_takes_objects_and_functions() {
    let r = ForeignReference { id: 4 };
    assert_eq!(Value::Object(r).expect_reference(), Ok(r));
    assert_eq!(Value::Function(r).expect_reference(), Ok(r));
    assert_eq!(
        Value::Null.expect_reference(),
        Err(ConversionError { expected: Kind::Object, found: Kind::Null })
    );
    assert_eq!(
        Value::Number(num(4.0)).expect_reference(),
        Err(ConversionError { expected: Kind::Object, found: Kind::Number })
    );
}

#[test]
fn absent_arguments_become_undefined() {
    assert_eq!(Value::from_optional_number(None), Value::Undefined);
    assert_eq!(Value::from_optional_number(Some(num(0.5))), Value::Number(num(0.5)));
    assert_eq!(Value::from_optional_number(Some(Number::zero())), Value::Number(num(0.0)));
    assert_eq!(Value::from_optional_boolean(None), Value::Undefined);
    assert_eq!(Value::from_optional_boolean(Some(false)), Value::Boolean(false));
    assert_eq!(Value::from_text("bunny.png"), Value::Text("bunny.png".to_string()));
}

#[test]
fn handle_from_value() {
    let r = ForeignReference { id: 2 };
    assert_eq!(ForeignHandle::from_value(&Value::Object(r)), Ok(ForeignHandle::new(r)));
    assert_eq!(ForeignHandle::from_value(&Value::Function(r)).unwrap().reference(), r);
    assert_eq!(
        ForeignHandle::from_value(&Value::Undefined),
        Err(ConversionError { expected: Kind::Object, found: Kind::Undefined })
    );
}
