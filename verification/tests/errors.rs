use pixi_bridge::error::{
    AccessError, BindingError, CallError, ConversionError, InvokeError, LoadError, ReferenceError,
    Remedy, ShapeError, SymbolError,
};
use pixi_bridge::value::{ForeignReference, Kind, Value};

const STALE: ReferenceError = ReferenceError { reference: ForeignReference { id: 3 } };
const MISMATCH: ConversionError = ConversionError { expected: Kind::Number, found: Kind::Object };

#[test]
fn load_failure_is_retryable() {
    let error = BindingError::from(LoadError { payload: Value::Text("offline".to_string()) });
    assert_eq!(error, BindingError::Load(LoadError { payload: Value::Text("offline".to_string()) }));
    assert_eq!(error.remedy(), Some(Remedy::Retry));
}

#[test]
fn missing_symbol_needs_a_code_fix() {
    let error = BindingError::from(SymbolError::Missing);
    assert_eq!(error, BindingError::Symbol(SymbolError::Missing));
    assert_eq!(error.remedy(), Some(Remedy::CodeFix));
}

#[test]
fn failed_conversion_needs_a_code_fix() {
    let error = BindingError::from(MISMATCH);
    assert_eq!(error, BindingError::Conversion(MISMATCH));
    assert_eq!(error.remedy(), Some(Remedy::CodeFix));
}

#[test]
fn stale_reference_needs_caller_discipline() {
    let error = BindingError::from(STALE);
    assert_eq!(error, BindingError::Reference(STALE));
    assert_eq!(error.remedy(), Some(Remedy::CallerDiscipline));
}

#[test]
fn failed_call_names_no_remedy() {
    let error = BindingError::from(CallError { payload: Value::Null });
    assert_eq!(error, BindingError::Call(CallError { payload: Value::Null }));
    assert_eq!(error.remedy(), None);
}

#[test]
fn narrower_errors_widen_unchanged() {
    assert_eq!(
        BindingError::from(AccessError::Reference(STALE)),
        BindingError::Reference(STALE)
    );
    assert_eq!(
        BindingError::from(AccessError::Conversion(MISMATCH)),
        BindingError::Conversion(MISMATCH)
    );
    assert_eq!(
        BindingError::from(ShapeError::Reference(STALE)),
        BindingError::Reference(STALE)
    );
    assert_eq!(
        BindingError::from(ShapeError::Symbol(SymbolError::Missing)),
        BindingError::Symbol(SymbolError::Missing)
    );
    assert_eq!(
        BindingError::from(InvokeError::Conversion(MISMATCH)),
        BindingError::Conversion(MISMATCH)
    );
    assert_eq!(
        BindingError::from(InvokeError::Call(CallError { payload: Value::Boolean(false) })),
        BindingError::Call(CallError { payload: Value::Boolean(false) })
    );
}
