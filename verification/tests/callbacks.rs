use pixi_bridge::callback::{CallbackBridge, CallbackHandle, Dispatch};
use pixi_bridge::error::ConversionError;
use pixi_bridge::facade::Ticker;
use pixi_bridge::handle::ForeignHandle;
use pixi_bridge::value::{ForeignReference, Kind, Number, Value};

fn num(x: f64) -> Number {
    Number::from_bits(x.to_bits())
}

fn shim(id: usize) -> ForeignReference {
    ForeignReference { id }
}

const SCHEDULER: ForeignReference = ForeignReference { id: 1 };

fn ticker() -> Ticker {
    Ticker { handle: ForeignHandle::new(SCHEDULER) }
}

fn handle(id: u64, shim_id: usize) -> CallbackHandle {
    CallbackHandle { id, shim: shim(shim_id), scheduler: SCHEDULER }
}

#[test]
fn new_bridge_calls_nothing() {
    let bridge = CallbackBridge::new();
    assert_eq!(bridge.issued(), 0);
    assert!(bridge.tick(num(1.0)).is_empty());
}

#[test]
fn register_numbers_the_handles() {
    let mut bridge = CallbackBridge::new();
    let first = bridge.register(&ticker(), shim(10)).0;
    let second = bridge.register(&ticker(), shim(20)).0;
    assert_eq!(first, handle(0, 10));
    assert_eq!(second, handle(1, 20));
    assert_eq!(bridge.issued(), 2);
    assert!(bridge.is_registered(first));
    assert!(bridge.is_registered(second));
    assert!(!bridge.is_registered(handle(2, 10)));
}

#[test]
fn tick_calls_in_registration_order() {
    let mut bridge = CallbackBridge::new();
    let first = bridge.register(&ticker(), shim(10)).0;
    let second = bridge.register(&ticker(), shim(20)).0;
    let third = bridge.register(&ticker(), shim(30)).0;
    assert_eq!(
        bridge.tick(num(1.0)),
        vec![
            Dispatch { handle: first, delta: num(1.0) },
            Dispatch { handle: second, delta: num(1.0) },
            Dispatch { handle: third, delta: num(1.0) },
        ]
    );
}

#[test]
fn every_tick_calls_with_its_own_delta() {
    let mut bridge = CallbackBridge::new();
    let token = bridge.register(&ticker(), shim(10)).0;
    for delta in [1.0, 0.0, 0.98, 2.5] {
        let calls = bridge.tick(num(delta));
        assert_eq!(calls, vec![Dispatch { handle: token, delta: num(delta) }]);
        assert!(calls[0].delta.is_non_negative());
    }
}

#[test]
fn unregistered_callback_never_fires_again() {
    let mut bridge = CallbackBridge::new();
    let first = bridge.register(&ticker(), shim(10)).0;
    let second = bridge.register(&ticker(), shim(20)).0;
    let third = bridge.register(&ticker(), shim(30)).0;
    assert!(bridge.unregister(second).is_some());
    assert!(!bridge.is_registered(second));
    for delta in [1.0, 1.1, 0.9] {
        assert_eq!(
            bridge.tick(num(delta)),
            vec![
                Dispatch { handle: first, delta: num(delta) },
                Dispatch { handle: third, delta: num(delta) },
            ]
        );
    }
    assert_eq!(bridge.deliver(second, &vec![Value::Number(num(1.0))]), Ok(None));
}

#[test]
fn unregister_is_idempotent() {
    let mut bridge = CallbackBridge::new();
    let first = bridge.register(&ticker(), shim(10)).0;
    let second = bridge.register(&ticker(), shim(20)).0;
    assert!(bridge.unregister(first).is_some());
    assert_eq!(bridge.unregister(first), None);
    assert_eq!(bridge.unregister(first), None);
    assert_eq!(bridge.tick(num(1.0)), vec![Dispatch { handle: second, delta: num(1.0) }]);
    assert_eq!(bridge.issued(), 2);
}

#[test]
fn unregister_of_unknown_handle_changes_nothing() {
    let mut bridge = CallbackBridge::new();
    let first = bridge.register(&ticker(), shim(10)).0;
    assert_eq!(bridge.unregister(handle(99, 10)), None);
    assert_eq!(bridge.tick(num(1.0)), vec![Dispatch { handle: first, delta: num(1.0) }]);
}

#[test]
fn numbers_are_not_issued_twice() {
    let mut bridge = CallbackBridge::new();
    let first = bridge.register(&ticker(), shim(10)).0;
    bridge.unregister(first);
    let second = bridge.register(&ticker(), shim(10)).0;
    assert_eq!(second.id, 1);
    assert!(!bridge.is_registered(first));
    assert!(bridge.is_registered(second));
    assert_eq!(bridge.tick(num(3.0)), vec![Dispatch { handle: second, delta: num(3.0) }]);
}

#[test]
fn later_registration_is_called_last() {
    let mut bridge = CallbackBridge::new();
    let first = bridge.register(&ticker(), shim(10)).0;
    let second = bridge.register(&ticker(), shim(20)).0;
    bridge.unregister(first);
    let third = bridge.register(&ticker(), shim(10)).0;
    let order: Vec<u64> = bridge.tick(num(1.0)).iter().map(|call| call.handle.id).collect();
    assert_eq!(order, vec![second.id, third.id]);
}

#[test]
fn deliver_converts_the_delta() {
    let mut bridge = CallbackBridge::new();
    let token = bridge.register(&ticker(), shim(10)).0;
    assert_eq!(bridge.deliver(token, &vec![Value::Number(num(1.25))]), Ok(Some(num(1.25))));
    assert_eq!(
        bridge.deliver(token, &vec![Value::Number(num(0.5)), Value::Text("x".to_string())]),
        Ok(Some(num(0.5)))
    );
}

#[test]
fn deliver_refuses_what_is_no_number() {
    let mut bridge = CallbackBridge::new();
    let token = bridge.register(&ticker(), shim(10)).0;
    assert_eq!(
        bridge.deliver(token, &vec![]),
        Err(ConversionError { expected: Kind::Number, found: Kind::Undefined })
    );
    assert_eq!(
        bridge.deliver(token, &vec![Value::Object(shim(3))]),
        Err(ConversionError { expected: Kind::Number, found: Kind::Object })
    );
    assert_eq!(
        bridge.deliver(token, &vec![Value::Text("1".to_string())]),
        Err(ConversionError { expected: Kind::Number, found: Kind::Text })
    );
}

#[test]
fn deliver_to_unregistered_handle_is_nothing() {
    let bridge = CallbackBridge::new();
    let unknown = handle(0, 10);
    assert_eq!(bridge.deliver(unknown, &vec![Value::Number(num(1.0))]), Ok(None));
    assert_eq!(bridge.deliver(unknown, &vec![]), Ok(None));
}

#[test]
fn register_prepares_the_add_call() {
    let mut bridge = CallbackBridge::new();
    let (token, call) = bridge.register(&ticker(), shim(10));
    assert_eq!(token, handle(0, 10));
    assert_eq!(call.target, SCHEDULER);
    assert_eq!(call.method, "add");
    assert_eq!(
        call.arguments,
        vec![Value::Function(shim(10)), Value::Undefined, Value::Undefined]
    );
}

#[test]
fn unregister_prepares_the_remove_call_once() {
    let mut bridge = CallbackBridge::new();
    let (token, _) = bridge.register(&ticker(), shim(10));
    let call = bridge.unregister(token).unwrap();
    assert_eq!(call.target, SCHEDULER);
    assert_eq!(call.method, "remove");
    assert_eq!(call.arguments, vec![Value::Function(shim(10)), Value::Undefined]);
    assert_eq!(bridge.unregister(token), None);
}
