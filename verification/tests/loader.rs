use pixi_bridge::error::{LoadError, SymbolError};
use pixi_bridge::graph::ObjectGraph;
use pixi_bridge::loader::load;
use pixi_bridge::namespace::NamespaceHandle;
use pixi_bridge::value::Value;

const URL: &str = "https://cdnjs.cloudflare.com/ajax/libs/pixi.js/4.8.1/pixi.min.js";

#[test]
fn load_starts_pending() {
    let pending = load(URL);
    assert_eq!(pending.source(), URL);
    assert!(pending.is_pending());
    assert!(!pending.is_loaded());
    assert_eq!(pending.poll(), None);
}

#[test]
fn load_settles_with_success() {
    let mut pending = load(URL);
    assert!(pending.settle(Ok(())));
    assert!(pending.is_loaded());
    assert!(!pending.is_pending());
    assert_eq!(pending.poll(), Some(Ok(())));
    assert_eq!(pending.source(), URL);
}

#[test]
fn load_settles_with_failure() {
    let mut pending = load("missing.js");
    let payload = Value::Text("404".to_string());
    assert!(pending.settle(Err(payload.clone())));
    assert!(!pending.is_loaded());
    assert!(!pending.is_pending());
    assert_eq!(pending.poll(), Some(Err(LoadError { payload })));
    assert_eq!(pending.source(), "missing.js");
}

#[test]
fn load_settles_exactly_once() {
    let mut loaded = load(URL);
    assert!(loaded.settle(Ok(())));
    assert!(!loaded.settle(Err(Value::Text("late".to_string()))));
    assert!(!loaded.settle(Ok(())));
    assert_eq!(loaded.poll(), Some(Ok(())));

    let mut failed = load(URL);
    assert!(failed.settle(Err(Value::Null)));
    assert!(!failed.settle(Ok(())));
    assert_eq!(failed.poll(), Some(Err(LoadError { payload: Value::Null })));
}

#[test]
fn namespace_opens_after_a_load() {
    let mut graph = ObjectGraph::new();
    let global = graph.allocate();
    let root = graph.allocate();
    graph.write(global, "PIXI", Value::Object(root)).unwrap();
    let mut pending = load(URL);
    assert!(pending.settle(Ok(())));
    assert_eq!(pending.namespace(&graph, global, "PIXI"), Ok(NamespaceHandle::new(root)));
}

#[test]
fn namespace_stays_shut_while_pending() {
    let mut graph = ObjectGraph::new();
    let global = graph.allocate();
    let root = graph.allocate();
    graph.write(global, "PIXI", Value::Object(root)).unwrap();
    let pending = load(URL);
    assert_eq!(pending.namespace(&graph, global, "PIXI"), Err(SymbolError::Missing));
}

#[test]
fn namespace_stays_shut_after_a_failure() {
    let mut graph = ObjectGraph::new();
    let global = graph.allocate();
    let root = graph.allocate();
    graph.write(global, "PIXI", Value::Object(root)).unwrap();
    let mut pending = load(URL);
    pending.settle(Err(Value::Text("parse error".to_string())));
    assert_eq!(pending.namespace(&graph, global, "PIXI"), Err(SymbolError::Missing));
}

#[test]
fn namespace_is_missing_where_the_script_defined_none() {
    let mut graph = ObjectGraph::new();
    let global = graph.allocate();
    let mut pending = load(URL);
    pending.settle(Ok(()));
    assert_eq!(pending.namespace(&graph, global, "PIXI"), Err(SymbolError::Missing));
    graph.write(global, "PIXI", Value::Number(pixi_bridge::value::Number::zero())).unwrap();
    assert_eq!(pending.namespace(&graph, global, "PIXI"), Err(SymbolError::Missing));
}
