use pixi_bridge::error::ReferenceError;
use pixi_bridge::graph::ObjectGraph;
use pixi_bridge::value::{ForeignReference, Number, Value};

fn num(x: f64) -> Number {
    Number::from_bits(x.to_bits())
}

#[test]
fn new_graph_is_empty() {
    let graph = ObjectGraph::new();
    assert_eq!(graph.len(), 0);
    assert!(!graph.is_live(ForeignReference { id: 0 }));
}

#[test]
fn allocate_hands_out_consecutive_ids() {
    let mut graph = ObjectGraph::new();
    let a = graph.allocate();
    let b = graph.allocate();
    assert_eq!(a, ForeignReference { id: 0 });
    assert_eq!(b, ForeignReference { id: 1 });
    assert_eq!(graph.len(), 2);
    assert!(graph.is_live(a));
    assert!(graph.is_live(b));
}

#[test]
fn absent_property_reads_as_undefined() {
    let mut graph = ObjectGraph::new();
    let a = graph.allocate();
    assert_eq!(graph.read(a, "width"), Ok(Value::Undefined));
    assert!(!graph.has_key(a, "width"));
}

#[test]
fn written_property_is_read_back() {
    let mut graph = ObjectGraph::new();
    let a = graph.allocate();
    assert_eq!(graph.write(a, "width", Value::Number(num(800.0))), Ok(()));
    assert_eq!(graph.read(a, "width"), Ok(Value::Number(num(800.0))));
    assert!(graph.has_key(a, "width"));
    assert!(!graph.has_key(a, "height"));
}

#[test]
fn second_write_replaces_the_first() {
    let mut graph = ObjectGraph::new();
    let a = graph.allocate();
    graph.write(a, "x", Value::Number(num(1.0))).unwrap();
    graph.write(a, "y", Value::Number(num(2.0))).unwrap();
    graph.write(a, "x", Value::Text("moved".to_string())).unwrap();
    assert_eq!(graph.read(a, "x"), Ok(Value::Text("moved".to_string())));
    assert_eq!(graph.read(a, "y"), Ok(Value::Number(num(2.0))));
}

#[test]
fn explicit_undefined_is_a_key() {
    let mut graph = ObjectGraph::new();
    let a = graph.allocate();
    graph.write(a, "width", Value::Undefined).unwrap();
    assert!(graph.has_key(a, "width"));
    assert_eq!(graph.read(a, "width"), Ok(Value::Undefined));
}

#[test]
fn objects_do_not_share_properties() {
    let mut graph = ObjectGraph::new();
    let a = graph.allocate();
    let b = graph.allocate();
    graph.write(a, "x", Value::Number(num(7.0))).unwrap();
    assert_eq!(graph.read(b, "x"), Ok(Value::Undefined));
    assert!(!graph.has_key(b, "x"));
}

#[test]
fn unknown_reference_is_refused() {
    let mut graph = ObjectGraph::new();
    let ghost = ForeignReference { id: 5 };
    assert_eq!(graph.read(ghost, "x"), Err(ReferenceError { reference: ghost }));
    assert_eq!(
        graph.write(ghost, "x", Value::Null),
        Err(ReferenceError { reference: ghost })
    );
    assert!(!graph.has_key(ghost, "x"));
    assert_eq!(graph.len(), 0);
}

#[test]
fn discarded_object_is_refused() {
    let mut graph = ObjectGraph::new();
    let a = graph.allocate();
    let b = graph.allocate();
    graph.write(a, "x", Value::Number(num(1.0))).unwrap();
    graph.write(b, "x", Value::Number(num(2.0))).unwrap();
    graph.discard(a);
    assert!(!graph.is_live(a));
    assert_eq!(graph.read(a, "x"), Err(ReferenceError { reference: a }));
    assert_eq!(
        graph.write(a, "x", Value::Number(num(3.0))),
        Err(ReferenceError { reference: a })
    );
    assert!(!graph.has_key(a, "x"));
    assert!(graph.is_live(b));
    assert_eq!(graph.read(b, "x"), Ok(Value::Number(num(2.0))));
    assert_eq!(graph.len(), 2);
}

#[test]
fn discard_of_unknown_reference_changes_nothing() {
    let mut graph = ObjectGraph::new();
    let a = graph.allocate();
    graph.discard(ForeignReference { id: 10 });
    assert!(graph.is_live(a));
    assert_eq!(graph.len(), 1);
}
