use pixi_bridge::error::SymbolError;
use pixi_bridge::graph::ObjectGraph;
use pixi_bridge::handle::ForeignHandle;
use pixi_bridge::namespace::{resolve, resolve_function, NamespaceHandle};
use pixi_bridge::value::{ForeignReference, Number, Value};

fn library(graph: &mut ObjectGraph) -> (ForeignReference, [ForeignReference; 3]) {
    let root = graph.allocate();
    let application = graph.allocate();
    let sprite = graph.allocate();
    let options = graph.allocate();
    graph.write(root, "Application", Value::Function(application)).unwrap();
    graph.write(root, "Sprite", Value::Function(sprite)).unwrap();
    graph.write(root, "ApplicationOptions", Value::Function(options)).unwrap();
    (root, [application, sprite, options])
}

#[test]
fn resolve_finds_objects_and_functions() {
    let mut graph = ObjectGraph::new();
    let root = graph.allocate();
    let member = graph.allocate();
    let function = graph.allocate();
    graph.write(root, "loader", Value::Object(member)).unwrap();
    graph.write(root, "Sprite", Value::Function(function)).unwrap();
    assert_eq!(resolve(&graph, root, "loader"), Ok(member));
    assert_eq!(resolve(&graph, root, "Sprite"), Ok(function));
    assert_eq!(resolve_function(&graph, root, "Sprite"), Ok(function));
}

#[test]
fn resolve_of_absent_member_is_missing() {
    let mut graph = ObjectGraph::new();
    let root = graph.allocate();
    assert_eq!(resolve(&graph, root, "Sprite"), Err(SymbolError::Missing));
    assert_eq!(resolve_function(&graph, root, "Sprite"), Err(SymbolError::Missing));
}

#[test]
fn resolve_of_wrong_kind_is_missing() {
    let mut graph = ObjectGraph::new();
    let root = graph.allocate();
    let member = graph.allocate();
    graph.write(root, "VERSION", Value::Text("4.8.1".to_string())).unwrap();
    graph.write(root, "Sprite", Value::Undefined).unwrap();
    graph.write(root, "loader", Value::Object(member)).unwrap();
    graph.write(root, "count", Value::Number(Number::zero())).unwrap();
    assert_eq!(resolve(&graph, root, "VERSION"), Err(SymbolError::Missing));
    assert_eq!(resolve(&graph, root, "Sprite"), Err(SymbolError::Missing));
    assert_eq!(resolve(&graph, root, "count"), Err(SymbolError::Missing));
    assert_eq!(resolve_function(&graph, root, "loader"), Err(SymbolError::Missing));
}

#[test]
fn resolve_before_anything_was_loaded_is_missing() {
    let graph = ObjectGraph::new();
    let nowhere = ForeignReference { id: 0 };
    assert_eq!(resolve(&graph, nowhere, "Application"), Err(SymbolError::Missing));
    assert_eq!(resolve_function(&graph, nowhere, "Application"), Err(SymbolError::Missing));
    let mut namespace = NamespaceHandle::new(nowhere);
    assert_eq!(namespace.application(&graph), Err(SymbolError::Missing));
    assert_eq!(namespace.sprite(&graph), Err(SymbolError::Missing));
    assert_eq!(namespace.application_options(&graph), Err(SymbolError::Missing));
}

#[test]
fn resolve_through_discarded_root_is_missing() {
    let mut graph = ObjectGraph::new();
    let (root, _) = library(&mut graph);
    graph.discard(root);
    assert_eq!(resolve(&graph, root, "Application"), Err(SymbolError::Missing));
}

#[test]
fn namespace_finds_the_documented_symbols() {
    let mut graph = ObjectGraph::new();
    let (root, [application, sprite, options]) = library(&mut graph);
    let mut namespace = NamespaceHandle::new(root);
    assert_eq!(namespace.application, None);
    assert_eq!(namespace.application(&graph), Ok(ForeignHandle::new(application)));
    assert_eq!(namespace.sprite(&graph), Ok(ForeignHandle::new(sprite)));
    assert_eq!(namespace.application_options(&graph), Ok(ForeignHandle::new(options)));
    assert_eq!(
        namespace,
        NamespaceHandle {
            root,
            application: Some(application),
            sprite: Some(sprite),
            application_options: Some(options),
        }
    );
}

#[test]
fn namespace_answers_from_what_it_kept() {
    let mut graph = ObjectGraph::new();
    let (root, [application, _, _]) = library(&mut graph);
    let mut namespace = NamespaceHandle::new(root);
    assert_eq!(namespace.application(&graph), Ok(ForeignHandle::new(application)));
    let replacement = graph.allocate();
    graph.write(root, "Application", Value::Function(replacement)).unwrap();
    assert_eq!(namespace.application(&graph), Ok(ForeignHandle::new(application)));
    graph.discard(root);
    assert_eq!(namespace.application(&graph), Ok(ForeignHandle::new(application)));
    assert_eq!(namespace.sprite(&graph), Err(SymbolError::Missing));
}

#[test]
fn namespace_keeps_no_failure() {
    let mut graph = ObjectGraph::new();
    let root = graph.allocate();
    let mut namespace = NamespaceHandle::new(root);
    assert_eq!(namespace.sprite(&graph), Err(SymbolError::Missing));
    assert_eq!(namespace.sprite, None);
    let sprite = graph.allocate();
    graph.write(root, "Sprite", Value::Function(sprite)).unwrap();
    assert_eq!(namespace.sprite(&graph), Ok(ForeignHandle::new(sprite)));
    assert_eq!(namespace.sprite, Some(sprite));
}

#[test]
fn namespace_refuses_a_constructor_that_is_no_function() {
    let mut graph = ObjectGraph::new();
    let root = graph.allocate();
    let plain = graph.allocate();
    graph.write(root, "Application", Value::Object(plain)).unwrap();
    let mut namespace = NamespaceHandle::new(root);
    assert_eq!(namespace.application(&graph), Err(SymbolError::Missing));
}
