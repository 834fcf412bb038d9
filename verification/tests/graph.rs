use pooler::{Graph, GraphEdge, GraphEdgeId, GraphNode, GraphNodeId};

#[test]
fn test_new_graph_is_empty() {
    let graph: Graph<i32, ()> = Graph::new();
    assert_eq!(graph.node_count(), 0, "New graph should have no nodes");
    assert_eq!(graph.edge_count(), 0, "New graph should have no edges");
}

#[test]
fn test_default_creates_empty_graph() {
    let graph: Graph<i32, ()> = Graph::default();
    assert_eq!(graph.node_count(), 0, "Default graph should have no nodes");
    assert_eq!(graph.edge_count(), 0, "Default graph should have no edges");
}

#[test]
fn test_node_counting() {
    let mut graph: Graph<i32, ()> = Graph::new();
    assert_eq!(graph.node_count(), 0, "New graph should have no nodes");

    graph.insert(1);
    assert_eq!(graph.node_count(), 1, "Graph should have one node");

    graph.insert(2);
    assert_eq!(graph.node_count(), 2, "Graph should have two nodes");
}

#[test]
fn test_edge_counting() {
    let mut graph: Graph<i32, ()> = Graph::new();
    assert_eq!(graph.edge_count(), 0, "New graph should have no edges");

    let n1 = graph.insert(1).unwrap();
    let n2 = graph.insert(2).unwrap();
    let n3 = graph.insert(3).unwrap();

    graph.connect(n1, (), n2);
    assert_eq!(graph.edge_count(), 1, "Graph should have one edge");

    graph.connect(n2, (), n3);
    assert_eq!(graph.edge_count(), 2, "Graph should have two edges");

    graph.connect(n1, (), GraphNodeId::new(999));
    assert_eq!(
        graph.edge_count(),
        2,
        "Invalid edge should not affect count"
    );
}

#[test]
fn test_edge_creation_and_access() {
    let edge_id = GraphEdgeId::new(1);
    let from_id = GraphNodeId::new(2);
    let to_id = GraphNodeId::new(3);
    let value = 42.0;

    let edge = GraphEdge::new(edge_id, from_id, to_id, value);

    assert_eq!(edge.id(), edge_id, "Edge should have the assigned ID");
    assert_eq!(edge.from(), from_id, "Edge should have correct source node");
    assert_eq!(
        edge.to(),
        to_id,
        "Edge should have correct destination node"
    );
    assert_eq!(*edge, value, "Edge should contain the assigned value");
}

#[test]
fn test_edge_value_types() {
    let edge_str = GraphEdge::new(
        GraphEdgeId::new(0),
        GraphNodeId::new(0),
        GraphNodeId::new(1),
        String::from("test"),
    );
    assert_eq!(
        edge_str.len(),
        4,
        "Should be able to call String methods directly"
    );
    let edge_float = GraphEdge::new(
        GraphEdgeId::new(0),
        GraphNodeId::new(0),
        GraphNodeId::new(1),
        3.14_f64,
    );
    assert!(
        (*edge_float - 3.14_f64).abs() < f64::EPSILON,
        "Should store and compare f64 values"
    );
}

#[test]
fn test_get_node() {
    let mut graph: Graph<String, ()> = Graph::new();
    let value = String::from("test");
    let node_id = graph.insert(value.clone()).unwrap();

    let node = graph.node(node_id).unwrap();
    assert_eq!(**node, value);

    let invalid_id = GraphNodeId::new(999);
    assert!(graph.node(invalid_id).is_none());
}

#[test]
fn test_get_edge() {
    let mut graph: Graph<i32, f64> = Graph::new();
    let n1 = graph.insert(1).unwrap();
    let n2 = graph.insert(2).unwrap();
    let value = 42.0_f64;

    let edge_id = graph.connect(n1, value, n2).unwrap();
    let edge = graph.edge(edge_id).unwrap();
    assert_eq!(**edge, value);

    let invalid_id = GraphEdgeId::new(999);
    assert!(graph.edge(invalid_id).is_none());
}

#[test]
fn test_insert_node() {
    let mut graph: Graph<i32, ()> = Graph::new();
    let value = 42;

    let node_id = graph.insert(value).unwrap();
    assert_eq!(graph.node_count(), 1);

    let node = graph.node(node_id).unwrap();
    assert_eq!(**node, value);
}

#[test]
fn test_connect_nodes() {
    let mut graph = Graph::new();
    let node1 = graph.insert(1).unwrap();
    let node2 = graph.insert(2).unwrap();

    let edge_id = graph.connect(node1, "test", node2).unwrap();
    assert_eq!(graph.edge_count(), 1);

    let edge = graph.edge(edge_id).unwrap();
    assert_eq!(edge.from(), node1);
    assert_eq!(edge.to(), node2);
    assert_eq!(**edge, "test");
}

#[test]
fn test_connect_validation() {
    let mut graph: Graph<i32, ()> = Graph::new();
    let node = graph.insert(1).unwrap();
    let invalid_node = GraphNodeId::new(999);

    assert!(
        graph.connect(node, (), node).is_none(),
        "Should not allow self-loops"
    );

    assert!(
        graph.connect(invalid_node, (), node).is_none(),
        "Should not allow edges from non-existent nodes"
    );

    assert!(
        graph.connect(node, (), invalid_node).is_none(),
        "Should not allow edges to non-existent nodes"
    );
}

#[test]
fn test_create_node_id_uniqueness() {
    let mut graph: Graph<(), ()> = Graph::new();
    let id1 = graph.create_node_id();
    let id2 = graph.create_node_id();
    assert_ne!(id1, id2, "Node IDs should be unique");
}

#[test]
fn test_create_edge_id_uniqueness() {
    let mut graph: Graph<(), ()> = Graph::new();
    let id1 = graph.create_edge_id();
    let id2 = graph.create_edge_id();
    assert_ne!(id1, id2, "Edge IDs should be unique");
}

#[test]
fn test_node_creation_and_access() {
    let id = GraphNodeId::new(42);
    let value = "test value";
    let node = GraphNode::new(id, value);

    assert_eq!(node.id(), id, "Node should have the assigned ID");
    assert_eq!(*node, value, "Node should contain the assigned value");
}

#[test]
fn test_node_deref() {
    let node = GraphNode::new(GraphNodeId::new(0), String::from("test"));
    assert_eq!(
        node.len(),
        4,
        "Should be able to call String methods directly"
    );
}

#[test]
fn test_create_empty_graph() {
    let graph: Graph<i32> = Graph::new();

    assert_eq!(graph.node_count(), 0);
    assert_eq!(graph.edge_count(), 0);
}

#[test]
fn test_add_node() {
    let mut graph: Graph<i32> = Graph::new();

    let node_id = graph.insert(42).unwrap();

    assert_eq!(graph.node_count(), 1);
    assert!(graph.node(node_id).is_some());
    assert_eq!(**graph.node(node_id).unwrap(), 42);
}

#[test]
fn test_add_edge() {
    let mut graph: Graph<i32, &str> = Graph::new();
    let node1 = graph.insert(1).unwrap();
    let node2 = graph.insert(2).unwrap();

    let edge = graph.connect(node1, "connects", node2).unwrap();

    assert_eq!(graph.edge_count(), 1);
    assert!(graph.edge(edge).is_some());
    assert_eq!(**graph.edge(edge).unwrap(), "connects");
}

#[test]
fn graph_hands_out_identifiers_in_order() {
    let mut graph: Graph<u8, u8> = Graph::new();
    assert_eq!(graph.insert(7), Some(GraphNodeId::new(0)));
    assert_eq!(graph.insert(8), Some(GraphNodeId::new(1)));
    assert_eq!(
        graph.connect(GraphNodeId::new(0), 1, GraphNodeId::new(1)),
        Some(GraphEdgeId::new(0))
    );
    assert_eq!(
        graph.connect(GraphNodeId::new(1), 2, GraphNodeId::new(0)),
        Some(GraphEdgeId::new(1))
    );
    assert_eq!(graph.create_node_id(), GraphNodeId::new(2));
    assert_eq!(graph.insert(9), Some(GraphNodeId::new(3)));
    assert_eq!(graph.node_count(), 3);
}

#[test]
fn graph_rejected_edge_uses_no_identifier() {
    let mut graph: Graph<u8, u8> = Graph::new();
    let a = graph.insert(1).unwrap();
    let b = graph.insert(2).unwrap();
    assert_eq!(graph.connect(a, 0, a), None);
    assert_eq!(graph.connect(a, 0, GraphNodeId::new(5)), None);
    assert_eq!(graph.connect(a, 0, b), Some(GraphEdgeId::new(0)));
}

#[test]
fn graph_allows_parallel_edges() {
    let mut graph: Graph<u8, u8> = Graph::new();
    let a = graph.insert(1).unwrap();
    let b = graph.insert(2).unwrap();
    let first = graph.connect(a, 10, b).unwrap();
    let second = graph.connect(a, 20, b).unwrap();
    assert_ne!(first, second);
    assert_eq!(graph.edge_count(), 2);
    assert_eq!(**graph.edge(first).unwrap(), 10);
    assert_eq!(**graph.edge(second).unwrap(), 20);
    assert_eq!(graph.edge(second).unwrap().id(), second);
    assert_eq!(graph.node(b).unwrap().id(), b);
}
