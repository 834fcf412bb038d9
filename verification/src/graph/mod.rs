//! A directed graph whose nodes and edges carry values and are found by
//! identifiers that the graph hands out.

pub mod edge;
pub mod edge_id;
pub mod node;
pub mod node_id;

pub use edge::GraphEdge;
pub use edge_id::GraphEdgeId;
pub use node::GraphNode;
pub use node_id::GraphNodeId;

use std::collections::HashMap;
use vstd::prelude::*;
use vstd::std_specs::hash::group_hash_axioms;

verus! {

/// An edge as a mathematical value.
pub struct EdgeView<E> {
    /// The node the edge starts from.
    pub from: GraphNodeId,
    /// The node the edge leads to.
    pub to: GraphNodeId,
    /// The value stored in the edge.
    pub value: E,
}

/// A graph as a mathematical value. Nodes and edges are keyed by the numbers
/// of their identifiers.
pub struct GraphView<T, E> {
    /// The value of every node.
    pub nodes: Map<usize, T>,
    /// Every edge.
    pub edges: Map<usize, EdgeView<E>>,
    /// The number of the next node identifier to be handed out.
    pub next_node_id: usize,
    /// The number of the next edge identifier to be handed out.
    pub next_edge_id: usize,
}

impl<T, E> GraphView<T, E> {
    /// Identifiers in use were handed out earlier, and every edge connects
    /// two different nodes of the graph.
    pub open spec fn wf(self) -> bool {
        &&& self.nodes.dom().finite()
        &&& self.edges.dom().finite()
        &&& forall|k: usize| #[trigger] self.nodes.contains_key(k) ==> k < self.next_node_id
        &&& forall|k: usize|
            #[trigger] self.edges.contains_key(k) ==> {
                &&& k < self.next_edge_id
                &&& self.edges[k].from != self.edges[k].to
                &&& self.nodes.contains_key(self.edges[k].from.0)
                &&& self.nodes.contains_key(self.edges[k].to.0)
            }
    }

    /// Tells whether an edge from `from` to `to` can be added: the two are
    /// different nodes of the graph, and an identifier is left for the edge.
    pub open spec fn can_connect(self, from: GraphNodeId, to: GraphNodeId) -> bool {
        &&& from != to
        &&& self.nodes.contains_key(from.0)
        &&& self.nodes.contains_key(to.0)
        &&& self.next_edge_id < usize::MAX
    }
}

/// A directed graph with values of type `T` in its nodes and values of type
/// `E` in its edges.
pub struct Graph<T, E = ()> {
    nodes: HashMap<usize, GraphNode<T>>,
    edges: HashMap<usize, GraphEdge<E>>,
    next_node_id: usize,
    next_edge_id: usize,
}

impl<T, E> View for Graph<T, E> {
    type V = GraphView<T, E>;

    closed spec fn view(&self) -> GraphView<T, E> {
        GraphView {
            nodes: self.nodes@.map_values(|node: GraphNode<T>| node.value()),
            edges: self.edges@.map_values(
                |edge: GraphEdge<E>|
                    EdgeView { from: edge.spec_from(), to: edge.spec_to(), value: edge.value() },
            ),
            next_node_id: self.next_node_id,
            next_edge_id: self.next_edge_id,
        }
    }
}

impl<T, E> Graph<T, E> {
    /// The graph is consistent: its view is well-formed and every node and
    /// edge is stored under the number of its own identifier.
    pub closed spec fn wf(&self) -> bool {
        &&& self@.wf()
        &&& forall|k: usize| #[trigger]
            self.nodes@.contains_key(k) ==> self.nodes@[k].spec_id() == GraphNodeId(k)
        &&& forall|k: usize| #[trigger]
            self.edges@.contains_key(k) ==> self.edges@[k].spec_id() == GraphEdgeId(k)
    }

    /// A consistent graph has a well-formed view.
    pub proof fn lemma_wf_view(&self)
        requires
            self.wf(),
        ensures
            self@.wf(),
    {
    }

    /// Creates a graph without nodes or edges.
    pub fn new() -> (graph: Self)
        ensures
            graph.wf(),
            graph@.nodes == Map::<usize, T>::empty(),
            graph@.edges == Map::<usize, EdgeView<E>>::empty(),
            graph@.next_node_id == 0,
            graph@.next_edge_id == 0,
    {
        let graph = Graph {
            nodes: HashMap::new(),
            edges: HashMap::new(),
            next_node_id: 0,
            next_edge_id: 0,
        };
        assert(graph@.nodes =~= Map::<usize, T>::empty());
        graph
    }

    /// Hands out a node identifier that this graph has not handed out before.
    pub fn create_node_id(&mut self) -> (id: GraphNodeId)
        requires
            old(self).wf(),
            old(self)@.next_node_id < usize::MAX,
        ensures
            final(self).wf(),
            id == GraphNodeId(old(self)@.next_node_id),
            final(self)@ == (GraphView { next_node_id: (id.0 + 1) as usize, ..old(self)@ }),
    {
        let id = GraphNodeId::new(self.next_node_id);
        self.next_node_id += 1;
        id
    }

    /// Hands out an edge identifier that this graph has not handed out before.
    pub fn create_edge_id(&mut self) -> (id: GraphEdgeId)
        requires
            old(self).wf(),
            old(self)@.next_edge_id < usize::MAX,
        ensures
            final(self).wf(),
            id == GraphEdgeId(old(self)@.next_edge_id),
            final(self)@ == (GraphView { next_edge_id: (id.0 + 1) as usize, ..old(self)@ }),
    {
        let id = GraphEdgeId::new(self.next_edge_id);
        self.next_edge_id += 1;
        id
    }

    /// The number of nodes.
    pub fn node_count(&self) -> (count: usize)
        ensures
            count == self@.nodes.len(),
    {
        broadcast use group_hash_axioms;

        assert(self@.nodes.dom() =~= self.nodes@.dom());
        self.nodes.len()
    }

    /// The number of edges.
    pub fn edge_count(&self) -> (count: usize)
        ensures
            count == self@.edges.len(),
    {
        broadcast use group_hash_axioms;

        assert(self@.edges.dom() =~= self.edges@.dom());
        self.edges.len()
    }

    /// Looks up a node by its identifier.
    pub fn node(&self, id: GraphNodeId) -> (found: Option<&GraphNode<T>>)
        requires
            self.wf(),
        ensures
            found.is_some() == self@.nodes.contains_key(id.0),
            found.is_some() ==> found.unwrap().spec_id() == id && found.unwrap().value()
                == self@.nodes[id.0],
    {
        broadcast use group_hash_axioms;

        self.nodes.get(&id.0)
    }

    /// Looks up an edge by its identifier.
    pub fn edge(&self, id: GraphEdgeId) -> (found: Option<&GraphEdge<E>>)
        requires
            self.wf(),
        ensures
            found.is_some() == self@.edges.contains_key(id.0),
            found.is_some() ==> {
                &&& found.unwrap().spec_id() == id
                &&& found.unwrap().spec_from() == self@.edges[id.0].from
                &&& found.unwrap().spec_to() == self@.edges[id.0].to
                &&& found.unwrap().value() == self@.edges[id.0].value
            },
    {
        broadcast use group_hash_axioms;

        self.edges.get(&id.0)
    }

    /// Adds a node with the given value and returns its identifier, which is
    /// new. Returns `None`, and leaves the graph as it is, only when every
    /// identifier has been handed out.
    pub fn insert(&mut self, value: T) -> (added: Option<GraphNodeId>)
        requires
            old(self).wf(),
        ensures
            final(self).wf(),
            added.is_some() == (old(self)@.next_node_id < usize::MAX),
            added.is_none() ==> final(self)@ == old(self)@,
            added.is_some() ==> {
                let id = added.unwrap();
                &&& id == GraphNodeId(old(self)@.next_node_id)
                &&& !old(self)@.nodes.contains_key(id.0)
                &&& final(self)@ == (GraphView {
                    nodes: old(self)@.nodes.insert(id.0, value),
                    next_node_id: (id.0 + 1) as usize,
                    ..old(self)@
                })
            },
    {
        broadcast use group_hash_axioms;

        if self.next_node_id == usize::MAX {
            return None;
        }
        let id = self.create_node_id();
        let node = GraphNode::new(id, value);
        self.nodes.insert(id.0, node);
        assert(self@.nodes =~= old(self)@.nodes.insert(id.0, value));
        Some(id)
    }

    /// Adds an edge from `from` to `to` with the given value and returns its
    /// identifier, which is new. Returns `None`, and leaves the graph as it
    /// is, when the two nodes are the same, when one of them is not in the
    /// graph, or when every identifier has been handed out.
    pub fn connect(&mut self, from: GraphNodeId, value: E, to: GraphNodeId) -> (added: Option<
        GraphEdgeId,
    >)
        requires
            old(self).wf(),
        ensures
            final(self).wf(),
            added.is_some() == old(self)@.can_connect(from, to),
            added.is_none() ==> final(self)@ == old(self)@,
            added.is_some() ==> {
                let id = added.unwrap();
                &&& id == GraphEdgeId(old(self)@.next_edge_id)
                &&& !old(self)@.edges.contains_key(id.0)
                &&& final(self)@ == (GraphView {
                    edges: old(self)@.edges.insert(id.0, EdgeView { from, to, value }),
                    next_edge_id: (id.0 + 1) as usize,
                    ..old(self)@
                })
            },
    {
        broadcast use group_hash_axioms;

        if from == to {
            return None;
        }
        if !self.nodes.contains_key(&from.0) {
            return None;
        }
        if !self.nodes.contains_key(&to.0) {
            return None;
        }
        if self.next_edge_id == usize::MAX {
            return None;
        }
        let edge_id = self.create_edge_id();
        let edge = GraphEdge::new(edge_id, from, to, value);
        self.edges.insert(edge_id.0, edge);
        assert(self@.edges =~= old(self)@.edges.insert(edge_id.0, EdgeView { from, to, value }));
        Some(edge_id)
    }
}

impl<T, E> Default for Graph<T, E> {
    fn default() -> (graph: Self)
        ensures
            graph.wf(),
            graph@.nodes == Map::<usize, T>::empty(),
            graph@.edges == Map::<usize, EdgeView<E>>::empty(),
    {
        Graph::new()
    }
}

} // verus!
