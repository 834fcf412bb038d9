use super::edge_id::GraphEdgeId;
use super::node_id::GraphNodeId;
use vstd::prelude::*;

verus! {

/// A directed edge of a graph: an identifier, the two nodes it connects and
/// a value kept on the heap.
///
/// The value is reached by dereferencing the edge.
#[derive(Debug, PartialEq)]
pub struct GraphEdge<E> {
    pub(crate) id: GraphEdgeId,
    pub(crate) from: GraphNodeId,
    pub(crate) to: GraphNodeId,
    value: Box<E>,
}

impl<E> GraphEdge<E> {
    /// The identifier of the edge.
    pub closed spec fn spec_id(&self) -> GraphEdgeId {
        self.id
    }

    /// The node the edge starts from.
    pub closed spec fn spec_from(&self) -> GraphNodeId {
        self.from
    }

    /// The node the edge leads to.
    pub closed spec fn spec_to(&self) -> GraphNodeId {
        self.to
    }

    /// The value stored in the edge.
    pub closed spec fn value(&self) -> E {
        *self.value
    }

    /// Creates an edge from `from` to `to` with the given identifier and
    /// value.
    pub fn new(id: GraphEdgeId, from: GraphNodeId, to: GraphNodeId, value: E) -> (edge: Self)
        ensures
            edge.spec_id() == id,
            edge.spec_from() == from,
            edge.spec_to() == to,
            edge.value() == value,
    {
        GraphEdge { id, from, to, value: Box::new(value) }
    }

    /// The identifier of the edge.
    #[verifier::when_used_as_spec(spec_id)]
    pub fn id(&self) -> (id: GraphEdgeId)
        ensures
            id == self.spec_id(),
    {
        self.id
    }

    /// The node the edge starts from.
    #[verifier::when_used_as_spec(spec_from)]
    pub fn from(&self) -> (from: GraphNodeId)
        ensures
            from == self.spec_from(),
    {
        self.from
    }

    /// The node the edge leads to.
    #[verifier::when_used_as_spec(spec_to)]
    pub fn to(&self) -> (to: GraphNodeId)
        ensures
            to == self.spec_to(),
    {
        self.to
    }
}

impl<E> std::ops::Deref for GraphEdge<E> {
    type Target = E;

    fn deref(&self) -> (value: &E)
        ensures
            *value == self.value(),
    {
        &self.value
    }
}

} // verus!
