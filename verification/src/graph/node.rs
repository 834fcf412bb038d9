use super::node_id::GraphNodeId;
use vstd::prelude::*;

verus! {

/// A node of a graph: an identifier and a value kept on the heap.
///
/// The value is reached by dereferencing the node.
#[derive(Debug, PartialEq)]
pub struct GraphNode<T> {
    pub(crate) id: GraphNodeId,
    value: Box<T>,
}

impl<T> GraphNode<T> {
    /// The identifier of the node.
    pub closed spec fn spec_id(&self) -> GraphNodeId {
        self.id
    }

    /// The value stored in the node.
    pub closed spec fn value(&self) -> T {
        *self.value
    }

    /// Creates a node with the given identifier and value.
    pub fn new(id: GraphNodeId, value: T) -> (node: Self)
        ensures
            node.spec_id() == id,
            node.value() == value,
    {
        GraphNode { id, value: Box::new(value) }
    }

    /// The identifier of the node.
    #[verifier::when_used_as_spec(spec_id)]
    pub fn id(&self) -> (id: GraphNodeId)
        ensures
            id == self.spec_id(),
    {
        self.id
    }
}

impl<T> std::ops::Deref for GraphNode<T> {
    type Target = T;

    fn deref(&self) -> (value: &T)
        ensures
            *value == self.value(),
    {
        &self.value
    }
}

} // verus!
