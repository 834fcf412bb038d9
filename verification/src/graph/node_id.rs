use vstd::prelude::*;

verus! {

/// Identifier of a node of a graph.
#[derive(Eq, Hash, PartialEq, Copy, Clone, Debug, Structural)]
pub struct GraphNodeId(pub usize);

impl GraphNodeId {
    /// The identifier with the given number.
    pub fn new(id: usize) -> (node_id: Self)
        ensures
            node_id == GraphNodeId(id),
    {
        GraphNodeId(id)
    }
}

} // verus!
