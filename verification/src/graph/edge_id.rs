use vstd::prelude::*;

verus! {

/// Identifier of an edge of a graph.
#[derive(Eq, Hash, PartialEq, Copy, Clone, Debug, Structural)]
pub struct GraphEdgeId(pub usize);

impl GraphEdgeId {
    /// The identifier with the given number.
    pub fn new(id: usize) -> (edge_id: Self)
        ensures
            edge_id == GraphEdgeId(id),
    {
        GraphEdgeId(id)
    }
}

} // verus!
