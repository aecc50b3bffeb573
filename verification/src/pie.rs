//! What is known of a node's place in the graph when its trace is written.

use vstd::prelude::*;

verus! {

/// The record that ties a trace to its node. Operators carry it into the
/// trace they write and read nothing from it.
#[derive(Clone, Copy, Debug, PartialEq, Eq, Structural)]
pub struct NodeInfo {
    /// The node's index in its graph.
    pub id: u32,
    /// The node's place in the order in which the graph is run.
    pub position: u32,
    /// How many nodes consume the node's output.
    pub num_consumers: u32,
}

} // verus!
