//! The ways in which compiling a graph or writing a trace fails.

use crate::graph::Operator;
use vstd::prelude::*;

verus! {

/// A failure. None can be recovered from: whatever was being compiled or
/// traced yields nothing.
#[derive(Clone, Copy, Debug, PartialEq, Eq, Structural)]
pub enum Error {
    /// A node holds an operator that has no provable counterpart.
    UnsupportedOperatorKind {
        /// The index of the node.
        node: usize,
        /// The operator found there.
        kind: Operator,
    },
    /// A provable operator was handed a tensor in a form it cannot read.
    UnsupportedInputRepresentation {
        /// The identifier of the node whose trace was asked for.
        node: u32,
        /// The position of the tensor among the operator's inputs.
        input: usize,
    },
    /// A provable operator was asked to run without writing a trace.
    MisuseOfNonProvableEntryPoint,
}

} // verus!
