//! The graph of operators that the compiler works on.

use crate::prim::LuminairAdd;
use crate::tensor::Shape;
use vstd::prelude::*;

verus! {

/// What a node computes.
#[derive(Clone, Copy, Debug, PartialEq, Eq, Structural)]
pub enum Operator {
    /// Element-wise addition, as the graph is first built with.
    Add,
    /// Lays a tensor out contiguously. It computes nothing, so it runs as it
    /// is and writes no trace.
    Contiguous,
    /// A leaf through which data enters the graph.
    Function,
    /// Element-wise addition that writes a trace.
    LuminairAdd(LuminairAdd),
    /// Any other operator, under the number that names its kind.
    Other(u64),
}

impl Operator {
    /// The operator that the compiler puts in this one's place, if it knows
    /// this one.
    pub open spec fn substituted(self) -> Option<Operator> {
        match self {
            Operator::Add => Some(Operator::LuminairAdd(LuminairAdd {  })),
            Operator::Contiguous => Some(Operator::Contiguous),
            Operator::Function => Some(Operator::Function),
            Operator::LuminairAdd(_) => None,
            Operator::Other(_) => None,
        }
    }

    /// The compiler knows this operator.
    pub open spec fn is_recognized(self) -> bool {
        self.substituted().is_some()
    }

    /// The operator writes a trace.
    pub open spec fn is_provable(self) -> bool {
        self is LuminairAdd
    }

    /// The operator is a leaf.
    pub open spec fn is_leaf(self) -> bool {
        self is Function
    }

    /// The operator passes its input through.
    pub open spec fn is_passthrough(self) -> bool {
        self is Contiguous
    }

    /// The operator to put in this one's place: the provable addition for an
    /// addition, the operator itself for a pass-through or a leaf, and none
    /// for anything else.
    pub fn substitute(&self) -> (replacement: Option<Operator>)
        ensures
            replacement == self.substituted(),
    {
        match self {
            Operator::Add => Some(LuminairAdd::new().into_operator()),
            Operator::Contiguous => Some(Operator::Contiguous),
            Operator::Function => Some(Operator::Function),
            Operator::LuminairAdd(_) => None,
            Operator::Other(_) => None,
        }
    }
}

/// An edge into a node: the node that produces the input, and the shape it
/// produces.
#[derive(Debug, Clone, PartialEq, Eq)]
pub struct Dependency {
    pub source: usize,
    pub shape: Shape,
}

/// A node: its operator, which the compiler may replace, and its incoming
/// edges in the order of the operator's inputs.
#[derive(Debug, Clone, PartialEq, Eq)]
pub struct Node {
    pub op: Operator,
    pub inputs: Vec<Dependency>,
}

/// A graph of operators. A node is known by its index, which never changes.
#[derive(Debug, Clone, Default, PartialEq, Eq)]
pub struct Graph {
    pub nodes: Vec<Node>,
}

impl Graph {
    /// The operators of the nodes, by index.
    pub open spec fn ops(&self) -> Seq<Operator> {
        Seq::new(self.nodes@.len(), |i: int| self.nodes@[i].op)
    }

    /// The incoming edges of the nodes, by index.
    pub open spec fn edges(&self) -> Seq<Vec<Dependency>> {
        Seq::new(self.nodes@.len(), |i: int| self.nodes@[i].inputs)
    }

    /// Every node holds an operator that the compiler knows.
    pub open spec fn all_recognized(&self) -> bool {
        forall|i: int| 0 <= i < self.nodes@.len() ==> (#[trigger] self.ops()[i]).is_recognized()
    }

    /// A graph without nodes.
    pub fn new() -> (graph: Self)
        ensures
            graph.nodes@.len() == 0,
    {
        Graph { nodes: Vec::new() }
    }

    /// Adds a node and gives its index.
    pub fn add_node(&mut self, op: Operator, inputs: Vec<Dependency>) -> (index: usize)
        ensures
            index == old(self).nodes@.len(),
            final(self).nodes@ == old(self).nodes@.push(Node { op, inputs }),
    {
        let index = self.nodes.len();
        self.nodes.push(Node { op, inputs });
        index
    }
}

} // verus!
