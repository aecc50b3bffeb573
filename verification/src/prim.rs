//! The compiler of primitive operators, and the provable addition.

use crate::data::StwoData;
use crate::error::Error;
use crate::graph::{Graph, Operator};
use crate::pie::NodeInfo;
use crate::tensor::{Shape, Tensor};
use crate::trace::{add_trace, claim_of, trace_evaluation, Claim, TraceEval};
use crate::utils::{calculate_log_size, ceil_log2, lemma_rows_fit};
use vstd::prelude::*;

verus! {

/// The number of field elements in a tensor, and zero where it has a form
/// that holds none.
pub open spec fn operand_len(tensor: Tensor) -> nat {
    match tensor.resolved() {
        Some(elements) => elements.len(),
        None => 0,
    }
}

/// The larger of two lengths.
pub open spec fn max_len(a: nat, b: nat) -> nat {
    if a >= b {
        a
    } else {
        b
    }
}

/// Element-wise addition that writes a trace of what it computes.
#[derive(Debug, Clone, Copy, Default, PartialEq, Eq, Structural)]
pub struct LuminairAdd {}

impl LuminairAdd {
    /// A provable addition.
    pub fn new() -> (op: Self)
        ensures
            op == (LuminairAdd {  }),
    {
        Self {  }
    }

    /// Adds the first two inputs and records the addition. Each input is
    /// brought into a store of field elements first: a raw buffer is encoded,
    /// a store is shared. The trace has the smallest power-of-two number of
    /// rows that holds the longer operand; an operand that ends before the
    /// other counts as zero from there on. The one output is a store that
    /// holds the sum, as long as the longer operand.
    ///
    /// An input in any other form fails the call, the left one first.
    ///
    /// The operands may be as long as `usize::MAX / 2 + 1`, beyond which the
    /// rows of the trace could not be counted.
    pub fn process_trace(&mut self, inp: Vec<(Tensor, Shape)>, node_info: &NodeInfo) -> (result:
        Result<(TraceEval, Claim, Vec<Tensor>), Error>)
        requires
            inp@.len() >= 2,
            max_len(operand_len(inp@[0].0), operand_len(inp@[1].0)) <= usize::MAX / 2 + 1,
        ensures
            *final(self) == *old(self),
            result.is_ok() <==> inp@[0].0.resolved().is_some() && inp@[1].0.resolved().is_some(),
            match result {
                Ok((trace, claim, outputs)) => {
                    &&& inp@[0].0.resolved() matches Some(lhs)
                    &&& inp@[1].0.resolved() matches Some(rhs)
                    &&& trace@.log_size as nat == ceil_log2(max_len(lhs.len(), rhs.len()))
                    &&& trace@ == add_trace(trace@.log_size, lhs, rhs, *node_info)
                    &&& trace@.is_rectangular()
                    &&& trace@.satisfies_relation()
                    &&& claim == claim_of(trace@)
                    &&& outputs@.len() == 1
                    &&& outputs@[0] matches Tensor::Encoded(sum)
                    &&& sum@ == trace@.out.take(max_len(lhs.len(), rhs.len()) as int)
                },
                Err(e) => {
                    if inp@[0].0.resolved().is_none() {
                        e == (Error::UnsupportedInputRepresentation { node: node_info.id, input: 0 })
                    } else {
                        &&& inp@[1].0.resolved().is_none()
                        &&& e == (Error::UnsupportedInputRepresentation {
                            node: node_info.id,
                            input: 1,
                        })
                    }
                },
            },
    {
        let lhs = match inp[0].0.resolve() {
            Some(store) => store,
            None => {
                return Err(Error::UnsupportedInputRepresentation { node: node_info.id, input: 0 });
            },
        };
        let rhs = match inp[1].0.resolve() {
            Some(store) => store,
            None => {
                return Err(Error::UnsupportedInputRepresentation { node: node_info.id, input: 1 });
            },
        };
        let max_size = if lhs.len() >= rhs.len() {
            lhs.len()
        } else {
            rhs.len()
        };
        let log_size = calculate_log_size(max_size);
        proof {
            lemma_rows_fit(max_size as nat);
        }
        let (main_trace, claim, output) = trace_evaluation(
            log_size,
            lhs.elements(),
            rhs.elements(),
            node_info,
        );
        let mut outputs: Vec<Tensor> = Vec::new();
        outputs.push(Tensor::Encoded(StwoData::new(output)));
        Ok((main_trace, claim, outputs))
    }

    /// Running without a trace is not what this operator is for: the call
    /// always fails.
    pub fn process(&mut self, inp: Vec<(Tensor, Shape)>) -> (result: Result<Vec<Tensor>, Error>)
        ensures
            *final(self) == *old(self),
            result matches Err(e) && e == Error::MisuseOfNonProvableEntryPoint,
    {
        Err(Error::MisuseOfNonProvableEntryPoint)
    }

    /// This operator as the payload of a node.
    pub fn into_operator(self) -> (op: Operator)
        ensures
            op == Operator::LuminairAdd(self),
    {
        Operator::LuminairAdd(self)
    }
}

/// Replaces the operators of a graph by those that write traces.
#[derive(Debug, Default)]
pub struct PrimitiveCompiler {}

impl PrimitiveCompiler {
    /// A compiler.
    pub fn new() -> (compiler: Self)
        ensures
            compiler == (PrimitiveCompiler {  }),
    {
        Self {  }
    }

    /// Replaces each node's operator by its provable counterpart: an addition
    /// by the provable addition, while pass-throughs and leaves stay. The
    /// replacements are chosen for the whole graph before any is installed:
    /// if a node holds another operator, the graph is left as it was and the
    /// first such node is reported. Edges are never touched.
    pub fn compile(&self, graph: &mut Graph) -> (result: Result<(), Error>)
        ensures
            final(graph).nodes@.len() == old(graph).nodes@.len(),
            final(graph).edges() == old(graph).edges(),
            result.is_ok() <==> old(graph).all_recognized(),
            match result {
                Ok(_) => {
                    &&& forall|i: int|
                        0 <= i < old(graph).nodes@.len() ==> #[trigger] final(graph).ops()[i]
                            == old(graph).ops()[i].substituted().unwrap()
                    &&& forall|i: int|
                        0 <= i < old(graph).nodes@.len() && !old(graph).ops()[i].is_leaf() && !old(
                            graph,
                        ).ops()[i].is_passthrough() ==> (#[trigger] final(graph).ops()[i]).is_provable()
                },
                Err(e) => {
                    &&& *final(graph) == *old(graph)
                    &&& e matches Error::UnsupportedOperatorKind { node, kind }
                    &&& node < old(graph).nodes@.len()
                    &&& kind == old(graph).ops()[node as int]
                    &&& !kind.is_recognized()
                    &&& forall|j: int| 0 <= j < node ==> (#[trigger] old(graph).ops()[j]).is_recognized()
                },
            },
    {
        let n = graph.nodes.len();
        let mut replacements: Vec<Operator> = Vec::new();
        let mut i: usize = 0;
        while i < n
            invariant
                i <= n,
                n == graph.nodes@.len(),
                *graph == *old(graph),
                replacements@.len() == i,
                forall|j: int|
                    0 <= j < i ==> (#[trigger] graph.ops()[j]).substituted() == Some(replacements@[j]),
            decreases n - i,
        {
            let op = graph.nodes[i].op;
            match op.substitute() {
                Some(replacement) => {
                    replacements.push(replacement);
                },
                None => {
                    return Err(Error::UnsupportedOperatorKind { node: i, kind: op });
                },
            }
            i = i + 1;
        }
        let mut i: usize = 0;
        while i < n
            invariant
                i <= n,
                n == graph.nodes@.len(),
                n == old(graph).nodes@.len(),
                n == replacements@.len(),
                graph.edges() == old(graph).edges(),
                forall|j: int|
                    0 <= j < n ==> (#[trigger] old(graph).ops()[j]).substituted() == Some(
                        replacements@[j],
                    ),
                forall|j: int| 0 <= j < i ==> #[trigger] graph.ops()[j] == replacements@[j],
            decreases n - i,
        {
            let ghost before = graph.nodes@;
            let ghost ops_before = graph.ops();
            graph.nodes[i].op = replacements[i];
            assert(graph.nodes@[i as int].inputs == before[i as int].inputs);
            assert(forall|j: int| 0 <= j < n && j != i ==> graph.nodes@[j] == before[j]);
            assert(graph.edges() =~= old(graph).edges());
            assert forall|j: int| 0 <= j < i + 1 implies #[trigger] graph.ops()[j]
                == replacements@[j] by {
                if j < i {
                    assert(graph.ops()[j] == ops_before[j]);
                }
            }
            i = i + 1;
        }
        assert forall|j: int| 0 <= j < n implies #[trigger] graph.ops()[j] == old(
            graph,
        ).ops()[j].substituted().unwrap() by {
            assert(old(graph).ops()[j].substituted() == Some(replacements@[j]));
        }
        Ok(())
    }
}

} // verus!
