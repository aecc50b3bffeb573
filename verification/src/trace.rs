//! The trace that the element-wise addition writes, and the claim made of it.

use crate::field::{field_add, residues, FieldElement};
use crate::pie::NodeInfo;
use crate::utils::rows_of;
use vstd::arithmetic::power2::pow2;
use vstd::prelude::*;

verus! {

/// The columns of the addition's trace.
#[derive(Clone, Copy, Debug, PartialEq, Eq, Structural)]
pub enum AddColumn {
    /// The left operand.
    Left,
    /// The right operand.
    Right,
    /// The sum of the two.
    Out,
}

/// The table that a trace belongs to.
#[derive(Clone, Copy, Debug, PartialEq, Eq, Structural)]
pub enum Table {
    /// The table of element-wise additions.
    Add,
}

/// What is stated in public of a trace: enough to name the table that a
/// proof is about, and nothing of the values in it.
#[derive(Clone, Copy, Debug, PartialEq, Eq, Structural)]
pub struct Claim {
    /// The base-2 logarithm of the trace's number of rows.
    pub log_size: u32,
    /// The table that the trace belongs to.
    pub table: Table,
}

/// A trace as a mathematical value: its columns as sequences of residues.
pub struct TraceView {
    pub log_size: u32,
    pub left: Seq<nat>,
    pub right: Seq<nat>,
    pub out: Seq<nat>,
    pub node: NodeInfo,
}

/// `data` in a column of `rows` rows: the data first, then zeros.
pub open spec fn padded(data: Seq<nat>, rows: nat) -> Seq<nat> {
    Seq::new(rows, |r: int| if r < data.len() { data[r] } else { 0 })
}

/// The row-by-row sum of two columns, as long as the left one.
pub open spec fn column_sum(left: Seq<nat>, right: Seq<nat>) -> Seq<nat> {
    Seq::new(left.len(), |r: int| field_add(left[r], right[r]))
}

/// The trace of the addition of `lhs` and `rhs` at the given log size: both
/// operands padded with zeros to `2^log_size` rows, and their sum on every
/// row, the padding included.
pub open spec fn add_trace(log_size: u32, lhs: Seq<nat>, rhs: Seq<nat>, node: NodeInfo) -> TraceView {
    let rows = pow2(log_size as nat);
    let left = padded(lhs, rows);
    let right = padded(rhs, rows);
    TraceView { log_size, left, right, out: column_sum(left, right), node }
}

/// The claim made of a trace.
pub open spec fn claim_of(trace: TraceView) -> Claim {
    Claim { log_size: trace.log_size, table: Table::Add }
}

impl TraceView {
    /// The number of rows that the log size stands for.
    pub open spec fn rows(self) -> nat {
        pow2(self.log_size as nat)
    }

    /// Every column has exactly `2^log_size` rows.
    pub open spec fn is_rectangular(self) -> bool {
        &&& self.left.len() == self.rows()
        &&& self.right.len() == self.rows()
        &&& self.out.len() == self.rows()
    }

    /// On every row the output is the field sum of the operands.
    pub open spec fn satisfies_relation(self) -> bool {
        forall|r: int|
            0 <= r < self.out.len() ==> #[trigger] self.out[r] == field_add(
                self.left[r],
                self.right[r],
            )
    }

    /// The column of the given name.
    pub open spec fn column(self, column: AddColumn) -> Seq<nat> {
        match column {
            AddColumn::Left => self.left,
            AddColumn::Right => self.right,
            AddColumn::Out => self.out,
        }
    }
}

/// The table of values that records one addition, with the node it was
/// written for.
#[derive(Debug)]
pub struct TraceEval {
    log_size: u32,
    left: Vec<FieldElement>,
    right: Vec<FieldElement>,
    out: Vec<FieldElement>,
    node: NodeInfo,
}

impl View for TraceEval {
    type V = TraceView;

    closed spec fn view(&self) -> TraceView {
        TraceView {
            log_size: self.log_size,
            left: residues(self.left@),
            right: residues(self.right@),
            out: residues(self.out@),
            node: self.node,
        }
    }
}

impl TraceEval {
    #[verifier::type_invariant]
    spec fn well_formed(self) -> bool {
        &&& self@.is_rectangular()
        &&& self@.satisfies_relation()
    }

    /// The base-2 logarithm of the number of rows.
    pub fn log_size(&self) -> (log_size: u32)
        ensures
            log_size == self@.log_size,
    {
        self.log_size
    }

    /// The number of rows, which every column has.
    pub fn n_rows(&self) -> (rows: usize)
        ensures
            rows as nat == self@.rows(),
            self@.is_rectangular(),
    {
        proof {
            use_type_invariant(self);
        }
        self.left.len()
    }

    /// The node that the trace was written for.
    pub fn node(&self) -> (node: NodeInfo)
        ensures
            node == self@.node,
    {
        self.node
    }

    /// The values of one column, from the first row to the last.
    pub fn column(&self, column: AddColumn) -> (values: &Vec<FieldElement>)
        ensures
            residues(values@) == self@.column(column),
            values@.len() == self@.rows(),
    {
        proof {
            use_type_invariant(self);
        }
        match column {
            AddColumn::Left => &self.left,
            AddColumn::Right => &self.right,
            AddColumn::Out => &self.out,
        }
    }

    /// The claim made of this trace. It is read off the trace alone.
    pub fn claim(&self) -> (claim: Claim)
        ensures
            claim == claim_of(self@),
    {
        Claim { log_size: self.log_size, table: Table::Add }
    }
}

/// The element of `data` at `row`, or zero past its end.
fn padded_at(data: &Vec<FieldElement>, row: usize) -> (element: FieldElement)
    ensures
        element@ == (if row < data@.len() {
            data@[row as int]@
        } else {
            0
        }),
{
    if row < data.len() {
        data[row]
    } else {
        FieldElement::zero()
    }
}

/// Writes the trace of the addition of `lhs` and `rhs`, makes the claim of
/// it, and gives the sum: the output column without its padding.
pub fn trace_evaluation(
    log_size: u32,
    lhs: &Vec<FieldElement>,
    rhs: &Vec<FieldElement>,
    node_info: &NodeInfo,
) -> (result: (TraceEval, Claim, Vec<FieldElement>))
    requires
        pow2(log_size as nat) <= usize::MAX,
        lhs@.len() <= pow2(log_size as nat),
        rhs@.len() <= pow2(log_size as nat),
    ensures
        result.0@ == add_trace(log_size, residues(lhs@), residues(rhs@), *node_info),
        result.0@.is_rectangular(),
        result.0@.satisfies_relation(),
        result.1 == claim_of(result.0@),
        residues(result.2@) == result.0@.out.take(
            if lhs@.len() >= rhs@.len() {
                lhs@.len() as int
            } else {
                rhs@.len() as int
            },
        ),
{
    let rows = rows_of(log_size);
    let logical = if lhs.len() >= rhs.len() {
        lhs.len()
    } else {
        rhs.len()
    };
    let mut left: Vec<FieldElement> = Vec::new();
    let mut right: Vec<FieldElement> = Vec::new();
    let mut out: Vec<FieldElement> = Vec::new();
    let mut output: Vec<FieldElement> = Vec::new();
    let ghost model = add_trace(log_size, residues(lhs@), residues(rhs@), *node_info);
    let mut r: usize = 0;
    while r < rows
        invariant
            r <= rows,
            rows as nat == pow2(log_size as nat),
            logical <= rows,
            logical == (if lhs@.len() >= rhs@.len() {
                lhs@.len()
            } else {
                rhs@.len()
            }),
            model == add_trace(log_size, residues(lhs@), residues(rhs@), *node_info),
            left@.len() == r,
            right@.len() == r,
            out@.len() == r,
            output@.len() == (if r <= logical {
                r
            } else {
                logical
            }),
            forall|i: int| 0 <= i < r ==> (#[trigger] left@[i])@ == model.left[i],
            forall|i: int| 0 <= i < r ==> (#[trigger] right@[i])@ == model.right[i],
            forall|i: int| 0 <= i < r ==> (#[trigger] out@[i])@ == model.out[i],
            forall|i: int| 0 <= i < output@.len() ==> (#[trigger] output@[i])@ == model.out[i],
        decreases rows - r,
    {
        let a = padded_at(lhs, r);
        let b = padded_at(rhs, r);
        let sum = a.plus(b);
        left.push(a);
        right.push(b);
        out.push(sum);
        if r < logical {
            output.push(sum);
        }
        r = r + 1;
    }
    proof {
        assert(residues(left@) =~= model.left);
        assert(residues(right@) =~= model.right);
        assert(residues(out@) =~= model.out);
        assert(residues(output@) =~= model.out.take(logical as int));
        lemma_add_trace_is_rectangular(log_size, residues(lhs@), residues(rhs@), *node_info);
        lemma_add_trace_relation(log_size, residues(lhs@), residues(rhs@), *node_info);
        assert(model.is_rectangular());
        assert(model.satisfies_relation());
    }
    let trace = TraceEval { log_size, left, right, out, node: *node_info };
    let claim = trace.claim();
    (trace, claim, output)
}

/// Every column of the addition's trace has `2^log_size` rows.
pub proof fn lemma_add_trace_is_rectangular(
    log_size: u32,
    lhs: Seq<nat>,
    rhs: Seq<nat>,
    node: NodeInfo,
)
    ensures
        add_trace(log_size, lhs, rhs, node).is_rectangular(),
        add_trace(log_size, lhs, rhs, node).rows() == pow2(log_size as nat),
{
}

/// In the addition's trace the output is the field sum of the operands on
/// every row. On the rows that both operands reach, it is the sum of their
/// elements; on the rows past both, all three columns hold zero, so that the
/// padding meets the same relation as the data.
pub proof fn lemma_add_trace_relation(log_size: u32, lhs: Seq<nat>, rhs: Seq<nat>, node: NodeInfo)
    ensures
        add_trace(log_size, lhs, rhs, node).satisfies_relation(),
        forall|r: int|
            0 <= r < pow2(log_size as nat) && r < lhs.len() && r < rhs.len() ==> #[trigger] add_trace(
                log_size,
                lhs,
                rhs,
                node,
            ).out[r] == field_add(lhs[r], rhs[r]),
        forall|r: int|
            #![trigger add_trace(log_size, lhs, rhs, node).out[r]]
            0 <= r < pow2(log_size as nat) && r >= lhs.len() && r >= rhs.len() ==> {
                &&& add_trace(log_size, lhs, rhs, node).left[r] == 0
                &&& add_trace(log_size, lhs, rhs, node).right[r] == 0
                &&& add_trace(log_size, lhs, rhs, node).out[r] == 0
                &&& add_trace(log_size, lhs, rhs, node).out[r] == field_add(0, 0)
            },
{
}

/// Traces with the same log size have the same claim, whatever their columns
/// hold, and traces with different log sizes have different claims.
pub proof fn lemma_claim_determined_by_log_size(a: TraceView, b: TraceView)
    ensures
        a.log_size == b.log_size ==> claim_of(a) == claim_of(b),
        a.log_size != b.log_size ==> claim_of(a) != claim_of(b),
        a == b ==> claim_of(a) == claim_of(b),
{
}

} // verus!
