//! The prime field in which traces are written.

use vstd::prelude::*;

verus! {

/// The field's modulus, the Mersenne prime `2^31 - 1`.
pub const MODULUS: u32 = 2147483647;

/// Sum of two residues in the field.
pub open spec fn field_add(a: nat, b: nat) -> nat {
    (a + b) % (MODULUS as nat)
}

/// An element of the field, held as its canonical residue in `[0, MODULUS)`.
#[derive(Clone, Copy, Debug, PartialEq, Eq, Structural)]
pub struct FieldElement {
    value: u32,
}

impl View for FieldElement {
    type V = nat;

    closed spec fn view(&self) -> nat {
        self.value as nat
    }
}

impl FieldElement {
    #[verifier::type_invariant]
    spec fn canonical(self) -> bool {
        self.value < MODULUS
    }

    /// The element that a raw unsigned number stands for: its residue.
    pub fn new(raw: u32) -> (element: Self)
        ensures
            element@ == (raw as nat) % (MODULUS as nat),
    {
        FieldElement { value: raw % MODULUS }
    }

    /// The additive identity, which also fills the padding rows of a trace.
    pub fn zero() -> (element: Self)
        ensures
            element@ == 0,
    {
        FieldElement { value: 0 }
    }

    /// The canonical residue.
    pub fn value(&self) -> (v: u32)
        ensures
            v as nat == self@,
            v < MODULUS,
    {
        proof {
            use_type_invariant(self);
        }
        self.value
    }

    /// Field addition.
    pub fn plus(self, rhs: Self) -> (sum: Self)
        ensures
            sum@ == field_add(self@, rhs@),
    {
        proof {
            use_type_invariant(&self);
            use_type_invariant(&rhs);
        }
        let wide: u64 = self.value as u64 + rhs.value as u64;
        let reduced: u64 = if wide >= MODULUS as u64 {
            wide - MODULUS as u64
        } else {
            wide
        };
        FieldElement { value: reduced as u32 }
    }
}

/// The residues of a sequence of elements, in order.
pub open spec fn residues(elements: Seq<FieldElement>) -> Seq<nat> {
    Seq::new(elements.len(), |i: int| elements[i]@)
}

} // verus!
