//! The store that holds a tensor as field elements.

use crate::field::{residues, FieldElement, MODULUS};
use std::sync::Arc;
use vstd::prelude::*;

verus! {

/// The residues that a buffer of raw numbers is encoded to, one for one.
pub open spec fn encode(raw: Seq<u32>) -> Seq<nat> {
    Seq::new(raw.len(), |i: int| (raw[i] as nat) % (MODULUS as nat))
}

/// A tensor's field elements, shared by every consumer of the tensor and
/// never changed once built. It holds one element for each element of the
/// tensor, without padding.
#[derive(Debug, Clone, PartialEq, Eq)]
pub struct StwoData(pub Arc<Vec<FieldElement>>);

impl View for StwoData {
    type V = Seq<nat>;

    open spec fn view(&self) -> Seq<nat> {
        residues(self.0@)
    }
}

/// `Arc::clone`: another handle on the allocation that `handle` points to, so
/// both name the same elements.
#[verifier::external_body]
fn arc_clone(handle: &Arc<Vec<FieldElement>>) -> (shared: Arc<Vec<FieldElement>>)
    ensures
        shared == *handle,
{
    Arc::clone(handle)
}

/// `Arc::ptr_eq`: whether two handles point to one allocation. Handles that
/// do name the same elements; nothing is said of handles that do not.
#[verifier::external_body]
fn arc_ptr_eq(a: &Arc<Vec<FieldElement>>, b: &Arc<Vec<FieldElement>>) -> (same: bool)
    ensures
        same ==> *a == *b,
{
    Arc::ptr_eq(a, b)
}

impl StwoData {
    /// A store that takes ownership of elements already in the field.
    pub fn new(elements: Vec<FieldElement>) -> (store: Self)
        ensures
            store@ == residues(elements@),
    {
        StwoData(Arc::new(elements))
    }

    /// Encodes a raw buffer, each number to its residue.
    pub fn from_u32(data: &[u32]) -> (store: Self)
        ensures
            store@ == encode(data@),
    {
        let mut elements: Vec<FieldElement> = Vec::new();
        let mut i: usize = 0;
        while i < data.len()
            invariant
                i <= data.len(),
                elements@.len() == i,
                forall|j: int| 0 <= j < i ==> elements@[j]@ == (data@[j] as nat) % (MODULUS as nat),
            decreases data.len() - i,
        {
            elements.push(FieldElement::new(data[i]));
            i = i + 1;
        }
        let store = StwoData(Arc::new(elements));
        assert(store@ =~= encode(data@));
        store
    }

    /// A second reference to this store. Nothing is copied or encoded again.
    pub fn share(&self) -> (store: Self)
        ensures
            store@ == self@,
    {
        StwoData(arc_clone(&self.0))
    }

    /// Whether two references name one store. References that do hold the
    /// same elements.
    pub fn same_store(&self, other: &Self) -> (same: bool)
        ensures
            same ==> self@ == other@,
    {
        arc_ptr_eq(&self.0, &other.0)
    }

    /// The number of elements.
    pub fn len(&self) -> (n: usize)
        ensures
            n == self@.len(),
    {
        self.0.len()
    }

    /// The elements, in order.
    pub fn elements(&self) -> (elements: &Vec<FieldElement>)
        ensures
            residues(elements@) == self@,
    {
        &self.0
    }
}

} // verus!
