//! Tensors as operators receive and return them.

use crate::data::{encode, StwoData};
use vstd::prelude::*;

verus! {

/// The extent of a tensor along each of its axes.
#[derive(Debug, Clone, PartialEq, Eq)]
pub struct Shape {
    pub dims: Vec<usize>,
}

/// The data of a tensor, in one of the forms it can reach an operator in.
#[derive(Debug, Clone, PartialEq, Eq)]
pub enum Tensor {
    /// Numbers as they entered the graph, not yet encoded.
    Raw(Vec<u32>),
    /// A store of field elements, shared with the tensor's other consumers.
    Encoded(StwoData),
    /// Data in a form that no provable operator reads.
    Opaque,
}

impl Tensor {
    /// The field elements that the tensor stands for, if it has a form that
    /// provable operators read.
    pub open spec fn resolved(&self) -> Option<Seq<nat>> {
        match self {
            Tensor::Raw(raw) => Some(encode(raw@)),
            Tensor::Encoded(store) => Some(store@),
            Tensor::Opaque => None,
        }
    }

    /// Brings the tensor into a store of field elements: a raw buffer is
    /// encoded into a new store, an existing store is shared, and any other
    /// form is refused.
    pub fn resolve(&self) -> (store: Option<StwoData>)
        ensures
            match store {
                Some(s) => self.resolved() == Some(s@),
                None => self.resolved().is_none(),
            },
    {
        match self {
            Tensor::Raw(raw) => Some(StwoData::from_u32(raw.as_slice())),
            Tensor::Encoded(store) => Some(store.share()),
            Tensor::Opaque => None,
        }
    }
}

} // verus!
