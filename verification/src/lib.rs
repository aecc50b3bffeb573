//! Provable tensor operators: a compiler pass that swaps the operators of a
//! tensor graph for trace-generating ones, and the trace and claim that the
//! element-wise addition produces over the field of integers modulo 2^31 - 1.

pub mod data;
pub mod error;
pub mod field;
pub mod graph;
pub mod pie;
pub mod prim;
pub mod tensor;
pub mod trace;
pub mod utils;
