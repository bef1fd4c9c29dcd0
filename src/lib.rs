//! Lazy tensor expressions: dense buffers, a recursive expression tree with
//! eager algebraic simplification, and an arena of shared variable cells.
use vstd::prelude::*;

pub mod operators;
pub mod rules;
pub mod shape;
pub mod tensor;

verus! {

/// The two ways building an expression can fail.
#[derive(Clone, Copy, Debug, PartialEq, Eq, Structural)]
pub enum TensorError {
    /// A buffer's length disagrees with its shape, or two operands differ in shape.
    ShapeMismatch,
    /// A divisor is an all-zero tensor or a zero scalar.
    DivisionByZero,
}

} // verus!
