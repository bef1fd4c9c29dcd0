//! The simplification table: from what is known of the operands to the step
//! an arithmetic operator takes.
use vstd::prelude::*;
use crate::TensorError;

verus! {

/// The four elementwise operations.
#[derive(Clone, Copy, Debug, PartialEq, Eq, Structural)]
pub enum OpKind {
    Add,
    Subtract,
    Multiply,
    Divide,
}

/// Which of the constants 0, 1 and -1 a scalar equals, or every element of a
/// concrete buffer equals (an empty buffer equals all three).
#[derive(Clone, Copy, Debug, PartialEq, Eq, Structural)]
pub struct Fill {
    pub zero: bool,
    pub one: bool,
    pub minus_one: bool,
}

/// What an operator knows of a tensor operand: a concrete buffer and its fill,
/// or an unresolved expression.
#[derive(Clone, Copy, Debug, PartialEq, Eq, Structural)]
pub enum Operand {
    Known(Fill),
    Unknown,
}

/// What an operator does.
#[derive(Clone, Copy, Debug, PartialEq, Eq, Structural)]
pub enum Step {
    /// Return the left operand (the tensor operand of a scalar operation) unchanged.
    Left,
    /// Return the right operand unchanged.
    Right,
    /// Return the negation of the left operand.
    NegateLeft,
    /// Return the negation of the right operand.
    NegateRight,
    /// Return a fresh all-zero buffer of the operands' shape.
    Zeros,
    /// Compute the result elementwise into a new buffer.
    Compute,
    /// Build a deferred node owning the operands.
    Defer,
}

/// The fill of the scalar 0.
pub open spec fn zero_fill() -> Fill {
    Fill { zero: true, one: false, minus_one: false }
}

/// The fill of the scalar 1.
pub open spec fn one_fill() -> Fill {
    Fill { zero: false, one: true, minus_one: false }
}

/// The fill of the scalar -1.
pub open spec fn minus_one_fill() -> Fill {
    Fill { zero: false, one: false, minus_one: true }
}

impl Operand {
    pub open spec fn is_known(self) -> bool {
        self is Known
    }

    pub open spec fn all_zero(self) -> bool {
        match self {
            Operand::Known(f) => f.zero,
            Operand::Unknown => false,
        }
    }

    pub open spec fn all_one(self) -> bool {
        match self {
            Operand::Known(f) => f.one,
            Operand::Unknown => false,
        }
    }

    pub open spec fn all_minus_one(self) -> bool {
        match self {
            Operand::Known(f) => f.minus_one,
            Operand::Unknown => false,
        }
    }

    pub fn known(&self) -> (r: bool)
        ensures
            r == self.is_known(),
    {
        match self {
            Operand::Known(_) => true,
            Operand::Unknown => false,
        }
    }

    pub fn zero(&self) -> (r: bool)
        ensures
            r == self.all_zero(),
    {
        match self {
            Operand::Known(f) => f.zero,
            Operand::Unknown => false,
        }
    }

    pub fn one(&self) -> (r: bool)
        ensures
            r == self.all_one(),
    {
        match self {
            Operand::Known(f) => f.one,
            Operand::Unknown => false,
        }
    }

    pub fn minus_one(&self) -> (r: bool)
        ensures
            r == self.all_minus_one(),
    {
        match self {
            Operand::Known(f) => f.minus_one,
            Operand::Unknown => false,
        }
    }
}

/// Without a shortcut: compute when every operand is concrete, else defer.
pub open spec fn fallback(l: Operand, r: Operand) -> Step {
    if l.is_known() && r.is_known() {
        Step::Compute
    } else {
        Step::Defer
    }
}

/// The shortcuts of an operation on two tensors of one shape, tried in order.
pub open spec fn tensor_rule(op: OpKind, l: Operand, r: Operand) -> Result<Step, TensorError> {
    match op {
        OpKind::Add => if l.all_zero() {
            Ok(Step::Right)
        } else if r.all_zero() {
            Ok(Step::Left)
        } else {
            Ok(fallback(l, r))
        },
        OpKind::Subtract => if l.all_zero() {
            Ok(Step::NegateRight)
        } else if r.all_zero() {
            Ok(Step::Left)
        } else {
            Ok(fallback(l, r))
        },
        OpKind::Multiply => if l.all_one() {
            Ok(Step::Right)
        } else if r.all_one() {
            Ok(Step::Left)
        } else if l.all_zero() || r.all_zero() {
            Ok(Step::Zeros)
        } else {
            Ok(fallback(l, r))
        },
        OpKind::Divide => if r.all_zero() {
            Err(TensorError::DivisionByZero)
        } else if r.all_one() {
            Ok(Step::Left)
        } else if r.all_minus_one() {
            Ok(Step::NegateLeft)
        } else if l.all_zero() {
            Ok(Step::Left)
        } else {
            Ok(fallback(l, r))
        },
    }
}

/// The shortcuts of an operation on a tensor and a scalar, tried in order.
pub open spec fn scalar_rule(op: OpKind, x: Operand, s: Fill) -> Result<Step, TensorError> {
    let rest = if x.is_known() {
        Step::Compute
    } else {
        Step::Defer
    };
    match op {
        OpKind::Add | OpKind::Subtract => if s.zero {
            Ok(Step::Left)
        } else {
            Ok(rest)
        },
        OpKind::Multiply => if s.one {
            Ok(Step::Left)
        } else if s.zero {
            Ok(Step::Zeros)
        } else {
            Ok(rest)
        },
        OpKind::Divide => if s.one {
            Ok(Step::Left)
        } else if s.minus_one {
            Ok(Step::NegateLeft)
        } else if s.zero {
            Err(TensorError::DivisionByZero)
        } else {
            Ok(rest)
        },
    }
}

fn plan_fallback(l: &Operand, r: &Operand) -> (st: Step)
    ensures
        st == fallback(*l, *r),
{
    if l.known() && r.known() {
        Step::Compute
    } else {
        Step::Defer
    }
}

/// Decides what an operation on two tensors of one shape does.
pub fn plan_tensor(op: OpKind, l: Operand, r: Operand) -> (res: Result<Step, TensorError>)
    ensures
        res == tensor_rule(op, l, r),
{
    match op {
        OpKind::Add => if l.zero() {
            Ok(Step::Right)
        } else if r.zero() {
            Ok(Step::Left)
        } else {
            Ok(plan_fallback(&l, &r))
        },
        OpKind::Subtract => if l.zero() {
            Ok(Step::NegateRight)
        } else if r.zero() {
            Ok(Step::Left)
        } else {
            Ok(plan_fallback(&l, &r))
        },
        OpKind::Multiply => if l.one() {
            Ok(Step::Right)
        } else if r.one() {
            Ok(Step::Left)
        } else if l.zero() || r.zero() {
            Ok(Step::Zeros)
        } else {
            Ok(plan_fallback(&l, &r))
        },
        OpKind::Divide => if r.zero() {
            Err(TensorError::DivisionByZero)
        } else if r.one() {
            Ok(Step::Left)
        } else if r.minus_one() {
            Ok(Step::NegateLeft)
        } else if l.zero() {
            Ok(Step::Left)
        } else {
            Ok(plan_fallback(&l, &r))
        },
    }
}

/// Decides what an operation on a tensor and a scalar does.
pub fn plan_scalar(op: OpKind, x: Operand, s: Fill) -> (res: Result<Step, TensorError>)
    ensures
        res == scalar_rule(op, x, s),
{
    let rest = if x.known() {
        Step::Compute
    } else {
        Step::Defer
    };
    match op {
        OpKind::Add | OpKind::Subtract => if s.zero {
            Ok(Step::Left)
        } else {
            Ok(rest)
        },
        OpKind::Multiply => if s.one {
            Ok(Step::Left)
        } else if s.zero {
            Ok(Step::Zeros)
        } else {
            Ok(rest)
        },
        OpKind::Divide => if s.one {
            Ok(Step::Left)
        } else if s.minus_one {
            Ok(Step::NegateLeft)
        } else if s.zero {
            Err(TensorError::DivisionByZero)
        } else {
            Ok(rest)
        },
    }
}

/// Identity laws, for every operand `x`: `x + 0`, `x - 0`, `x * 1` and `x / 1`
/// return `x` unchanged; `x / -1` and a zero tensor minus `x` negate `x`.
pub proof fn identity_laws(x: Operand)
    ensures
        scalar_rule(OpKind::Add, x, zero_fill()) == Ok::<Step, TensorError>(Step::Left),
        scalar_rule(OpKind::Subtract, x, zero_fill()) == Ok::<Step, TensorError>(Step::Left),
        scalar_rule(OpKind::Multiply, x, one_fill()) == Ok::<Step, TensorError>(Step::Left),
        scalar_rule(OpKind::Divide, x, one_fill()) == Ok::<Step, TensorError>(Step::Left),
        scalar_rule(OpKind::Divide, x, minus_one_fill()) == Ok::<Step, TensorError>(
            Step::NegateLeft,
        ),
        tensor_rule(OpKind::Subtract, Operand::Known(zero_fill()), x) == Ok::<
            Step,
            TensorError,
        >(Step::NegateRight),
        !x.all_zero() ==> tensor_rule(OpKind::Add, x, Operand::Known(zero_fill())) == Ok::<
            Step,
            TensorError,
        >(Step::Left),
        !x.all_zero() ==> tensor_rule(OpKind::Subtract, x, Operand::Known(zero_fill())) == Ok::<
            Step,
            TensorError,
        >(Step::Left),
        !x.all_one() ==> tensor_rule(OpKind::Multiply, x, Operand::Known(one_fill())) == Ok::<
            Step,
            TensorError,
        >(Step::Left),
        tensor_rule(OpKind::Divide, x, Operand::Known(one_fill())) == Ok::<Step, TensorError>(
            Step::Left,
        ),
        tensor_rule(OpKind::Divide, x, Operand::Known(minus_one_fill())) == Ok::<
            Step,
            TensorError,
        >(Step::NegateLeft),
{
}

/// Absorbing law: multiplying any operand `x` by zero, on either side or by the
/// scalar 0, gives a fresh zero buffer; the one exception is an `x` that is
/// itself all ones, where the zero operand is returned as it is. So an
/// unresolved `x` always gives a fresh zero buffer.
pub proof fn absorbing_laws(x: Operand)
    ensures
        scalar_rule(OpKind::Multiply, x, zero_fill()) == Ok::<Step, TensorError>(Step::Zeros),
        tensor_rule(OpKind::Multiply, x, Operand::Known(zero_fill())) == if x.all_one() {
            Ok::<Step, TensorError>(Step::Right)
        } else {
            Ok::<Step, TensorError>(Step::Zeros)
        },
        tensor_rule(OpKind::Multiply, Operand::Known(zero_fill()), x) == if x.all_one() {
            Ok::<Step, TensorError>(Step::Left)
        } else {
            Ok::<Step, TensorError>(Step::Zeros)
        },
{
}

/// Division by zero: dividing any operand `x`, all-zero ones included, by an
/// all-zero tensor or by the scalar 0 fails.
pub proof fn division_by_zero_laws(x: Operand, d: Fill)
    requires
        d.zero,
    ensures
        tensor_rule(OpKind::Divide, x, Operand::Known(d)) == Err::<Step, TensorError>(
            TensorError::DivisionByZero,
        ),
        scalar_rule(OpKind::Divide, x, zero_fill()) == Err::<Step, TensorError>(
            TensorError::DivisionByZero,
        ),
{
}

} // verus!
