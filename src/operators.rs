//! The arithmetic operators: each classifies its operands, asks the
//! simplification table what to do, and then returns an operand, a fresh
//! buffer, or a deferred node.
use vstd::prelude::*;
use vstd::std_specs::cmp::PartialEqSpec;
use vstd::std_specs::convert::FromSpec;
use vstd::std_specs::ops::{AddSpec, DivSpec, MulSpec, SubSpec};
use std::ops::{Add, Div, Mul, Sub};
use crate::rules::{plan_scalar, plan_tensor, scalar_rule, tensor_rule, Fill, OpKind, Operand, Step};
use crate::shape::{copy_shape, product};
use crate::tensor::{all_eq, ConcreteTensor, Tensor};
use crate::TensorError;

verus! {

/// The element 0 of `T`.
pub open spec fn zero_of<T: From<i8>>() -> T {
    <T as FromSpec<i8>>::from_spec(0i8)
}

/// The element 1 of `T`.
pub open spec fn one_of<T: From<i8>>() -> T {
    <T as FromSpec<i8>>::from_spec(1i8)
}

/// The element -1 of `T`.
pub open spec fn minus_one_of<T: From<i8>>() -> T {
    <T as FromSpec<i8>>::from_spec(-1i8)
}

/// `T`'s equality, constants and arithmetic follow their specifications, so
/// that results can be stated exactly. The machine integers are lawful; the
/// floating-point types are not, since their operations carry no
/// specification.
pub open spec fn lawful<T: PartialEq + From<i8> + Add<Output = T> + Sub<Output = T> + Mul<
    Output = T,
> + Div<Output = T>>() -> bool {
    &&& T::obeys_eq_spec()
    &&& <T as FromSpec<i8>>::obeys_from_spec()
    &&& T::obeys_add_spec()
    &&& T::obeys_sub_spec()
    &&& T::obeys_mul_spec()
    &&& T::obeys_div_spec()
}

/// `T`'s arithmetic is defined on every pair of elements, as for floats
/// (a checked integer type is not total: see `elem_req`).
pub open spec fn total<T: Add<Output = T> + Sub<Output = T> + Mul<Output = T> + Div<
    Output = T,
>>() -> bool {
    &&& forall|a: T, b: T| #[trigger] a.add_req(b)
    &&& forall|a: T, b: T| #[trigger] a.sub_req(b)
    &&& forall|a: T, b: T| #[trigger] a.mul_req(b)
    &&& forall|a: T, b: T| #[trigger] a.div_req(b)
}

/// The elementwise operation is defined on `a` and `b` (no overflow, say).
pub open spec fn elem_req<T: Add<Output = T> + Sub<Output = T> + Mul<Output = T> + Div<Output = T>>(
    op: OpKind,
    a: T,
    b: T,
) -> bool {
    match op {
        OpKind::Add => a.add_req(b),
        OpKind::Subtract => a.sub_req(b),
        OpKind::Multiply => a.mul_req(b),
        OpKind::Divide => a.div_req(b),
    }
}

/// `x op s` is defined on every element of `x`, if `x` is a buffer.
pub open spec fn scalar_elems_ok<T: Add<Output = T> + Sub<Output = T> + Mul<Output = T> + Div<
    Output = T,
>>(op: OpKind, x: Tensor<T>, s: T) -> bool {
    x matches Tensor::Concrete(c) ==> forall|i: int|
        0 <= i < c.elements().len() ==> #[trigger] elem_req(op, c.elements()[i], s)
}

/// `l op r` is defined on every pair of elements, if both are buffers.
pub open spec fn tensor_elems_ok<T: Add<Output = T> + Sub<Output = T> + Mul<Output = T> + Div<
    Output = T,
>>(op: OpKind, l: Tensor<T>, r: Tensor<T>) -> bool {
    l matches Tensor::Concrete(a) && r matches Tensor::Concrete(b) ==> forall|i: int|
        0 <= i < a.elements().len() ==> #[trigger] elem_req(op, a.elements()[i], b.elements()[i])
}

/// For a `lawful` type, `x op s` is defined on the elements it actually
/// computes on.
pub open spec fn scalar_defined<T: PartialEq + From<i8> + Add<Output = T> + Sub<Output = T> + Mul<Output = T> + Div<Output = T>>(op: OpKind, x: Tensor<T>, s: T) -> bool {
    match scalar_rule(op, operand_of(x), fill_of_value(s)) {
        Ok(Step::Compute) => scalar_elems_ok(op, x, s),
        Ok(Step::NegateLeft) => scalar_elems_ok(OpKind::Multiply, x, minus_one_of::<T>()),
        _ => true,
    }
}

/// For a `lawful` type, `l op r` is defined on the elements it actually
/// computes on, negation included.
pub open spec fn tensor_defined<T: PartialEq + From<i8> + Add<Output = T> + Sub<Output = T> + Mul<Output = T> + Div<Output = T>>(op: OpKind, l: Tensor<T>, r: Tensor<T>) -> bool {
    match tensor_rule(op, operand_of(l), operand_of(r)) {
        Ok(Step::Compute) => tensor_elems_ok(op, l, r),
        Ok(Step::NegateLeft) => scalar_elems_ok(OpKind::Multiply, l, minus_one_of::<T>()),
        Ok(Step::NegateRight) => scalar_elems_ok(OpKind::Multiply, r, minus_one_of::<T>()),
        _ => true,
    }
}

/// `x op s` never meets an undefined elementwise operation.
pub open spec fn scalar_computable<T: PartialEq + From<i8> + Add<Output = T> + Sub<Output = T> + Mul<Output = T> + Div<Output = T>>(op: OpKind, x: Tensor<T>, s: T) -> bool {
    total::<T>() || (lawful::<T>() && scalar_defined(op, x, s))
}

/// `l op r` never meets an undefined elementwise operation.
pub open spec fn tensor_computable<T: PartialEq + From<i8> + Add<Output = T> + Sub<Output = T> + Mul<Output = T> + Div<Output = T>>(op: OpKind, l: Tensor<T>, r: Tensor<T>) -> bool {
    total::<T>() || (lawful::<T>() && tensor_defined(op, l, r))
}

/// Negating `x` never meets an undefined multiplication.
pub open spec fn negation_computable<T: PartialEq + From<i8> + Add<Output = T> + Sub<Output = T> + Mul<Output = T> + Div<Output = T>>(x: Tensor<T>) -> bool {
    total::<T>() || (lawful::<T>() && scalar_elems_ok(OpKind::Multiply, x, minus_one_of::<T>()))
}

/// One elementwise operation on two elements.
pub open spec fn elem<T: Add<Output = T> + Sub<Output = T> + Mul<Output = T> + Div<Output = T>>(
    op: OpKind,
    a: T,
    b: T,
) -> T {
    match op {
        OpKind::Add => a.add_spec(b),
        OpKind::Subtract => a.sub_spec(b),
        OpKind::Multiply => a.mul_spec(b),
        OpKind::Divide => a.div_spec(b),
    }
}

/// Which constants a scalar equals.
pub open spec fn fill_of_value<T: PartialEq + From<i8>>(s: T) -> Fill {
    Fill {
        zero: s.eq_spec(&zero_of::<T>()),
        one: s.eq_spec(&one_of::<T>()),
        minus_one: s.eq_spec(&minus_one_of::<T>()),
    }
}

/// Which constants every element of a sequence equals.
pub open spec fn fill_of_elements<T: PartialEq + From<i8>>(d: Seq<T>) -> Fill {
    Fill {
        zero: all_eq(d, zero_of::<T>()),
        one: all_eq(d, one_of::<T>()),
        minus_one: all_eq(d, minus_one_of::<T>()),
    }
}

/// What the simplification table is told about a tensor operand.
pub open spec fn operand_of<T: PartialEq + From<i8>>(t: Tensor<T>) -> Operand {
    match t {
        Tensor::Concrete(c) => Operand::Known(fill_of_elements(c.elements())),
        _ => Operand::Unknown,
    }
}

/// The deferred node of a tensor-tensor operation.
pub open spec fn tensor_node<T>(op: OpKind, l: Tensor<T>, r: Tensor<T>) -> Tensor<T> {
    match op {
        OpKind::Add => Tensor::AddTensor(Box::new(l), Box::new(r)),
        OpKind::Subtract => Tensor::SubtractTensor(Box::new(l), Box::new(r)),
        OpKind::Multiply => Tensor::MultiplyTensor(Box::new(l), Box::new(r)),
        OpKind::Divide => Tensor::DivideTensor(Box::new(l), Box::new(r)),
    }
}

/// The deferred node of a tensor-scalar operation.
pub open spec fn scalar_node<T>(op: OpKind, x: Tensor<T>, s: T) -> Tensor<T> {
    match op {
        OpKind::Add => Tensor::AddScalar(Box::new(x), s),
        OpKind::Subtract => Tensor::SubtractScalar(Box::new(x), s),
        OpKind::Multiply => Tensor::MultiplyScalar(Box::new(x), s),
        OpKind::Divide => Tensor::DivideScalar(Box::new(x), s),
    }
}

/// `t` is a fresh buffer of zeros of the given shape.
pub open spec fn is_zeros<T: From<i8>>(t: Tensor<T>, shape: Seq<usize>) -> bool {
    t matches Tensor::Concrete(c) && c.dims() == shape && c.elements() == Seq::new(
        product(shape) as nat,
        |i: int| zero_of::<T>(),
    )
}

/// `t` is the buffer of `l op r`, element by element.
pub open spec fn is_elementwise<T: Add<Output = T> + Sub<Output = T> + Mul<Output = T> + Div<
    Output = T,
>>(op: OpKind, l: Tensor<T>, r: Tensor<T>, t: Tensor<T>) -> bool {
    &&& l matches Tensor::Concrete(a)
    &&& r matches Tensor::Concrete(b)
    &&& t matches Tensor::Concrete(c)
    &&& c.dims() == a.dims()
    &&& c.elements() == Seq::new(
        a.elements().len(),
        |i: int| elem(op, a.elements()[i], b.elements()[i]),
    )
}

/// `t` is the buffer of `x op s`, element by element.
pub open spec fn is_elementwise_scalar<T: Add<Output = T> + Sub<Output = T> + Mul<Output = T> + Div<
    Output = T,
>>(op: OpKind, x: Tensor<T>, s: T, t: Tensor<T>) -> bool {
    &&& x matches Tensor::Concrete(a)
    &&& t matches Tensor::Concrete(c)
    &&& c.dims() == a.dims()
    &&& c.elements() == Seq::new(a.elements().len(), |i: int| elem(op, a.elements()[i], s))
}

/// What a tensor-scalar step other than negation returns.
pub open spec fn scalar_step_post<T: PartialEq + From<i8> + Add<Output = T> + Sub<Output = T> + Mul<
    Output = T,
> + Div<Output = T>>(op: OpKind, x: Tensor<T>, s: T, st: Step, t: Tensor<T>) -> bool {
    match st {
        Step::Left => t == x,
        Step::Zeros => is_zeros(t, x.shape_of()),
        Step::Compute => is_elementwise_scalar(op, x, s, t),
        Step::Defer => t == scalar_node(op, x, s),
        _ => false,
    }
}

/// `t` is the negation of `x`: `x` multiplied by the scalar -1.
pub open spec fn negation_post<T: PartialEq + From<i8> + Add<Output = T> + Sub<Output = T> + Mul<
    Output = T,
> + Div<Output = T>>(x: Tensor<T>, t: Tensor<T>) -> bool {
    scalar_rule(OpKind::Multiply, operand_of(x), fill_of_value(minus_one_of::<T>())) matches Ok(st)
        && scalar_step_post(OpKind::Multiply, x, minus_one_of::<T>(), st, t)
}

/// What `x op s` returns.
pub open spec fn scalar_post<T: PartialEq + From<i8> + Add<Output = T> + Sub<Output = T> + Mul<
    Output = T,
> + Div<Output = T>>(op: OpKind, x: Tensor<T>, s: T, res: Result<Tensor<T>, TensorError>) -> bool {
    match scalar_rule(op, operand_of(x), fill_of_value(s)) {
        Err(e) => res == Err::<Tensor<T>, TensorError>(e),
        Ok(Step::NegateLeft) => res matches Ok(t) && negation_post(x, t),
        Ok(st) => res matches Ok(t) && scalar_step_post(op, x, s, st, t),
    }
}

/// What `l op r` returns.
pub open spec fn tensor_post<T: PartialEq + From<i8> + Add<Output = T> + Sub<Output = T> + Mul<
    Output = T,
> + Div<Output = T>>(op: OpKind, l: Tensor<T>, r: Tensor<T>, res: Result<Tensor<T>, TensorError>) -> bool {
    if l.shape_of() != r.shape_of() {
        res == Err::<Tensor<T>, TensorError>(TensorError::ShapeMismatch)
    } else {
        match tensor_rule(op, operand_of(l), operand_of(r)) {
            Err(e) => res == Err::<Tensor<T>, TensorError>(e),
            Ok(st) => res matches Ok(t) && match st {
                Step::Left => t == l,
                Step::Right => t == r,
                Step::NegateLeft => negation_post(l, t),
                Step::NegateRight => negation_post(r, t),
                Step::Zeros => is_zeros(t, l.shape_of()),
                Step::Compute => is_elementwise(op, l, r, t),
                Step::Defer => t == tensor_node(op, l, r),
            },
        }
    }
}

/// `o` may be what the table was told about `t`: it knows exactly which
/// operands are concrete, and for a `lawful` type it is `operand_of(t)`.
pub open spec fn observed<T: PartialEq + From<i8> + Add<Output = T> + Sub<Output = T> + Mul<
    Output = T,
> + Div<Output = T>>(t: Tensor<T>, o: Operand) -> bool {
    &&& o.is_known() == (t is Concrete)
    &&& lawful::<T>() ==> o == operand_of(t)
}

/// `f` may be what the table was told about the scalar `s`.
pub open spec fn observed_scalar<T: PartialEq + From<i8> + Add<Output = T> + Sub<Output = T> + Mul<
    Output = T,
> + Div<Output = T>>(s: T, f: Fill) -> bool {
    lawful::<T>() ==> f == fill_of_value(s)
}

/// `t` has the form of a negation of `x`: `x` itself, a buffer, or `x`
/// multiplied by a scalar in a deferred node.
pub open spec fn negation_form<T>(x: Tensor<T>, t: Tensor<T>) -> bool {
    t == x || t is Concrete || (t matches Tensor::MultiplyScalar(b, _) && *b == x)
}

/// The form of what `l op r` returns when the table is told `lo` and `ro`.
pub open spec fn tensor_outcome<T>(
    op: OpKind,
    l: Tensor<T>,
    r: Tensor<T>,
    lo: Operand,
    ro: Operand,
    res: Result<Tensor<T>, TensorError>,
) -> bool {
    if l.shape_of() != r.shape_of() {
        res == Err::<Tensor<T>, TensorError>(TensorError::ShapeMismatch)
    } else {
        match tensor_rule(op, lo, ro) {
            Err(e) => res == Err::<Tensor<T>, TensorError>(e),
            Ok(st) => res matches Ok(t) && match st {
                Step::Left => t == l,
                Step::Right => t == r,
                Step::NegateLeft => negation_form(l, t),
                Step::NegateRight => negation_form(r, t),
                Step::Zeros => t is Concrete,
                Step::Compute => t is Concrete,
                Step::Defer => t == tensor_node(op, l, r),
            },
        }
    }
}

/// The form of what `x op s` returns when the table is told `o` and `f`.
pub open spec fn scalar_outcome<T>(
    op: OpKind,
    x: Tensor<T>,
    s: T,
    o: Operand,
    f: Fill,
    res: Result<Tensor<T>, TensorError>,
) -> bool {
    match scalar_rule(op, o, f) {
        Err(e) => res == Err::<Tensor<T>, TensorError>(e),
        Ok(st) => res matches Ok(t) && match st {
            Step::Left => t == x,
            Step::NegateLeft => negation_form(x, t),
            Step::Zeros => t is Concrete,
            Step::Compute => t is Concrete,
            Step::Defer => t == scalar_node(op, x, s),
            _ => false,
        },
    }
}

fn apply_elem<T: Copy + Add<Output = T> + Sub<Output = T> + Mul<Output = T> + Div<Output = T>>(
    op: OpKind,
    a: T,
    b: T,
) -> (r: T)
    requires
        elem_req(op, a, b),
    ensures
        (T::obeys_add_spec() && T::obeys_sub_spec() && T::obeys_mul_spec()
            && T::obeys_div_spec()) ==> r == elem(op, a, b),
{
    match op {
        OpKind::Add => a.add(b),
        OpKind::Subtract => a.sub(b),
        OpKind::Multiply => a.mul(b),
        OpKind::Divide => a.div(b),
    }
}

/// `a[i] op b[i]` for every index.
fn combine_elements<T: Copy + Add<Output = T> + Sub<Output = T> + Mul<Output = T> + Div<
    Output = T,
>>(op: OpKind, a: &[T], b: &[T]) -> (r: Vec<T>)
    requires
        a@.len() == b@.len(),
        forall|i: int| 0 <= i < a@.len() ==> #[trigger] elem_req(op, a@[i], b@[i]),
    ensures
        r@.len() == a@.len(),
        (T::obeys_add_spec() && T::obeys_sub_spec() && T::obeys_mul_spec()
            && T::obeys_div_spec()) ==> r@ == Seq::new(a@.len(), |i: int| elem(op, a@[i], b@[i])),
{
    let mut r: Vec<T> = Vec::with_capacity(a.len());
    let mut i: usize = 0;
    while i < a.len()
        invariant
            i <= a@.len(),
            a@.len() == b@.len(),
            forall|i: int| 0 <= i < a@.len() ==> #[trigger] elem_req(op, a@[i], b@[i]),
            r@.len() == i,
            (T::obeys_add_spec() && T::obeys_sub_spec() && T::obeys_mul_spec()
                && T::obeys_div_spec()) ==> forall|j: int|
                0 <= j < i ==> r@[j] == elem(op, a@[j], b@[j]),
        decreases a@.len() - i,
    {
        r.push(apply_elem(op, a[i], b[i]));
        i = i + 1;
    }
    proof {
        if T::obeys_add_spec() && T::obeys_sub_spec() && T::obeys_mul_spec() && T::obeys_div_spec() {
            assert(r@ =~= Seq::new(a@.len(), |i: int| elem(op, a@[i], b@[i])));
        }
    }
    r
}

/// `a[i] op s` for every index.
fn combine_scalar<T: Copy + Add<Output = T> + Sub<Output = T> + Mul<Output = T> + Div<
    Output = T,
>>(op: OpKind, a: &[T], s: T) -> (r: Vec<T>)
    requires
        forall|i: int| 0 <= i < a@.len() ==> #[trigger] elem_req(op, a@[i], s),
    ensures
        r@.len() == a@.len(),
        (T::obeys_add_spec() && T::obeys_sub_spec() && T::obeys_mul_spec()
            && T::obeys_div_spec()) ==> r@ == Seq::new(a@.len(), |i: int| elem(op, a@[i], s)),
{
    let mut r: Vec<T> = Vec::with_capacity(a.len());
    let mut i: usize = 0;
    while i < a.len()
        invariant
            i <= a@.len(),
            forall|i: int| 0 <= i < a@.len() ==> #[trigger] elem_req(op, a@[i], s),
            r@.len() == i,
            (T::obeys_add_spec() && T::obeys_sub_spec() && T::obeys_mul_spec()
                && T::obeys_div_spec()) ==> forall|j: int| 0 <= j < i ==> r@[j] == elem(op, a@[j], s),
        decreases a@.len() - i,
    {
        r.push(apply_elem(op, a[i], s));
        i = i + 1;
    }
    proof {
        if T::obeys_add_spec() && T::obeys_sub_spec() && T::obeys_mul_spec() && T::obeys_div_spec() {
            assert(r@ =~= Seq::new(a@.len(), |i: int| elem(op, a@[i], s)));
        }
    }
    r
}

/// Which constants a scalar equals, by `T`'s own `==`.
fn classify_scalar<T: PartialEq + From<i8>>(s: &T) -> (f: Fill)
    ensures
        (T::obeys_eq_spec() && <T as FromSpec<i8>>::obeys_from_spec()) ==> f == fill_of_value(*s),
{
    let z = T::from(0i8);
    let o = T::from(1i8);
    let m = T::from(-1i8);
    Fill { zero: *s == z, one: *s == o, minus_one: *s == m }
}

/// What the simplification table is told about `t`: the fill of a concrete
/// buffer, and nothing of any other node (a variable is never read).
fn classify<T: PartialEq + From<i8>>(t: &Tensor<T>) -> (o: Operand)
    ensures
        o.is_known() == (t is Concrete),
        (T::obeys_eq_spec() && <T as FromSpec<i8>>::obeys_from_spec()) ==> o == operand_of(*t),
{
    match t {
        Tensor::Concrete(c) => {
            let z = T::from(0i8);
            let o = T::from(1i8);
            let m = T::from(-1i8);
            let f = Fill {
                zero: c.all_equal_to(z),
                one: c.all_equal_to(o),
                minus_one: c.all_equal_to(m),
            };
            proof {
                if T::obeys_eq_spec() && <T as FromSpec<i8>>::obeys_from_spec() {
                    assert(f == fill_of_elements(c.elements()));
                }
            }
            Operand::Known(f)
        },
        _ => Operand::Unknown,
    }
}

fn make_tensor_node<T>(op: OpKind, l: Tensor<T>, r: Tensor<T>) -> (t: Tensor<T>)
    ensures
        t == tensor_node(op, l, r),
{
    match op {
        OpKind::Add => Tensor::AddTensor(Box::new(l), Box::new(r)),
        OpKind::Subtract => Tensor::SubtractTensor(Box::new(l), Box::new(r)),
        OpKind::Multiply => Tensor::MultiplyTensor(Box::new(l), Box::new(r)),
        OpKind::Divide => Tensor::DivideTensor(Box::new(l), Box::new(r)),
    }
}

fn make_scalar_node<T>(op: OpKind, x: Tensor<T>, s: T) -> (t: Tensor<T>)
    ensures
        t == scalar_node(op, x, s),
{
    match op {
        OpKind::Add => Tensor::AddScalar(Box::new(x), s),
        OpKind::Subtract => Tensor::SubtractScalar(Box::new(x), s),
        OpKind::Multiply => Tensor::MultiplyScalar(Box::new(x), s),
        OpKind::Divide => Tensor::DivideScalar(Box::new(x), s),
    }
}

/// A fresh buffer of zeros of the given node's shape.
fn zeros_like<T: Copy + From<i8>>(x: &Tensor<T>) -> (t: Tensor<T>)
    requires
        x.wf(),
    ensures
        t.wf(),
        t is Concrete,
        t.shape_of() == x.shape_of(),
        <T as FromSpec<i8>>::obeys_from_spec() ==> is_zeros(t, x.shape_of()),
{
    proof {
        x.lemma_size_fits();
    }
    Tensor::Concrete(ConcreteTensor::constant(T::from(0i8), copy_shape(x.shape())))
}

/// Carries out a tensor-scalar step other than negation.
fn apply_scalar_step<T: Copy + PartialEq + From<i8> + Add<Output = T> + Sub<Output = T> + Mul<
    Output = T,
> + Div<Output = T>>(op: OpKind, x: Tensor<T>, s: T, st: Step) -> (t: Tensor<T>)
    requires
        x.wf(),
        st is Left || st is Zeros || st is Compute || st is Defer,
        st is Compute ==> x is Concrete && scalar_elems_ok(op, x, s),
    ensures
        t.wf(),
        t.shape_of() == x.shape_of(),
        st is Left ==> t == x,
        st is Zeros || st is Compute ==> t is Concrete,
        st is Defer ==> t == scalar_node(op, x, s),
        lawful::<T>() ==> scalar_step_post(op, x, s, st, t),
{
    match st {
        Step::Zeros => zeros_like(&x),
        Step::Compute => match x {
            Tensor::Concrete(c) => {
                let data = combine_scalar(op, c.data(), s);
                Tensor::Concrete(ConcreteTensor::from_parts(data, copy_shape(c.shape())))
            },
            other => make_scalar_node(op, other, s),
        },
        Step::Defer => make_scalar_node(op, x, s),
        _ => x,
    }
}

/// `x op s` for an operation other than division, which cannot fail.
fn scalar_total<T: Copy + PartialEq + From<i8> + Add<Output = T> + Sub<Output = T> + Mul<
    Output = T,
> + Div<Output = T>>(op: OpKind, x: Tensor<T>, s: T) -> (t: Tensor<T>)
    requires
        op != OpKind::Divide,
        x.wf(),
        scalar_computable(op, x, s),
    ensures
        t.wf(),
        t.shape_of() == x.shape_of(),
        t == x || t is Concrete || t == scalar_node(op, x, s),
        exists|o: Operand, f: Fill|
            observed(x, o) && observed_scalar(s, f) && #[trigger] scalar_outcome(
                op,
                x,
                s,
                o,
                f,
                Ok::<Tensor<T>, TensorError>(t),
            ),
        lawful::<T>() ==> scalar_post(op, x, s, Ok(t)),
{
    let f = classify_scalar(&s);
    let o = classify(&x);
    match plan_scalar(op, o, f) {
        Ok(st) => {
            let t = apply_scalar_step(op, x, s, st);
            assert(scalar_outcome(op, x, s, o, f, Ok::<Tensor<T>, TensorError>(t)));
            t
        },
        Err(_) => x,
    }
}

/// `x` multiplied by the scalar -1.
fn negate<T: Copy + PartialEq + From<i8> + Add<Output = T> + Sub<Output = T> + Mul<Output = T> + Div<
    Output = T,
>>(x: Tensor<T>) -> (t: Tensor<T>)
    requires
        x.wf(),
        negation_computable(x),
    ensures
        t.wf(),
        t.shape_of() == x.shape_of(),
        negation_form(x, t),
        lawful::<T>() ==> negation_post(x, t),
{
    scalar_total(OpKind::Multiply, x, T::from(-1i8))
}

/// `x op s` for every operation: the simplification table decides.
fn scalar_op<T: Copy + PartialEq + From<i8> + Add<Output = T> + Sub<Output = T> + Mul<
    Output = T,
> + Div<Output = T>>(op: OpKind, x: Tensor<T>, s: T) -> (r: Result<Tensor<T>, TensorError>)
    requires
        x.wf(),
        scalar_computable(op, x, s),
    ensures
        r is Ok ==> r->Ok_0.wf() && r->Ok_0.shape_of() == x.shape_of(),
        r is Err ==> op == OpKind::Divide && r->Err_0 == TensorError::DivisionByZero,
        exists|o: Operand, f: Fill|
            observed(x, o) && observed_scalar(s, f) && #[trigger] scalar_outcome(op, x, s, o, f, r),
        lawful::<T>() ==> scalar_post(op, x, s, r),
{
    let f = classify_scalar(&s);
    let o = classify(&x);
    let r = match plan_scalar(op, o, f) {
        Err(e) => Err(e),
        Ok(Step::NegateLeft) => Ok(negate(x)),
        Ok(st) => Ok(apply_scalar_step(op, x, s, st)),
    };
    assert(scalar_outcome(op, x, s, o, f, r));
    r
}

/// `l op r` for every operation: shapes are compared first, then the
/// simplification table decides.
fn tensor_op<T: Copy + PartialEq + From<i8> + Add<Output = T> + Sub<Output = T> + Mul<
    Output = T,
> + Div<Output = T>>(op: OpKind, l: Tensor<T>, r: Tensor<T>) -> (res: Result<Tensor<T>, TensorError>)
    requires
        l.wf(),
        r.wf(),
        tensor_computable(op, l, r),
    ensures
        res is Ok ==> res->Ok_0.wf() && res->Ok_0.shape_of() == l.shape_of(),
        l.shape_of() != r.shape_of() ==> res == Err::<Tensor<T>, TensorError>(
            TensorError::ShapeMismatch,
        ),
        res is Err ==> res->Err_0 == TensorError::ShapeMismatch && l.shape_of() != r.shape_of()
            || res->Err_0 == TensorError::DivisionByZero && op == OpKind::Divide,
        res == Err::<Tensor<T>, TensorError>(TensorError::DivisionByZero) ==> l.shape_of()
            == r.shape_of() && r is Concrete,
        exists|lo: Operand, ro: Operand|
            observed(l, lo) && observed(r, ro) && #[trigger] tensor_outcome(op, l, r, lo, ro, res),
        lawful::<T>() ==> tensor_post(op, l, r, res),
{
    let lo = classify(&l);
    let ro = classify(&r);
    if !crate::shape::same_shape(l.shape(), r.shape()) {
        let res = Err(TensorError::ShapeMismatch);
        assert(tensor_outcome(op, l, r, lo, ro, res));
        return res;
    }
    let res = match plan_tensor(op, lo, ro) {
        Err(e) => Err(e),
        Ok(Step::Left) => Ok(l),
        Ok(Step::Right) => Ok(r),
        Ok(Step::NegateLeft) => Ok(negate(l)),
        Ok(Step::NegateRight) => Ok(negate(r)),
        Ok(Step::Zeros) => Ok(zeros_like(&l)),
        Ok(Step::Compute) => match (l, r) {
            (Tensor::Concrete(a), Tensor::Concrete(b)) => {
                let data = combine_elements(op, a.data(), b.data());
                Ok(Tensor::Concrete(ConcreteTensor::from_parts(data, copy_shape(a.shape()))))
            },
            (l, r) => Ok(make_tensor_node(op, l, r)),
        },
        Ok(Step::Defer) => Ok(make_tensor_node(op, l, r)),
    };
    assert(tensor_outcome(op, l, r, lo, ro, res));
    res
}

impl<T: Copy + PartialEq + From<i8> + Add<Output = T> + Sub<Output = T> + Mul<Output = T> + Div<
    Output = T,
>> Tensor<T> {
    /// Elementwise sum; an all-zero buffer on either side returns the other operand.
    pub fn add(self, rhs: Tensor<T>) -> (r: Result<Tensor<T>, TensorError>)
        requires
            self.wf(),
            rhs.wf(),
            tensor_computable(OpKind::Add, self, rhs),
        ensures
            self.shape_of() != rhs.shape_of() ==> r == Err::<Tensor<T>, TensorError>(
                TensorError::ShapeMismatch,
            ),
            self.shape_of() == rhs.shape_of() ==> r is Ok,
            r is Ok ==> r->Ok_0.wf() && r->Ok_0.shape_of() == self.shape_of(),
            exists|lo: Operand, ro: Operand|
                observed(self, lo) && observed(rhs, ro) && #[trigger] tensor_outcome(
                    OpKind::Add,
                    self,
                    rhs,
                    lo,
                    ro,
                    r,
                ),
            lawful::<T>() ==> tensor_post(OpKind::Add, self, rhs, r),
    {
        tensor_op(OpKind::Add, self, rhs)
    }

    /// Elementwise difference; an all-zero left side negates the right one, an all-zero right side returns the left one.
    pub fn sub(self, rhs: Tensor<T>) -> (r: Result<Tensor<T>, TensorError>)
        requires
            self.wf(),
            rhs.wf(),
            tensor_computable(OpKind::Subtract, self, rhs),
        ensures
            self.shape_of() != rhs.shape_of() ==> r == Err::<Tensor<T>, TensorError>(
                TensorError::ShapeMismatch,
            ),
            self.shape_of() == rhs.shape_of() ==> r is Ok,
            r is Ok ==> r->Ok_0.wf() && r->Ok_0.shape_of() == self.shape_of(),
            exists|lo: Operand, ro: Operand|
                observed(self, lo) && observed(rhs, ro) && #[trigger] tensor_outcome(
                    OpKind::Subtract,
                    self,
                    rhs,
                    lo,
                    ro,
                    r,
                ),
            lawful::<T>() ==> tensor_post(OpKind::Subtract, self, rhs, r),
    {
        tensor_op(OpKind::Subtract, self, rhs)
    }

    /// Elementwise product; an all-ones buffer returns the other operand, an all-zero one gives a fresh zero buffer without looking at the other operand.
    pub fn mul(self, rhs: Tensor<T>) -> (r: Result<Tensor<T>, TensorError>)
        requires
            self.wf(),
            rhs.wf(),
            tensor_computable(OpKind::Multiply, self, rhs),
        ensures
            self.shape_of() != rhs.shape_of() ==> r == Err::<Tensor<T>, TensorError>(
                TensorError::ShapeMismatch,
            ),
            self.shape_of() == rhs.shape_of() ==> r is Ok,
            r is Ok ==> r->Ok_0.wf() && r->Ok_0.shape_of() == self.shape_of(),
            exists|lo: Operand, ro: Operand|
                observed(self, lo) && observed(rhs, ro) && #[trigger] tensor_outcome(
                    OpKind::Multiply,
                    self,
                    rhs,
                    lo,
                    ro,
                    r,
                ),
            lawful::<T>() ==> tensor_post(OpKind::Multiply, self, rhs, r),
    {
        tensor_op(OpKind::Multiply, self, rhs)
    }

    /// Elementwise quotient; an all-zero divisor fails with `DivisionByZero`, even over an all-zero dividend.
    pub fn div(self, rhs: Tensor<T>) -> (r: Result<Tensor<T>, TensorError>)
        requires
            self.wf(),
            rhs.wf(),
            tensor_computable(OpKind::Divide, self, rhs),
        ensures
            self.shape_of() != rhs.shape_of() ==> r == Err::<Tensor<T>, TensorError>(
                TensorError::ShapeMismatch,
            ),
            r == Err::<Tensor<T>, TensorError>(TensorError::DivisionByZero) ==> self.shape_of()
                == rhs.shape_of() && rhs is Concrete,
            r is Ok ==> r->Ok_0.wf() && r->Ok_0.shape_of() == self.shape_of(),
            exists|lo: Operand, ro: Operand|
                observed(self, lo) && observed(rhs, ro) && #[trigger] tensor_outcome(
                    OpKind::Divide,
                    self,
                    rhs,
                    lo,
                    ro,
                    r,
                ),
            lawful::<T>() ==> tensor_post(OpKind::Divide, self, rhs, r),
    {
        tensor_op(OpKind::Divide, self, rhs)
    }

    /// Adds `s` to every element; adding 0 returns the operand unchanged.
    pub fn add_scalar(self, s: T) -> (r: Tensor<T>)
        requires
            self.wf(),
            scalar_computable(OpKind::Add, self, s),
        ensures
            r.wf(),
            r.shape_of() == self.shape_of(),
            exists|o: Operand, f: Fill|
                observed(self, o) && observed_scalar(s, f) && #[trigger] scalar_outcome(
                    OpKind::Add,
                    self,
                    s,
                    o,
                    f,
                    Ok::<Tensor<T>, TensorError>(r),
                ),
            lawful::<T>() ==> scalar_post(OpKind::Add, self, s, Ok(r)),
    {
        scalar_total(OpKind::Add, self, s)
    }

    /// Subtracts `s` from every element; subtracting 0 returns the operand unchanged.
    pub fn sub_scalar(self, s: T) -> (r: Tensor<T>)
        requires
            self.wf(),
            scalar_computable(OpKind::Subtract, self, s),
        ensures
            r.wf(),
            r.shape_of() == self.shape_of(),
            exists|o: Operand, f: Fill|
                observed(self, o) && observed_scalar(s, f) && #[trigger] scalar_outcome(
                    OpKind::Subtract,
                    self,
                    s,
                    o,
                    f,
                    Ok::<Tensor<T>, TensorError>(r),
                ),
            lawful::<T>() ==> scalar_post(OpKind::Subtract, self, s, Ok(r)),
    {
        scalar_total(OpKind::Subtract, self, s)
    }

    /// Multiplies every element by `s`; 1 returns the operand unchanged, 0 gives a fresh zero buffer.
    pub fn mul_scalar(self, s: T) -> (r: Tensor<T>)
        requires
            self.wf(),
            scalar_computable(OpKind::Multiply, self, s),
        ensures
            r.wf(),
            r.shape_of() == self.shape_of(),
            exists|o: Operand, f: Fill|
                observed(self, o) && observed_scalar(s, f) && #[trigger] scalar_outcome(
                    OpKind::Multiply,
                    self,
                    s,
                    o,
                    f,
                    Ok::<Tensor<T>, TensorError>(r),
                ),
            lawful::<T>() ==> scalar_post(OpKind::Multiply, self, s, Ok(r)),
    {
        scalar_total(OpKind::Multiply, self, s)
    }

    /// Divides every element by `s`; 1 returns the operand unchanged, -1
    /// negates it, 0 fails with `DivisionByZero`.
    pub fn div_scalar(self, s: T) -> (r: Result<Tensor<T>, TensorError>)
        requires
            self.wf(),
            scalar_computable(OpKind::Divide, self, s),
        ensures
            r is Err ==> r->Err_0 == TensorError::DivisionByZero,
            r is Ok ==> r->Ok_0.wf() && r->Ok_0.shape_of() == self.shape_of(),
            exists|o: Operand, f: Fill|
                observed(self, o) && observed_scalar(s, f) && #[trigger] scalar_outcome(
                    OpKind::Divide,
                    self,
                    s,
                    o,
                    f,
                    r,
                ),
            lawful::<T>() ==> scalar_post(OpKind::Divide, self, s, r),
    {
        scalar_op(OpKind::Divide, self, s)
    }

    /// The operand multiplied by the scalar -1.
    pub fn neg(self) -> (r: Tensor<T>)
        requires
            self.wf(),
            negation_computable(self),
        ensures
            r.wf(),
            r.shape_of() == self.shape_of(),
            negation_form(self, r),
            lawful::<T>() ==> negation_post(self, r),
    {
        negate(self)
    }
}

/// Sum of two buffers of one shape: when neither is all zeros, the result is
/// a new buffer of that shape holding `a[i] + b[i]` at every index, and no
/// error is raised.
pub proof fn concrete_sum<T: PartialEq + From<i8> + Add<Output = T> + Sub<Output = T> + Mul<
    Output = T,
> + Div<Output = T>>(a: ConcreteTensor<T>, b: ConcreteTensor<T>, res: Result<Tensor<T>, TensorError>)
    requires
        a.wf(),
        b.wf(),
        a.dims() == b.dims(),
        !all_eq(a.elements(), zero_of::<T>()),
        !all_eq(b.elements(), zero_of::<T>()),
        tensor_post(OpKind::Add, Tensor::Concrete(a), Tensor::Concrete(b), res),
    ensures
        res matches Ok(Tensor::Concrete(c)) && c.dims() == a.dims() && c.elements().len()
            == a.elements().len() && forall|i: int|
            0 <= i < a.elements().len() ==> c.elements()[i] == #[trigger] a.elements()[i].add_spec(
                b.elements()[i],
            ),
{
}

/// Identity laws on results: `x + 0`, `x - 0`, `x * 1` and `x / 1` give back
/// `x` itself, and `x / -1` gives the negation of `x`, for any node `x`.
pub proof fn identity_results<T: PartialEq + From<i8> + Add<Output = T> + Sub<Output = T> + Mul<
    Output = T,
> + Div<Output = T>>(x: Tensor<T>, s: T, res: Result<Tensor<T>, TensorError>)
    ensures
        fill_of_value(s) == crate::rules::zero_fill() ==> (scalar_post(OpKind::Add, x, s, res)
            || scalar_post(OpKind::Subtract, x, s, res) ==> res == Ok::<Tensor<T>, TensorError>(x)),
        fill_of_value(s) == crate::rules::one_fill() ==> (scalar_post(OpKind::Multiply, x, s, res)
            || scalar_post(OpKind::Divide, x, s, res) ==> res == Ok::<Tensor<T>, TensorError>(x)),
        fill_of_value(s) == crate::rules::minus_one_fill() ==> (scalar_post(
            OpKind::Divide,
            x,
            s,
            res,
        ) ==> (res matches Ok(t) && negation_post(x, t))),
{
}

/// A zero buffer minus any `x` of its shape is the negation of `x`.
pub proof fn zero_minus_result<T: PartialEq + From<i8> + Add<Output = T> + Sub<Output = T> + Mul<
    Output = T,
> + Div<Output = T>>(z: ConcreteTensor<T>, x: Tensor<T>, res: Result<Tensor<T>, TensorError>)
    requires
        all_eq(z.elements(), zero_of::<T>()),
        z.dims() == x.shape_of(),
        tensor_post(OpKind::Subtract, Tensor::Concrete(z), x, res),
    ensures
        res matches Ok(t) && negation_post(x, t),
{
}

/// Absorbing law on results: `x * 0` is a fresh zero buffer of `x`'s shape;
/// so are `x * z` and `z * x` for an all-zero buffer `z`, unless `x` is an
/// all-ones buffer, in which case `z` itself comes back. A variable or any
/// other unresolved `x` is not consulted.
pub proof fn absorbing_results<T: PartialEq + From<i8> + Add<Output = T> + Sub<Output = T> + Mul<
    Output = T,
> + Div<Output = T>>(
    x: Tensor<T>,
    s: T,
    z: ConcreteTensor<T>,
    r1: Result<Tensor<T>, TensorError>,
    r2: Result<Tensor<T>, TensorError>,
    r3: Result<Tensor<T>, TensorError>,
)
    requires
        fill_of_value(s) == crate::rules::zero_fill(),
        all_eq(z.elements(), zero_of::<T>()),
        !all_eq(z.elements(), one_of::<T>()),
        z.dims() == x.shape_of(),
        scalar_post(OpKind::Multiply, x, s, r1),
        tensor_post(OpKind::Multiply, x, Tensor::Concrete(z), r2),
        tensor_post(OpKind::Multiply, Tensor::Concrete(z), x, r3),
    ensures
        r1 matches Ok(t) && is_zeros(t, x.shape_of()),
        r2 matches Ok(t) && (is_zeros(t, x.shape_of()) || t == Tensor::Concrete(z)),
        r3 matches Ok(t) && (is_zeros(t, x.shape_of()) || t == Tensor::Concrete(z)),
        !(x is Concrete) ==> (r2 matches Ok(t) && is_zeros(t, x.shape_of())),
        !(x is Concrete) ==> (r3 matches Ok(t) && is_zeros(t, x.shape_of())),
{
}

/// Division by zero: dividing any `x`, an all-zero one included, by an
/// all-zero buffer of its shape or by the scalar 0 fails with `DivisionByZero`.
pub proof fn division_by_zero_results<T: PartialEq + From<i8> + Add<Output = T> + Sub<
    Output = T,
> + Mul<Output = T> + Div<Output = T>>(
    x: Tensor<T>,
    s: T,
    z: ConcreteTensor<T>,
    r1: Result<Tensor<T>, TensorError>,
    r2: Result<Tensor<T>, TensorError>,
)
    requires
        fill_of_value(s) == crate::rules::zero_fill(),
        all_eq(z.elements(), zero_of::<T>()),
        z.dims() == x.shape_of(),
        scalar_post(OpKind::Divide, x, s, r1),
        tensor_post(OpKind::Divide, x, Tensor::Concrete(z), r2),
    ensures
        r1 == Err::<Tensor<T>, TensorError>(TensorError::DivisionByZero),
        r2 == Err::<Tensor<T>, TensorError>(TensorError::DivisionByZero),
{
}

/// Shape mismatch: every operator on two tensors of different shapes fails
/// with `ShapeMismatch`.
pub proof fn shape_mismatch_results<T: PartialEq + From<i8> + Add<Output = T> + Sub<Output = T> + Mul<
    Output = T,
> + Div<Output = T>>(op: OpKind, l: Tensor<T>, r: Tensor<T>, res: Result<Tensor<T>, TensorError>)
    requires
        l.shape_of() != r.shape_of(),
        tensor_post(op, l, r, res),
    ensures
        res == Err::<Tensor<T>, TensorError>(TensorError::ShapeMismatch),
{
}

} // verus!
