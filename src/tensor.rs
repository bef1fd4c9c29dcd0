//! Dense buffers, the expression tree, reshaping, and the arena that holds
//! the shared values of variables.
use vstd::prelude::*;
use crate::shape::{copy_shape, element_count, product};
use crate::TensorError;
use vstd::std_specs::cmp::PartialEqSpec;

verus! {

/// A dense buffer: a flat sequence of elements and a shape whose product is
/// the number of elements. It does not change once built.
#[derive(Clone, Debug)]
pub struct ConcreteTensor<T> {
    data: Vec<T>,
    shape: Vec<usize>,
}

impl<T> ConcreteTensor<T> {
    /// The elements, in order.
    pub closed spec fn elements(&self) -> Seq<T> {
        self.data@
    }

    /// The shape.
    pub closed spec fn dims(&self) -> Seq<usize> {
        self.shape@
    }

    /// The shape describes exactly the elements held.
    pub open spec fn wf(&self) -> bool {
        &&& product(self.dims()) == self.elements().len()
        &&& product(self.dims()) <= usize::MAX
    }

    /// Builds a buffer; fails with `ShapeMismatch` when the shape does not
    /// describe `data.len()` elements.
    pub fn new(data: Vec<T>, shape: Vec<usize>) -> (r: Result<Self, TensorError>)
        ensures
            product(shape@) == data@.len() ==> r is Ok,
            product(shape@) != data@.len() ==> r == Err::<Self, TensorError>(TensorError::ShapeMismatch),
            r is Ok ==> r->Ok_0.wf() && r->Ok_0.elements() == data@ && r->Ok_0.dims() == shape@,
    {
        let len = data.len();
        match element_count(shape.as_slice()) {
            Some(n) => if n == len {
                let t = ConcreteTensor { data, shape };
                Ok(t)
            } else {
                Err(TensorError::ShapeMismatch)
            },
            None => Err(TensorError::ShapeMismatch),
        }
    }

    /// A buffer of the given shape with every element equal to `value`.
    pub fn constant(value: T, shape: Vec<usize>) -> (r: Self) where T: Copy
        requires
            product(shape@) <= usize::MAX,
        ensures
            r.wf(),
            r.dims() == shape@,
            r.elements() == Seq::new(product(shape@) as nat, |i: int| value),
    {
        let n = match element_count(shape.as_slice()) {
            Some(n) => n,
            None => 0,
        };
        let mut data: Vec<T> = Vec::with_capacity(n);
        let mut i: usize = 0;
        while i < n
            invariant
                i <= n,
                n == product(shape@),
                data@ == Seq::new(i as nat, |j: int| value),
            decreases n - i,
        {
            data.push(value);
            assert(data@ =~= Seq::new((i + 1) as nat, |j: int| value));
            i = i + 1;
        }
        ConcreteTensor { data, shape }
    }

    /// A buffer from parts already known to agree.
    pub(crate) fn from_parts(data: Vec<T>, shape: Vec<usize>) -> (r: Self)
        requires
            product(shape@) == data@.len(),
        ensures
            r.wf(),
            r.elements() == data@,
            r.dims() == shape@,
    {
        let n: usize = data.len();
        assert(n == product(shape@));
        ConcreteTensor { data, shape }
    }

    pub fn shape(&self) -> (r: &[usize])
        ensures
            r@ == self.dims(),
    {
        self.shape.as_slice()
    }

    pub fn data(&self) -> (r: &[T])
        ensures
            r@ == self.elements(),
    {
        self.data.as_slice()
    }

    /// The number of elements.
    pub fn len(&self) -> (r: usize)
        ensures
            r == self.elements().len(),
    {
        self.data.len()
    }

    /// Whether every element equals `value` by the element type's own `==`
    /// (for floats: exact equality, no tolerance). True of an empty buffer.
    pub fn all_equal_to(&self, value: T) -> (r: bool) where T: PartialEq
        ensures
            T::obeys_eq_spec() ==> r == all_eq(self.elements(), value),
    {
        let mut i: usize = 0;
        while i < self.data.len()
            invariant
                i <= self.data@.len(),
                T::obeys_eq_spec() ==> forall|j: int| 0 <= j < i ==> #[trigger] self.data@[j].eq_spec(&value),
            decreases self.data@.len() - i,
        {
            let same = self.data[i] == value;
            if !same {
                assert(T::obeys_eq_spec() ==> !self.elements()[i as int].eq_spec(&value));
                return false;
            }
            i = i + 1;
        }
        true
    }
}

/// Every element of `d` equals `v` by `T`'s own `==`.
pub open spec fn all_eq<T: PartialEq>(d: Seq<T>, v: T) -> bool {
    forall|i: int| 0 <= i < d.len() ==> #[trigger] d[i].eq_spec(&v)
}

/// A lazy tensor expression. Every arithmetic and reshape node owns its
/// children; a variable leaf names a slot of a `VariableStore`.
#[derive(Debug)]
pub enum Tensor<T> {
    /// A fully known buffer.
    Concrete(ConcreteTensor<T>),
    /// A variable: its id, the slot that holds its value, and its shape.
    Variable(u32, usize, Vec<usize>),
    /// A child viewed under another shape with as many elements.
    Reshape(Box<Tensor<T>>, Vec<usize>),
    AddTensor(Box<Tensor<T>>, Box<Tensor<T>>),
    SubtractTensor(Box<Tensor<T>>, Box<Tensor<T>>),
    MultiplyTensor(Box<Tensor<T>>, Box<Tensor<T>>),
    DivideTensor(Box<Tensor<T>>, Box<Tensor<T>>),
    AddScalar(Box<Tensor<T>>, T),
    SubtractScalar(Box<Tensor<T>>, T),
    MultiplyScalar(Box<Tensor<T>>, T),
    DivideScalar(Box<Tensor<T>>, T),
}

impl<T: Clone> Tensor<T> {
    /// A copy of the whole tree, with the same shape.
    pub fn deep_copy(&self) -> (r: Tensor<T>)
        ensures
            r.shape_of() == self.shape_of(),
        decreases self,
    {
        match self {
            Tensor::Concrete(c) => Tensor::Concrete(ConcreteTensor {
                data: c.data.clone(),
                shape: copy_shape(c.shape.as_slice()),
            }),
            Tensor::Variable(id, h, s) => Tensor::Variable(*id, *h, copy_shape(s.as_slice())),
            Tensor::Reshape(c, s) => Tensor::Reshape(Box::new(c.deep_copy()), copy_shape(s.as_slice())),
            Tensor::AddTensor(l, r) => Tensor::AddTensor(Box::new(l.deep_copy()), Box::new(r.deep_copy())),
            Tensor::SubtractTensor(l, r) => Tensor::SubtractTensor(
                Box::new(l.deep_copy()),
                Box::new(r.deep_copy()),
            ),
            Tensor::MultiplyTensor(l, r) => Tensor::MultiplyTensor(
                Box::new(l.deep_copy()),
                Box::new(r.deep_copy()),
            ),
            Tensor::DivideTensor(l, r) => Tensor::DivideTensor(
                Box::new(l.deep_copy()),
                Box::new(r.deep_copy()),
            ),
            Tensor::AddScalar(l, v) => Tensor::AddScalar(Box::new(l.deep_copy()), v.clone()),
            Tensor::SubtractScalar(l, v) => Tensor::SubtractScalar(Box::new(l.deep_copy()), v.clone()),
            Tensor::MultiplyScalar(l, v) => Tensor::MultiplyScalar(Box::new(l.deep_copy()), v.clone()),
            Tensor::DivideScalar(l, v) => Tensor::DivideScalar(Box::new(l.deep_copy()), v.clone()),
        }
    }
}

impl<T: Clone> Clone for Tensor<T> {
    fn clone(&self) -> (r: Tensor<T>) {
        self.deep_copy()
    }
}

impl<T> From<ConcreteTensor<T>> for Tensor<T> {
    fn from(tensor: ConcreteTensor<T>) -> (r: Tensor<T>) {
        Tensor::Concrete(tensor)
    }
}

impl<T> vstd::std_specs::convert::FromSpecImpl<ConcreteTensor<T>> for Tensor<T> {
    open spec fn obeys_from_spec() -> bool {
        true
    }

    open spec fn from_spec(v: ConcreteTensor<T>) -> Tensor<T> {
        Tensor::Concrete(v)
    }
}

impl<T> Tensor<T> {
    /// The shape of the value a node stands for: a binary or scalar node has
    /// the shape of its left child.
    pub open spec fn shape_of(self) -> Seq<usize>
        decreases self,
    {
        match self {
            Tensor::Concrete(c) => c.dims(),
            Tensor::Variable(_, _, s) => s@,
            Tensor::Reshape(_, s) => s@,
            Tensor::AddTensor(l, _) => l.shape_of(),
            Tensor::SubtractTensor(l, _) => l.shape_of(),
            Tensor::MultiplyTensor(l, _) => l.shape_of(),
            Tensor::DivideTensor(l, _) => l.shape_of(),
            Tensor::AddScalar(l, _) => l.shape_of(),
            Tensor::SubtractScalar(l, _) => l.shape_of(),
            Tensor::MultiplyScalar(l, _) => l.shape_of(),
            Tensor::DivideScalar(l, _) => l.shape_of(),
        }
    }

    /// Every buffer is well formed, a reshape keeps the element count, and
    /// the two children of a binary node have one shape.
    pub open spec fn wf(self) -> bool
        decreases self,
    {
        match self {
            Tensor::Concrete(c) => c.wf(),
            Tensor::Variable(_, _, s) => product(s@) <= usize::MAX,
            Tensor::Reshape(c, s) => c.wf() && product(s@) == product(c.shape_of()),
            Tensor::AddTensor(l, r) => l.wf() && r.wf() && l.shape_of() == r.shape_of(),
            Tensor::SubtractTensor(l, r) => l.wf() && r.wf() && l.shape_of() == r.shape_of(),
            Tensor::MultiplyTensor(l, r) => l.wf() && r.wf() && l.shape_of() == r.shape_of(),
            Tensor::DivideTensor(l, r) => l.wf() && r.wf() && l.shape_of() == r.shape_of(),
            Tensor::AddScalar(l, _) => l.wf(),
            Tensor::SubtractScalar(l, _) => l.wf(),
            Tensor::MultiplyScalar(l, _) => l.wf(),
            Tensor::DivideScalar(l, _) => l.wf(),
        }
    }

    /// The element count of a well-formed node fits in `usize`.
    pub proof fn lemma_size_fits(self)
        requires
            self.wf(),
        ensures
            product(self.shape_of()) <= usize::MAX,
        decreases self,
    {
        match self {
            Tensor::Reshape(c, _) => c.lemma_size_fits(),
            Tensor::AddTensor(l, _) => l.lemma_size_fits(),
            Tensor::SubtractTensor(l, _) => l.lemma_size_fits(),
            Tensor::MultiplyTensor(l, _) => l.lemma_size_fits(),
            Tensor::DivideTensor(l, _) => l.lemma_size_fits(),
            Tensor::AddScalar(l, _) => l.lemma_size_fits(),
            Tensor::SubtractScalar(l, _) => l.lemma_size_fits(),
            Tensor::MultiplyScalar(l, _) => l.lemma_size_fits(),
            Tensor::DivideScalar(l, _) => l.lemma_size_fits(),
            _ => {},
        }
    }

    pub fn shape(&self) -> (r: &[usize])
        ensures
            r@ == self.shape_of(),
        decreases self,
    {
        match self {
            Tensor::Concrete(c) => c.shape(),
            Tensor::Variable(_, _, s) => s.as_slice(),
            Tensor::Reshape(_, s) => s.as_slice(),
            Tensor::AddTensor(l, _) => l.shape(),
            Tensor::SubtractTensor(l, _) => l.shape(),
            Tensor::MultiplyTensor(l, _) => l.shape(),
            Tensor::DivideTensor(l, _) => l.shape(),
            Tensor::AddScalar(l, _) => l.shape(),
            Tensor::SubtractScalar(l, _) => l.shape(),
            Tensor::MultiplyScalar(l, _) => l.shape(),
            Tensor::DivideScalar(l, _) => l.shape(),
        }
    }

    /// Views the value under `shape`; fails with `ShapeMismatch` when the
    /// element counts differ. A concrete buffer is reshaped at once, anything
    /// else is wrapped in a `Reshape` node.
    pub fn reshape(self, shape: Vec<usize>) -> (r: Result<Tensor<T>, TensorError>)
        requires
            self.wf(),
        ensures
            reshape_post(self, shape@, r),
            r is Ok ==> r->Ok_0.wf() && r->Ok_0.shape_of() == shape@,
            !(self is Concrete) ==> (r is Ok ==> r->Ok_0 == Tensor::Reshape(Box::new(self), shape)),
    {
        proof {
            self.lemma_size_fits();
        }
        let old_size = element_count(self.shape());
        let new_size = element_count(shape.as_slice());
        let fits = match (old_size, new_size) {
            (Some(a), Some(b)) => a == b,
            _ => false,
        };
        if !fits {
            return Err(TensorError::ShapeMismatch);
        }
        match self {
            Tensor::Concrete(c) => {
                let ConcreteTensor { data, shape: _ } = c;
                Ok(Tensor::Concrete(ConcreteTensor { data, shape }))
            },
            other => Ok(Tensor::Reshape(Box::new(other), shape)),
        }
    }

    /// The value of a variable leaf, as the store holds it now; `None` for
    /// any other node or a slot the store does not have.
    pub open spec fn value_in(self, store: VariableStore<T>) -> Option<ConcreteTensor<T>> {
        match self {
            Tensor::Variable(_, h, _) => if h < store.values().len() {
                Some(store.values()[h as int])
            } else {
                None
            },
            _ => None,
        }
    }

    /// Reads the current value of a variable leaf from the store.
    pub fn variable_value<'a>(&self, store: &'a VariableStore<T>) -> (r: Option<&'a ConcreteTensor<T>>)
        ensures
            match r {
                Some(v) => self.value_in(*store) == Some(*v),
                None => self.value_in(*store) is None,
            },
    {
        match self {
            Tensor::Variable(_, h, _) => if *h < store.slots.len() {
                Some(&store.slots[*h])
            } else {
                None
            },
            _ => None,
        }
    }

    /// Creates a variable holding `initial`: its value goes to a fresh slot
    /// of `store`, and the result is the variable's leaf, its id and the
    /// handle of the slot. Ids count up from zero and are never reused.
    pub fn new_variable(store: &mut VariableStore<T>, initial: ConcreteTensor<T>) -> (r: (
        Tensor<T>,
        u32,
        usize,
    ))
        requires
            old(store).wf(),
            old(store).values().len() < u32::MAX,
            initial.wf(),
        ensures
            final(store).wf(),
            final(store).values() == old(store).values().push(initial),
            r.1 as int == old(store).values().len(),
            r.2 as int == old(store).values().len(),
            r.0 matches Tensor::Variable(id, h, s) && id == r.1 && h == r.2 && s@ == initial.dims(),
            r.0.wf(),
            r.0.value_in(*final(store)) == Some(initial),
    {
        let h = store.slots.len();
        let id = h as u32;
        let shape = copy_shape(initial.shape());
        store.slots.push(initial);
        (Tensor::Variable(id, h, shape), id, h)
    }
}

/// What `reshape` returns: `ShapeMismatch` exactly when the element counts
/// differ; a concrete buffer keeps its elements under the new shape.
pub open spec fn reshape_post<T>(x: Tensor<T>, s: Seq<usize>, r: Result<Tensor<T>, TensorError>) -> bool {
    if product(s) != product(x.shape_of()) {
        r == Err::<Tensor<T>, TensorError>(TensorError::ShapeMismatch)
    } else {
        &&& r is Ok
        &&& x matches Tensor::Concrete(c) ==> r->Ok_0 matches Tensor::Concrete(d)
            && d.elements() == c.elements() && d.dims() == s
    }
}

/// Reshape round trip: reshaping a buffer of shape `s1` to `s2` and back
/// gives a buffer with the same elements and shape `s1`.
pub proof fn reshape_round_trip<T>(
    c: ConcreteTensor<T>,
    s2: Seq<usize>,
    r1: Result<Tensor<T>, TensorError>,
    r2: Result<Tensor<T>, TensorError>,
)
    requires
        c.wf(),
        product(s2) == product(c.dims()),
        reshape_post(Tensor::Concrete(c), s2, r1),
        r1 is Ok,
        reshape_post(r1->Ok_0, c.dims(), r2),
    ensures
        r2 matches Ok(Tensor::Concrete(d)) && d.elements() == c.elements() && d.dims() == c.dims(),
{
}

/// The values of all variables, one slot each. A value is shared: every
/// leaf of the variable and the handle given to its creator name the slot.
pub struct VariableStore<T> {
    slots: Vec<ConcreteTensor<T>>,
}

impl<T> VariableStore<T> {
    pub closed spec fn values(&self) -> Seq<ConcreteTensor<T>> {
        self.slots@
    }

    pub open spec fn wf(&self) -> bool {
        forall|i: int| 0 <= i < self.values().len() ==> #[trigger] self.values()[i].wf()
    }

    /// An empty store.
    pub fn new() -> (r: Self)
        ensures
            r.wf(),
            r.values().len() == 0,
    {
        VariableStore { slots: Vec::new() }
    }

    /// Whether another variable can still be given a fresh id.
    pub fn can_allocate(&self) -> (r: bool)
        ensures
            r == (self.values().len() < u32::MAX),
    {
        self.slots.len() < u32::MAX as usize
    }

    /// The value in slot `handle`.
    pub fn get(&self, handle: usize) -> (r: &ConcreteTensor<T>)
        requires
            handle < self.values().len(),
        ensures
            *r == self.values()[handle as int],
    {
        &self.slots[handle]
    }

    /// Replaces the value in slot `handle`; fails with `ShapeMismatch`, and
    /// changes nothing, when `value` has another shape than the variable.
    pub fn set(&mut self, handle: usize, value: ConcreteTensor<T>) -> (r: Result<(), TensorError>)
        requires
            old(self).wf(),
            handle < old(self).values().len(),
            value.wf(),
        ensures
            final(self).wf(),
            value.dims() == old(self).values()[handle as int].dims() ==> r is Ok
                && final(self).values() == old(self).values().update(handle as int, value),
            value.dims() != old(self).values()[handle as int].dims() ==> r == Err::<(), TensorError>(
                TensorError::ShapeMismatch,
            ) && final(self).values() == old(self).values(),
    {
        if !crate::shape::same_shape(value.shape(), self.slots[handle].shape()) {
            return Err(TensorError::ShapeMismatch);
        }
        self.slots.set(handle, value);
        Ok(())
    }
}

/// Variable sharing: once slot `handle` is set to `v`, the value that any
/// leaf of that variable refers to is `v`.
pub proof fn variable_sharing<T>(
    before: VariableStore<T>,
    after: VariableStore<T>,
    node: Tensor<T>,
    handle: usize,
    v: ConcreteTensor<T>,
)
    requires
        node matches Tensor::Variable(_, h, _) && h == handle,
        handle < before.values().len(),
        after.values() == before.values().update(handle as int, v),
    ensures
        node.value_in(after) == Some(v),
{
}

} // verus!
