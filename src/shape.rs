//! Shapes: the number of elements a shape describes, and shape comparison.
use vstd::prelude::*;

verus! {

/// The number of elements described by a shape: the product of its dimensions.
pub open spec fn product(s: Seq<usize>) -> int
    decreases s.len(),
{
    if s.len() == 0 {
        1
    } else {
        product(s.drop_last()) * s.last()
    }
}

pub proof fn lemma_product_nonneg(s: Seq<usize>)
    ensures
        product(s) >= 0,
    decreases s.len(),
{
    if s.len() > 0 {
        lemma_product_nonneg(s.drop_last());
        assert(product(s.drop_last()) * s.last() >= 0) by (nonlinear_arith)
            requires
                product(s.drop_last()) >= 0,
        ;
    }
}

/// A dimension of zero makes the whole product zero.
proof fn lemma_product_zero(s: Seq<usize>, k: int)
    requires
        0 <= k < s.len(),
        s[k] == 0,
    ensures
        product(s) == 0,
    decreases s.len(),
{
    if k < s.len() - 1 {
        lemma_product_zero(s.drop_last(), k);
        assert(product(s.drop_last()) * s.last() == 0) by (nonlinear_arith)
            requires
                product(s.drop_last()) == 0,
        ;
    } else {
        assert(product(s.drop_last()) * 0 == 0) by (nonlinear_arith);
    }
}

/// With every dimension positive, a prefix never describes more elements than the whole.
proof fn lemma_product_prefix_le(s: Seq<usize>, k: int)
    requires
        0 <= k <= s.len(),
        forall|i: int| 0 <= i < s.len() ==> s[i] >= 1,
    ensures
        product(s.take(k)) <= product(s),
    decreases s.len(),
{
    if k < s.len() {
        let d = s.drop_last();
        assert(d.take(k) =~= s.take(k));
        lemma_product_prefix_le(d, k);
        lemma_product_nonneg(d);
        assert(product(d) <= product(d) * s.last()) by (nonlinear_arith)
            requires
                product(d) >= 0,
                s.last() >= 1,
        ;
    } else {
        assert(s.take(k) =~= s);
    }
}

/// The number of elements a shape describes, or `None` where it exceeds `usize`.
pub fn element_count(shape: &[usize]) -> (r: Option<usize>)
    ensures
        match r {
            Some(n) => n as int == product(shape@),
            None => product(shape@) > usize::MAX,
        },
{
    let mut k: usize = 0;
    while k < shape.len()
        invariant
            k <= shape.len(),
            forall|i: int| 0 <= i < k ==> shape@[i] != 0,
        decreases shape.len() - k,
    {
        if shape[k] == 0 {
            proof {
                lemma_product_zero(shape@, k as int);
            }
            return Some(0);
        }
        k = k + 1;
    }
    let mut acc: usize = 1;
    let mut i: usize = 0;
    while i < shape.len()
        invariant
            i <= shape.len(),
            forall|j: int| 0 <= j < shape.len() ==> shape@[j] >= 1,
            acc as int == product(shape@.take(i as int)),
        decreases shape.len() - i,
    {
        let d = shape[i];
        assert(shape@.take(i + 1).drop_last() =~= shape@.take(i as int));
        match acc.checked_mul(d) {
            Some(m) => {
                acc = m;
            },
            None => {
                proof {
                    lemma_product_prefix_le(shape@, i + 1);
                }
                return None;
            },
        }
        i = i + 1;
    }
    assert(shape@.take(i as int) =~= shape@);
    Some(acc)
}

/// An owned copy of a shape.
pub fn copy_shape(s: &[usize]) -> (r: Vec<usize>)
    ensures
        r@ == s@,
{
    let mut r: Vec<usize> = Vec::with_capacity(s.len());
    let mut i: usize = 0;
    while i < s.len()
        invariant
            i <= s.len(),
            r@ == s@.take(i as int),
        decreases s.len() - i,
    {
        r.push(s[i]);
        assert(s@.take(i + 1) =~= s@.take(i as int).push(s@[i as int]));
        i = i + 1;
    }
    assert(s@.take(i as int) =~= s@);
    r
}

/// Whether two shapes are the same, dimension by dimension.
pub fn same_shape(a: &[usize], b: &[usize]) -> (r: bool)
    ensures
        r == (a@ == b@),
{
    if a.len() != b.len() {
        return false;
    }
    let mut i: usize = 0;
    while i < a.len()
        invariant
            i <= a.len(),
            a.len() == b.len(),
            forall|j: int| 0 <= j < i ==> a@[j] == b@[j],
        decreases a.len() - i,
    {
        if a[i] != b[i] {
            return false;
        }
        i = i + 1;
    }
    assert(a@ =~= b@);
    true
}

} // verus!
