//! Vector operations over rational scalars.
//!
//! These are the pointwise and reduction operations the solver's recurrence
//! is made of: sum, difference, scaling, and the dot product.  Each
//! executable function is pinned to a specification function over sequences,
//! so the solver's contracts can speak of whole-vector values.

use vstd::prelude::*;

use crate::rational::{
    lemma_nonneg_add, lemma_ops_wf, lemma_self_mul_nonneg, rat_is_nan, rat_wf, rat_zero, spec_add,
    spec_le, spec_mul, spec_sub, Ratio,
};

verus! {

/// Every entry of the vector is a well-formed scalar.
pub open spec fn vec_wf(v: Seq<Ratio>) -> bool {
    forall|i: int| 0 <= i < v.len() ==> rat_wf(#[trigger] v[i])
}

/// Pointwise sum of two vectors of equal length.
pub open spec fn spec_vadd(u: Seq<Ratio>, v: Seq<Ratio>) -> Seq<Ratio>
    recommends
        u.len() == v.len(),
{
    Seq::new(u.len(), |i: int| spec_add(u[i], v[i]))
}

/// Pointwise difference of two vectors of equal length.
pub open spec fn spec_vsub(u: Seq<Ratio>, v: Seq<Ratio>) -> Seq<Ratio>
    recommends
        u.len() == v.len(),
{
    Seq::new(u.len(), |i: int| spec_sub(u[i], v[i]))
}

/// The vector `u` scaled by `c`.
pub open spec fn spec_vscale(c: Ratio, u: Seq<Ratio>) -> Seq<Ratio> {
    Seq::new(u.len(), |i: int| spec_mul(c, u[i]))
}

/// Dot product of two vectors of equal length; zero for empty vectors.
pub open spec fn spec_dot(u: Seq<Ratio>, v: Seq<Ratio>) -> Ratio
    recommends
        u.len() == v.len(),
    decreases u.len(),
{
    if u.len() == 0 {
        rat_zero()
    } else {
        spec_add(spec_dot(u.drop_last(), v.drop_last()), spec_mul(u.last(), v.last()))
    }
}

/// Squared L2 norm: the dot product of a vector with itself.
pub open spec fn spec_norm_sq(u: Seq<Ratio>) -> Ratio {
    spec_dot(u, u)
}

/// Pointwise operations keep vectors well-formed.
pub proof fn lemma_pointwise_wf(u: Seq<Ratio>, v: Seq<Ratio>, c: Ratio)
    requires
        vec_wf(u),
        vec_wf(v),
        u.len() == v.len(),
        rat_wf(c),
    ensures
        vec_wf(spec_vadd(u, v)),
        vec_wf(spec_vsub(u, v)),
        vec_wf(spec_vscale(c, u)),
{
    assert forall|i: int| 0 <= i < u.len() implies rat_wf(#[trigger] spec_vadd(u, v)[i]) by {
        lemma_ops_wf(u[i], v[i]);
    }
    assert forall|i: int| 0 <= i < u.len() implies rat_wf(#[trigger] spec_vsub(u, v)[i]) by {
        lemma_ops_wf(u[i], v[i]);
    }
    assert forall|i: int| 0 <= i < u.len() implies rat_wf(#[trigger] spec_vscale(c, u)[i]) by {
        lemma_ops_wf(c, u[i]);
    }
}

/// The dot product of well-formed vectors is a well-formed scalar.
pub proof fn lemma_dot_wf(u: Seq<Ratio>, v: Seq<Ratio>)
    requires
        vec_wf(u),
        vec_wf(v),
        u.len() == v.len(),
    ensures
        rat_wf(spec_dot(u, v)),
    decreases u.len(),
{
    if u.len() > 0 {
        assert forall|i: int| 0 <= i < u.drop_last().len() implies rat_wf(
            #[trigger] u.drop_last()[i],
        ) by {
            assert(u.drop_last()[i] == u[i]);
        }
        assert forall|i: int| 0 <= i < v.drop_last().len() implies rat_wf(
            #[trigger] v.drop_last()[i],
        ) by {
            assert(v.drop_last()[i] == v[i]);
        }
        lemma_dot_wf(u.drop_last(), v.drop_last());
        lemma_ops_wf(u.last(), v.last());
        lemma_ops_wf(spec_dot(u.drop_last(), v.drop_last()), spec_mul(u.last(), v.last()));
    }
}

/// A defined squared norm is non-negative: the dot product of a well-formed
/// vector with itself is at least zero whenever it is not the undefined
/// value.
pub proof fn lemma_norm_sq_nonneg(v: Seq<Ratio>)
    requires
        vec_wf(v),
    ensures
        !rat_is_nan(spec_norm_sq(v)) ==> spec_le(rat_zero(), spec_norm_sq(v)),
    decreases v.len(),
{
    if v.len() > 0 && !rat_is_nan(spec_dot(v, v)) {
        let prefix = v.drop_last();
        assert forall|i: int| 0 <= i < prefix.len() implies rat_wf(#[trigger] prefix[i]) by {
            assert(prefix[i] == v[i]);
        }
        lemma_norm_sq_nonneg(prefix);
        lemma_dot_wf(prefix, prefix);
        let x = v.last();
        lemma_self_mul_nonneg(x);
        lemma_ops_wf(x, x);
        lemma_nonneg_add(spec_dot(prefix, prefix), spec_mul(x, x));
    }
}

/// Pointwise vector sum.
pub fn vadd(u: &Vec<Ratio>, v: &Vec<Ratio>) -> (r: Vec<Ratio>)
    requires
        u@.len() == v@.len(),
        vec_wf(u@),
        vec_wf(v@),
    ensures
        r@ == spec_vadd(u@, v@),
        vec_wf(r@),
{
    let mut r: Vec<Ratio> = Vec::new();
    let mut i: usize = 0;
    while i < u.len()
        invariant
            i <= u@.len(),
            u@.len() == v@.len(),
            vec_wf(u@),
            vec_wf(v@),
            r@.len() == i,
            forall|j: int| 0 <= j < i ==> r@[j] == spec_add(u@[j], v@[j]),
        decreases u@.len() - i,
    {
        let x = u[i].add(v[i]);
        r.push(x);
        i = i + 1;
    }
    proof {
        lemma_pointwise_wf(u@, v@, rat_zero());
        assert(r@ =~= spec_vadd(u@, v@));
    }
    r
}

/// Pointwise vector difference.
pub fn vsub(u: &Vec<Ratio>, v: &Vec<Ratio>) -> (r: Vec<Ratio>)
    requires
        u@.len() == v@.len(),
        vec_wf(u@),
        vec_wf(v@),
    ensures
        r@ == spec_vsub(u@, v@),
        vec_wf(r@),
{
    let mut r: Vec<Ratio> = Vec::new();
    let mut i: usize = 0;
    while i < u.len()
        invariant
            i <= u@.len(),
            u@.len() == v@.len(),
            vec_wf(u@),
            vec_wf(v@),
            r@.len() == i,
            forall|j: int| 0 <= j < i ==> r@[j] == spec_sub(u@[j], v@[j]),
        decreases u@.len() - i,
    {
        let x = u[i].sub(v[i]);
        r.push(x);
        i = i + 1;
    }
    proof {
        lemma_pointwise_wf(u@, v@, rat_zero());
        assert(r@ =~= spec_vsub(u@, v@));
    }
    r
}

/// The vector `u` scaled by `c`.
pub fn vscale(c: Ratio, u: &Vec<Ratio>) -> (r: Vec<Ratio>)
    requires
        rat_wf(c),
        vec_wf(u@),
    ensures
        r@ == spec_vscale(c, u@),
        vec_wf(r@),
{
    let mut r: Vec<Ratio> = Vec::new();
    let mut i: usize = 0;
    while i < u.len()
        invariant
            i <= u@.len(),
            rat_wf(c),
            vec_wf(u@),
            r@.len() == i,
            forall|j: int| 0 <= j < i ==> r@[j] == spec_mul(c, u@[j]),
        decreases u@.len() - i,
    {
        let x = c.mul(u[i]);
        r.push(x);
        i = i + 1;
    }
    proof {
        lemma_pointwise_wf(u@, u@, c);
        assert(r@ =~= spec_vscale(c, u@));
    }
    r
}

/// Dot product of two vectors of equal length.
pub fn dot(u: &Vec<Ratio>, v: &Vec<Ratio>) -> (r: Ratio)
    requires
        u@.len() == v@.len(),
        vec_wf(u@),
        vec_wf(v@),
    ensures
        r == spec_dot(u@, v@),
        rat_wf(r),
{
    let mut acc = Ratio::zero();
    let mut i: usize = 0;
    proof {
        assert(u@.subrange(0, 0) =~= Seq::<Ratio>::empty());
    }
    while i < u.len()
        invariant
            i <= u@.len(),
            u@.len() == v@.len(),
            vec_wf(u@),
            vec_wf(v@),
            rat_wf(acc),
            acc == spec_dot(u@.subrange(0, i as int), v@.subrange(0, i as int)),
        decreases u@.len() - i,
    {
        let term = u[i].mul(v[i]);
        acc = acc.add(term);
        proof {
            let k: int = i as int;
            assert(u@.subrange(0, k + 1).drop_last() =~= u@.subrange(0, k));
            assert(v@.subrange(0, k + 1).drop_last() =~= v@.subrange(0, k));
            assert(u@.subrange(0, k + 1).last() == u@[k]);
            assert(v@.subrange(0, k + 1).last() == v@[k]);
        }
        i = i + 1;
    }
    proof {
        assert(u@.subrange(0, u@.len() as int) =~= u@);
        assert(v@.subrange(0, v@.len() as int) =~= v@);
    }
    acc
}

/// An owned copy of a vector.
pub fn vcopy(u: &Vec<Ratio>) -> (r: Vec<Ratio>)
    ensures
        r@ == u@,
{
    let mut r: Vec<Ratio> = Vec::new();
    let mut i: usize = 0;
    while i < u.len()
        invariant
            i <= u@.len(),
            r@.len() == i,
            forall|j: int| 0 <= j < i ==> r@[j] == u@[j],
        decreases u@.len() - i,
    {
        let x = u[i];
        r.push(x);
        i = i + 1;
    }
    proof {
        assert(r@ =~= u@);
    }
    r
}

/// Squared L2 norm of a vector.
pub fn norm_sq(u: &Vec<Ratio>) -> (r: Ratio)
    requires
        vec_wf(u@),
    ensures
        r == spec_norm_sq(u@),
        rat_wf(r),
{
    dot(u, u)
}

} // verus!
