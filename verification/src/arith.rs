//! Elementwise arithmetic over pairs of series.
//!
//! Two series are combined positionally, and the combination stops at the
//! shorter length: trailing elements of the longer series are silently
//! dropped.  A single combine function carries the zip; the four public
//! operators are thin entry points over it.

use crate::numeric::Numeric;
use crate::series::TimeSeries;
use vstd::math::min;
use vstd::prelude::*;

verus! {

/// The operator an elementwise combination applies at each position.
#[derive(Clone, Copy)]
enum ElemOp {
    Plus,
    Minus,
    Times,
    Over,
}

/// When `op` is defined on the pair `(x, y)`.
spec fn op_ok<T: Numeric>(op: ElemOp, x: T, y: T) -> bool {
    match op {
        ElemOp::Plus => x.add_ok(y),
        ElemOp::Minus => x.sub_ok(y),
        ElemOp::Times => x.mul_ok(y),
        ElemOp::Over => x.div_ok(y),
    }
}

/// The value `op` yields on the pair `(x, y)`.
spec fn op_val<T: Numeric>(op: ElemOp, x: T, y: T) -> T {
    match op {
        ElemOp::Plus => x.add_val(y),
        ElemOp::Minus => x.sub_val(y),
        ElemOp::Times => x.mul_val(y),
        ElemOp::Over => x.div_val(y),
    }
}

/// Applies `op` to one pair of elements, by reference.
fn apply_op<T: Numeric>(op: ElemOp, x: &T, y: &T) -> (r: T)
    requires
        op_ok(op, *x, *y),
    ensures
        r == op_val(op, *x, *y),
{
    match op {
        ElemOp::Plus => x.add_elem(y),
        ElemOp::Minus => x.sub_elem(y),
        ElemOp::Times => x.mul_elem(y),
        ElemOp::Over => x.div_elem(y),
    }
}

/// The elementwise combine at the core of the four operators: zips the
/// two series positionally and applies `op` at each position, up to the
/// shorter length.
fn zip_with<T: Numeric>(a: &TimeSeries<T>, b: &TimeSeries<T>, op: ElemOp) -> (r: TimeSeries<T>)
    requires
        forall|i: int|
            0 <= i < min(a@.len() as int, b@.len() as int) ==> op_ok(op, a@[i], #[trigger] b@[i]),
    ensures
        r@.len() == min(a@.len() as int, b@.len() as int),
        forall|i: int| 0 <= i < r@.len() ==> #[trigger] r@[i] == op_val(op, a@[i], b@[i]),
{
    let n: usize = if a.0.len() <= b.0.len() {
        a.0.len()
    } else {
        b.0.len()
    };
    let mut out: Vec<T> = Vec::new();
    let mut i: usize = 0;
    while i < n
        invariant
            n == min(a@.len() as int, b@.len() as int),
            forall|k: int| 0 <= k < n ==> op_ok(op, a@[k], #[trigger] b@[k]),
            i <= n,
            out@.len() == i,
            forall|j: int| 0 <= j < i ==> #[trigger] out@[j] == op_val(op, a@[j], b@[j]),
        decreases n - i,
    {
        out.push(apply_op(op, &a.0[i], &b.0[i]));
        i += 1;
    }
    TimeSeries(out)
}

impl<T: Numeric> TimeSeries<T> {
    /// Elementwise sum: position `i` of the result is `self[i] + other[i]`,
    /// up to the shorter of the two lengths.
    pub fn add(&self, other: &Self) -> (r: Self)
        requires
            forall|i: int|
                0 <= i < min(self@.len() as int, other@.len() as int) ==> self@[i].add_ok(
                    #[trigger] other@[i],
                ),
        ensures
            r@.len() == min(self@.len() as int, other@.len() as int),
            forall|i: int| 0 <= i < r@.len() ==> #[trigger] r@[i] == self@[i].add_val(other@[i]),
    {
        zip_with(self, other, ElemOp::Plus)
    }

    /// Elementwise difference: position `i` of the result is
    /// `self[i] - other[i]`, up to the shorter of the two lengths.
    pub fn sub(&self, other: &Self) -> (r: Self)
        requires
            forall|i: int|
                0 <= i < min(self@.len() as int, other@.len() as int) ==> self@[i].sub_ok(
                    #[trigger] other@[i],
                ),
        ensures
            r@.len() == min(self@.len() as int, other@.len() as int),
            forall|i: int| 0 <= i < r@.len() ==> #[trigger] r@[i] == self@[i].sub_val(other@[i]),
    {
        zip_with(self, other, ElemOp::Minus)
    }

    /// Elementwise product: position `i` of the result is
    /// `self[i] * other[i]`, up to the shorter of the two lengths.
    pub fn mul(&self, other: &Self) -> (r: Self)
        requires
            forall|i: int|
                0 <= i < min(self@.len() as int, other@.len() as int) ==> self@[i].mul_ok(
                    #[trigger] other@[i],
                ),
        ensures
            r@.len() == min(self@.len() as int, other@.len() as int),
            forall|i: int| 0 <= i < r@.len() ==> #[trigger] r@[i] == self@[i].mul_val(other@[i]),
    {
        zip_with(self, other, ElemOp::Times)
    }

    /// Elementwise quotient: position `i` of the result is
    /// `self[i] / other[i]`, up to the shorter of the two lengths.
    pub fn div(&self, other: &Self) -> (r: Self)
        requires
            forall|i: int|
                0 <= i < min(self@.len() as int, other@.len() as int) ==> self@[i].div_ok(
                    #[trigger] other@[i],
                ),
        ensures
            r@.len() == min(self@.len() as int, other@.len() as int),
            forall|i: int| 0 <= i < r@.len() ==> #[trigger] r@[i] == self@[i].div_val(other@[i]),
    {
        zip_with(self, other, ElemOp::Over)
    }
}

} // verus!
