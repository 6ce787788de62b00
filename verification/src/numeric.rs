//! The element constraint for arithmetic: a type closed under the four
//! operators `+ - * /` taken by reference.

use vstd::arithmetic::div_mod::{
    lemma_div_is_ordered_by_denominator, lemma_div_nonincreasing, lemma_div_pos_is_pos,
};
use vstd::math::abs;
use vstd::prelude::*;

verus! {

/// Truncating integer division, the division of the machine's signed
/// integers: the magnitude of the quotient is the quotient of the
/// magnitudes, and the sign follows the signs of the operands.
pub open spec fn trunc_div(a: int, b: int) -> int {
    if (a >= 0) == (b >= 0) {
        abs(a) as int / abs(b) as int
    } else {
        -(abs(a) as int / abs(b) as int)
    }
}

/// An element type closed under the four arithmetic operators without
/// being consumed by them.  Each operator has a spec-level value
/// (`add_val`, ...) and a spec-level side condition (`add_ok`, ...) that
/// excludes exactly the machine-limit failures of the executable
/// operator — overflow, and division by zero.
pub trait Numeric: Copy + Sized {
    /// When `self + other` is representable.
    spec fn add_ok(self, other: Self) -> bool;

    /// The value of `self + other`.
    spec fn add_val(self, other: Self) -> Self;

    /// When `self - other` is representable.
    spec fn sub_ok(self, other: Self) -> bool;

    /// The value of `self - other`.
    spec fn sub_val(self, other: Self) -> Self;

    /// When `self * other` is representable.
    spec fn mul_ok(self, other: Self) -> bool;

    /// The value of `self * other`.
    spec fn mul_val(self, other: Self) -> Self;

    /// When `self / other` is defined and representable.
    spec fn div_ok(self, other: Self) -> bool;

    /// The value of `self / other`.
    spec fn div_val(self, other: Self) -> Self;

    /// `self + other`, by reference.
    fn add_elem(&self, other: &Self) -> (r: Self)
        requires
            self.add_ok(*other),
        ensures
            r == self.add_val(*other),
    ;

    /// `self - other`, by reference.
    fn sub_elem(&self, other: &Self) -> (r: Self)
        requires
            self.sub_ok(*other),
        ensures
            r == self.sub_val(*other),
    ;

    /// `self * other`, by reference.
    fn mul_elem(&self, other: &Self) -> (r: Self)
        requires
            self.mul_ok(*other),
        ensures
            r == self.mul_val(*other),
    ;

    /// `self / other`, by reference.
    fn div_elem(&self, other: &Self) -> (r: Self)
        requires
            self.div_ok(*other),
        ensures
            r == self.div_val(*other),
    ;
}

/// Truncating division of two values in `i64` range stays in `i64` range
/// — except for `i64::MIN / -1` — and agrees with the case split the
/// machine's checked division is specified by.
proof fn lemma_trunc_div_i64(a: int, b: int)
    requires
        i64::MIN <= a <= i64::MAX,
        i64::MIN <= b <= i64::MAX,
        b != 0,
        !(a == i64::MIN && b == -1),
    ensures
        i64::MIN <= trunc_div(a, b) <= i64::MAX,
        trunc_div(a, b) == if a == 0 {
            0int
        } else if a > 0 && b > 0 {
            a / b
        } else if a < 0 && b < 0 {
            (a * -1) / (b * -1)
        } else if a < 0 {
            ((a * -1) / b) * -1
        } else {
            (a / (b * -1)) * -1
        },
{
    let p = abs(a) as int;
    let q = abs(b) as int;
    lemma_div_pos_is_pos(p, q);
    lemma_div_nonincreasing(p, q);
    if q >= 2 {
        lemma_div_is_ordered_by_denominator(p, 2, q);
    }
}

impl Numeric for i64 {
    open spec fn add_ok(self, other: i64) -> bool {
        i64::MIN <= self + other <= i64::MAX
    }

    open spec fn add_val(self, other: i64) -> i64 {
        (self + other) as i64
    }

    open spec fn sub_ok(self, other: i64) -> bool {
        i64::MIN <= self - other <= i64::MAX
    }

    open spec fn sub_val(self, other: i64) -> i64 {
        (self - other) as i64
    }

    open spec fn mul_ok(self, other: i64) -> bool {
        i64::MIN <= self * other <= i64::MAX
    }

    open spec fn mul_val(self, other: i64) -> i64 {
        (self * other) as i64
    }

    open spec fn div_ok(self, other: i64) -> bool {
        other != 0 && !(self == i64::MIN && other == -1)
    }

    open spec fn div_val(self, other: i64) -> i64 {
        trunc_div(self as int, other as int) as i64
    }

    fn add_elem(&self, other: &i64) -> (r: i64) {
        *self + *other
    }

    fn sub_elem(&self, other: &i64) -> (r: i64) {
        *self - *other
    }

    fn mul_elem(&self, other: &i64) -> (r: i64) {
        *self * *other
    }

    fn div_elem(&self, other: &i64) -> (r: i64) {
        proof {
            lemma_trunc_div_i64(*self as int, *other as int);
        }
        match self.checked_div(*other) {
            Some(v) => v,
            None => 0,
        }
    }
}

/// The statement of `lemma_trunc_div_i64`, for the `i32` range.
proof fn lemma_trunc_div_i32(a: int, b: int)
    requires
        i32::MIN <= a <= i32::MAX,
        i32::MIN <= b <= i32::MAX,
        b != 0,
        !(a == i32::MIN && b == -1),
    ensures
        i32::MIN <= trunc_div(a, b) <= i32::MAX,
        trunc_div(a, b) == if a == 0 {
            0int
        } else if a > 0 && b > 0 {
            a / b
        } else if a < 0 && b < 0 {
            (a * -1) / (b * -1)
        } else if a < 0 {
            ((a * -1) / b) * -1
        } else {
            (a / (b * -1)) * -1
        },
{
    let p = abs(a) as int;
    let q = abs(b) as int;
    lemma_div_pos_is_pos(p, q);
    lemma_div_nonincreasing(p, q);
    if q >= 2 {
        lemma_div_is_ordered_by_denominator(p, 2, q);
    }
}

impl Numeric for i32 {
    open spec fn add_ok(self, other: i32) -> bool {
        i32::MIN <= self + other <= i32::MAX
    }

    open spec fn add_val(self, other: i32) -> i32 {
        (self + other) as i32
    }

    open spec fn sub_ok(self, other: i32) -> bool {
        i32::MIN <= self - other <= i32::MAX
    }

    open spec fn sub_val(self, other: i32) -> i32 {
        (self - other) as i32
    }

    open spec fn mul_ok(self, other: i32) -> bool {
        i32::MIN <= self * other <= i32::MAX
    }

    open spec fn mul_val(self, other: i32) -> i32 {
        (self * other) as i32
    }

    open spec fn div_ok(self, other: i32) -> bool {
        other != 0 && !(self == i32::MIN && other == -1)
    }

    open spec fn div_val(self, other: i32) -> i32 {
        trunc_div(self as int, other as int) as i32
    }

    fn add_elem(&self, other: &i32) -> (r: i32) {
        *self + *other
    }

    fn sub_elem(&self, other: &i32) -> (r: i32) {
        *self - *other
    }

    fn mul_elem(&self, other: &i32) -> (r: i32) {
        *self * *other
    }

    fn div_elem(&self, other: &i32) -> (r: i32) {
        proof {
            lemma_trunc_div_i32(*self as int, *other as int);
        }
        match self.checked_div(*other) {
            Some(v) => v,
            None => 0,
        }
    }
}

} // verus!
