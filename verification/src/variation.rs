//! Lagged variation: differences and relative changes along a series.

use crate::numeric::Numeric;
use crate::series::TimeSeries;
use vstd::prelude::*;

verus! {

/// Lagged variation over an ordered container.  `diff(offset)` subtracts
/// from each element the element `offset` positions earlier;
/// `pct_change(offset)` divides that difference by the earlier element.
/// Each implementor states through the spec functions when the two
/// operations are defined and what they return.
pub trait Variation: Sized {
    /// When `diff(offset)` is defined.
    spec fn diff_ok(&self, offset: int) -> bool;

    /// What `diff(offset)` returns.
    spec fn diff_post(&self, offset: int, r: &Self) -> bool;

    /// When `pct_change(offset)` is defined.
    spec fn pct_change_ok(&self, offset: int) -> bool;

    /// What `pct_change(offset)` returns.
    spec fn pct_change_post(&self, offset: int, r: &Self) -> bool;

    /// The lagged differences at lag `offset`.
    fn diff(&self, offset: usize) -> (r: Self)
        requires
            self.diff_ok(offset as int),
        ensures
            self.diff_post(offset as int, &r),
    ;

    /// The lagged relative changes at lag `offset`.
    fn pct_change(&self, offset: usize) -> (r: Self)
        requires
            self.pct_change_ok(offset as int),
        ensures
            self.pct_change_post(offset as int, &r),
    ;
}

impl<T: Numeric> Variation for TimeSeries<T> {
    /// The lag lies within the length, and each lagged subtraction is
    /// representable.
    open spec fn diff_ok(&self, offset: int) -> bool {
        &&& 0 <= offset <= self@.len()
        &&& forall|i: int|
            0 <= i < self@.len() - offset ==> self@[i + offset].sub_ok(#[trigger] self@[i])
    }

    /// One element per position up to `len - offset`, holding
    /// `self[offset + i] - self[i]`.
    open spec fn diff_post(&self, offset: int, r: &Self) -> bool {
        &&& r@.len() == self@.len() - offset
        &&& forall|i: int|
            0 <= i < r@.len() ==> #[trigger] r@[i] == self@[i + offset].sub_val(self@[i])
    }

    /// The lag lies within the length, each lagged subtraction is
    /// representable, and each difference may be divided by the earlier
    /// element (which excludes zero-valued divisors).
    open spec fn pct_change_ok(&self, offset: int) -> bool {
        &&& 0 <= offset <= self@.len()
        &&& forall|i: int|
            0 <= i < self@.len() - offset ==> self@[i + offset].sub_ok(#[trigger] self@[i])
        &&& forall|i: int|
            0 <= i < self@.len() - offset ==> (self@[i + offset].sub_val(
                #[trigger] self@[i],
            )).div_ok(self@[i])
    }

    /// One element per position up to `len - offset`, holding
    /// `(self[offset + i] - self[i]) / self[i]`.
    open spec fn pct_change_post(&self, offset: int, r: &Self) -> bool {
        &&& r@.len() == self@.len() - offset
        &&& forall|i: int|
            0 <= i < r@.len() ==> #[trigger] r@[i] == (self@[i + offset].sub_val(
                self@[i],
            )).div_val(self@[i])
    }

    fn diff(&self, offset: usize) -> (r: Self) {
        let length = self.len();
        let later = self.slice(offset..length);
        let earlier = self.slice(0..length - offset);
        proof {
            assert forall|i: int|
                0 <= i < vstd::math::min(later@.len() as int, earlier@.len() as int) implies later@[i].sub_ok(
                #[trigger] earlier@[i],
            ) by {
                assert(later@[i] == self@[i + offset]);
                assert(earlier@[i] == self@[i]);
            }
        }
        let r = later.sub(&earlier);
        proof {
            assert forall|i: int| 0 <= i < r@.len() implies #[trigger] r@[i] == self@[i
                + offset].sub_val(self@[i]) by {
                assert(later@[i] == self@[i + offset]);
                assert(earlier@[i] == self@[i]);
            }
        }
        r
    }

    fn pct_change(&self, offset: usize) -> (r: Self) {
        let length = self.len();
        let later = self.slice(offset..length);
        let earlier = self.slice(0..length - offset);
        proof {
            assert forall|i: int|
                0 <= i < vstd::math::min(later@.len() as int, earlier@.len() as int) implies later@[i].sub_ok(
                #[trigger] earlier@[i],
            ) by {
                assert(later@[i] == self@[i + offset]);
                assert(earlier@[i] == self@[i]);
            }
        }
        let delta = later.sub(&earlier);
        proof {
            assert forall|i: int|
                0 <= i < vstd::math::min(delta@.len() as int, earlier@.len() as int) implies delta@[i].div_ok(
                #[trigger] earlier@[i],
            ) by {
                assert(later@[i] == self@[i + offset]);
                assert(earlier@[i] == self@[i]);
                assert(delta@[i] == self@[i + offset].sub_val(self@[i]));
            }
        }
        let r = delta.div(&earlier);
        proof {
            assert forall|i: int| 0 <= i < r@.len() implies #[trigger] r@[i] == (self@[i
                + offset].sub_val(self@[i])).div_val(self@[i]) by {
                assert(later@[i] == self@[i + offset]);
                assert(earlier@[i] == self@[i]);
                assert(delta@[i] == self@[i + offset].sub_val(self@[i]));
            }
        }
        r
    }
}

} // verus!
