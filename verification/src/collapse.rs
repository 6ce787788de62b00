//! Collapsing a series of fallible values into one fallible series.

use crate::series::TimeSeries;
use vstd::prelude::*;

verus! {

impl<T, E> TimeSeries<Result<T, E>> {
    /// All-or-first-error collapse: when every element is a success, the
    /// result is a success carrying the series of unwrapped values in
    /// order; otherwise it is exactly the first error, and the elements
    /// past that error play no part in the outcome.
    pub fn unwrap(self) -> (r: Result<TimeSeries<T>, E>)
        ensures
            match r {
                Ok(out) => out@.len() == self@.len() && forall|i: int|
                    0 <= i < self@.len() ==> (#[trigger] self@[i]) is Ok && out@[i]
                        == self@[i]->Ok_0,
                Err(e) => exists|k: int|
                    0 <= k < self@.len() && (#[trigger] self@[k]) is Err && e == self@[k]->Err_0
                        && (forall|j: int| 0 <= j < k ==> (#[trigger] self@[j]) is Ok),
            },
    {
        let mut this = self;
        let ghost orig: Seq<Result<T, E>> = this@;
        let mut out: Vec<T> = Vec::new();
        proof {
            assert(this@ =~= orig.subrange(0, orig.len() as int));
        }
        while this.0.len() > 0
            invariant
                orig == self@,
                orig.len() == out@.len() + this@.len(),
                this@ == orig.subrange(out@.len() as int, orig.len() as int),
                forall|j: int|
                    0 <= j < out@.len() ==> (#[trigger] orig[j]) is Ok && out@[j] == orig[j]->Ok_0,
            decreases this@.len(),
        {
            let ghost k = out@.len() as int;
            let item = this.0.remove(0);
            proof {
                assert(item == orig[k]);
            }
            match item {
                Ok(value) => {
                    out.push(value);
                    proof {
                        assert(this@ =~= orig.subrange(out@.len() as int, orig.len() as int));
                    }
                },
                Err(error) => {
                    proof {
                        assert((orig[k]) is Err && orig[k]->Err_0 == error);
                    }
                    return Err(error);
                },
            }
        }
        Ok(TimeSeries(out))
    }
}

} // verus!
