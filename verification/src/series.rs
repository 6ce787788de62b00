//! The core container: construction, access, and in-place mutation.

use core::ops::Range;
use vstd::prelude::*;

verus! {

/// An ordered, growable sequence of elements.  The position of an element
/// is its time step: position 0 is the oldest entry, the last position the
/// newest.  The backing vector is public so that callers may read the
/// elements as a flat slice; the view of a series is the sequence of
/// elements of that vector.
#[derive(Clone, Debug)]
pub struct TimeSeries<T>(pub Vec<T>);

impl<T> View for TimeSeries<T> {
    type V = Seq<T>;

    open spec fn view(&self) -> Seq<T> {
        self.0@
    }
}

impl<T: Copy> TimeSeries<T> {
    /// Creates an empty series.
    pub fn new() -> (r: Self)
        ensures
            r@ == Seq::<T>::empty(),
    {
        TimeSeries(Vec::new())
    }

    /// Appends one element at the end, after the newest entry.
    pub fn push(&mut self, value: T)
        ensures
            final(self)@ == old(self)@.push(value),
    {
        self.0.push(value);
    }

    /// Removes and returns the element at position 0 — the oldest entry —
    /// shifting all remaining elements down by one; returns `None` on an
    /// empty series.
    pub fn pop(&mut self) -> (r: Option<T>)
        ensures
            old(self)@.len() == 0 ==> r is None && final(self)@ == old(self)@,
            old(self)@.len() > 0 ==> r == Some(old(self)@[0]) && final(self)@ == old(self)@.subrange(
                1,
                old(self)@.len() as int,
            ),
    {
        if self.0.is_empty() {
            return None;
        }
        let front = self.0.remove(0);
        proof {
            assert(self@ =~= old(self)@.subrange(1, old(self)@.len() as int));
        }
        Some(front)
    }

    /// True exactly when the series holds no element.
    pub fn is_empty(&self) -> (r: bool)
        ensures
            r <==> self@.len() == 0,
    {
        self.0.is_empty()
    }

    /// The number of elements currently held.
    pub fn len(&self) -> (r: usize)
        ensures
            r == self@.len(),
    {
        self.0.len()
    }

    /// A copy of the oldest element, or `None` on an empty series.
    pub fn first(&self) -> (r: Option<T>)
        ensures
            self@.len() == 0 ==> r is None,
            self@.len() > 0 ==> r == Some(self@[0]),
    {
        if self.0.len() == 0 {
            None
        } else {
            Some(self.0[0])
        }
    }

    /// A copy of the newest element, or `None` on an empty series.
    pub fn last(&self) -> (r: Option<T>)
        ensures
            self@.len() == 0 ==> r is None,
            self@.len() > 0 ==> r == Some(self@[self@.len() - 1]),
    {
        if self.0.len() == 0 {
            None
        } else {
            Some(self.0[self.0.len() - 1])
        }
    }

    /// Removes every element; the length becomes 0.
    pub fn clear(&mut self)
        ensures
            final(self)@ == Seq::<T>::empty(),
    {
        self.0.clear();
    }

    /// A copy of the element at `index`, or `None` when `index` is out of
    /// bounds.
    pub fn get(&self, index: usize) -> (r: Option<T>)
        ensures
            index < self@.len() ==> r == Some(self@[index as int]),
            index >= self@.len() ==> r is None,
    {
        if index < self.0.len() {
            Some(self.0[index])
        } else {
            None
        }
    }

    /// The element at `index`.  The caller must keep `index` within
    /// bounds; out-of-bounds direct access is excluded by contract rather
    /// than by a runtime fault.
    pub fn at(&self, index: usize) -> (r: T)
        requires
            index < self@.len(),
        ensures
            r == self@[index as int],
    {
        self.0[index]
    }

    /// Overwrites the element at `index` in place.
    pub fn set(&mut self, index: usize, value: T)
        requires
            index < old(self)@.len(),
        ensures
            final(self)@ == old(self)@.update(index as int, value),
    {
        self.0[index] = value;
    }

    /// A new series holding a copy of the half-open index range
    /// `[range.start, range.end)`.  The range must lie within bounds.
    pub fn slice(&self, range: Range<usize>) -> (r: Self)
        requires
            range.start <= range.end,
            range.end <= self@.len(),
        ensures
            r@ == self@.subrange(range.start as int, range.end as int),
    {
        let mut out: Vec<T> = Vec::new();
        let mut i: usize = range.start;
        while i < range.end
            invariant
                range.start <= i <= range.end,
                range.end <= self@.len(),
                out@ == self@.subrange(range.start as int, i as int),
            decreases range.end - i,
        {
            out.push(self.0[i]);
            proof {
                assert(out@ =~= self@.subrange(range.start as int, i as int + 1));
            }
            i += 1;
        }
        TimeSeries(out)
    }

    /// Bounds-checked slicing: `Some` of the half-open range exactly when
    /// the range lies within bounds, `None` otherwise.
    pub fn checked_slice(&self, range: Range<usize>) -> (r: Option<Self>)
        ensures
            range.start <= range.end && range.end <= self@.len() ==> (r matches Some(s) && s@
                == self@.subrange(range.start as int, range.end as int)),
            !(range.start <= range.end && range.end <= self@.len()) ==> r is None,
    {
        if range.start <= range.end && range.end <= self.0.len() {
            Some(self.slice(range))
        } else {
            None
        }
    }

    /// A new series with the elements in reverse order; `self` is left
    /// unchanged.
    pub fn reverse(&self) -> (r: Self)
        ensures
            r@ == self@.reverse(),
    {
        let mut out: Vec<T> = Vec::new();
        let mut i: usize = self.0.len();
        while i > 0
            invariant
                i <= self@.len(),
                out@.len() == self@.len() - i,
                forall|j: int|
                    0 <= j < out@.len() ==> out@[j] == self@[self@.len() - 1 - j],
            decreases i,
        {
            i -= 1;
            out.push(self.0[i]);
        }
        proof {
            assert(out@ =~= self@.reverse());
        }
        TimeSeries(out)
    }

    /// Extends `self` in place with a copy of every element of `other`,
    /// preserving order; `other` is left unchanged.
    pub fn append(&mut self, other: &Self)
        ensures
            final(self)@ == old(self)@ + other@,
    {
        let mut i: usize = 0;
        while i < other.0.len()
            invariant
                i <= other@.len(),
                self@ == old(self)@ + other@.subrange(0, i as int),
            decreases other@.len() - i,
        {
            self.0.push(other.0[i]);
            proof {
                assert(self@ =~= old(self)@ + other@.subrange(0, i as int + 1));
            }
            i += 1;
        }
        proof {
            assert(self@ =~= old(self)@ + other@);
        }
    }

    /// Incorporates an ordered source of elements at the end of the
    /// series, preserving the source's order.
    pub fn extend_from_vec(&mut self, source: &Vec<T>)
        ensures
            final(self)@ == old(self)@ + source@,
    {
        let mut i: usize = 0;
        while i < source.len()
            invariant
                i <= source@.len(),
                self@ == old(self)@ + source@.subrange(0, i as int),
            decreases source@.len() - i,
        {
            self.0.push(source[i]);
            proof {
                assert(self@ =~= old(self)@ + source@.subrange(0, i as int + 1));
            }
            i += 1;
        }
        proof {
            assert(self@ =~= old(self)@ + source@);
        }
    }
}

/// The elements of `s` that the predicate `f` accepts, in order: those on
/// which `f` can return `true`.  For a predicate that decides each element
/// one way only, these are exactly the elements on which it returns
/// `true`.
pub open spec fn accepted_elements<T, F: Fn(&T) -> bool>(f: F, s: Seq<T>) -> Seq<T> {
    s.filter(|x: T| call_ensures(f, (&x,), true))
}

impl<T: Copy> TimeSeries<T> {
    /// Applies `f` to each element by reference, producing a series of a
    /// possibly different element type with the same length and order:
    /// position `i` of the result holds a value `f` may return on the
    /// element at position `i`.
    pub fn map<U, F: Fn(&T) -> U>(&self, f: F) -> (r: TimeSeries<U>)
        requires
            forall|i: int|
                #![trigger self@[i]]
                0 <= i < self@.len() ==> call_requires(f, (&self@[i],)),
        ensures
            r@.len() == self@.len(),
            forall|i: int|
                #![trigger self@[i]]
                0 <= i < self@.len() ==> call_ensures(f, (&self@[i],), #[trigger] r@[i]),
    {
        let mut out: Vec<U> = Vec::new();
        let mut i: usize = 0;
        while i < self.0.len()
            invariant
                forall|k: int|
                    #![trigger self@[k]]
                    0 <= k < self@.len() ==> call_requires(f, (&self@[k],)),
                i <= self@.len(),
                out@.len() == i,
                forall|j: int|
                    #![trigger self@[j]]
                    0 <= j < i ==> call_ensures(f, (&self@[j],), #[trigger] out@[j]),
            decreases self@.len() - i,
        {
            out.push(f(&self.0[i]));
            i += 1;
        }
        TimeSeries(out)
    }

    /// Keeps, in the original order, exactly the elements the predicate
    /// accepts.  The predicate must decide each element one way only; the
    /// result is the subsequence of accepted elements.
    pub fn filter<F: Fn(&T) -> bool>(&self, f: F) -> (r: Self)
        requires
            forall|i: int|
                #![trigger self@[i]]
                0 <= i < self@.len() ==> call_requires(f, (&self@[i],)),
            forall|x: T, b1: bool, b2: bool|
                call_ensures(f, (&x,), b1) && call_ensures(f, (&x,), b2) ==> b1 == b2,
        ensures
            r@ == accepted_elements(f, self@),
    {
        let mut out: Vec<T> = Vec::new();
        let mut i: usize = 0;
        while i < self.0.len()
            invariant
                forall|k: int|
                    #![trigger self@[k]]
                    0 <= k < self@.len() ==> call_requires(f, (&self@[k],)),
                forall|x: T, b1: bool, b2: bool|
                    call_ensures(f, (&x,), b1) && call_ensures(f, (&x,), b2) ==> b1 == b2,
                i <= self@.len(),
                out@ == accepted_elements(f, self@.subrange(0, i as int)),
            decreases self@.len() - i,
        {
            let keep = f(&self.0[i]);
            proof {
                broadcast use Seq::lemma_filter_push;

                let x = self@[i as int];
                let s0 = self@.subrange(0, i as int);
                let s1 = self@.subrange(0, i as int + 1);
                assert(s1 =~= s0.push(x));
                if keep {
                    assert(call_ensures(f, (&x,), true));
                    assert(accepted_elements(f, s0.push(x)) == accepted_elements(f, s0).push(x));
                } else {
                    assert(!call_ensures(f, (&x,), true)) by {
                        if call_ensures(f, (&x,), true) {
                            assert(false);
                        }
                    }
                    assert(accepted_elements(f, s0.push(x)) == accepted_elements(f, s0));
                }
            }
            if keep {
                out.push(self.0[i]);
            }
            i += 1;
        }
        proof {
            assert(self@.subrange(0, self@.len() as int) =~= self@);
        }
        TimeSeries(out)
    }
}

impl<T> TimeSeries<T> {
    /// Builds a series from an ordered source of elements, keeping order
    /// and values unchanged.
    pub fn from_vec(source: Vec<T>) -> (r: Self)
        ensures
            r@ == source@,
    {
        TimeSeries(source)
    }

    /// A flat read-only view of the underlying storage.
    pub fn as_slice(&self) -> (r: &[T])
        ensures
            r@ == self@,
    {
        self.0.as_slice()
    }

    /// Converts the series back into the flat ordered form it was built
    /// from, keeping order and values unchanged.
    pub fn into_vec(self) -> (r: Vec<T>)
        ensures
            r@ == self@,
    {
        self.0
    }
}

impl<T> Default for TimeSeries<T> {
    /// The default series is empty.
    fn default() -> (r: Self)
        ensures
            r@ == Seq::<T>::empty(),
    {
        TimeSeries(Vec::new())
    }
}

/// Reversal is an involution: reversing a series twice restores the
/// original element order.
pub proof fn lemma_reverse_involution<T>(ts: TimeSeries<T>)
    ensures
        ts@.reverse().reverse() == ts@,
{
    assert(ts@.reverse().reverse() =~= ts@);
}

/// Round trip through the flat ordered form: a series built from an
/// ordered source holds exactly the source's elements, so converting it
/// back yields the source unchanged.  The two hypotheses are exactly what
/// `from_vec` and `into_vec` ensure.
pub proof fn lemma_source_round_trip<T>(source: Vec<T>, ts: TimeSeries<T>, back: Vec<T>)
    requires
        ts@ == source@,
        back@ == ts@,
    ensures
        back@ == source@,
{
}

} // verus!
