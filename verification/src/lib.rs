//! An ordered, growable sequence type for numeric time-series data.
//!
//! The [`TimeSeries`] container holds elements in insertion order; the
//! position of an element implicitly stands for its time step.  On top of
//! the container, the crate offers elementwise arithmetic over pairs of
//! series, order-preserving transforms (`map`, `filter`, `reverse`,
//! `slice`), a collapse of a series of fallible values into one fallible
//! series, and the lagged variation operations `diff` and `pct_change`.
//!
//! Every operation carries a contract that states exactly what it returns
//! in terms of the sequence of elements held.

mod arith;
mod collapse;
mod numeric;
mod series;
mod variation;

pub use numeric::trunc_div;
pub use numeric::Numeric;
pub use series::accepted_elements;
pub use series::lemma_reverse_involution;
pub use series::lemma_source_round_trip;
pub use series::TimeSeries;
pub use variation::Variation;
