//! Tests of the core container: construction, access, mutation, and the
//! order-preserving transforms.

use time_series::TimeSeries;

#[test]
fn new_series_is_empty() {
    let mut ts: TimeSeries<i64> = TimeSeries::new();
    assert!(ts.is_empty());
    assert_eq!(ts.len(), 0);
    assert_eq!(ts.first(), None);
    assert_eq!(ts.last(), None);
    assert_eq!(ts.get(0), None);
    assert_eq!(ts.pop(), None);
}

#[test]
fn push_then_query() {
    let mut ts: TimeSeries<i64> = TimeSeries::new();
    ts.push(1);
    ts.push(2);
    ts.push(3);
    assert!(!ts.is_empty());
    assert_eq!(ts.len(), 3);
    assert_eq!(ts.first(), Some(1));
    assert_eq!(ts.last(), Some(3));
    assert_eq!(ts.get(1), Some(2));
    assert_eq!(ts.get(3), None);
    assert_eq!(ts.at(0), 1);
    assert_eq!(ts.at(2), 3);
}

#[test]
fn pop_removes_from_the_front() {
    let mut ts: TimeSeries<i64> = TimeSeries::new();
    ts.push(1);
    ts.push(2);
    ts.push(3);
    assert_eq!(ts.pop(), Some(1));
    assert_eq!(ts.pop(), Some(2));
    assert_eq!(ts.pop(), Some(3));
    assert_eq!(ts.pop(), None);
    assert!(ts.is_empty());
}

#[test]
fn clear_empties_the_series() {
    let mut ts: TimeSeries<i64> = TimeSeries::from_vec(vec![4, 5, 6]);
    ts.clear();
    assert!(ts.is_empty());
    assert_eq!(ts.len(), 0);
}

#[test]
fn set_overwrites_in_place() {
    let mut ts: TimeSeries<i64> = TimeSeries::from_vec(vec![1, 2, 3]);
    ts.set(1, 9);
    assert_eq!(ts.into_vec(), vec![1, 9, 3]);
}

#[test]
fn slice_takes_the_half_open_range() {
    let ts: TimeSeries<i64> = TimeSeries::from_vec(vec![10, 20, 30, 40]);
    let s = ts.slice(1..3);
    assert_eq!(s.into_vec(), vec![20, 30]);
}

#[test]
fn slice_of_full_range_copies_the_series() {
    let ts: TimeSeries<i64> = TimeSeries::from_vec(vec![10, 20, 30]);
    let s = ts.slice(0..3);
    assert_eq!(s.into_vec(), vec![10, 20, 30]);
}

#[test]
fn checked_slice_rejects_end_past_length() {
    let ts: TimeSeries<i64> = TimeSeries::from_vec(vec![10, 20, 30, 40]);
    assert!(ts.checked_slice(0..5).is_none());
}

#[test]
fn checked_slice_rejects_start_past_end() {
    let ts: TimeSeries<i64> = TimeSeries::from_vec(vec![10, 20, 30, 40]);
    assert!(ts.checked_slice(3..2).is_none());
}

#[test]
fn checked_slice_accepts_a_range_in_bounds() {
    let ts: TimeSeries<i64> = TimeSeries::from_vec(vec![10, 20, 30, 40]);
    let s = ts.checked_slice(1..3).unwrap();
    assert_eq!(s.into_vec(), vec![20, 30]);
}

#[test]
fn reverse_inverts_the_order() {
    let ts: TimeSeries<i64> = TimeSeries::from_vec(vec![1, 2, 3]);
    let r = ts.reverse();
    assert_eq!(r.into_vec(), vec![3, 2, 1]);
}

#[test]
fn reverse_twice_restores_the_order() {
    let ts: TimeSeries<i64> = TimeSeries::from_vec(vec![1, 2, 3]);
    let twice = ts.reverse().reverse();
    assert_eq!(twice.into_vec(), vec![1, 2, 3]);
}

#[test]
fn reverse_leaves_the_original_unchanged() {
    let ts: TimeSeries<i64> = TimeSeries::from_vec(vec![1, 2, 3]);
    let _ = ts.reverse();
    assert_eq!(ts.into_vec(), vec![1, 2, 3]);
}

#[test]
fn append_extends_in_order() {
    let mut a: TimeSeries<i64> = TimeSeries::from_vec(vec![1, 2]);
    let b: TimeSeries<i64> = TimeSeries::from_vec(vec![3, 4]);
    a.append(&b);
    assert_eq!(a.into_vec(), vec![1, 2, 3, 4]);
    assert_eq!(b.into_vec(), vec![3, 4]);
}

#[test]
fn extend_from_vec_keeps_source_order() {
    let mut ts: TimeSeries<i64> = TimeSeries::from_vec(vec![1]);
    ts.extend_from_vec(&vec![2, 3]);
    assert_eq!(ts.into_vec(), vec![1, 2, 3]);
}

#[test]
fn round_trip_through_ordered_source() {
    let source = vec![5, 6, 7];
    let ts: TimeSeries<i64> = TimeSeries::from_vec(source.clone());
    let back = ts.into_vec();
    assert_eq!(back, source);
}

#[test]
fn default_series_is_empty() {
    let ts: TimeSeries<i64> = TimeSeries::default();
    assert!(ts.is_empty());
}

#[test]
fn map_doubles_each_element() {
    let ts: TimeSeries<i64> = TimeSeries::from_vec(vec![1, 2, 3]);
    let doubled = ts.map(|x: &i64| *x * 2);
    assert_eq!(doubled.len(), ts.len());
    assert_eq!(doubled.into_vec(), vec![2, 4, 6]);
}

#[test]
fn map_may_change_the_element_type() {
    let ts: TimeSeries<i64> = TimeSeries::from_vec(vec![1, 2, 3]);
    let shifted = ts.map(|x: &i64| (*x as u32) + 1);
    assert_eq!(shifted.into_vec(), vec![2u32, 3u32, 4u32]);
}

#[test]
fn map_on_empty_series_is_empty() {
    let ts: TimeSeries<i64> = TimeSeries::new();
    let mapped = ts.map(|x: &i64| *x * 2);
    assert!(mapped.is_empty());
}

#[test]
fn filter_keeps_matching_elements_in_order() {
    let ts: TimeSeries<i64> = TimeSeries::from_vec(vec![1, 2, 3, 4]);
    let even = ts.filter(|x: &i64| *x % 2 == 0);
    assert_eq!(even.into_vec(), vec![2, 4]);
}

#[test]
fn filter_may_keep_nothing() {
    let ts: TimeSeries<i64> = TimeSeries::from_vec(vec![1, 3, 5]);
    let even = ts.filter(|x: &i64| *x % 2 == 0);
    assert!(even.is_empty());
}

#[test]
fn filter_may_keep_everything() {
    let ts: TimeSeries<i64> = TimeSeries::from_vec(vec![2, 4]);
    let even = ts.filter(|x: &i64| *x % 2 == 0);
    assert_eq!(even.into_vec(), vec![2, 4]);
}

#[test]
fn the_backing_vector_is_readable() {
    let ts: TimeSeries<i64> = TimeSeries::from_vec(vec![1, 2]);
    assert_eq!(ts.0.as_slice(), &[1, 2]);
}

#[test]
fn as_slice_is_the_flat_view() {
    let ts: TimeSeries<i64> = TimeSeries::from_vec(vec![7, 8, 9]);
    assert_eq!(ts.as_slice(), &[7, 8, 9]);
}

#[test]
fn clone_copies_the_elements() {
    let ts: TimeSeries<i64> = TimeSeries::from_vec(vec![1, 2]);
    let copy = ts.clone();
    assert_eq!(copy.into_vec(), vec![1, 2]);
    assert_eq!(ts.into_vec(), vec![1, 2]);
}
