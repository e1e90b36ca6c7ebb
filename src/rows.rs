//! Sets of stable row indices, held in a `rangeset::set::RangeSet<i64>`.
use rangeset::set::RangeSet;
use vstd::prelude::*;

verus! {

#[verifier::external_type_specification]
#[verifier::external_body]
#[verifier::reject_recursive_types(T)]
pub struct ExRangeSet<T>(RangeSet<T>);

/// The rows that a range set holds.
pub uninterp spec fn rows_of(s: RangeSet<i64>) -> Set<int>;

/// The rows `start <= x < end`.
pub open spec fn span(start: int, end: int) -> Set<int> {
    Set::new(|x: int| start <= x && x < end)
}

/// The rows covered by a list of half-open spans.
pub open spec fn spans_rows(spans: Seq<(i64, i64)>) -> Set<int> {
    Set::new(|x: int| exists|i: int| 0 <= i < spans.len() && spans[i].0 <= x && x < spans[i].1)
}

/// Each span is non-empty, and each ends before the next begins, with a gap.
pub open spec fn spans_ordered(spans: Seq<(i64, i64)>) -> bool {
    &&& forall|i: int| 0 <= i < spans.len() ==> #[trigger] spans[i].0 < spans[i].1
    &&& forall|i: int, j: int| 0 <= i < j < spans.len() ==> #[trigger] spans[i].1 < #[trigger] spans[j].0
}

/// Relies on `RangeSet::default`: a new set holds no range.
#[verifier::external_body]
pub(crate) fn rows_new() -> (r: RangeSet<i64>)
    ensures
        rows_of(r) == Set::<int>::empty(),
{
    RangeSet::default()
}

/// Relies on `RangeSet::union_mut`: the rows `start..end` are added.
#[verifier::external_body]
pub(crate) fn rows_add_span(s: &mut RangeSet<i64>, start: i64, end: i64)
    ensures
        rows_of(*final(s)) == rows_of(*old(s)).union(span(start as int, end as int)),
{
    s.union_mut(start..end)
}

/// Relies on `RangeSet::difference_mut`: the rows `start..end` are taken out.
#[verifier::external_body]
pub(crate) fn rows_remove_span(s: &mut RangeSet<i64>, start: i64, end: i64)
    ensures
        rows_of(*final(s)) == rows_of(*old(s)).difference(span(start as int, end as int)),
{
    s.difference_mut(start..end)
}

/// Relies on `Set::difference` of `RangeSet`: the rows of `a` that `b` lacks.
#[verifier::external_body]
pub(crate) fn rows_difference(a: &RangeSet<i64>, b: &RangeSet<i64>) -> (r: RangeSet<i64>)
    ensures
        rows_of(r) == rows_of(*a).difference(rows_of(*b)),
{
    rangeset::iter::RangeIterator::into_set(rangeset::ops::Set::difference(a, b))
}

/// Relies on `RangeSet::is_empty`: a set keeps no empty range, so it holds no
/// range exactly when it holds no row.
#[verifier::external_body]
pub(crate) fn rows_is_empty(s: &RangeSet<i64>) -> (r: bool)
    ensures
        r == (rows_of(*s) == Set::<int>::empty()),
{
    s.is_empty()
}

/// Relies on `RangeSet::contains`.
#[verifier::external_body]
pub(crate) fn rows_contains(s: &RangeSet<i64>, row: i64) -> (r: bool)
    ensures
        r == rows_of(*s).contains(row as int),
{
    s.contains(&row)
}

/// Relies on `RangeSet::iter`: the ranges of the set, each as `(start, end)`,
/// kept sorted, non-empty and neither overlapping nor adjacent by the set.
#[verifier::external_body]
pub(crate) fn rows_spans(s: &RangeSet<i64>) -> (r: Vec<(i64, i64)>)
    ensures
        spans_rows(r@) == rows_of(*s),
        spans_ordered(r@),
{
    s.iter().map(|range| (range.start, range.end)).collect()
}

} // verus!
