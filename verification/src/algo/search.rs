//! Specialized binary searches over sorted keys, used for B+Tree operations.

use vstd::prelude::*;

verus! {

/// The keys are in natural (non-decreasing) order.
pub open spec fn sorted(s: Seq<u64>) -> bool {
    forall|i: int, j: int| 0 <= i < j < s.len() ==> s[i] <= s[j]
}

/// Searches for the given needle and returns its index within the haystack.
/// `haystack` must be sorted in natural order prior to calling this function.
///
/// Returns `Some(index)` if a matching element has been found, `None` otherwise.
pub fn binary_search(haystack: &[u64], needle: u64) -> (r: Option<usize>)
    requires
        sorted(haystack@),
    ensures
        (r matches Some(i) ==> i < haystack@.len() && haystack@[i as int] == needle),
        r is None ==> (forall|i: int| 0 <= i < haystack@.len() ==> haystack@[i] != needle),
{
    if haystack.len() == 0 {
        None
    } else {
        binary_search_internal(haystack, 0, haystack.len() - 1, needle)
    }
}

/// Recursively searches for `needle` between the indices `low` and `high`,
/// both inclusive.
fn binary_search_internal(haystack: &[u64], low: usize, high: usize, needle: u64) -> (r: Option<
    usize,
>)
    requires
        sorted(haystack@),
        low <= high < haystack@.len(),
        forall|i: int| 0 <= i < low ==> haystack@[i] < needle,
        forall|i: int| high < i < haystack@.len() ==> haystack@[i] > needle,
    ensures
        (r matches Some(i) ==> low <= i <= high && haystack@[i as int] == needle),
        r is None ==> (forall|i: int| 0 <= i < haystack@.len() ==> haystack@[i] != needle),
    decreases high - low,
{
    let index = low + (high - low) / 2;
    let middle_element = haystack[index];

    if middle_element == needle {
        Some(index)
    } else if middle_element < needle {
        if index == high {
            None
        } else {
            binary_search_internal(haystack, index + 1, high, needle)
        }
    } else {
        if index == low {
            None
        } else {
            binary_search_internal(haystack, low, index - 1, needle)
        }
    }
}

/// Searches the greatest element that may equal but not exceed the given
/// `needle`. `haystack` must be sorted in natural order prior to calling this
/// function.
///
/// Returns `Some(index)` if a matching element has been found, `None` otherwise.
pub fn greatest_not_exceeding(haystack: &[u64], needle: u64) -> (r: Option<usize>)
    requires
        sorted(haystack@),
    ensures
        (r matches Some(i) ==> i < haystack@.len() && haystack@[i as int] <= needle && (i
            + 1 == haystack@.len() || haystack@[i + 1] > needle)),
        r is None ==> (forall|i: int| 0 <= i < haystack@.len() ==> haystack@[i] > needle),
{
    if haystack.len() == 0 {
        None
    } else {
        greatest_not_exceeding_internal(haystack, 0, haystack.len() - 1, needle)
    }
}

/// Recursively searches the greatest element not exceeding `needle` between
/// the indices `low` and `high`, both inclusive.
fn greatest_not_exceeding_internal(haystack: &[u64], low: usize, high: usize, needle: u64) -> (r:
    Option<usize>)
    requires
        sorted(haystack@),
        low <= high < haystack@.len(),
        low == 0 || haystack@[low as int] <= needle,
        forall|i: int| 0 <= i < low ==> haystack@[i] <= needle,
        forall|i: int| high < i < haystack@.len() ==> haystack@[i] > needle,
    ensures
        (r matches Some(i) ==> i < haystack@.len() && haystack@[i as int] <= needle && (i
            + 1 == haystack@.len() || haystack@[i + 1] > needle)),
        r is None ==> (forall|i: int| 0 <= i < haystack@.len() ==> haystack@[i] > needle),
    decreases high - low,
{
    let index = low + (high - low) / 2;
    let middle_element = haystack[index];

    if index == low && needle < middle_element {
        None
    } else {
        let is_candidate = middle_element <= needle;
        if is_candidate && (index == high || needle < haystack[index + 1]) {
            Some(index)
        } else if is_candidate {
            greatest_not_exceeding_internal(haystack, index + 1, high, needle)
        } else {
            greatest_not_exceeding_internal(haystack, low, index, needle)
        }
    }
}

/// Searches the first element which is considered larger than `needle`.
/// `haystack` must be sorted in natural order prior to calling this function.
///
/// Note: `needle` does not need to reside in `haystack`, which allows for
/// searching sparse haystacks.
///
/// Returns `Some(index)` if a matching element has been found, `None` otherwise.
pub fn next_largest(haystack: &[u64], needle: u64) -> (r: Option<usize>)
    requires
        sorted(haystack@),
    ensures
        (r matches Some(i) ==> i < haystack@.len() && haystack@[i as int] > needle && (i == 0
            || haystack@[i - 1] <= needle)),
        r is None ==> (forall|i: int| 0 <= i < haystack@.len() ==> haystack@[i] <= needle),
{
    if haystack.len() == 0 {
        None
    } else {
        next_largest_internal(haystack, 0, haystack.len() - 1, needle)
    }
}

/// Recursively searches the first element larger than `needle` between the
/// indices `low` and `high`, both inclusive.
fn next_largest_internal(haystack: &[u64], low: usize, high: usize, needle: u64) -> (r: Option<
    usize,
>)
    requires
        sorted(haystack@),
        low <= high < haystack@.len(),
        forall|i: int| 0 <= i < low ==> haystack@[i] <= needle,
        high + 1 == haystack@.len() || haystack@[high as int] > needle,
        forall|i: int| high < i < haystack@.len() ==> haystack@[i] > needle,
    ensures
        (r matches Some(i) ==> i < haystack@.len() && haystack@[i as int] > needle && (i == 0
            || haystack@[i - 1] <= needle)),
        r is None ==> (forall|i: int| 0 <= i < haystack@.len() ==> haystack@[i] <= needle),
    decreases high - low,
{
    let index = low + (high - low) / 2;
    let middle_element = haystack[index];

    if low != high {
        if middle_element <= needle {
            next_largest_internal(haystack, index + 1, high, needle)
        } else {
            next_largest_internal(haystack, low, index, needle)
        }
    } else if needle < middle_element {
        Some(index)
    } else {
        None
    }
}

} // verus!
