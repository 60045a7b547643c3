//! Small general-purpose helpers: extremum search and index sorting.

use vstd::prelude::*;

verus! {

/// Error value for simulation options or parameters that do not fulfil the
/// posed requirements, e.g. a distance exceeding the track length.
#[derive(Debug, Clone, PartialEq, Eq, Structural)]
pub struct InputValueError;

impl InputValueError {
    /// A short human-readable description of the error.
    pub fn message(&self) -> &'static str {
        "Invalid input value"
    }
}

/// Sort direction for `argsort`.
#[derive(Debug, Clone, Copy, PartialEq, Eq, Structural)]
pub enum SortOrder {
    Ascending,
    Descending,
}

/// True when `a` may stand before `b` in a sequence sorted with `order`.
pub open spec fn in_order(order: SortOrder, a: u64, b: u64) -> bool {
    match order {
        SortOrder::Ascending => a <= b,
        SortOrder::Descending => a >= b,
    }
}

/// Returns the index of the maximum value in `x`; the first such index when
/// the maximum occurs more than once.
pub fn argmax(x: &Vec<u64>) -> (r: usize)
    requires
        x@.len() > 0,
    ensures
        r < x@.len(),
        forall|k: int| 0 <= k < x@.len() ==> x@[k] <= x@[r as int],
        forall|k: int| 0 <= k < r ==> x@[k] < x@[r as int],
{
    let mut idx_max: usize = 0;
    let mut i: usize = 1;
    while i < x.len()
        invariant
            0 < i <= x@.len(),
            idx_max < i,
            forall|k: int| 0 <= k < i ==> x@[k] <= x@[idx_max as int],
            forall|k: int| 0 <= k < idx_max ==> x@[k] < x@[idx_max as int],
        decreases x@.len() - i,
    {
        if x[i] > x[idx_max] {
            idx_max = i;
        }
        i = i + 1;
    }
    idx_max
}

/// Returns the maximum value in `x`.
pub fn max(x: &Vec<i64>) -> (r: i64)
    requires
        x@.len() > 0,
    ensures
        forall|k: int| 0 <= k < x@.len() ==> x@[k] <= r,
        exists|k: int| 0 <= k < x@.len() && x@[k] == r,
{
    let mut val_max: i64 = x[0];
    let mut i: usize = 1;
    while i < x.len()
        invariant
            0 < i <= x@.len(),
            forall|k: int| 0 <= k < i ==> x@[k] <= val_max,
            exists|k: int| 0 <= k < i && x@[k] == val_max,
        decreases x@.len() - i,
    {
        if x[i] > val_max {
            val_max = x[i];
        }
        i = i + 1;
    }
    val_max
}

/// Returns the indices that would sort `x` in the given order: the result is a
/// permutation of `0..x.len()` and reading `x` through it is monotone.
pub fn argsort(x: &Vec<u64>, order: SortOrder) -> (r: Vec<usize>)
    ensures
        r@.len() == x@.len(),
        forall|i: int| 0 <= i < r@.len() ==> r@[i] < x@.len(),
        forall|i: int, j: int| 0 <= i < j < r@.len() ==> r@[i] != r@[j],
        forall|i: int, j: int|
            0 <= i < j < r@.len() ==> in_order(order, x@[r@[i] as int], x@[r@[j] as int]),
{
    let n: usize = x.len();
    let mut r: Vec<usize> = Vec::new();
    let mut k: usize = 0;
    while k < n
        invariant
            k <= n,
            r@.len() == k,
            forall|i: int| 0 <= i < k ==> r@[i] == i,
        decreases n - k,
    {
        r.push(k);
        k = k + 1;
    }

    let mut i: usize = 0;
    while i < n
        invariant
            i <= n,
            n == x@.len(),
            r@.len() == n,
            forall|a: int| 0 <= a < n ==> r@[a] < n,
            forall|a: int, b: int| 0 <= a < b < n ==> r@[a] != r@[b],
            forall|a: int, b: int|
                0 <= a < b < i ==> in_order(order, x@[r@[a] as int], x@[r@[b] as int]),
            forall|a: int, b: int|
                0 <= a < i <= b < n ==> in_order(order, x@[r@[a] as int], x@[r@[b] as int]),
        decreases n - i,
    {
        let mut best: usize = i;
        let mut j: usize = i + 1;
        while j < n
            invariant
                i <= best < j <= n,
                n == x@.len(),
                r@.len() == n,
                forall|a: int| 0 <= a < n ==> r@[a] < n,
                forall|a: int|
                    i <= a < j ==> in_order(order, x@[r@[best as int] as int], x@[r@[a] as int]),
            decreases n - j,
        {
            let better: bool = match order {
                SortOrder::Ascending => x[r[j]] < x[r[best]],
                SortOrder::Descending => x[r[j]] > x[r[best]],
            };
            if better {
                best = j;
            }
            j = j + 1;
        }
        let ri: usize = r[i];
        let rb: usize = r[best];
        r.set(i, rb);
        r.set(best, ri);
        i = i + 1;
    }
    r
}

} // verus!
