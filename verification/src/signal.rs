use vstd::prelude::*;

use crate::request::RequestError;

verus! {

/// The three elementwise combinations of two sampled signals, positionally
/// aligned with the inputs and the time grid: sum, difference and product.
pub struct CombinedResult<T> {
    pub y1: Vec<T>,
    pub y2: Vec<T>,
    pub y3: Vec<T>,
}

/// Time grid builder: one instant per sample, in index order, produced by
/// the spacing rule `instant` (evenly spaced over the request's time
/// window; for a single sample the rule degenerates to the start instant).
/// The caller has already rejected a zero sample count.
pub fn build_grid<T, F: Fn(usize) -> T>(samples: usize, instant: F) -> (r: Vec<T>)
    requires
        samples >= 1,
        forall|i: usize| i < samples ==> #[trigger] call_requires(instant, (i,)),
    ensures
        r.len() == samples,
        forall|i: usize| i < samples ==> call_ensures(instant, (i,), #[trigger] r[i as int]),
{
    let mut r: Vec<T> = Vec::new();
    for j in 0..samples
        invariant
            r.len() == j,
            forall|i: usize| i < samples ==> #[trigger] call_requires(instant, (i,)),
            forall|i: usize| i < j ==> call_ensures(instant, (i,), #[trigger] r[i as int]),
    {
        r.push(instant(j));
    }
    r
}

/// Signal synthesizer: evaluates the sampling rule `sample` at every
/// instant of the grid, yielding one value per grid entry, positionally
/// aligned with it.
pub fn synthesize<T: Copy, F: Fn(T) -> T>(grid: &Vec<T>, sample: F) -> (r: Vec<T>)
    requires
        forall|i: int| 0 <= i < grid.len() ==> call_requires(sample, (#[trigger] grid[i],)),
    ensures
        r.len() == grid.len(),
        forall|i: int| 0 <= i < grid.len() ==> call_ensures(sample, (grid[i],), #[trigger] r[i]),
{
    let mut r: Vec<T> = Vec::new();
    let n = grid.len();
    for j in 0..n
        invariant
            n == grid.len(),
            r.len() == j,
            forall|i: int| 0 <= i < grid.len() ==> call_requires(sample, (#[trigger] grid[i],)),
            forall|i: int| 0 <= i < j ==> call_ensures(sample, (grid[i],), #[trigger] r[i]),
    {
        r.push(sample(grid[j]));
    }
    r
}

/// Elementwise combination: applies `op` independently to each
/// positionally-aligned pair of values from two equal-length sequences.
pub fn zip_with<T: Copy, F: Fn(T, T) -> T>(a: &Vec<T>, b: &Vec<T>, op: F) -> (r: Vec<T>)
    requires
        a.len() == b.len(),
        forall|i: int| 0 <= i < a.len() ==> #[trigger] call_requires(op, (a[i], b[i])),
    ensures
        r.len() == a.len(),
        forall|i: int| 0 <= i < a.len() ==> call_ensures(op, (a[i], b[i]), #[trigger] r[i]),
{
    let mut r: Vec<T> = Vec::new();
    let n = a.len();
    for j in 0..n
        invariant
            n == a.len(),
            a.len() == b.len(),
            r.len() == j,
            forall|i: int| 0 <= i < a.len() ==> #[trigger] call_requires(op, (a[i], b[i])),
            forall|i: int| 0 <= i < j ==> call_ensures(op, (a[i], b[i]), #[trigger] r[i]),
    {
        r.push(op(a[j], b[j]));
    }
    r
}

/// Signal combiner: the elementwise sum, difference and product of two
/// sampled signals of equal length. Unequal lengths are a caller error
/// that normal operation never produces (both signals come from the same
/// time grid); they are rejected fast with a length-mismatch error rather
/// than truncated or padded.
pub fn combine<
    T: Copy,
    FS: Fn(T, T) -> T,
    FD: Fn(T, T) -> T,
    FP: Fn(T, T) -> T,
>(a: &Vec<T>, b: &Vec<T>, sum_op: FS, diff_op: FD, prod_op: FP) -> (r: Result<
    CombinedResult<T>,
    RequestError,
>)
    requires
        forall|i: int|
            0 <= i < a.len() && i < b.len() ==> #[trigger] call_requires(sum_op, (a[i], b[i])),
        forall|i: int|
            0 <= i < a.len() && i < b.len() ==> #[trigger] call_requires(diff_op, (a[i], b[i])),
        forall|i: int|
            0 <= i < a.len() && i < b.len() ==> #[trigger] call_requires(prod_op, (a[i], b[i])),
    ensures
        r is Ok <==> a.len() == b.len(),
        a.len() != b.len() ==> r == Err::<CombinedResult<T>, RequestError>(
            RequestError::LengthMismatch,
        ),
        r is Ok ==> r->Ok_0.y1.len() == a.len() && r->Ok_0.y2.len() == a.len()
            && r->Ok_0.y3.len() == a.len(),
        r is Ok ==> forall|i: int|
            0 <= i < a.len() ==> call_ensures(sum_op, (a[i], b[i]), #[trigger] r->Ok_0.y1[i]),
        r is Ok ==> forall|i: int|
            0 <= i < a.len() ==> call_ensures(diff_op, (a[i], b[i]), #[trigger] r->Ok_0.y2[i]),
        r is Ok ==> forall|i: int|
            0 <= i < a.len() ==> call_ensures(prod_op, (a[i], b[i]), #[trigger] r->Ok_0.y3[i]),
{
    if a.len() != b.len() {
        return Err(RequestError::LengthMismatch);
    }
    let y1 = zip_with(a, b, sum_op);
    let y2 = zip_with(a, b, diff_op);
    let y3 = zip_with(a, b, prod_op);
    Ok(CombinedResult { y1, y2, y3 })
}

} // verus!
