//! Affine rescaling of the mixed samples onto [-1, 1], kept exact as integer
//! numerators over one shared positive denominator.
use crate::config::RangeSeed;
use vstd::prelude::*;

verus! {

/// The normalized window: sample `n` stands for `numerators[n] / denominator`.
#[derive(Debug)]
pub struct NormalizedSignal {
    pub numerators: Vec<i64>,
    pub denominator: i64,
}

/// Running minimum of `x`, started at `seed`.
pub open spec fn min_from(x: Seq<i32>, seed: int) -> int
    decreases x.len(),
{
    if x.len() == 0 {
        seed
    } else {
        let m = min_from(x.drop_last(), seed);
        if (x.last() as int) < m {
            x.last() as int
        } else {
            m
        }
    }
}

/// Running maximum of `x`, started at `seed`.
pub open spec fn max_from(x: Seq<i32>, seed: int) -> int
    decreases x.len(),
{
    if x.len() == 0 {
        seed
    } else {
        let m = max_from(x.drop_last(), seed);
        if (x.last() as int) > m {
            x.last() as int
        } else {
            m
        }
    }
}

/// The value both running extremes start from.
pub open spec fn seed_value(x: Seq<i32>, seed: RangeSeed) -> int {
    match seed {
        RangeSeed::Zero => 0,
        RangeSeed::FirstSample => if x.len() > 0 {
            x[0] as int
        } else {
            0
        },
    }
}

/// Lower end of the range that `x` is rescaled from.
pub open spec fn range_min(x: Seq<i32>, seed: RangeSeed) -> int {
    min_from(x, seed_value(x, seed))
}

/// Upper end of the range that `x` is rescaled from.
pub open spec fn range_max(x: Seq<i32>, seed: RangeSeed) -> int {
    max_from(x, seed_value(x, seed))
}

/// Numerator of the image of `v` under the map of `[lo, hi]` onto `[-1, 1]`:
/// `-1 + (v - lo) * 2 / (hi - lo) == (2v - lo - hi) / (hi - lo)`. An empty range
/// maps everything to zero.
pub open spec fn scaled_numerator(v: int, lo: int, hi: int) -> int {
    if lo == hi {
        0
    } else {
        2 * v - lo - hi
    }
}

/// The shared denominator of the map of `[lo, hi]` onto `[-1, 1]`.
pub open spec fn scaled_denominator(lo: int, hi: int) -> int {
    if lo == hi {
        1
    } else {
        hi - lo
    }
}

/// The numerators that `normalize_data` produces for `x`.
pub open spec fn normalized_numerators(x: Seq<i32>, seed: RangeSeed) -> Seq<i64> {
    Seq::new(
        x.len(),
        |i: int| scaled_numerator(x[i] as int, range_min(x, seed), range_max(x, seed)) as i64,
    )
}

proof fn lemma_extremes_bound(x: Seq<i32>, seed: int)
    ensures
        min_from(x, seed) <= seed <= max_from(x, seed),
        forall|i: int| 0 <= i < x.len() ==> min_from(x, seed) <= #[trigger] x[i] <= max_from(x, seed),
        min_from(x, seed) == seed || exists|i: int| 0 <= i < x.len() && x[i] == min_from(x, seed),
        max_from(x, seed) == seed || exists|i: int| 0 <= i < x.len() && x[i] == max_from(x, seed),
    decreases x.len(),
{
    if x.len() > 0 {
        let y = x.drop_last();
        lemma_extremes_bound(y, seed);
        assert forall|i: int| 0 <= i < x.len() implies min_from(x, seed) <= #[trigger] x[i] <= max_from(
            x,
            seed,
        ) by {
            if i < y.len() {
                assert(x[i] == y[i]);
            }
        }
        if min_from(y, seed) != seed && min_from(x, seed) == min_from(y, seed) {
            let j = choose|j: int| 0 <= j < y.len() && y[j] == min_from(y, seed);
            assert(x[j] == y[j]);
        }
        if max_from(y, seed) != seed && max_from(x, seed) == max_from(y, seed) {
            let j = choose|j: int| 0 <= j < y.len() && y[j] == max_from(y, seed);
            assert(x[j] == y[j]);
        }
    }
}

/// Lowest and highest sample, both running values started as `seed` says.
fn sample_range(data: &[i32], seed: RangeSeed) -> (r: (i32, i32))
    ensures
        r.0 as int == range_min(data@, seed),
        r.1 as int == range_max(data@, seed),
{
    let init: i32 = match seed {
        RangeSeed::Zero => 0,
        RangeSeed::FirstSample => if data.len() > 0 {
            data[0]
        } else {
            0
        },
    };
    let mut lo: i32 = init;
    let mut hi: i32 = init;
    let mut i: usize = 0;
    while i < data.len()
        invariant
            0 <= i <= data@.len(),
            init as int == seed_value(data@, seed),
            lo as int == min_from(data@.take(i as int), init as int),
            hi as int == max_from(data@.take(i as int), init as int),
        decreases data@.len() - i,
    {
        assert(data@.take(i + 1).drop_last() =~= data@.take(i as int));
        if data[i] > hi {
            hi = data[i];
        }
        if data[i] < lo {
            lo = data[i];
        }
        i = i + 1;
    }
    assert(data@.take(i as int) =~= data@);
    (lo, hi)
}

/// Rescales `data` onto [-1, 1] with the affine map that sends the range's minimum
/// to -1 and its maximum to 1, the range being found in one pass with both
/// extremes started as `seed` says. When the range is a single value every sample
/// maps to 0.
pub fn normalize_data(data: &[i32], seed: RangeSeed) -> (r: NormalizedSignal)
    ensures
        r.numerators@ == normalized_numerators(data@, seed),
        r.numerators@.len() == data@.len(),
        r.denominator as int == scaled_denominator(
            range_min(data@, seed),
            range_max(data@, seed),
        ),
        forall|i: int|
            0 <= i < data@.len() ==> r.numerators@[i] as int == scaled_numerator(
                data@[i] as int,
                range_min(data@, seed),
                range_max(data@, seed),
            ),
        r.denominator > 0,
        forall|i: int|
            0 <= i < data@.len() ==> -r.denominator <= #[trigger] r.numerators@[i]
                <= r.denominator,
        range_min(data@, seed) != range_max(data@, seed) ==> forall|i: int|
            0 <= i < data@.len() && data@[i] == range_min(data@, seed) ==> r.numerators@[i]
                == -r.denominator,
        range_min(data@, seed) != range_max(data@, seed) ==> forall|i: int|
            0 <= i < data@.len() && data@[i] == range_max(data@, seed) ==> r.numerators@[i]
                == r.denominator,
        range_min(data@, seed) == range_max(data@, seed) ==> forall|i: int|
            0 <= i < data@.len() ==> r.numerators@[i] == 0,
        seed == RangeSeed::FirstSample && data@.len() > 0 ==> {
            &&& exists|i: int| 0 <= i < data@.len() && data@[i] == range_min(data@, seed)
            &&& exists|i: int| 0 <= i < data@.len() && data@[i] == range_max(data@, seed)
        },
{
    let (lo, hi) = sample_range(data, seed);
    let ghost x = data@;
    proof {
        lemma_extremes_bound(x, seed_value(x, seed));
    }
    let den: i64 = if lo == hi {
        1
    } else {
        hi as i64 - lo as i64
    };
    let mut nums: Vec<i64> = Vec::new();
    let mut i: usize = 0;
    while i < data.len()
        invariant
            x == data@,
            0 <= i <= x.len(),
            lo as int == range_min(x, seed),
            hi as int == range_max(x, seed),
            lo <= hi,
            forall|j: int| 0 <= j < x.len() ==> lo <= #[trigger] x[j] <= hi,
            nums@.len() == i,
            forall|j: int|
                0 <= j < i ==> #[trigger] nums@[j] as int == scaled_numerator(
                    x[j] as int,
                    lo as int,
                    hi as int,
                ),
        decreases x.len() - i,
    {
        let v = data[i];
        let n: i64 = if lo == hi {
            0
        } else {
            2 * (v as i64) - lo as i64 - hi as i64
        };
        nums.push(n);
        i = i + 1;
    }
    assert(nums@ =~= normalized_numerators(x, seed));
    NormalizedSignal { numerators: nums, denominator: den }
}

} // verus!
