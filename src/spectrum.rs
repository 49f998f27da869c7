//! The parity-split amplitude aggregate, and the phase indices of the direct form.
use crate::normalize::NormalizedSignal;
use vstd::arithmetic::div_mod::{
    lemma_add_mod_noop, lemma_mod_add_multiples_vanish, lemma_mod_bound, lemma_small_mod,
};
use vstd::arithmetic::mul::lemma_mul_is_distributive_add;
use vstd::prelude::*;

verus! {

/// Absolute value.
pub open spec fn abs(v: int) -> int {
    if v < 0 {
        -v
    } else {
        v
    }
}

/// Sum of the absolute values of `s`.
pub open spec fn abs_sum(s: Seq<i64>) -> int
    decreases s.len(),
{
    if s.len() == 0 {
        0
    } else {
        abs_sum(s.drop_last()) + abs(s.last() as int)
    }
}

/// The elements of `s` at even indices, in order.
pub open spec fn evens(s: Seq<i64>) -> Seq<i64> {
    Seq::new(((s.len() + 1) / 2) as nat, |i: int| s[2 * i])
}

/// The elements of `s` at odd indices, in order.
pub open spec fn odds(s: Seq<i64>) -> Seq<i64> {
    Seq::new((s.len() / 2) as nat, |i: int| s[2 * i + 1])
}

/// The aggregate that splits `s` by index parity down to single samples and sums
/// the direct-form amplitudes of the pieces. On one sample the direct form has
/// phase zero at every frequency, so a piece contributes its absolute value.
pub open spec fn parity_aggregate(s: Seq<i64>) -> int
    decreases s.len(),
{
    if s.len() <= 1 {
        abs_sum(s)
    } else {
        parity_aggregate(evens(s)) + parity_aggregate(odds(s))
    }
}

proof fn lemma_abs_sum_push(s: Seq<i64>, v: i64)
    ensures
        abs_sum(s.push(v)) == abs_sum(s) + abs(v as int),
{
    assert(s.push(v).drop_last() =~= s);
}

proof fn lemma_abs_sum_split(s: Seq<i64>)
    ensures
        abs_sum(s) == abs_sum(evens(s)) + abs_sum(odds(s)),
    decreases s.len(),
{
    if s.len() > 0 {
        let t = s.drop_last();
        let n = s.len() - 1;
        lemma_abs_sum_split(t);
        if n % 2 == 0 {
            assert(evens(s) =~= evens(t).push(s[n]));
            assert(odds(s) =~= odds(t));
            lemma_abs_sum_push(evens(t), s[n]);
        } else {
            assert(evens(s) =~= evens(t));
            assert(odds(s) =~= odds(t).push(s[n]));
            lemma_abs_sum_push(odds(t), s[n]);
        }
    }
}

/// The parity-split aggregate is the sum of the absolute values of the window,
/// whatever its length.
pub proof fn lemma_parity_aggregate_is_abs_sum(s: Seq<i64>)
    ensures
        parity_aggregate(s) == abs_sum(s),
    decreases s.len(),
{
    if s.len() > 1 {
        lemma_parity_aggregate_is_abs_sum(evens(s));
        lemma_parity_aggregate_is_abs_sum(odds(s));
        lemma_abs_sum_split(s);
    }
}

proof fn lemma_abs_sum_bound(s: Seq<i64>)
    ensures
        0 <= abs_sum(s) <= s.len() * 0x8000_0000_0000_0000,
    decreases s.len(),
{
    if s.len() > 0 {
        lemma_abs_sum_bound(s.drop_last());
    }
}

/// The parity-split amplitude of `data` at frequency index `freq`: splits the
/// window into its even- and odd-indexed halves, recurses on each down to single
/// samples, and sums the halves' amplitudes. Not a Fourier transform: the result
/// is the sum of the absolute values of the window at every frequency index.
pub fn parity_aggregate_amplitude(freq: usize, data: &[i64]) -> (r: u128)
    ensures
        r as int == parity_aggregate(data@),
        r as int == abs_sum(data@),
    decreases data@.len(),
{
    proof {
        lemma_parity_aggregate_is_abs_sum(data@);
        lemma_abs_sum_bound(data@);
    }
    if data.len() > 1 {
        let mut even: Vec<i64> = Vec::new();
        let mut odd: Vec<i64> = Vec::new();
        let mut i: usize = 0;
        while i < data.len()
            invariant
                0 <= i <= data@.len(),
                even@.len() == (i + 1) / 2,
                odd@.len() == i / 2,
                forall|j: int| 0 <= j < even@.len() ==> #[trigger] even@[j] == data@[2 * j],
                forall|j: int| 0 <= j < odd@.len() ==> #[trigger] odd@[j] == data@[2 * j + 1],
            decreases data@.len() - i,
        {
            if i % 2 == 0 {
                even.push(data[i]);
            } else {
                odd.push(data[i]);
            }
            i = i + 1;
        }
        assert(even@ =~= evens(data@));
        assert(odd@ =~= odds(data@));
        let a = parity_aggregate_amplitude(freq, even.as_slice());
        let b = parity_aggregate_amplitude(freq, odd.as_slice());
        proof {
            lemma_abs_sum_split(data@);
            assert(data@.len() * 0x8000_0000_0000_0000 < 0x1_0000_0000_0000_0000_0000_0000_0000_0000)
                by (nonlinear_arith)
                requires
                    data@.len() <= usize::MAX,
            ;
        }
        a + b
    } else if data.len() == 1 {
        proof {
            reveal_with_fuel(abs_sum, 2);
        }
        let v = data[0];
        if v < 0 {
            (-(v as i128)) as u128
        } else {
            v as u128
        }
    } else {
        0
    }
}

/// The parity-split amplitudes of `signal` at frequency indices `0..count`, in the
/// signal's units: entry `f` stands for `entry / signal.denominator`.
pub fn parity_aggregate_spectrum(signal: &NormalizedSignal, count: usize) -> (r: Vec<u128>)
    ensures
        r@.len() == count,
        forall|f: int|
            0 <= f < count ==> #[trigger] r@[f] as int == abs_sum(signal.numerators@),
{
    let mut out: Vec<u128> = Vec::new();
    let mut f: usize = 0;
    while f < count
        invariant
            0 <= f <= count,
            out@.len() == f,
            forall|g: int| 0 <= g < f ==> #[trigger] out@[g] as int == abs_sum(signal.numerators@),
        decreases count - f,
    {
        let a = parity_aggregate_amplitude(f, signal.numerators.as_slice());
        out.push(a);
        f = f + 1;
    }
    out
}

/// Returns, for each sample index `n` of a window of `len` samples, the phase index
/// `(freq * n) % len` of the direct-form correlation at frequency index `freq`: the
/// angle of sample `n` is `2 * pi * phase / len`.
pub fn phase_indices(freq: usize, len: usize) -> (r: Vec<usize>)
    ensures
        r@.len() == len,
        forall|n: int| 0 <= n < len ==> #[trigger] r@[n] as int == (freq * n) % (len as int),
{
    let mut out: Vec<usize> = Vec::new();
    if len == 0 {
        return out;
    }
    let step = freq % len;
    let mut p: usize = 0;
    let mut n: usize = 0;
    proof {
        lemma_small_mod(0, len as nat);
    }
    while n < len
        invariant
            0 < len,
            0 <= n <= len,
            step as int == (freq as int) % (len as int),
            p < len,
            p as int == (freq * n) % (len as int),
            out@.len() == n,
            forall|k: int| 0 <= k < n ==> #[trigger] out@[k] as int == (freq * k) % (len as int),
        decreases len - n,
    {
        out.push(p);
        let ghost sum = p + step;
        proof {
            lemma_mul_is_distributive_add(freq as int, n as int, 1);
            lemma_add_mod_noop(freq * n, freq as int, len as int);
            lemma_mod_bound(freq as int, len as int);
            assert((freq * (n + 1)) % (len as int) == sum % (len as int));
        }
        if p >= len - step {
            p = p - (len - step);
            proof {
                lemma_small_mod(p as nat, len as nat);
                lemma_mod_add_multiples_vanish(p as int, len as int);
                assert(sum == len + p);
            }
        } else {
            p = p + step;
            proof {
                lemma_small_mod(p as nat, len as nat);
            }
        }
        n = n + 1;
    }
    out
}

} // verus!
