//! Conversion of captured audio to the rate that the backends expect.

use vstd::prelude::*;

verus! {

/// The sample rate of every frame handed to a backend.
pub const OUT_SAMPLE_RATE: u32 = 16_000;

/// The samples in a frame: 20 ms at [`OUT_SAMPLE_RATE`].
pub const FINAL_FRAME_SIZE: usize = 320;

/// The sample rates that audio devices run at.
pub open spec fn standard_rates() -> Seq<u32> {
    seq![8_000, 11_025, 16_000, 22_050, 32_000, 44_100, 48_000, 88_200, 96_000]
}

/// How far apart two rates are.
pub open spec fn rate_distance(a: u32, b: int) -> int {
    if a < b {
        b - a
    } else {
        a - b
    }
}

/// Whether `rate` is the standard rate closest to `observed`, the lower one of
/// two that are equally close.
pub open spec fn is_nearest_rate(rate: u32, observed: int) -> bool {
    &&& standard_rates().contains(rate)
    &&& forall|other: u32| #[trigger]
        standard_rates().contains(other) ==> {
            ||| rate_distance(rate, observed) < rate_distance(other, observed)
            ||| rate_distance(rate, observed) == rate_distance(other, observed) && rate <= other
        }
}

/// The standard rate closest to `observed`.
pub open spec fn nearest_rate(observed: int) -> u32 {
    choose|rate: u32| is_nearest_rate(rate, observed)
}

fn distance(a: u32, b: u32) -> (d: u32)
    ensures
        d == rate_distance(a, b as int),
{
    if a < b {
        b - a
    } else {
        a - b
    }
}

/// Map an observed sample count (samples drained in 1 second) to the nearest
/// standard audio sample rate. Handles mid-stream Bluetooth codec switches.
pub fn snap_to_standard_rate(observed: u32) -> (rate: u32)
    ensures
        is_nearest_rate(rate, observed as int),
        rate == nearest_rate(observed as int),
{
    let rates: [u32; 9] = [
        8_000,
        11_025,
        16_000,
        22_050,
        32_000,
        44_100,
        48_000,
        88_200,
        96_000,
    ];
    assert(rates@ =~= standard_rates());
    let mut best: u32 = rates[0];
    let mut i: usize = 1;
    while i < 9
        invariant
            1 <= i <= 9,
            rates@ == standard_rates(),
            exists|k: int| 0 <= k < i && standard_rates()[k] == best,
            forall|k: int|
                0 <= k < i ==> {
                    ||| rate_distance(best, observed as int) < rate_distance(
                        #[trigger] standard_rates()[k],
                        observed as int,
                    )
                    ||| rate_distance(best, observed as int) == rate_distance(
                        standard_rates()[k],
                        observed as int,
                    ) && best <= standard_rates()[k]
                },
        decreases 9 - i,
    {
        let candidate: u32 = rates[i];
        if distance(candidate, observed) < distance(best, observed) {
            best = candidate;
            assert(standard_rates()[i as int] == best);
        }
        i += 1;
    }
    assert(is_nearest_rate(best, observed as int));
    proof {
        lemma_nearest_rate_unique(best, nearest_rate(observed as int), observed as int);
    }
    best
}

/// There is exactly one nearest standard rate.
pub proof fn lemma_nearest_rate_unique(a: u32, b: u32, observed: int)
    requires
        is_nearest_rate(a, observed),
        is_nearest_rate(b, observed),
    ensures
        a == b,
{
}

/// Every count has a nearest standard rate.
pub proof fn lemma_nearest_rate_exists(observed: int)
    ensures
        is_nearest_rate(nearest_rate(observed), observed),
{
    let (rates, k) = (standard_rates(), lemma_closest_index(observed, 9));
    assert(is_nearest_rate(rates[k], observed));
}

/// Among the first `n` standard rates one is closest to `observed`.
proof fn lemma_closest_index(observed: int, n: nat) -> (k: int)
    requires
        1 <= n <= 9,
    ensures
        0 <= k < n,
        forall|i: int|
            0 <= i < n ==> {
                ||| rate_distance(standard_rates()[k], observed) < rate_distance(
                    #[trigger] standard_rates()[i],
                    observed,
                )
                ||| rate_distance(standard_rates()[k], observed) == rate_distance(
                    standard_rates()[i],
                    observed,
                ) && standard_rates()[k] <= standard_rates()[i]
            },
    decreases n,
{
    if n == 1 {
        0
    } else {
        let k = lemma_closest_index(observed, (n - 1) as nat);
        if rate_distance(standard_rates()[n - 1], observed) < rate_distance(
            standard_rates()[k],
            observed,
        ) {
            n - 1
        } else {
            k
        }
    }
}

/// A standard rate is its own nearest standard rate.
pub proof fn lemma_standard_rate_is_kept(rate: u32)
    requires
        standard_rates().contains(rate),
    ensures
        is_nearest_rate(rate, rate as int),
{
}

} // verus!
