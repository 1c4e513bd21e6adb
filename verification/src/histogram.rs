//! Histograms of waiting times, in buckets that double in width.
//!
//! Bucket 0 counts waits of 0 microseconds and bucket `i` waits in `[2^(i-1), 2^i)`; the last bucket
//! also takes everything longer.

use vstd::arithmetic::power2::pow2;
use vstd::prelude::*;

verus! {

/// Number of buckets. The last range begins at about 8.4 seconds.
pub const HIST_BUCKETS: usize = 25;

/// Number of bits of the binary representation of `v`.
pub open spec fn bit_length(v: nat) -> nat
    decreases v,
{
    if v == 0 {
        0
    } else {
        1 + bit_length(v / 2)
    }
}

/// The bucket that counts a wait of `v_us` microseconds.
pub open spec fn bucket_of(v_us: u64) -> int {
    if bit_length(v_us as nat) < HIST_BUCKETS {
        bit_length(v_us as nat) as int
    } else {
        HIST_BUCKETS - 1
    }
}

/// The shortest wait that bucket `i` counts.
pub open spec fn bucket_lo(i: int) -> nat {
    if i <= 0 {
        0
    } else {
        pow2((i - 1) as nat)
    }
}

/// The end of the range of bucket `i`.
pub open spec fn bucket_hi(i: int) -> nat {
    if i <= 0 {
        1
    } else {
        pow2(i as nat)
    }
}

/// Number of waits counted in the first `n` buckets.
pub open spec fn counted(snap: Seq<u64>, n: nat) -> nat
    decreases n,
{
    if n == 0 {
        0
    } else {
        counted(snap, (n - 1) as nat) + snap[n - 1] as nat
    }
}

/// Number of waits counted in all buckets.
pub open spec fn counted_all(snap: Seq<u64>) -> nat {
    counted(snap, HIST_BUCKETS as nat)
}

/// The histogram after one more wait of `v_us` microseconds.
pub open spec fn hist_recorded(buckets: Seq<u64>, v_us: u64) -> Seq<u64> {
    buckets.update(bucket_of(v_us), buckets[bucket_of(v_us)].wrapping_add(1))
}

proof fn bit_length_bounds(v: nat)
    ensures
        v > 0 ==> bit_length(v) > 0 && pow2((bit_length(v) - 1) as nat) <= v,
        v < pow2(bit_length(v)),
    decreases v,
{
    vstd::arithmetic::power2::lemma2_to64();
    if v > 0 {
        bit_length_bounds(v / 2);
        vstd::arithmetic::power2::lemma_pow2_unfold(bit_length(v));
        if bit_length(v) > 1 {
            vstd::arithmetic::power2::lemma_pow2_unfold((bit_length(v) - 1) as nat);
        }
    }
}

proof fn leading_zeros_bit_length(v: u64)
    ensures
        vstd::std_specs::bits::u64_leading_zeros(v) == 64 - bit_length(v as nat),
    decreases v,
{
    reveal(vstd::std_specs::bits::u64_leading_zeros);
    if v > 0 {
        leading_zeros_bit_length(v / 2);
    }
}

/// Every wait falls into the bucket whose range holds it, or into the last bucket if it is longer
/// than all ranges.
pub proof fn bucket_range_holds_wait(v_us: u64)
    ensures
        0 <= bucket_of(v_us) < HIST_BUCKETS,
        bucket_lo(bucket_of(v_us)) <= v_us,
        bucket_of(v_us) < HIST_BUCKETS - 1 ==> v_us < bucket_hi(bucket_of(v_us)),
{
    bit_length_bounds(v_us as nat);
    vstd::arithmetic::power2::lemma2_to64();
    if bit_length(v_us as nat) >= HIST_BUCKETS {
        let n = bit_length(v_us as nat);
        if n > HIST_BUCKETS {
            vstd::arithmetic::power2::lemma_pow2_strictly_increases(
                (HIST_BUCKETS - 2) as nat,
                (n - 1) as nat,
            );
        } else {
            vstd::arithmetic::power2::lemma_pow2_strictly_increases(
                (HIST_BUCKETS - 2) as nat,
                (HIST_BUCKETS - 1) as nat,
            );
        }
    }
}

/// The bucket that counts a wait of `v_us` microseconds.
pub fn hist_bucket_for(v_us: u64) -> (i: usize)
    ensures
        i == bucket_of(v_us),
        i < HIST_BUCKETS,
        bucket_lo(i as int) <= v_us,
        i < HIST_BUCKETS - 1 ==> v_us < bucket_hi(i as int),
{
    proof {
        bucket_range_holds_wait(v_us);
        leading_zeros_bit_length(v_us);
        vstd::std_specs::bits::axiom_u64_leading_zeros(v_us);
    }
    if v_us == 0 {
        return 0;
    }
    let bit: usize = (64 - v_us.leading_zeros()) as usize;
    if bit <= HIST_BUCKETS - 1 {
        bit
    } else {
        HIST_BUCKETS - 1
    }
}

/// Counts a wait of `v_us` microseconds.
pub fn hist_record(buckets: &mut [u64; HIST_BUCKETS], v_us: u64)
    ensures
        final(buckets)@ == hist_recorded(old(buckets)@, v_us),
{
    let i: usize = hist_bucket_for(v_us);
    let count: u64 = buckets[i];
    buckets[i] = count.wrapping_add(1);
}

/// A histogram that has counted nothing.
pub fn hist_new() -> (buckets: [u64; HIST_BUCKETS])
    ensures
        hist_empty(buckets@),
{
    [0u64; HIST_BUCKETS]
}

/// The empty histogram.
pub open spec fn hist_empty(buckets: Seq<u64>) -> bool {
    forall|i: int| 0 <= i < HIST_BUCKETS ==> buckets[i] == 0
}

proof fn counted_is_monotone(snap: Seq<u64>, m: nat, n: nat)
    requires
        m <= n,
    ensures
        counted(snap, m) <= counted(snap, n),
    decreases n,
{
    if m < n {
        counted_is_monotone(snap, m, (n - 1) as nat);
    }
}

/// No bucket counts more waits than all of them.
pub(crate) proof fn bucket_within_all(snap: Seq<u64>, i: int)
    requires
        0 <= i < HIST_BUCKETS,
    ensures
        snap[i] <= counted_all(snap),
{
    counted_is_monotone(snap, (i + 1) as nat, HIST_BUCKETS as nat);
}

pub(crate) proof fn empty_counts_nothing(snap: Seq<u64>, n: nat)
    requires
        hist_empty(snap),
        n <= HIST_BUCKETS,
    ensures
        counted(snap, n) == 0,
    decreases n,
{
    if n > 0 {
        empty_counts_nothing(snap, (n - 1) as nat);
    }
}

/// Whether the waits counted in all buckets can themselves be counted.
pub fn hist_total_fits(buckets: &[u64; HIST_BUCKETS]) -> (fits: bool)
    ensures
        fits <==> counted_all(buckets@) <= u64::MAX,
{
    let mut total: u64 = 0;
    let mut i: usize = 0;
    while i < HIST_BUCKETS
        invariant
            i <= HIST_BUCKETS,
            total == counted(buckets@, i as nat),
        decreases HIST_BUCKETS - i,
    {
        let count: u64 = buckets[i];
        i = i + 1;
        match total.checked_add(count) {
            Some(sum) => {
                total = sum;
            },
            None => {
                proof {
                    counted_is_monotone(buckets@, i as nat, HIST_BUCKETS as nat);
                }
                return false;
            },
        }
    }
    true
}

/// Empties a histogram and returns what it held, with the number of waits that it had counted.
pub fn hist_drain(buckets: &mut [u64; HIST_BUCKETS]) -> (res: ([u64; HIST_BUCKETS], u64))
    requires
        counted_all(old(buckets)@) <= u64::MAX,
    ensures
        res.0 == *old(buckets),
        res.1 == counted_all(old(buckets)@),
        hist_empty(final(buckets)@),
{
    let snap: [u64; HIST_BUCKETS] = *buckets;
    let mut total: u64 = 0;
    let mut i: usize = 0;
    while i < HIST_BUCKETS
        invariant
            i <= HIST_BUCKETS,
            counted_all(snap@) <= u64::MAX,
            total == counted(snap@, i as nat),
        decreases HIST_BUCKETS - i,
    {
        proof {
            counted_is_monotone(snap@, (i + 1) as nat, HIST_BUCKETS as nat);
        }
        total = total + snap[i];
        i = i + 1;
    }
    *buckets = hist_new();
    (snap, total)
}

/// The place of a rank within a histogram: the range of its bucket, the rank within the bucket and
/// the number of waits that the bucket counts.
#[derive(Clone, Copy, PartialEq, Eq, Structural, Debug)]
pub struct BucketRank {
    pub lo: u64,
    pub hi: u64,
    pub rank: u64,
    pub count: u64,
}

/// Bucket `i` holds the `target`-th shortest wait, at the place `at`.
pub open spec fn holds_rank(snap: Seq<u64>, target: u64, i: int, at: BucketRank) -> bool {
    &&& 0 <= i < HIST_BUCKETS
    &&& counted(snap, i as nat) < target <= counted(snap, (i + 1) as nat)
    &&& at.lo == bucket_lo(i)
    &&& at.hi == bucket_hi(i)
    &&& at.rank == target - counted(snap, i as nat)
    &&& at.count == snap[i]
}

/// The place of the `target`-th shortest wait, or its absence because fewer were counted.
pub open spec fn rank_found(snap: Seq<u64>, target: u64, res: Option<BucketRank>) -> bool {
    match res {
        Some(at) => exists|i: int| #[trigger] holds_rank(snap, target, i, at),
        None => target > counted_all(snap),
    }
}

fn bucket_bounds(i: usize) -> (bounds: (u64, u64))
    requires
        i < HIST_BUCKETS,
    ensures
        bounds.0 == bucket_lo(i as int),
        bounds.1 == bucket_hi(i as int),
{
    proof {
        vstd::arithmetic::power2::lemma2_to64();
    }
    if i == 0 {
        return (0, 1);
    }
    let mut lo: u64 = 1;
    let mut j: usize = 1;
    while j < i
        invariant
            1 <= j <= i < HIST_BUCKETS,
            lo == bucket_lo(j as int),
            lo <= pow2(23),
            pow2(23) == 0x800000,
        decreases i - j,
    {
        proof {
            vstd::arithmetic::power2::lemma_pow2_unfold(j as nat);
            if j < 23 {
                vstd::arithmetic::power2::lemma_pow2_strictly_increases(j as nat, 23);
            }
        }
        lo = lo * 2;
        j = j + 1;
    }
    proof {
        vstd::arithmetic::power2::lemma_pow2_unfold(i as nat);
    }
    (lo, lo * 2)
}

/// The place of the `target`-th shortest counted wait, if so many were counted.
pub fn hist_rank(snap: &[u64; HIST_BUCKETS], target: u64) -> (res: Option<BucketRank>)
    requires
        counted_all(snap@) <= u64::MAX,
        target >= 1,
    ensures
        rank_found(snap@, target, res),
{
    let mut cum: u64 = 0;
    let mut i: usize = 0;
    while i < HIST_BUCKETS
        invariant
            i <= HIST_BUCKETS,
            counted_all(snap@) <= u64::MAX,
            cum == counted(snap@, i as nat),
            cum < target,
        decreases HIST_BUCKETS - i,
    {
        proof {
            counted_is_monotone(snap@, (i + 1) as nat, HIST_BUCKETS as nat);
        }
        let count: u64 = snap[i];
        let new_cum: u64 = cum + count;
        if new_cum >= target {
            let bounds: (u64, u64) = bucket_bounds(i);
            let at = BucketRank { lo: bounds.0, hi: bounds.1, rank: target - cum, count };
            let found: Option<BucketRank> = Some(at);
            assert(holds_rank(snap@, target, i as int, found->0));
            return found;
        }
        cum = new_cum;
        i = i + 1;
    }
    None
}

/// The place of a rank is unique.
pub proof fn rank_is_unique(
    snap: Seq<u64>,
    target: u64,
    i: int,
    at: BucketRank,
    j: int,
    other: BucketRank,
)
    requires
        holds_rank(snap, target, i, at),
        holds_rank(snap, target, j, other),
    ensures
        i == j,
        at == other,
{
    if i < j {
        counted_is_monotone(snap, (i + 1) as nat, j as nat);
    } else if j < i {
        counted_is_monotone(snap, (j + 1) as nat, i as nat);
    }
}

/// A higher rank never lies in an earlier bucket, so a higher percentile is never placed in a
/// shorter range.
pub proof fn ranks_are_ordered(
    snap: Seq<u64>,
    target: u64,
    i: int,
    at: BucketRank,
    higher: u64,
    j: int,
    other: BucketRank,
)
    requires
        target <= higher,
        holds_rank(snap, target, i, at),
        holds_rank(snap, higher, j, other),
    ensures
        i <= j,
        at.lo <= other.lo,
        at.hi <= other.hi,
        i == j ==> at.rank <= other.rank,
{
    if j < i {
        counted_is_monotone(snap, (j + 1) as nat, i as nat);
    }
    vstd::arithmetic::power2::lemma2_to64();
    if 0 < i < j {
        vstd::arithmetic::power2::lemma_pow2_strictly_increases((i - 1) as nat, (j - 1) as nat);
        vstd::arithmetic::power2::lemma_pow2_strictly_increases(i as nat, j as nat);
    } else if 0 == i < j {
        vstd::arithmetic::power2::lemma_pow2_pos(j as nat);
    }
}

/// Counting one more wait adds one to the number of counted waits, unless its bucket wraps.
pub proof fn recording_adds_one(buckets: Seq<u64>, v_us: u64)
    requires
        buckets.len() == HIST_BUCKETS,
        buckets[bucket_of(v_us)] < u64::MAX,
    ensures
        counted_all(hist_recorded(buckets, v_us)) == counted_all(buckets) + 1,
{
    bucket_range_holds_wait(v_us);
    counted_after_update(buckets, bucket_of(v_us), HIST_BUCKETS as nat);
}

proof fn counted_after_update(buckets: Seq<u64>, i: int, n: nat)
    requires
        buckets.len() == HIST_BUCKETS,
        0 <= i < HIST_BUCKETS,
        n <= HIST_BUCKETS,
        buckets[i] < u64::MAX,
    ensures
        counted(buckets.update(i, buckets[i].wrapping_add(1)), n) == counted(buckets, n) + if i < n {
            1nat
        } else {
            0
        },
    decreases n,
{
    if n > 0 {
        counted_after_update(buckets, i, (n - 1) as nat);
    }
}

/// The order in which waits are counted does not matter.
pub proof fn recording_commutes(buckets: Seq<u64>, a: u64, b: u64)
    requires
        buckets.len() == HIST_BUCKETS,
    ensures
        hist_recorded(hist_recorded(buckets, a), b) == hist_recorded(hist_recorded(buckets, b), a),
{
    bucket_range_holds_wait(a);
    bucket_range_holds_wait(b);
    assert(hist_recorded(hist_recorded(buckets, a), b) =~= hist_recorded(
        hist_recorded(buckets, b),
        a,
    ));
}

/// A wait is counted in the bucket whose range holds it, and no other bucket changes.
pub proof fn recording_counts_in_one_bucket(buckets: Seq<u64>, v_us: u64, j: int)
    requires
        buckets.len() == HIST_BUCKETS,
        0 <= j < HIST_BUCKETS,
    ensures
        hist_recorded(buckets, v_us).len() == HIST_BUCKETS,
        bucket_lo(j) <= v_us < bucket_hi(j) ==> hist_recorded(buckets, v_us)[j]
            == buckets[j].wrapping_add(1),
        v_us < bucket_lo(j) ==> hist_recorded(buckets, v_us)[j] == buckets[j],
        v_us >= bucket_hi(j) && j < HIST_BUCKETS - 1 ==> hist_recorded(buckets, v_us)[j]
            == buckets[j],
        v_us >= bucket_lo(j) && j == HIST_BUCKETS - 1 ==> hist_recorded(buckets, v_us)[j]
            == buckets[j].wrapping_add(1),
{
    bucket_range_holds_wait(v_us);
    let b = bucket_of(v_us);
    vstd::arithmetic::power2::lemma2_to64();
    if b < j {
        if j > b + 1 {
            vstd::arithmetic::power2::lemma_pow2_strictly_increases(b as nat, (j - 1) as nat);
        }
        assert(bucket_hi(b) <= bucket_lo(j));
    }
    if j < b {
        if b > j + 1 {
            vstd::arithmetic::power2::lemma_pow2_strictly_increases(j as nat, (b - 1) as nat);
        }
        assert(bucket_hi(j) <= bucket_lo(b));
    }
}

/// Every counted wait has a place, in a bucket that counts it: the shorter buckets hold as many
/// waits as come before those of its bucket. Beyond the counted waits there is none.
pub proof fn every_counted_wait_has_a_place(snap: Seq<u64>, target: u64, res: Option<BucketRank>)
    requires
        target >= 1,
        rank_found(snap, target, res),
    ensures
        res is Some <==> target <= counted_all(snap),
        res matches Some(at) ==> 1 <= at.rank <= at.count && at.lo < at.hi,
        res matches Some(at) ==> exists|i: int|
            0 <= i < HIST_BUCKETS && at.count == #[trigger] snap[i] && counted(snap, i as nat)
                + at.rank == target && at.lo == bucket_lo(i) && at.hi == bucket_hi(i),
{
    vstd::arithmetic::power2::lemma2_to64();
    if let Some(at) = res {
        let i = choose|i: int| holds_rank(snap, target, i, at);
        assert(at.count == snap[i]);
        counted_is_monotone(snap, (i + 1) as nat, HIST_BUCKETS as nat);
        if i > 0 {
            vstd::arithmetic::power2::lemma_pow2_strictly_increases((i - 1) as nat, i as nat);
        }
    }
}

/// The ranges of the buckets follow one another without a gap: the first holds zero alone, and each
/// other ends at twice its beginning.
pub proof fn bucket_ranges_double(i: int)
    requires
        0 <= i,
    ensures
        bucket_lo(0) == 0,
        bucket_hi(0) == 1,
        bucket_lo(i + 1) == bucket_hi(i),
        bucket_hi(i + 1) == 2 * bucket_lo(i + 1),
{
    vstd::arithmetic::power2::lemma2_to64();
    vstd::arithmetic::power2::lemma_pow2_unfold((i + 1) as nat);
}

} // verus!
