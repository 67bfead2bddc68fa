use vstd::prelude::*;

verus! {

/// Number of equal-width bins of the distribution of terminal prices.
pub const BIN_COUNT: usize = 20;

/// Bin that a raw bin position lands in: a position past the last bin (the
/// maximum itself lies on the upper edge) is folded into the last bin.
pub open spec fn bin_of(raw: int) -> int {
    if raw >= BIN_COUNT {
        BIN_COUNT - 1
    } else {
        raw
    }
}

/// How many of the raw positions land in bin `k`.
pub open spec fn count_in(raw: Seq<usize>, k: int) -> nat
    decreases raw.len(),
{
    if raw.len() == 0 {
        0
    } else {
        count_in(raw.drop_last(), k) + if bin_of(raw.last() as int) == k {
            1nat
        } else {
            0nat
        }
    }
}

/// Sum of a sequence of counts.
pub open spec fn total(counts: Seq<usize>) -> int
    decreases counts.len(),
{
    if counts.len() == 0 {
        0
    } else {
        total(counts.drop_last()) + counts.last()
    }
}

proof fn lemma_total_update(s: Seq<usize>, i: int, v: usize)
    requires
        0 <= i < s.len(),
    ensures
        total(s.update(i, v)) == total(s) - s[i] + v,
    decreases s.len(),
{
    let u = s.update(i, v);
    if i == s.len() - 1 {
        assert(u.drop_last() =~= s.drop_last());
    } else {
        assert(u.drop_last() =~= s.drop_last().update(i, v));
        lemma_total_update(s.drop_last(), i, v);
    }
}

proof fn lemma_count_in_bound(raw: Seq<usize>, k: int)
    ensures
        count_in(raw, k) <= raw.len(),
    decreases raw.len(),
{
    if raw.len() > 0 {
        lemma_count_in_bound(raw.drop_last(), k);
    }
}

/// The bin that a raw position lands in.
pub fn clamp_bin(raw: usize) -> (b: usize)
    ensures
        b == bin_of(raw as int),
        b < BIN_COUNT,
{
    if raw >= BIN_COUNT {
        BIN_COUNT - 1
    } else {
        raw
    }
}

/// Counts per bin of the raw bin positions of the terminal prices. Every
/// position is counted exactly once, so the counts add up to the number of
/// prices, also when all prices are equal and every position is zero.
pub fn count_bins(raw: &Vec<usize>) -> (counts: Vec<usize>)
    ensures
        counts@.len() == BIN_COUNT,
        forall|k: int| 0 <= k < BIN_COUNT ==> #[trigger] counts@[k] == count_in(raw@, k),
        total(counts@) == raw@.len(),
{
    let mut counts: Vec<usize> = Vec::new();
    let mut k: usize = 0;
    while k < BIN_COUNT
        invariant
            k <= BIN_COUNT,
            counts@.len() == k,
            forall|j: int| 0 <= j < k ==> #[trigger] counts@[j] == 0,
            total(counts@) == 0,
        decreases BIN_COUNT - k,
    {
        proof {
            assert(counts@.push(0usize).drop_last() =~= counts@);
        }
        counts.push(0);
        k = k + 1;
    }
    let mut i: usize = 0;
    while i < raw.len()
        invariant
            i <= raw@.len(),
            counts@.len() == BIN_COUNT,
            forall|j: int| 0 <= j < BIN_COUNT ==> #[trigger] counts@[j] == count_in(raw@.take(i as int), j),
            total(counts@) == i,
        decreases raw@.len() - i,
    {
        let b = clamp_bin(raw[i]);
        proof {
            assert(raw@.take(i + 1).drop_last() =~= raw@.take(i as int));
            lemma_count_in_bound(raw@.take(i as int), b as int);
            lemma_total_update(counts@, b as int, (counts@[b as int] + 1) as usize);
        }
        let c = counts[b] + 1;
        counts.set(b, c);
        i = i + 1;
    }
    proof {
        assert(raw@.take(raw@.len() as int) =~= raw@);
    }
    counts
}

/// Position of the 5th percentile in `n` prices sorted ascending:
/// `floor(0.05 * n)`, which is always a valid position.
pub fn tail_index(n: usize) -> (r: usize)
    requires
        n > 0,
    ensures
        r == n / 20,
        r < n,
{
    n / 20
}

} // verus!
