//! Aggregate tallies over the scores of the audited repositories: counts per
//! score bucket and the truncating mean.

use vstd::prelude::*;

verus! {

/// How many scores of `s` lie in `lo..=hi`.
pub open spec fn count_in(s: Seq<u8>, lo: int, hi: int) -> int
    decreases s.len(),
{
    if s.len() == 0 {
        0int
    } else {
        count_in(s.drop_last(), lo, hi) + if lo <= s.last() <= hi {
            1int
        } else {
            0int
        }
    }
}

/// The sum of the scores of `s`.
pub open spec fn sum_of(s: Seq<u8>) -> int
    decreases s.len(),
{
    if s.len() == 0 {
        0int
    } else {
        sum_of(s.drop_last()) + s.last()
    }
}

/// The summary block of a run: one counter per score bucket, and the mean
/// score of everything audited, absent when nothing was.
pub struct Summary {
    /// Scores of exactly 100.
    pub perfect: usize,
    /// Scores in 70..=99.
    pub good: usize,
    /// Scores in 50..=69.
    pub needs_work: usize,
    /// Scores below 50.
    pub critical: usize,
    /// The integer-truncating mean score, `None` when no score came in.
    pub average: Option<u64>,
}

/// Tally the scores of one run into buckets and the truncating mean.
pub fn summarize(scores: &Vec<u8>) -> (s: Summary)
    requires
        scores@.len() <= 0x00ff_ffff_ffff_ffff,
    ensures
        s.perfect == count_in(scores@, 100, 100),
        s.good == count_in(scores@, 70, 99),
        s.needs_work == count_in(scores@, 50, 69),
        s.critical == count_in(scores@, 0, 49),
        scores@.len() == 0 ==> s.average is None,
        scores@.len() > 0 ==> s.average == Some(
            (sum_of(scores@) / scores@.len() as int) as u64,
        ),
{
    let n: usize = scores.len();
    let mut perfect: usize = 0;
    let mut good: usize = 0;
    let mut needs_work: usize = 0;
    let mut critical: usize = 0;
    let mut total: u64 = 0;
    let mut i: usize = 0;
    while i < n
        invariant
            i <= n,
            n == scores@.len(),
            n <= 0x00ff_ffff_ffff_ffff,
            perfect <= i,
            good <= i,
            needs_work <= i,
            critical <= i,
            total <= 255 * (i as int),
            perfect == count_in(scores@.take(i as int), 100, 100),
            good == count_in(scores@.take(i as int), 70, 99),
            needs_work == count_in(scores@.take(i as int), 50, 69),
            critical == count_in(scores@.take(i as int), 0, 49),
            total as int == sum_of(scores@.take(i as int)),
        decreases n - i,
    {
        proof {
            assert(scores@.take(i as int + 1).drop_last() =~= scores@.take(i as int));
            assert(scores@.take(i as int + 1).last() == scores@[i as int]);
        }
        let sc = scores[i];
        if sc == 100 {
            perfect = perfect + 1;
        } else if sc >= 70 && sc < 100 {
            good = good + 1;
        } else if sc >= 50 && sc < 70 {
            needs_work = needs_work + 1;
        } else if sc < 50 {
            critical = critical + 1;
        }
        total = total + sc as u64;
        i = i + 1;
    }
    proof {
        assert(scores@.take(n as int) =~= scores@);
    }
    let average = if n > 0 {
        Some(total / (n as u64))
    } else {
        None
    };
    Summary { perfect, good, needs_work, critical, average }
}

} // verus!
