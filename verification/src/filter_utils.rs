//! Signal-conditioning decisions: outlier substitution and the per-star
//! historical-mean estimator's schedule.
//!
//! The numeric work of conditioning (means, standard deviations, window
//! shapes) runs in single precision outside the crate.  What is verified
//! here is everything that does not depend on rounding: which sample
//! replaces an outlier once the outliers are known, and the exact stage
//! machine of the historical-mean estimator — when the running sum is
//! reset, which ring entry joins it, what the warm-up blend weight is —
//! together with the law that the incremental sum update agrees with the
//! natural summation of the ring.

use vstd::prelude::*;

verus! {

/// Window shape applied to a signal before the FFT; a run-wide choice.
#[derive(Clone, Copy, Debug)]
pub enum WindowFunc {
    Nuttall,
    Rectangle,
    Triangle,
    Gaussian,
}

/// How the historical-mean estimator maintains its running sum: the O(1)
/// incremental update, the O(N) summation over the ring, or both with an
/// equality check between them.
#[derive(Debug, PartialEq, Eq, Structural)]
pub enum HistoricalMeanRunType {
    Fast,
    Natural,
    CheckFastAgainstNatural,
}

// --- outlier substitution -------------------------------------------------

/// One in-place substitution pass, positions `0` up to `i` excluded, each
/// flagged position taking the value of its right neighbour as it stands at
/// that moment.
pub open spec fn subst_upto<T>(s: Seq<T>, flags: Seq<bool>, i: nat) -> Seq<T>
    recommends
        flags.len() == s.len(),
        i < s.len(),
    decreases i,
{
    if i == 0 {
        s
    } else {
        let prev = subst_upto(s, flags, (i - 1) as nat);
        if flags[i - 1] {
            prev.update(i - 1, prev[i as int])
        } else {
            prev
        }
    }
}

proof fn lemma_subst_upto_len<T>(s: Seq<T>, flags: Seq<bool>, i: nat)
    requires
        i < s.len(),
    ensures
        subst_upto(s, flags, i).len() == s.len(),
    decreases i,
{
    if i > 0 {
        lemma_subst_upto_len(s, flags, (i - 1) as nat);
    }
}

/// The whole substitution: the last position is handled first (taking its
/// left neighbour), then one forward pass over the rest.
pub open spec fn substitute_spec<T>(s: Seq<T>, flags: Seq<bool>) -> Seq<T>
    recommends
        flags.len() == s.len(),
        s.len() >= 2,
{
    let s1 = if flags[s.len() - 1] {
        s.update(s.len() - 1, s[s.len() - 2])
    } else {
        s
    };
    subst_upto(s1, flags, (s.len() - 1) as nat)
}

/// Replaces every flagged sample by its right neighbour (the last one by
/// its left neighbour), in one forward pass: the caller marks
/// the samples that exceeded its outlier threshold.
pub fn substitute_outliers<T: Copy>(signal: &Vec<T>, flags: &Vec<bool>) -> (r: Vec<T>)
    requires
        flags@.len() == signal@.len(),
        signal@.len() >= 2,
    ensures
        r@ == substitute_spec(signal@, flags@),
        r@.len() == signal@.len(),
{
    let len = signal.len();
    let mut out: Vec<T> = Vec::new();
    let mut i: usize = 0;
    while i < len
        invariant
            i <= len,
            len == signal@.len(),
            out@ == signal@.take(i as int),
        decreases len - i,
    {
        let x = signal[i];
        out.push(x);
        proof {
            assert(out@ =~= signal@.take(i + 1));
        }
        i = i + 1;
    }
    proof {
        assert(out@ =~= signal@);
    }

    if flags[len - 1] {
        let left = out[len - 2];
        let last = len - 1;
        out[last] = left;
    }
    let ghost s1 = out@;

    let mut j: usize = 0;
    while j < len - 1
        invariant
            j <= len - 1,
            len == signal@.len(),
            len == flags@.len(),
            len >= 2,
            s1.len() == len,
            out@ == subst_upto(s1, flags@, j as nat),
        decreases len - 1 - j,
    {
        proof {
            lemma_subst_upto_len(s1, flags@, j as nat);
        }
        if flags[j] {
            let right = out[j + 1];
            out[j] = right;
        }
        proof {
            lemma_subst_upto_len(s1, flags@, (j + 1) as nat);
        }
        j = j + 1;
    }
    proof {
        lemma_subst_upto_len(s1, flags@, (len - 1) as nat);
    }
    out
}

/// If nothing is flagged, the substitution returns the signal exactly.
pub proof fn lemma_no_outliers_identity<T>(s: Seq<T>, flags: Seq<bool>)
    requires
        flags.len() == s.len(),
        s.len() >= 2,
        forall|i: int| 0 <= i < flags.len() ==> !flags[i],
    ensures
        substitute_spec(s, flags) == s,
{
    lemma_subst_upto_id(s, flags, (s.len() - 1) as nat);
}

proof fn lemma_subst_upto_id<T>(s: Seq<T>, flags: Seq<bool>, i: nat)
    requires
        flags.len() == s.len(),
        i < s.len(),
        forall|j: int| 0 <= j < flags.len() ==> !flags[j],
    ensures
        subst_upto(s, flags, i) == s,
    decreases i,
{
    if i > 0 {
        lemma_subst_upto_id(s, flags, (i - 1) as nat);
    }
}

// --- historical-mean estimator schedule ------------------------------------

/// Stage of one star's historical-mean estimate.
#[derive(Clone, Copy, Debug, PartialEq, Eq, Structural)]
pub enum HistMeanStage {
    /// Only non-historic startup data so far: the estimate falls back to the
    /// current window's own mean.
    Startup,
    /// Historic data exists but is thin: the estimate blends the historic
    /// average with the current mean, linearly over ten calls.
    PostStartupWarmup,
    /// Enough history: the estimate is the plain historic average.
    PostStartup,
}

/// What the numeric side must do for one call on one star, in order: push
/// the current window mean into the ring (evicting the oldest when
/// `evicts`), subtract the evicted mean from the running sum, then either
/// reset the sum (`reset_sum`), set it to `divisor` times the mean at
/// `include_index` (`use_current_only`), or add the ring mean at
/// `include_index`; the effective mean is the running sum over `divisor`,
/// blended with the newest mean at a weight of `split_tenths` tenths.
pub struct HistMeanDirective {
    pub evicts: bool,
    pub use_current_only: bool,
    pub reset_sum: bool,
    pub include_index: Option<usize>,
    pub divisor: usize,
    pub split_tenths: u8,
}

/// The warm-up blend runs over this many calls.
pub const WARMUP_CALLS: usize = 10;

/// The stage machine of one star's historical-mean estimator.  It tracks
/// everything about the estimate except the floating-point sums themselves:
/// the stage, the number of means the running sum covers (`next_point`),
/// the warm-up counter and the ring occupancy.
pub struct HistoricalMeanTracker {
    stage: HistMeanStage,
    next_point: usize,
    counter: usize,
    ring_len: usize,
    min_time: usize,
    delta_time: usize,
}

impl HistoricalMeanTracker {
    pub closed spec fn stage_spec(&self) -> HistMeanStage {
        self.stage
    }

    pub closed spec fn next_point_spec(&self) -> nat {
        self.next_point as nat
    }

    pub closed spec fn counter_spec(&self) -> nat {
        self.counter as nat
    }

    pub closed spec fn ring_len_spec(&self) -> nat {
        self.ring_len as nat
    }

    pub closed spec fn min_time_spec(&self) -> nat {
        self.min_time as nat
    }

    pub closed spec fn delta_time_spec(&self) -> nat {
        self.delta_time as nat
    }

    /// The ring holds at most `delta_time + min_time` window means.
    pub open spec fn capacity(&self) -> nat {
        self.delta_time_spec() + self.min_time_spec()
    }

    pub closed spec fn wf(&self) -> bool {
        &&& 1 <= self.delta_time
        &&& self.delta_time + self.min_time <= usize::MAX
        &&& self.ring_len <= self.delta_time + self.min_time
        &&& self.next_point <= self.delta_time
        &&& self.counter < WARMUP_CALLS
        &&& (self.stage == HistMeanStage::Startup ==> self.counter == 0)
        &&& (self.stage != HistMeanStage::Startup ==> 1 <= self.next_point)
    }

    pub fn stage(&self) -> (r: HistMeanStage)
        ensures
            r == self.stage_spec(),
    {
        self.stage
    }

    pub fn new(min_time: usize, delta_time: usize) -> (r: HistoricalMeanTracker)
        requires
            1 <= delta_time,
            delta_time + min_time <= usize::MAX,
        ensures
            r.wf(),
            r.stage_spec() == HistMeanStage::Startup,
            r.next_point_spec() == 0,
            r.counter_spec() == 0,
            r.ring_len_spec() == 0,
            r.min_time_spec() == min_time,
            r.delta_time_spec() == delta_time,
    {
        HistoricalMeanTracker {
            stage: HistMeanStage::Startup,
            next_point: 0,
            counter: 0,
            ring_len: 0,
            min_time,
            delta_time,
        }
    }

    /// How one call changes the tracker and what it directs the numeric
    /// side to do.  `np1` and `rl1` are the advanced sum width and ring
    /// occupancy for this call.
    pub open spec fn advance_rel(
        pre: HistoricalMeanTracker,
        post: HistoricalMeanTracker,
        d: HistMeanDirective,
    ) -> bool {
        let np1 = if pre.next_point_spec() < pre.delta_time_spec() {
            pre.next_point_spec() + 1
        } else {
            pre.next_point_spec()
        };
        let evicts = pre.ring_len_spec() == pre.capacity();
        let rl1 = if evicts {
            pre.ring_len_spec()
        } else {
            pre.ring_len_spec() + 1
        };
        &&& post.min_time_spec() == pre.min_time_spec()
        &&& post.delta_time_spec() == pre.delta_time_spec()
        &&& post.ring_len_spec() == rl1
        &&& d.evicts == evicts
        &&& match pre.stage_spec() {
            HistMeanStage::Startup => {
                if rl1 > pre.min_time_spec() {
                    // Transition: restart the history at the oldest ring
                    // entry and begin warming up.
                    &&& post.stage_spec() == HistMeanStage::PostStartupWarmup
                    &&& post.next_point_spec() == 1
                    &&& post.counter_spec() == pre.counter_spec()
                    &&& d.use_current_only == false
                    &&& d.reset_sum == true
                    &&& d.include_index == Some(0usize)
                    &&& d.divisor == 1
                    &&& d.split_tenths == 0
                } else {
                    // Startup proper: the estimate is the current window's
                    // own mean.
                    &&& post.stage_spec() == HistMeanStage::Startup
                    &&& post.next_point_spec() == np1
                    &&& post.counter_spec() == pre.counter_spec()
                    &&& d.use_current_only == true
                    &&& d.reset_sum == false
                    &&& d.include_index matches Some(i) && i + 1 == np1
                    &&& d.divisor == np1
                    &&& d.split_tenths == 0
                }
            },
            HistMeanStage::PostStartupWarmup => {
                let c = pre.counter_spec() + 1;
                &&& post.stage_spec() == if c == WARMUP_CALLS {
                    HistMeanStage::PostStartup
                } else {
                    HistMeanStage::PostStartupWarmup
                }
                &&& post.next_point_spec() == np1
                &&& post.counter_spec() == if c == WARMUP_CALLS {
                    0nat
                } else {
                    c
                }
                &&& d.use_current_only == false
                &&& d.reset_sum == false
                &&& d.include_index matches Some(i) && i + 1 == np1
                &&& d.divisor == np1
                &&& d.split_tenths == WARMUP_CALLS - c
            },
            HistMeanStage::PostStartup => {
                &&& post.stage_spec() == HistMeanStage::PostStartup
                &&& post.next_point_spec() == np1
                &&& post.counter_spec() == pre.counter_spec()
                &&& d.use_current_only == false
                &&& d.reset_sum == false
                &&& d.include_index matches Some(i) && i + 1 == np1
                &&& d.divisor == np1
                &&& d.split_tenths == 0
            },
        }
    }

    /// One call of the estimator for one star: advances the schedule and
    /// says what to do with the sums.
    pub fn advance(&mut self) -> (d: HistMeanDirective)
        requires
            old(self).wf(),
        ensures
            final(self).wf(),
            HistoricalMeanTracker::advance_rel(*old(self), *final(self), d),
            d.divisor >= 1,
    {
        if self.next_point < self.delta_time {
            self.next_point = self.next_point + 1;
        }
        let evicts = self.ring_len == self.delta_time + self.min_time;
        if !evicts {
            self.ring_len = self.ring_len + 1;
        }

        match self.stage {
            HistMeanStage::Startup => {
                if self.ring_len > self.min_time {
                    self.next_point = 1;
                    self.stage = HistMeanStage::PostStartupWarmup;
                    HistMeanDirective {
                        evicts,
                        use_current_only: false,
                        reset_sum: true,
                        include_index: Some(0),
                        divisor: 1,
                        split_tenths: 0,
                    }
                } else {
                    HistMeanDirective {
                        evicts,
                        use_current_only: true,
                        reset_sum: false,
                        include_index: Some(self.next_point - 1),
                        divisor: self.next_point,
                        split_tenths: 0,
                    }
                }
            },
            HistMeanStage::PostStartupWarmup => {
                self.counter = self.counter + 1;
                let split: u8 = (WARMUP_CALLS - self.counter) as u8;
                let d = HistMeanDirective {
                    evicts,
                    use_current_only: false,
                    reset_sum: false,
                    include_index: Some(self.next_point - 1),
                    divisor: self.next_point,
                    split_tenths: split,
                };
                if self.counter == WARMUP_CALLS {
                    self.stage = HistMeanStage::PostStartup;
                    self.counter = 0;
                }
                d
            },
            HistMeanStage::PostStartup => HistMeanDirective {
                evicts,
                use_current_only: false,
                reset_sum: false,
                include_index: Some(self.next_point - 1),
                divisor: self.next_point,
                split_tenths: 0,
            },
        }
    }
}

// --- the incremental sum agrees with the natural sum ------------------------

/// Sum of a sequence of (exact) window means.
pub open spec fn seq_sum(s: Seq<int>) -> int
    decreases s.len(),
{
    if s.len() == 0 {
        0
    } else {
        seq_sum(s.drop_last()) + s.last()
    }
}

proof fn lemma_seq_sum_take_succ(s: Seq<int>, n: int)
    requires
        0 <= n < s.len(),
    ensures
        seq_sum(s.take(n + 1)) == seq_sum(s.take(n)) + s[n],
{
    assert(s.take(n + 1).drop_last() =~= s.take(n));
    assert(s.take(n + 1).last() == s[n]);
}

proof fn lemma_seq_sum_tail_prefix(s: Seq<int>, n: int)
    requires
        1 <= n <= s.len(),
    ensures
        seq_sum(s.subrange(1, n)) == seq_sum(s.take(n)) - s[0],
    decreases n,
{
    if n == 1 {
        assert(s.subrange(1, 1) =~= Seq::<int>::empty());
        assert(s.take(1).drop_last() =~= Seq::<int>::empty());
    } else {
        lemma_seq_sum_tail_prefix(s, n - 1);
        assert(s.subrange(1, n).drop_last() =~= s.subrange(1, n - 1));
        assert(s.take(n).drop_last() =~= s.take(n - 1));
        assert(s.subrange(1, n).last() == s[n - 1]);
        assert(s.take(n).last() == s[n - 1]);
    }
}

/// While the sum is still widening (`next_point` grew and nothing was
/// evicted), adding the ring mean at the new index `np` keeps the running
/// sum equal to the natural sum of the first `np + 1` ring entries.
pub proof fn lemma_fast_sum_grow(contents: Seq<int>, m: int, np: int, prev_sum: int)
    requires
        0 <= np <= contents.len(),
        prev_sum == seq_sum(contents.take(np)),
    ensures
        prev_sum + contents.push(m)[np] == seq_sum(contents.push(m).take(np + 1)),
{
    assert(contents.push(m).take(np) =~= contents.take(np));
    lemma_seq_sum_take_succ(contents.push(m), np);
}

/// Once the ring is at capacity, the eviction adjustment — subtract the
/// displaced oldest mean, add the mean at index `np - 1` of the ring after
/// the push — keeps the running sum equal to the natural sum of the first
/// `np` entries of the new ring.
pub proof fn lemma_fast_sum_evict(contents: Seq<int>, m: int, np: int, prev_sum: int)
    requires
        1 <= np <= contents.len(),
        prev_sum == seq_sum(contents.take(np)),
    ensures
        prev_sum - contents[0] + contents.drop_first().push(m)[np - 1] == seq_sum(
            contents.drop_first().push(m).take(np),
        ),
{
    let post = contents.drop_first().push(m);
    if np < contents.len() {
        assert(post.take(np) =~= contents.subrange(1, np + 1));
        lemma_seq_sum_tail_prefix(contents, np + 1);
        lemma_seq_sum_take_succ(contents, np);
        assert(post[np - 1] == contents[np]);
    } else {
        assert(post.take(np) =~= post);
        assert(post.drop_last() =~= contents.drop_first());
        assert(contents.take(np) =~= contents);
        lemma_seq_sum_tail_prefix(contents, np);
        assert(contents.subrange(1, np) =~= contents.drop_first());
        assert(post[np - 1] == m);
    }
}

/// For any stream: in the steady regime (past the startup transition, so
/// the directive neither resets the sum nor falls back to the current
/// mean), the O(1) update the directive prescribes — subtract the evicted
/// mean, add the ring mean at the named index — leaves the running sum
/// equal to the natural summation of the first `next_point` ring means.
/// `contents` is the ring before this call's push of the mean `m`, and the
/// running sum covers one mean per point of history, which is what the
/// estimator maintains from the transition on.
pub proof fn lemma_directive_preserves_fast_sum(
    pre: HistoricalMeanTracker,
    post: HistoricalMeanTracker,
    d: HistMeanDirective,
    contents: Seq<int>,
    m: int,
    prev_sum: int,
)
    requires
        pre.wf(),
        HistoricalMeanTracker::advance_rel(pre, post, d),
        !d.reset_sum,
        !d.use_current_only,
        contents.len() == pre.ring_len_spec(),
        pre.next_point_spec() + pre.min_time_spec() == pre.ring_len_spec(),
        1 <= pre.next_point_spec(),
        prev_sum == seq_sum(contents.take(pre.next_point_spec() as int)),
    ensures
        ({
            let contents2 = if d.evicts {
                contents.drop_first().push(m)
            } else {
                contents.push(m)
            };
            let adjustment = (if d.evicts {
                -contents[0]
            } else {
                0int
            }) + contents2[d.include_index.unwrap() as int];
            prev_sum + adjustment == seq_sum(
                contents2.take(post.next_point_spec() as int),
            )
        }),
{
    let np = pre.next_point_spec() as int;
    if d.evicts {
        // the ring is at capacity, so the history is as wide as it gets
        assert(pre.ring_len_spec() == pre.capacity());
        assert(np == pre.delta_time_spec());
        assert(post.next_point_spec() == np);
        assert(d.include_index.unwrap() == np - 1);
        lemma_fast_sum_evict(contents, m, np, prev_sum);
    } else {
        assert(pre.ring_len_spec() < pre.capacity());
        assert(np < pre.delta_time_spec());
        assert(post.next_point_spec() == np + 1);
        assert(d.include_index.unwrap() == np);
        lemma_fast_sum_grow(contents, m, np, prev_sum);
    }
}

} // verus!
