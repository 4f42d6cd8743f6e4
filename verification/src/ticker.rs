//! The producer's verified step: advance every star by one sample per tick.
//!
//! In an offline run each star carries its precomputed sample vector and a
//! cursor; one tick feeds every star whose cursor has not run off the end
//! of its vector and counts how many advanced, which the run controller
//! uses for progress and termination accounting.  The barrier waits around
//! this step, and the live-feed variant that blocks on a frame channel,
//! live with the runtime adapter.

use vstd::prelude::*;

use crate::sw_star::SWStar;
use crate::sw_star::advancing;
use crate::sw_star::offline_step_rel;

verus! {

/// How many of these stars advance this tick.
pub open spec fn n_advancing<T>(s: Seq<SWStar<T>>) -> nat
    decreases s.len(),
{
    if s.len() == 0 {
        0
    } else {
        n_advancing(s.drop_last()) + if advancing(s.last()) {
            1nat
        } else {
            0nat
        }
    }
}

/// One offline tick over the whole star collection: feeds every star its
/// next sample (if any are left) and returns how many stars advanced.
pub fn tick_all_offline<T: Copy>(stars: &mut Vec<SWStar<T>>) -> (iterations: usize)
    requires
        forall|i: int| 0 <= i < old(stars)@.len() ==> (#[trigger] old(stars)@[i]).wf(),
    ensures
        final(stars)@.len() == old(stars)@.len(),
        forall|i: int|
            0 <= i < old(stars)@.len() ==> offline_step_rel(
                old(stars)@[i],
                #[trigger] final(stars)@[i],
            ),
        forall|i: int| 0 <= i < final(stars)@.len() ==> (#[trigger] final(stars)@[i]).wf(),
        iterations == n_advancing(old(stars)@),
{
    let n = stars.len();
    let mut iterations: usize = 0;
    let mut i: usize = 0;
    while i < n
        invariant
            i <= n,
            n == stars@.len() == old(stars)@.len(),
            forall|j: int| 0 <= j < i ==> offline_step_rel(old(stars)@[j], #[trigger] stars@[j]),
            forall|j: int| i <= j < n ==> stars@[j] == old(stars)@[j],
            forall|j: int| 0 <= j < n ==> (#[trigger] stars@[j]).wf(),
            iterations == n_advancing(old(stars)@.take(i as int)),
            iterations <= i,
        decreases n - i,
    {
        let ghost pre_star = stars@[i as int];
        let s = &mut stars[i];
        let advanced = s.tick_offline();
        if advanced {
            iterations = iterations + 1;
        }
        proof {
            assert(old(stars)@.take(i + 1).drop_last() =~= old(stars)@.take(i as int));
            assert(old(stars)@.take(i + 1).last() == old(stars)@[i as int]);
            assert(offline_step_rel(pre_star, stars@[i as int]));
        }
        i = i + 1;
    }
    proof {
        assert(old(stars)@.take(n as int) =~= old(stars)@);
    }
    iterations
}

} // verus!
