//! The consumer's verified step: snapshot every ready window.
//!
//! On each tick, after the rendezvous with the ticker, the detector walks
//! the star collection once and copies out the window of every star that is
//! ready, consuming it — which reloads that star's countdown — and leaving
//! every other star untouched.  The snapshot pairs each window with its
//! star's key, in collection order.  Conditioning, the correlation kernel
//! and the trigger queries run on the snapshot after the collection is
//! released.

use vstd::prelude::*;

use crate::sw_star::SWStar;

verus! {

/// The keys of the ready stars, in collection order.
pub open spec fn ready_uids<T>(s: Seq<SWStar<T>>) -> Seq<Seq<char>>
    decreases s.len(),
{
    if s.len() == 0 {
        Seq::empty()
    } else {
        ready_uids(s.drop_last()) + if s.last().is_ready_spec() {
            seq![s.last().star_view().uid@]
        } else {
            Seq::empty()
        }
    }
}

/// The windows of the ready stars, in collection order.
pub open spec fn ready_windows<T>(s: Seq<SWStar<T>>) -> Seq<Seq<T>>
    decreases s.len(),
{
    if s.len() == 0 {
        Seq::empty()
    } else {
        ready_windows(s.drop_last()) + if s.last().is_ready_spec() {
            seq![s.last().buffer_view().take(s.last().cur_len() as int)]
        } else {
            Seq::empty()
        }
    }
}

/// How the snapshot changes one star: a ready star has its countdown
/// reloaded with the skip delta; any other star is untouched.
pub open spec fn consumed_rel<T>(pre: SWStar<T>, post: SWStar<T>) -> bool {
    &&& post.buffer_view() == pre.buffer_view()
    &&& post.cur_len() == pre.cur_len()
    &&& post.min_len() == pre.min_len()
    &&& post.max_len() == pre.max_len()
    &&& post.skip_delta() == pre.skip_delta()
    &&& post.star_view() == pre.star_view()
    &&& post.countdown() == if pre.is_ready_spec() {
        pre.skip_delta()
    } else {
        pre.countdown()
    }
}

/// Collects `(key, window)` for every ready star, consuming the windows.
pub fn collect_ready_windows<T: Copy>(stars: &mut Vec<SWStar<T>>) -> (r: (
    Vec<String>,
    Vec<Vec<T>>,
))
    requires
        forall|i: int| 0 <= i < old(stars)@.len() ==> (#[trigger] old(stars)@[i]).wf(),
    ensures
        final(stars)@.len() == old(stars)@.len(),
        forall|i: int|
            0 <= i < old(stars)@.len() ==> consumed_rel(
                old(stars)@[i],
                #[trigger] final(stars)@[i],
            ),
        forall|i: int| 0 <= i < final(stars)@.len() ==> (#[trigger] final(stars)@[i]).wf(),
        r.0@.map_values(|s: String| s@) == ready_uids(old(stars)@),
        r.1@.map_values(|w: Vec<T>| w@) == ready_windows(old(stars)@),
{
    let n = stars.len();
    let mut names: Vec<String> = Vec::new();
    let mut windows: Vec<Vec<T>> = Vec::new();
    proof {
        assert(names@.map_values(|s: String| s@) =~= ready_uids(old(stars)@.take(0)));
        assert(windows@.map_values(|w: Vec<T>| w@) =~= ready_windows(old(stars)@.take(0)));
    }
    let mut i: usize = 0;
    while i < n
        invariant
            i <= n,
            n == stars@.len() == old(stars)@.len(),
            forall|j: int| 0 <= j < i ==> consumed_rel(old(stars)@[j], #[trigger] stars@[j]),
            forall|j: int| i <= j < n ==> stars@[j] == old(stars)@[j],
            forall|j: int| 0 <= j < n ==> (#[trigger] stars@[j]).wf(),
            names@.map_values(|s: String| s@) == ready_uids(old(stars)@.take(i as int)),
            windows@.map_values(|w: Vec<T>| w@) == ready_windows(old(stars)@.take(i as int)),
        decreases n - i,
    {
        let ghost pre_star = stars@[i as int];
        let ghost names_pre = names@;
        let ghost windows_pre = windows@;
        let s = &mut stars[i];
        if s.is_ready() {
            match s.window() {
                Some(w) => {
                    let uid = s.uid().clone();
                    names.push(uid);
                    windows.push(w);
                },
                None => {
                    // a ready star always yields its window
                    proof {
                        assert(false);
                    }
                },
            }
        }
        proof {
            assert(old(stars)@.take(i + 1).drop_last() =~= old(stars)@.take(i as int));
            assert(old(stars)@.take(i + 1).last() == old(stars)@[i as int]);
            assert(consumed_rel(pre_star, stars@[i as int]));
            if pre_star.is_ready_spec() {
                assert(names@.map_values(|s2: String| s2@) =~= names_pre.map_values(
                    |s2: String| s2@,
                ).push(pre_star.star_view().uid@));
                assert(windows@.map_values(|w: Vec<T>| w@) =~= windows_pre.map_values(
                    |w: Vec<T>| w@,
                ).push(pre_star.buffer_view().take(pre_star.cur_len() as int)));
                assert(ready_uids(old(stars)@.take(i + 1)) =~= ready_uids(
                    old(stars)@.take(i as int),
                ).push(pre_star.star_view().uid@));
                assert(ready_windows(old(stars)@.take(i + 1)) =~= ready_windows(
                    old(stars)@.take(i as int),
                ).push(pre_star.buffer_view().take(pre_star.cur_len() as int)));
            } else {
                assert(ready_uids(old(stars)@.take(i + 1)) =~= ready_uids(
                    old(stars)@.take(i as int),
                ));
                assert(ready_windows(old(stars)@.take(i + 1)) =~= ready_windows(
                    old(stars)@.take(i as int),
                ));
            }
        }
        i = i + 1;
    }
    proof {
        assert(old(stars)@.take(n as int) =~= old(stars)@);
    }
    (names, windows)
}

} // verus!
