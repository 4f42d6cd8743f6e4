//! Trigger policies: how a stream of per-star score decisions becomes
//! detection events.
//!
//! Each policy consumes, in arrival order, one decision per `(star, score)`
//! pair — the caller evaluates `score > alert_threshold` in its own numeric
//! domain and passes the outcome down as `exceeds_threshold`.  A policy owns
//! its mute set: once a star has triggered it never triggers again.

use vstd::prelude::*;

use crate::cyclic_queue::CyclicQueue;
use crate::cyclic_queue::CyclicQueueInterface;
use crate::utils::str_eq;

verus! {

/// A positive trigger decision.  Carries no payload for now; the caller
/// attaches star, tick and score itself.
pub struct DetectorResult {}

/// A trigger policy.  `fires` says on which `(state, star, decision)` the
/// policy emits an event, and `detect_rel` relates the state before a call
/// to the state after it; each policy defines both precisely.
pub trait DetectorTrigger: Sized {
    spec fn wf_spec(&self) -> bool;

    spec fn fires(&self, star: Seq<char>, exceeds: bool) -> bool;

    spec fn detect_rel(&self, post: &Self, star: Seq<char>, exceeds: bool) -> bool;

    fn detect(&mut self, star: &str, exceeds_threshold: bool, current_time: usize) -> (r: Option<
        DetectorResult,
    >)
        requires
            old(self).wf_spec(),
        ensures
            final(self).wf_spec(),
            (r is Some) == old(self).fires(star@, exceeds_threshold),
            old(self).detect_rel(final(self), star@, exceeds_threshold),
    ;
}

/// The policy that never triggers.
#[allow(unused)]
pub struct NoneTrigger {}

impl DetectorTrigger for NoneTrigger {
    open spec fn wf_spec(&self) -> bool {
        true
    }

    open spec fn fires(&self, star: Seq<char>, exceeds: bool) -> bool {
        false
    }

    open spec fn detect_rel(&self, post: &Self, star: Seq<char>, exceeds: bool) -> bool {
        true
    }

    fn detect(&mut self, _star: &str, _exceeds_threshold: bool, _current_time: usize) -> (r:
        Option<DetectorResult>) {
        None
    }
}

/// Finds the first position holding `star`, scanning from the front.
fn find_str(v: &Vec<String>, star: &str) -> (r: Option<usize>)
    ensures
        match r {
            Some(i) => i < v@.len() && v@[i as int]@ == star@ && forall|j: int|
                0 <= j < i ==> v@[j]@ != star@,
            None => forall|j: int| 0 <= j < v@.len() ==> v@[j]@ != star@,
        },
{
    let mut i: usize = 0;
    let n = v.len();
    while i < n
        invariant
            i <= n,
            n == v@.len(),
            forall|j: int| 0 <= j < i ==> v@[j]@ != star@,
        decreases n - i,
    {
        if str_eq(v[i].as_str(), star) {
            return Some(i);
        }
        i = i + 1;
    }
    None
}

/// Simple threshold policy: the first crossing for a star emits an event and
/// mutes the star for the rest of the run.
pub struct ThresholdTrigger {
    already_detected_stars: Vec<String>,
}

impl ThresholdTrigger {
    /// The muted stars, in the order they first triggered.
    pub closed spec fn muted_view(&self) -> Seq<Seq<char>> {
        self.already_detected_stars@.map_values(|s: String| s@)
    }

    pub open spec fn is_muted(&self, star: Seq<char>) -> bool {
        self.muted_view().contains(star)
    }

    pub fn new() -> (r: ThresholdTrigger)
        ensures
            r.muted_view() == Seq::<Seq<char>>::empty(),
            r.wf_spec(),
    {
        let r = ThresholdTrigger { already_detected_stars: Vec::new() };
        proof {
            assert(r.muted_view() =~= Seq::<Seq<char>>::empty());
        }
        r
    }
}

impl DetectorTrigger for ThresholdTrigger {
    open spec fn wf_spec(&self) -> bool {
        true
    }

    open spec fn fires(&self, star: Seq<char>, exceeds: bool) -> bool {
        !self.is_muted(star) && exceeds
    }

    open spec fn detect_rel(&self, post: &Self, star: Seq<char>, exceeds: bool) -> bool {
        post.muted_view() == if self.fires(star, exceeds) {
            self.muted_view().push(star)
        } else {
            self.muted_view()
        }
    }

    fn detect(&mut self, star: &str, exceeds_threshold: bool, _current_time: usize) -> (r: Option<
        DetectorResult,
    >) {
        let found = find_str(&self.already_detected_stars, star);
        proof {
            match found {
                Some(i) => {
                    assert(self.muted_view()[i as int] == star@);
                },
                None => {
                    if self.muted_view().contains(star@) {
                        let i = choose|i: int|
                            0 <= i < self.muted_view().len() && self.muted_view()[i] == star@;
                        assert(self.already_detected_stars@[i]@ == star@);
                    }
                },
            }
        }
        if found.is_some() {
            return None;
        }
        if exceeds_threshold {
            let ghost pre = self.already_detected_stars@;
            self.already_detected_stars.push(star.to_owned());
            proof {
                assert(self.muted_view() =~= pre.map_values(|s: String| s@).push(star@));
            }
            Some(DetectorResult {  })
        } else {
            None
        }
    }
}

/// One step of a bounded history of threshold decisions: the ring holds the
/// last three, evicting the oldest.
pub open spec fn ring_step(r: Seq<bool>, b: bool) -> Seq<bool> {
    if r.len() < 3 {
        r.push(b)
    } else {
        r.push(b).drop_first()
    }
}

/// Three stored decisions, all positive.
pub open spec fn three_hits(r: Seq<bool>) -> bool {
    r.len() == 3 && r[0] && r[1] && r[2]
}

/// First position of `star` among the tracked names.
pub open spec fn find_entry(names: Seq<Seq<char>>, star: Seq<char>) -> Option<int>
    decreases names.len(),
{
    if names.len() == 0 {
        None
    } else if names[0] == star {
        Some(0int)
    } else {
        match find_entry(names.drop_first(), star) {
            Some(i) => Some(i + 1),
            None => None,
        }
    }
}

proof fn lemma_find_entry_at(names: Seq<Seq<char>>, star: Seq<char>, i: int)
    requires
        0 <= i < names.len(),
        names[i] == star,
        forall|j: int| 0 <= j < i ==> names[j] != star,
    ensures
        find_entry(names, star) == Some(i),
    decreases names.len(),
{
    if i == 0 {
    } else {
        assert(names.drop_first()[i - 1] == star);
        lemma_find_entry_at(names.drop_first(), star, i - 1);
    }
}

proof fn lemma_find_entry_none(names: Seq<Seq<char>>, star: Seq<char>)
    requires
        forall|j: int| 0 <= j < names.len() ==> names[j] != star,
    ensures
        find_entry(names, star) is None,
    decreases names.len(),
{
    if names.len() > 0 {
        assert(forall|j: int|
            0 <= j < names.drop_first().len() ==> names.drop_first()[j] != star);
        lemma_find_entry_none(names.drop_first(), star);
    }
}

/// Patience policy: an event needs three consecutive positive decisions for
/// the same star; after the event the star is muted.  Each star keeps a ring
/// of its last three decisions.
pub struct ThreeInARowTrigger {
    already_detected_stars: Vec<String>,
    ring_names: Vec<String>,
    rings: Vec<CyclicQueue<bool>>,
}

impl ThreeInARowTrigger {
    pub closed spec fn muted_view(&self) -> Seq<Seq<char>> {
        self.already_detected_stars@.map_values(|s: String| s@)
    }

    pub open spec fn is_muted(&self, star: Seq<char>) -> bool {
        self.muted_view().contains(star)
    }

    /// The tracked star names, in insertion order.
    pub closed spec fn names_view(&self) -> Seq<Seq<char>> {
        self.ring_names@.map_values(|s: String| s@)
    }

    /// The per-star decision histories, positionally matching `names_view`.
    pub closed spec fn rings_view(&self) -> Seq<Seq<bool>> {
        self.rings@.map_values(|q: CyclicQueue<bool>| q.contents())
    }

    /// The decision history of `star` after this call's own decision has
    /// been appended.
    pub open spec fn updated_ring(&self, star: Seq<char>, exceeds: bool) -> Seq<bool> {
        match find_entry(self.names_view(), star) {
            Some(i) => ring_step(self.rings_view()[i], exceeds),
            None => seq![exceeds],
        }
    }

    pub fn new() -> (r: ThreeInARowTrigger)
        ensures
            r.wf_spec(),
            r.muted_view() == Seq::<Seq<char>>::empty(),
            r.names_view() == Seq::<Seq<char>>::empty(),
    {
        let r = ThreeInARowTrigger {
            already_detected_stars: Vec::new(),
            ring_names: Vec::new(),
            rings: Vec::new(),
        };
        proof {
            assert(r.muted_view() =~= Seq::<Seq<char>>::empty());
            assert(r.names_view() =~= Seq::<Seq<char>>::empty());
        }
        r
    }
}

impl DetectorTrigger for ThreeInARowTrigger {
    closed spec fn wf_spec(&self) -> bool {
        &&& self.ring_names@.len() == self.rings@.len()
        &&& forall|i: int|
            0 <= i < self.rings@.len() ==> (#[trigger] self.rings@[i]).wf()
                && self.rings@[i].capacity() == 3
    }

    open spec fn fires(&self, star: Seq<char>, exceeds: bool) -> bool {
        &&& !self.is_muted(star)
        &&& exceeds
        &&& three_hits(self.updated_ring(star, exceeds))
    }

    open spec fn detect_rel(&self, post: &Self, star: Seq<char>, exceeds: bool) -> bool {
        &&& post.muted_view() == if self.fires(star, exceeds) {
            self.muted_view().push(star)
        } else {
            self.muted_view()
        }
        &&& if self.is_muted(star) {
            post.names_view() == self.names_view() && post.rings_view() == self.rings_view()
        } else {
            match find_entry(self.names_view(), star) {
                Some(i) => {
                    &&& post.names_view() == self.names_view()
                    &&& post.rings_view() == self.rings_view().update(
                        i,
                        ring_step(self.rings_view()[i], exceeds),
                    )
                },
                None => {
                    &&& post.names_view() == self.names_view().push(star)
                    &&& post.rings_view() == self.rings_view().push(seq![exceeds])
                },
            }
        }
    }

    fn detect(&mut self, star: &str, exceeds_threshold: bool, _current_time: usize) -> (r: Option<
        DetectorResult,
    >) {
        let muted = find_str(&self.already_detected_stars, star);
        proof {
            match muted {
                Some(i) => {
                    assert(self.muted_view()[i as int] == star@);
                },
                None => {
                    if self.muted_view().contains(star@) {
                        let i = choose|i: int|
                            0 <= i < self.muted_view().len() && self.muted_view()[i] == star@;
                        assert(self.already_detected_stars@[i]@ == star@);
                    }
                },
            }
        }
        if muted.is_some() {
            return None;
        }

        let found = find_str(&self.ring_names, star);
        proof {
            match found {
                Some(i) => {
                    lemma_find_entry_at(self.names_view(), star@, i as int);
                },
                None => {
                    lemma_find_entry_none(self.names_view(), star@);
                },
            }
        }
        let ghost rings_old = self.rings_view();
        let idx: usize;
        match found {
            Some(i) => {
                idx = i;
            },
            None => {
                idx = self.ring_names.len();
                let ghost names_pre = self.ring_names@;
                self.ring_names.push(star.to_owned());
                self.rings.push(CyclicQueue::new(3));
                proof {
                    assert(self.names_view() =~= names_pre.map_values(|s: String| s@).push(
                        star@,
                    ));
                    assert(self.rings_view() =~~= rings_old.push(Seq::<bool>::empty()));
                }
            },
        }

        let ghost names_mid = self.names_view();
        let ghost rings_mid = self.rings_view();
        let ghost rings_mid_vec = self.rings@;
        proof {
            assert(idx < self.rings@.len());
            assert(self.rings@[idx as int].wf() && self.rings@[idx as int].capacity() == 3);
        }
        let mut ring: CyclicQueue<bool> = CyclicQueue::new(3);
        core::mem::swap(&mut ring, &mut self.rings[idx]);
        proof {
            assert(ring == rings_mid_vec[idx as int]);
        }
        let _evicted = ring.push(exceeds_threshold);
        proof {
            assert(ring.capacity() == 3);
            assert(rings_mid[idx as int] == rings_mid_vec[idx as int].contents());
            let pre = rings_mid_vec[idx as int];
            crate::cyclic_queue::lemma_contents_within_capacity(&pre);
            if pre.contents().len() < 3 {
                assert(ring.contents() == pre.contents().push(exceeds_threshold));
            } else {
                assert(pre.contents().len() == 3);
                assert(ring.contents() == pre.contents().skip(1).push(exceeds_threshold));
            }
            assert(ring.contents() =~= ring_step(rings_mid[idx as int], exceeds_threshold));
        }
        let len3 = ring.len() == 3;
        let a = match ring.get_relative(0) {
            Some(v) => *v,
            None => false,
        };
        let b = match ring.get_relative(1) {
            Some(v) => *v,
            None => false,
        };
        let c = match ring.get_relative(2) {
            Some(v) => *v,
            None => false,
        };
        let all_three = len3 && a && b && c;
        let ghost pushed_ring = ring;
        core::mem::swap(&mut ring, &mut self.rings[idx]);
        proof {
            assert(self.rings@ =~= rings_mid_vec.update(idx as int, pushed_ring));
            assert(self.rings_view() =~~= rings_mid.update(
                idx as int,
                ring_step(rings_mid[idx as int], exceeds_threshold),
            ));
            assert(self.names_view() == names_mid);
            assert forall|i: int| 0 <= i < self.rings@.len() implies (
            #[trigger] self.rings@[i]).wf() && self.rings@[i].capacity() == 3 by {
                if i != idx {
                    assert(self.rings@[i] == rings_mid_vec[i]);
                }
            }
            match found {
                Some(i) => {
                    assert(self.rings_view() =~~= rings_old.update(
                        i as int,
                        ring_step(rings_old[i as int], exceeds_threshold),
                    ));
                },
                None => {
                    assert(ring_step(Seq::<bool>::empty(), exceeds_threshold) =~= seq![
                        exceeds_threshold,
                    ]);
                    assert(self.rings_view() =~~= rings_old.push(seq![exceeds_threshold]));
                },
            }
        }

        if exceeds_threshold && all_three {
            let ghost muted_pre = self.already_detected_stars@;
            self.already_detected_stars.push(star.to_owned());
            proof {
                assert(self.muted_view() =~= muted_pre.map_values(|s: String| s@).push(star@));
            }
            Some(DetectorResult {  })
        } else {
            None
        }
    }
}

} // verus!

