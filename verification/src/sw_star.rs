//! Sliding-window state machine for one star.
//!
//! Each tick pushes one sample into a bounded window buffer; once the buffer
//! is full the oldest sample is dropped.  A countdown rate-limits how often
//! the star offers a window to the detector: it starts at the star's
//! fragment phase plus one, decrements on every tick in which the occupancy
//! has reached the minimum window length, and is reset to the skip delta at
//! the exact moment a window is consumed.  The star is ready when the
//! occupancy lies between the window bounds and the countdown has hit zero.

use vstd::prelude::*;

use crate::star::Star;

verus! {

pub struct SWStar<T> {
    pub star: Star<T>,
    buffer: Vec<T>,
    _max_buffer_len: u32,
    // set these equal to get a constant window length
    max_window_len: u32,
    min_window_len: u32,
    cur_window_len: u32,
    // countdown until this star may offer a window again
    available_count: u32,
    // countdown reload value: ticks between eligibility events
    available_delta: u32,
}

impl<T> SWStar<T> {
    /// The star this window machine belongs to.
    pub closed spec fn star_view(&self) -> Star<T> {
        self.star
    }

    /// The samples currently buffered, oldest first.
    pub closed spec fn buffer_view(&self) -> Seq<T> {
        self.buffer@
    }

    pub closed spec fn cur_len(&self) -> nat {
        self.cur_window_len as nat
    }

    pub closed spec fn min_len(&self) -> nat {
        self.min_window_len as nat
    }

    pub closed spec fn max_len(&self) -> nat {
        self.max_window_len as nat
    }

    pub closed spec fn countdown(&self) -> nat {
        self.available_count as nat
    }

    pub closed spec fn skip_delta(&self) -> nat {
        self.available_delta as nat
    }

    /// Occupancy always mirrors the buffer and never exceeds the bound.
    pub closed spec fn wf(&self) -> bool {
        &&& self.buffer@.len() == self.cur_window_len
        &&& self.cur_window_len <= self.max_window_len
    }

    /// Ready exactly when the occupancy is inside the window bounds and the
    /// countdown has run out.
    pub open spec fn is_ready_spec(&self) -> bool {
        &&& self.min_len() <= self.cur_len() <= self.max_len()
        &&& self.countdown() == 0
    }

    /// The state after one tick with sample `v`: the buffer takes `v` and
    /// drops its oldest sample when already at the bound, and the countdown
    /// decrements (stopping at zero) whenever the new occupancy has reached
    /// the minimum window length.
    pub open spec fn tick_rel(pre: &SWStar<T>, post: &SWStar<T>, v: T) -> bool {
        &&& post.buffer_view() == if pre.cur_len() < pre.max_len() {
            pre.buffer_view().push(v)
        } else {
            pre.buffer_view().push(v).drop_first()
        }
        &&& post.cur_len() == if pre.cur_len() < pre.max_len() {
            pre.cur_len() + 1
        } else {
            pre.cur_len()
        }
        &&& post.countdown() == if post.cur_len() >= pre.min_len() && pre.countdown() > 0 {
            (pre.countdown() - 1) as nat
        } else {
            pre.countdown()
        }
        &&& post.min_len() == pre.min_len()
        &&& post.max_len() == pre.max_len()
        &&& post.skip_delta() == pre.skip_delta()
        &&& post.star_view() == pre.star_view()
    }

    pub fn new() -> (r: SWStarBuilder<T>)
        ensures
            r.is_empty(),
    {
        SWStarBuilder {
            star: None,
            max_window_len: None,
            min_window_len: None,
            max_buffer_len: None,
            available_pos: None,
            available_delta: None,
        }
    }

    /// The unique key of the star behind this window machine.
    pub fn uid(&self) -> (r: &String)
        ensures
            r == self.star_view().uid,
    {
        &self.star.uid
    }

    pub fn is_ready(&self) -> (r: bool)
        ensures
            r == self.is_ready_spec(),
    {
        self.min_window_len <= self.cur_window_len && self.cur_window_len <= self.max_window_len
            && self.available_count == 0
    }
}

impl<T: Copy> SWStar<T> {
    /// Hands out a copy of the current window when the star is ready, and
    /// reloads the countdown at that exact moment; otherwise leaves the star
    /// untouched.
    pub fn window(&mut self) -> (r: Option<Vec<T>>)
        requires
            old(self).wf(),
        ensures
            final(self).wf(),
            old(self).is_ready_spec() ==> {
                &&& r matches Some(w) && w@ == old(self).buffer_view().take(
                    old(self).cur_len() as int,
                )
                &&& final(self).countdown() == old(self).skip_delta()
            },
            !old(self).is_ready_spec() ==> r is None && *final(self) == *old(self),
            final(self).buffer_view() == old(self).buffer_view(),
            final(self).cur_len() == old(self).cur_len(),
            final(self).min_len() == old(self).min_len(),
            final(self).max_len() == old(self).max_len(),
            final(self).skip_delta() == old(self).skip_delta(),
            final(self).star_view() == old(self).star_view(),
    {
        if self.is_ready() {
            self.available_count = self.available_delta;
            let n = self.cur_window_len as usize;
            let mut out: Vec<T> = Vec::new();
            let mut i: usize = 0;
            while i < n
                invariant
                    i <= n,
                    n <= self.buffer@.len(),
                    out@ == self.buffer@.take(i as int),
                decreases n - i,
            {
                let x = self.buffer[i];
                out.push(x);
                proof {
                    assert(out@ =~= self.buffer@.take(i + 1));
                }
                i = i + 1;
            }
            Some(out)
        } else {
            None
        }
    }

    /// Feeds the star its next offline sample, if its sample vector has one
    /// left, and moves the sample cursor past it.
    pub fn tick_offline(&mut self) -> (advanced: bool)
        requires
            old(self).wf(),
        ensures
            final(self).wf(),
            advanced == advancing(*old(self)),
            offline_step_rel(*old(self), *final(self)),
    {
        let step: Option<T> = match &self.star.samples {
            Some(samps) => {
                let idx = self.star.samples_tick_index;
                if idx < samps.len() {
                    Some(samps[idx])
                } else {
                    None
                }
            },
            None => None,
        };
        match step {
            Some(v) => {
                self.tick(v);
                self.star.samples_tick_index = self.star.samples_tick_index + 1;
                true
            },
            None => false,
        }
    }

    /// Pushes one new sample and advances the schedule by one tick.
    pub fn tick(&mut self, new_data_point: T)
        requires
            old(self).wf(),
        ensures
            final(self).wf(),
            SWStar::tick_rel(old(self), final(self), new_data_point),
    {
        self.buffer.push(new_data_point);
        if self.buffer.len() > self.max_window_len as usize {
            self.buffer.remove(0);
        } else {
            self.cur_window_len = self.cur_window_len + 1;
        }

        if self.cur_window_len >= self.min_window_len && self.available_count > 0 {
            self.available_count = self.available_count - 1;
        }
    }
}

/// A star that still has an unconsumed offline sample this tick.
pub open spec fn advancing<T>(s: SWStar<T>) -> bool {
    &&& s.star_view().samples is Some
    &&& s.star_view().samples_tick_index < s.star_view().samples->0@.len()
}

/// The sample such a star consumes this tick.
pub open spec fn next_sample<T>(s: SWStar<T>) -> T {
    s.star_view().samples->0@[s.star_view().samples_tick_index as int]
}

/// How one offline tick changes one star: an advancing star takes its next
/// sample into the window machine and moves its cursor; any other star is
/// left untouched.
pub open spec fn offline_step_rel<T>(pre: SWStar<T>, post: SWStar<T>) -> bool {
    if advancing(pre) {
        let v = next_sample(pre);
        &&& post.buffer_view() == if pre.cur_len() < pre.max_len() {
            pre.buffer_view().push(v)
        } else {
            pre.buffer_view().push(v).drop_first()
        }
        &&& post.cur_len() == if pre.cur_len() < pre.max_len() {
            pre.cur_len() + 1
        } else {
            pre.cur_len()
        }
        &&& post.countdown() == if post.cur_len() >= pre.min_len() && pre.countdown() > 0 {
            (pre.countdown() - 1) as nat
        } else {
            pre.countdown()
        }
        &&& post.min_len() == pre.min_len()
        &&& post.max_len() == pre.max_len()
        &&& post.skip_delta() == pre.skip_delta()
        &&& post.star_view() == (Star {
            samples_tick_index: (pre.star_view().samples_tick_index + 1) as usize,
            ..pre.star_view()
        })
    } else {
        post == pre
    }
}

/// Staged construction of a sliding-window star; `build` demands that every
/// part has been supplied.
pub struct SWStarBuilder<T> {
    star: Option<Star<T>>,
    // set these equal to get a constant window length
    max_window_len: Option<u32>,
    min_window_len: Option<u32>,
    max_buffer_len: Option<u32>,
    // the fragment phase: the first eligibility is delayed by this many ticks
    available_pos: Option<u32>,
    // ticks between eligibility events
    available_delta: Option<u32>,
}

impl<T> SWStarBuilder<T> {
    pub closed spec fn is_empty(&self) -> bool {
        &&& self.star is None
        &&& self.max_window_len is None
        &&& self.min_window_len is None
        &&& self.max_buffer_len is None
        &&& self.available_pos is None
        &&& self.available_delta is None
    }

    pub closed spec fn star_spec(&self) -> Option<Star<T>> {
        self.star
    }

    pub closed spec fn window_lens_spec(&self) -> (Option<u32>, Option<u32>) {
        (self.min_window_len, self.max_window_len)
    }

    pub closed spec fn max_buffer_len_spec(&self) -> Option<u32> {
        self.max_buffer_len
    }

    pub closed spec fn availables_spec(&self) -> (Option<u32>, Option<u32>) {
        (self.available_pos, self.available_delta)
    }

    pub open spec fn is_complete(&self) -> bool {
        &&& self.star_spec() is Some
        &&& self.window_lens_spec().0 is Some
        &&& self.window_lens_spec().1 is Some
        &&& self.max_buffer_len_spec() is Some
        &&& self.availables_spec().0 is Some
        &&& self.availables_spec().1 is Some
    }

    pub fn set_star(self, star: Star<T>) -> (r: SWStarBuilder<T>)
        ensures
            r.star_spec() == Some(star),
            r.window_lens_spec() == self.window_lens_spec(),
            r.max_buffer_len_spec() == self.max_buffer_len_spec(),
            r.availables_spec() == self.availables_spec(),
    {
        SWStarBuilder { star: Some(star), ..self }
    }

    pub fn set_window_lens(self, min: u32, max: u32) -> (r: SWStarBuilder<T>)
        ensures
            r.star_spec() == self.star_spec(),
            r.window_lens_spec() == (Some(min), Some(max)),
            r.max_buffer_len_spec() == self.max_buffer_len_spec(),
            r.availables_spec() == self.availables_spec(),
    {
        SWStarBuilder { min_window_len: Some(min), max_window_len: Some(max), ..self }
    }

    pub fn set_max_buffer_len(self, max: u32) -> (r: SWStarBuilder<T>)
        ensures
            r.star_spec() == self.star_spec(),
            r.window_lens_spec() == self.window_lens_spec(),
            r.max_buffer_len_spec() == Some(max),
            r.availables_spec() == self.availables_spec(),
    {
        SWStarBuilder { max_buffer_len: Some(max), ..self }
    }

    pub fn set_availables(self, pos: u32, delta: u32) -> (r: SWStarBuilder<T>)
        ensures
            r.star_spec() == self.star_spec(),
            r.window_lens_spec() == self.window_lens_spec(),
            r.max_buffer_len_spec() == self.max_buffer_len_spec(),
            r.availables_spec() == (Some(pos), Some(delta)),
    {
        SWStarBuilder { available_pos: Some(pos), available_delta: Some(delta), ..self }
    }

    /// Assembles the star.  The initial countdown is the fragment phase plus
    /// one, so that phase 0 becomes eligible on the first tick in which the
    /// window is filled.
    pub fn build(self) -> (r: SWStar<T>)
        requires
            self.is_complete(),
            self.availables_spec().0 matches Some(pos) && pos < u32::MAX,
        ensures
            r.wf(),
            r.star_view() == self.star_spec().unwrap(),
            r.buffer_view() == Seq::<T>::empty(),
            r.cur_len() == 0,
            r.min_len() == self.window_lens_spec().0.unwrap() as nat,
            r.max_len() == self.window_lens_spec().1.unwrap() as nat,
            r.countdown() == self.availables_spec().0.unwrap() + 1,
            r.skip_delta() == self.availables_spec().1.unwrap() as nat,
    {
        let SWStarBuilder {
            star,
            max_window_len,
            min_window_len,
            max_buffer_len,
            available_pos,
            available_delta,
        } = self;
        SWStar {
            star: star.unwrap(),
            max_window_len: max_window_len.unwrap(),
            min_window_len: min_window_len.unwrap(),
            cur_window_len: 0,
            buffer: Vec::new(),
            _max_buffer_len: max_buffer_len.unwrap(),
            available_delta: available_delta.unwrap(),
            available_count: available_pos.unwrap() + 1,
        }
    }
}

/// Readiness implies that the occupancy lies inside the window bounds: the
/// detector only ever snapshots windows of admissible length.
pub proof fn lemma_ready_within_bounds<T>(s: &SWStar<T>)
    requires
        s.is_ready_spec(),
    ensures
        s.min_len() <= s.cur_len() <= s.max_len(),
{
}

/// Consuming a window reloads the countdown with the skip delta, so with a
/// positive skip delta the star cannot be ready again before another tick:
/// a second `window` call without an intervening `tick` returns `None`.
/// (With a skip delta of zero the schedule never blocks, and the star stays
/// ready.)
pub proof fn lemma_window_twice_blocked<T>(before: &SWStar<T>, after: &SWStar<T>)
    requires
        before.is_ready_spec(),
        after.countdown() == before.skip_delta(),
        before.skip_delta() > 0,
    ensures
        !after.is_ready_spec(),
{
}

} // verus!
