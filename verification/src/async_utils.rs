//! The twin barrier: a symmetric two-slot rendezvous between the ticker and
//! the detector.
//!
//! The runtime object is a pair of single-slot channels; side A sends and
//! then receives, side B receives and then sends.  That asymmetric order is
//! what makes the pair a barrier, and it is a protocol property, not a
//! property of any one process — so it is verified here as a transition
//! system: every reachable state satisfies an invariant from which the
//! rendezvous ordering follows.  The channel-backed object that drives an
//! actual run performs exactly these transitions.

use vstd::prelude::*;

verus! {

/// Side A's position inside one `wait()` call: `send` then `recv`.
#[derive(PartialEq, Eq, Structural)]
pub enum APhase {
    /// No call in progress.
    AIdle,
    /// The call was issued; the send has not completed.
    AEntered,
    /// The send completed; waiting to receive.
    ASent,
}

/// Side B's position inside one `wait()` call: `recv` then `send`.
#[derive(PartialEq, Eq, Structural)]
pub enum BPhase {
    /// No call in progress.
    BIdle,
    /// The call was issued; nothing received yet.
    BEntered,
    /// The receive completed; the send has not.
    BReceived,
}

/// Global state of one twin barrier: both sides' positions, the two
/// single-slot channels, and the event counters the ordering law speaks of.
pub struct TwinBarrierState {
    pub a: APhase,
    pub b: BPhase,
    /// Channel from A to B holds a message.
    pub slot_ab: bool,
    /// Channel from B to A holds a message.
    pub slot_ba: bool,
    /// `wait()` calls issued by side A.
    pub a_calls: nat,
    /// `wait()` calls completed by side A.
    pub a_done: nat,
    /// `wait()` calls issued by side B.
    pub b_calls: nat,
    /// `wait()` calls completed by side B.
    pub b_done: nat,
}

/// The atomic protocol events.
pub enum TwinBarrierStep {
    /// A issues a `wait()`.
    ACall,
    /// A's send lands in the empty A-to-B slot.
    ASend,
    /// A receives from the B-to-A slot and completes its `wait()`.
    ARecv,
    /// B issues a `wait()`.
    BCall,
    /// B receives from the A-to-B slot.
    BRecv,
    /// B's send lands in the empty B-to-A slot and completes its `wait()`.
    BSend,
}

pub open spec fn twin_barrier_init(s: TwinBarrierState) -> bool {
    &&& s.a == APhase::AIdle
    &&& s.b == BPhase::BIdle
    &&& !s.slot_ab
    &&& !s.slot_ba
    &&& s.a_calls == 0
    &&& s.a_done == 0
    &&& s.b_calls == 0
    &&& s.b_done == 0
}

/// The step relation: which transitions are enabled and what they change.
/// A send is enabled only on an empty slot (the channels hold one message),
/// a receive only on a full one.
pub open spec fn twin_barrier_step(
    pre: TwinBarrierState,
    post: TwinBarrierState,
    step: TwinBarrierStep,
) -> bool {
    match step {
        TwinBarrierStep::ACall => {
            &&& pre.a == APhase::AIdle
            &&& post == TwinBarrierState { a: APhase::AEntered, a_calls: pre.a_calls + 1, ..pre }
        },
        TwinBarrierStep::ASend => {
            &&& pre.a == APhase::AEntered
            &&& !pre.slot_ab
            &&& post == TwinBarrierState { a: APhase::ASent, slot_ab: true, ..pre }
        },
        TwinBarrierStep::ARecv => {
            &&& pre.a == APhase::ASent
            &&& pre.slot_ba
            &&& post == TwinBarrierState {
                a: APhase::AIdle,
                slot_ba: false,
                a_done: pre.a_done + 1,
                ..pre
            }
        },
        TwinBarrierStep::BCall => {
            &&& pre.b == BPhase::BIdle
            &&& post == TwinBarrierState { b: BPhase::BEntered, b_calls: pre.b_calls + 1, ..pre }
        },
        TwinBarrierStep::BRecv => {
            &&& pre.b == BPhase::BEntered
            &&& pre.slot_ab
            &&& post == TwinBarrierState { b: BPhase::BReceived, slot_ab: false, ..pre }
        },
        TwinBarrierStep::BSend => {
            &&& pre.b == BPhase::BReceived
            &&& !pre.slot_ba
            &&& post == TwinBarrierState {
                b: BPhase::BIdle,
                slot_ba: true,
                b_done: pre.b_done + 1,
                ..pre
            }
        },
    }
}

/// Messages A has pushed into the A-to-B channel.
pub open spec fn ab_sent(s: TwinBarrierState) -> nat {
    s.a_done + if s.a == APhase::ASent {
        1nat
    } else {
        0nat
    }
}

/// Messages B has taken out of the A-to-B channel.
pub open spec fn ab_received(s: TwinBarrierState) -> nat {
    s.b_done + if s.b == BPhase::BReceived {
        1nat
    } else {
        0nat
    }
}

/// The inductive invariant: per-side call accounting, and conservation of
/// messages in both single-slot channels.
pub open spec fn twin_barrier_inv(s: TwinBarrierState) -> bool {
    &&& s.a_calls == s.a_done + if s.a == APhase::AIdle {
        0nat
    } else {
        1nat
    }
    &&& s.b_calls == s.b_done + if s.b == BPhase::BIdle {
        0nat
    } else {
        1nat
    }
    &&& ab_received(s) <= ab_sent(s) <= ab_received(s) + 1
    &&& s.slot_ab == (ab_sent(s) == ab_received(s) + 1)
    &&& s.a_done <= s.b_done <= s.a_done + 1
    &&& s.slot_ba == (s.b_done == s.a_done + 1)
}

pub proof fn lemma_twin_barrier_init_inv(s: TwinBarrierState)
    requires
        twin_barrier_init(s),
    ensures
        twin_barrier_inv(s),
{
}

/// Every protocol step preserves the invariant.
pub proof fn lemma_twin_barrier_step_inv(
    pre: TwinBarrierState,
    post: TwinBarrierState,
    step: TwinBarrierStep,
)
    requires
        twin_barrier_inv(pre),
        twin_barrier_step(pre, post, step),
    ensures
        twin_barrier_inv(post),
{
}

/// The rendezvous ordering: in every reachable state, neither side has
/// completed more `wait()` calls than the other side has issued.  Across
/// `N` paired calls, the n-th completion on either side therefore cannot
/// precede the other side's n-th call.
pub proof fn lemma_twin_barrier_ordering(s: TwinBarrierState)
    requires
        twin_barrier_inv(s),
    ensures
        s.a_done <= s.b_calls,
        s.b_done <= s.a_calls,
{
    assert(s.b_done <= ab_received(s));
    assert(ab_sent(s) <= s.a_calls);
}

/// Both sides advance in lock step: their completion counts never drift
/// apart by more than one.
pub proof fn lemma_twin_barrier_lockstep(s: TwinBarrierState)
    requires
        twin_barrier_inv(s),
    ensures
        s.a_done <= s.b_done + 1,
        s.b_done <= s.a_done + 1,
{
}

} // verus!
