//! Resetting the device.
//!
//! The caller makes the call that a `ResetDevice` asks for and then goes on with
//! `reset_step`, whether the call failed or not, until there is nothing more.

use crate::device::Request;
use crate::frontend::stopped_queue;
use crate::frontend::FrontendQueueState;
use crate::frontend::FrontendState;
use crate::frontend::VhostUserFrontend;
use crate::protocol::contains_flag;
use crate::protocol::PROTOCOL_F_RESET_DEVICE;
use vstd::prelude::*;

verus! {

/// What a reset is waiting for.
#[derive(Debug, Clone, Copy, PartialEq, Eq, Structural)]
pub enum ResetPhase {
    /// An answer to the request to disable a queue.
    Disable,
    /// An answer to the request that stops a queue.
    Base,
    /// An answer to the request to reset the backend.
    Device,
}

/// A reset under way.
#[derive(Debug, Clone, Copy, PartialEq, Eq, Structural)]
pub struct ResetDevice {
    /// Which queue is being stopped.
    pub idx: usize,
    /// What is waited for.
    pub phase: ResetPhase,
}

/// What came of a step.
#[derive(Debug, Clone, Copy, PartialEq, Eq, Structural)]
pub enum ResetStep {
    /// There is more to do.
    Next(ResetDevice),
    /// The device is reset.
    Done,
}

/// The first active queue at or behind `from`, or the queue count if there is
/// none.
pub open spec fn next_active(queues: Seq<FrontendQueueState>, from: nat) -> nat
    decreases queues.len() - from,
{
    if from >= queues.len() {
        queues.len()
    } else if queues[from as int].active {
        from
    } else {
        next_active(queues, from + 1)
    }
}

/// Whether every queue before `end` is stopped.
pub open spec fn stopped_before(s: FrontendState, end: int) -> bool {
    forall|i: int| 0 <= i < end && i < s.queues.len() ==> s.queues[i] == stopped_queue()
}

/// What holds of a reset under way: the queues that it has behind it are
/// stopped.
pub open spec fn reset_wf(s: FrontendState, v: ResetDevice) -> bool {
    &&& !(v.phase is Device) ==> v.idx < s.queues.len()
    &&& stopped_before(s, v.idx as int)
}

/// The state in which all queues are stopped and the guest has negotiated
/// nothing.
pub open spec fn features_cleared(s: FrontendState) -> FrontendState {
    FrontendState { guest_features_sent: false, packed_ring: false, ..s }
}

/// How a reset goes on when the queues before `from` are stopped.
pub open spec fn reset_from(s: FrontendState, from: nat) -> (FrontendState, ResetStep) {
    let idx = next_active(s.queues, from);
    if idx < s.queues.len() {
        (s, ResetStep::Next(ResetDevice { idx: idx as usize, phase: ResetPhase::Disable }))
    } else if contains_flag(s.protocol_features, PROTOCOL_F_RESET_DEVICE) {
        (
            features_cleared(s),
            ResetStep::Next(ResetDevice { idx: idx as usize, phase: ResetPhase::Device }),
        )
    } else {
        (features_cleared(s), ResetStep::Done)
    }
}

/// The call that is made in each phase.
pub open spec fn reset_request(v: ResetDevice) -> Request {
    match v.phase {
        ResetPhase::Disable => Request::SetVringEnable { index: v.idx, enable: false },
        ResetPhase::Base => Request::GetVringBase { index: v.idx },
        ResetPhase::Device => Request::ResetDevice,
    }
}

/// What follows the call of each phase.
pub open spec fn reset_next(s: FrontendState, v: ResetDevice) -> (FrontendState, ResetStep) {
    match v.phase {
        ResetPhase::Disable => (
            s,
            ResetStep::Next(ResetDevice { idx: v.idx, phase: ResetPhase::Base }),
        ),
        ResetPhase::Base => reset_from(
            s.with_queue(v.idx as int, stopped_queue()),
            v.idx as nat + 1,
        ),
        ResetPhase::Device => (s, ResetStep::Done),
    }
}

/// What `next_active` says of the queues that it passes and the one it finds.
pub proof fn lemma_next_active(queues: Seq<FrontendQueueState>, from: nat)
    ensures
        next_active(queues, from) <= queues.len(),
        from <= queues.len() ==> from <= next_active(queues, from),
        next_active(queues, from) < queues.len() ==> queues[next_active(
            queues,
            from,
        ) as int].active,
        forall|i: int| from <= i < next_active(queues, from) ==> !(#[trigger] queues[i]).active,
    decreases queues.len() - from,
{
    if from < queues.len() && !queues[from as int].active {
        lemma_next_active(queues, from + 1);
    }
}

impl ResetDevice {
    /// The call to make next.
    pub fn request(&self) -> (request: Request)
        ensures
            request == reset_request(*self),
    {
        match self.phase {
            ResetPhase::Disable => Request::SetVringEnable { index: self.idx, enable: false },
            ResetPhase::Base => Request::GetVringBase { index: self.idx },
            ResetPhase::Device => Request::ResetDevice,
        }
    }
}

impl VhostUserFrontend {
    /// Begins to reset the device: stops every active queue, forgets the
    /// features that the guest negotiated, and resets the backend if it can be.
    /// The memory table stays with the backend.
    pub fn reset(&mut self) -> (step: ResetStep)
        requires
            old(self)@.wf(),
        ensures
            (final(self)@, step) == reset_from(old(self)@, 0),
            final(self)@.wf(),
            step matches ResetStep::Next(next) ==> reset_wf(final(self)@, next),
    {
        self.reset_queues_from(0)
    }

    /// Goes on after the call of `reset` was made, whether it failed or not.
    pub fn reset_step(&mut self, reset: ResetDevice) -> (step: ResetStep)
        requires
            old(self)@.wf(),
            reset_wf(old(self)@, reset),
        ensures
            (final(self)@, step) == reset_next(old(self)@, reset),
            final(self)@.wf(),
            step matches ResetStep::Next(next) ==> reset_wf(final(self)@, next),
    {
        match reset.phase {
            ResetPhase::Disable => ResetStep::Next(
                ResetDevice { idx: reset.idx, phase: ResetPhase::Base },
            ),
            ResetPhase::Base => {
                self.set_queue(
                    reset.idx,
                    FrontendQueueState { active: false, params: None, event_proxy: false },
                );
                self.reset_queues_from(reset.idx + 1)
            },
            ResetPhase::Device => ResetStep::Done,
        }
    }

    /// Goes on with the first active queue at or behind `from`.
    fn reset_queues_from(&mut self, from: usize) -> (step: ResetStep)
        requires
            old(self)@.wf(),
            from <= old(self)@.queues.len(),
            stopped_before(old(self)@, from as int),
        ensures
            (final(self)@, step) == reset_from(old(self)@, from as nat),
            final(self)@.wf(),
            step matches ResetStep::Next(next) ==> reset_wf(final(self)@, next),
    {
        let count: usize = self.queue_count();
        let mut idx: usize = from;
        while idx < count && !self.queue(idx).active
            invariant
                from <= idx <= count,
                count == self@.queues.len(),
                next_active(self@.queues, from as nat) == next_active(self@.queues, idx as nat),
            decreases count - idx,
        {
            idx = idx + 1;
        }
        proof {
            lemma_next_active(self@.queues, from as nat);
            assert forall|i: int| 0 <= i < idx implies self@.queues[i] == stopped_queue() by {
                assert(self@.queue_wf(self@.queues[i]));
            }
        }
        if idx < count {
            return ResetStep::Next(ResetDevice { idx, phase: ResetPhase::Disable });
        }
        let can_reset: bool = self.can_reset_device();
        self.clear_guest_features();
        if can_reset {
            ResetStep::Next(ResetDevice { idx, phase: ResetPhase::Device })
        } else {
            ResetStep::Done
        }
    }
}

} // verus!
