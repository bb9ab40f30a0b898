//! Stopping a queue.
//!
//! The caller asks a `StopQueue` what to do, does it, and hands the outcome to
//! `stop_queue_step`, until that says where the queue stopped.

use crate::device::QueueState;
use crate::device::Request;
use crate::frontend::stopped_queue;
use crate::frontend::FrontendQueueState;
use crate::frontend::FrontendState;
use crate::frontend::VhostUserFrontend;
use crate::le::from_le_bytes;
use crate::le::le_value;
use crate::le::lemma_le_value_bound;
use crate::le::lemma_pow256;
use crate::wire_laws::law_two_byte_value;
use vstd::prelude::*;

verus! {

/// Offset of the index in a used ring, behind the flags.
pub const USED_INDEX_OFFSET: u64 = 2;

/// What the stop of a queue is waiting for.
#[derive(Debug, Clone, Copy, PartialEq, Eq, Structural)]
pub enum StopPhase {
    /// An answer to the request to disable the queue, so that the backend leaves
    /// kicks alone before the queue is torn down.
    Disable,
    /// The backend's last state of the queue, the request for which stops it.
    Base,
    /// The index in the used ring of a split queue.
    UsedRing,
}

/// The stop of a queue, under way.
#[derive(Debug, Clone, Copy, PartialEq, Eq, Structural)]
pub struct StopQueue {
    /// Which queue.
    pub idx: u16,
    /// What is waited for.
    pub phase: StopPhase,
    /// The available index that the backend reported, once it did.
    pub avail_index: u16,
}

/// What to do next in the stop of a queue.
#[derive(Debug, Clone, Copy, PartialEq, Eq)]
pub enum StopAction {
    /// Make a call to the backend.
    Call(Request),
    /// Read two bytes of guest memory.
    ReadUsedRing {
        /// Guest-physical address of the first.
        address: u64,
    },
}

/// The outcome of an action.
#[derive(Debug, Clone, Copy)]
pub enum StopReply {
    /// The request to disable the queue was answered, or failed.
    Disabled,
    /// The backend's last state of the queue, or `None` if the request failed.
    Base(Option<u32>),
    /// The two bytes, or `None` if guest memory could not be read.
    UsedRing(Option<[u8; 2]>),
}

/// What came of a step.
#[derive(Debug, Clone, Copy)]
pub enum StopStep {
    /// There is more to do.
    Next(StopQueue),
    /// The queue is stopped. Its last state is `None` if the backend could not
    /// be asked for it.
    Done(Option<QueueState>),
}

/// The index that was read from a used ring, or zero if it could not be read.
pub open spec fn used_index(read: Option<[u8; 2]>) -> u16 {
    match read {
        Some(bytes) => le_value(bytes@) as u16,
        None => 0,
    }
}

/// The two halves of a packed ring's state.
pub open spec fn packed_state(base: u32) -> QueueState {
    QueueState {
        avail_index: (base % 0x1_0000) as u16,
        used_index: (base / 0x1_0000) as u16,
    }
}

/// What holds of a stop under way: the queue is still active.
pub open spec fn stop_wf(s: FrontendState, v: StopQueue) -> bool {
    v.idx < s.queues.len() && s.queues[v.idx as int].active
}

/// What is done in each phase.
pub open spec fn stop_action(s: FrontendState, v: StopQueue) -> StopAction {
    let index = v.idx as usize;
    match v.phase {
        StopPhase::Disable => StopAction::Call(Request::SetVringEnable { index, enable: false }),
        StopPhase::Base => StopAction::Call(Request::GetVringBase { index }),
        StopPhase::UsedRing => StopAction::ReadUsedRing {
            address: (s.queues[v.idx as int].params->0.used_addr + USED_INDEX_OFFSET) as u64,
        },
    }
}

/// Whether `reply` is of the kind that the action of `phase` has.
pub open spec fn stop_reply_fits(phase: StopPhase, reply: StopReply) -> bool {
    match reply {
        StopReply::Disabled => phase is Disable,
        StopReply::Base(base) => phase is Base,
        StopReply::UsedRing(read) => phase is UsedRing,
    }
}

/// What comes of the outcome of the action of each phase.
///
/// The available index is the backend's. The used index is the backend's for a
/// packed ring, and what the guest sees in the used ring for a split one.
pub open spec fn stop_step(
    s: FrontendState,
    v: StopQueue,
    reply: StopReply,
) -> (FrontendState, StopStep) {
    let stopped = s.with_queue(v.idx as int, stopped_queue());
    match reply {
        StopReply::Disabled => (s, StopStep::Next(StopQueue { phase: StopPhase::Base, ..v })),
        StopReply::Base(None) => (stopped, StopStep::Done(None)),
        StopReply::Base(Some(base)) => if s.packed_ring {
            (stopped, StopStep::Done(Some(packed_state(base))))
        } else {
            (
                s,
                StopStep::Next(
                    StopQueue {
                        phase: StopPhase::UsedRing,
                        avail_index: (base % 0x1_0000) as u16,
                        ..v
                    },
                ),
            )
        },
        StopReply::UsedRing(read) => (
            stopped,
            StopStep::Done(
                Some(
                    QueueState { avail_index: v.avail_index, used_index: used_index(read) },
                ),
            ),
        ),
    }
}

/// The index in a used ring, of which `read` holds two bytes, or zero if they
/// could not be read.
pub fn read_used_index(read: Option<[u8; 2]>) -> (index: u16)
    ensures
        index == used_index(read),
        match read {
            Some(bytes) => index == bytes[0] + 256 * bytes[1],
            None => index == 0,
        },
{
    match read {
        Some(bytes) => {
            proof {
                law_two_byte_value(bytes@);
                lemma_le_value_bound(bytes@);
                lemma_pow256();
            }
            from_le_bytes(bytes.as_slice()) as u16
        },
        None => 0,
    }
}

impl StopQueue {
    /// What to do next.
    pub fn action(&self, frontend: &VhostUserFrontend) -> (action: StopAction)
        requires
            frontend@.wf(),
            stop_wf(frontend@, *self),
        ensures
            action == stop_action(frontend@, *self),
    {
        let index: usize = self.idx as usize;
        match self.phase {
            StopPhase::Disable => StopAction::Call(
                Request::SetVringEnable { index, enable: false },
            ),
            StopPhase::Base => StopAction::Call(Request::GetVringBase { index }),
            StopPhase::UsedRing => {
                let queue: FrontendQueueState = frontend.queue(index);
                assert(frontend@.queue_wf(queue));
                match queue.params {
                    Some(params) => StopAction::ReadUsedRing {
                        address: params.used_addr + USED_INDEX_OFFSET,
                    },
                    None => StopAction::ReadUsedRing { address: USED_INDEX_OFFSET },
                }
            },
        }
    }
}

impl VhostUserFrontend {
    /// Begins to stop a queue. There is nothing to stop if the frontend has no
    /// such queue, or it does not run.
    pub fn stop_queue(&self, idx: u16) -> (stop: Option<StopQueue>)
        ensures
            stop == (if idx < self@.queues.len() && self@.queues[idx as int].active {
                Some(StopQueue { idx, phase: StopPhase::Disable, avail_index: 0 })
            } else {
                None
            }),
    {
        let index: usize = idx as usize;
        if index >= self.queue_count() {
            return None;
        }
        if !self.queue(index).active {
            return None;
        }
        Some(StopQueue { idx, phase: StopPhase::Disable, avail_index: 0 })
    }

    /// Goes on with the outcome of the action of `stop`.
    pub fn stop_queue_step(&mut self, stop: StopQueue, reply: StopReply) -> (step: StopStep)
        requires
            old(self)@.wf(),
            stop_wf(old(self)@, stop),
            stop_reply_fits(stop.phase, reply),
        ensures
            (final(self)@, step) == stop_step(old(self)@, stop, reply),
            final(self)@.wf(),
            step matches StopStep::Next(next) ==> stop_wf(final(self)@, next),
    {
        let state: Option<QueueState> = match reply {
            StopReply::Disabled => {
                return StopStep::Next(
                    StopQueue {
                        idx: stop.idx,
                        phase: StopPhase::Base,
                        avail_index: stop.avail_index,
                    },
                );
            },
            StopReply::Base(None) => None,
            StopReply::Base(Some(base)) => {
                let avail_index: u16 = (base % 0x1_0000) as u16;
                if !self.packed_ring() {
                    return StopStep::Next(
                        StopQueue { idx: stop.idx, phase: StopPhase::UsedRing, avail_index },
                    );
                }
                Some(QueueState { avail_index, used_index: (base / 0x1_0000) as u16 })
            },
            StopReply::UsedRing(read) => Some(
                QueueState { avail_index: stop.avail_index, used_index: read_used_index(read) },
            ),
        };
        self.set_queue(
            stop.idx as usize,
            FrontendQueueState { active: false, params: None, event_proxy: false },
        );
        StopStep::Done(state)
    }
}

} // verus!
