//! Starting a queue.
//!
//! The caller asks a `StartQueue` what to do, does it, and hands the outcome to
//! `start_queue_step`, until that says that the queue runs or cannot.

use crate::device::MemoryRegionInfo;
use crate::device::QueueParams;
use crate::device::QueueState;
use crate::device::Request;
use crate::device::ShareableRegion;
use crate::device::VringConfigData;
use crate::error::CallName;
use crate::error::FrontendError;
use crate::frontend::params_translatable;
use crate::frontend::translatable;
use crate::frontend::FrontendQueueState;
use crate::frontend::FrontendState;
use crate::frontend::VhostUserFrontend;
use crate::frontend::GPA_TO_VA_OFFSET;
use crate::protocol::contains_flag;
use crate::protocol::VHOST_USER_F_PROTOCOL_FEATURES;
use crate::protocol::VIRTIO_F_RING_PACKED;
use vstd::prelude::*;

verus! {

/// What the start of a queue is waiting for.
#[derive(Debug, Clone, Copy, PartialEq, Eq, Structural)]
pub enum StartPhase {
    /// The regions of guest memory that can be shared.
    Regions,
    /// Word that the memory table was sent.
    MemTable,
    /// Word that the guest's features were sent.
    Features,
    /// Word that the queue size was sent.
    VringNum,
    /// Word that the ring addresses were sent.
    VringAddr,
    /// Word that the initial ring state was sent.
    VringBase,
    /// A duplicate of the kick event.
    KickEvent,
    /// Word that the kick event was sent.
    VringKick,
    /// An event for the queue's interrupt.
    Interrupt,
    /// A duplicate of the interrupt event.
    InterruptEvent,
    /// Word that the interrupt event was sent.
    VringCall,
    /// Word that the queue was enabled.
    VringEnable,
}

impl StartPhase {
    /// How far along a phase is.
    pub open spec fn rank(self) -> int {
        match self {
            StartPhase::Regions => 0,
            StartPhase::MemTable => 1,
            StartPhase::Features => 2,
            StartPhase::VringNum => 3,
            StartPhase::VringAddr => 4,
            StartPhase::VringBase => 5,
            StartPhase::KickEvent => 6,
            StartPhase::VringKick => 7,
            StartPhase::Interrupt => 8,
            StartPhase::InterruptEvent => 9,
            StartPhase::VringCall => 10,
            StartPhase::VringEnable => 11,
        }
    }
}

/// The start of a queue, under way.
#[derive(Debug)]
pub struct StartQueue {
    idx: u16,
    params: QueueParams,
    features: u64,
    initial_state: Option<QueueState>,
    phase: StartPhase,
    table: Vec<MemoryRegionInfo>,
    event_proxy: bool,
}

/// The state of a `StartQueue`.
pub struct StartView {
    /// Which queue.
    pub idx: u16,
    /// Where the queue lies.
    pub params: QueueParams,
    /// The features that the guest negotiated with the transport.
    pub features: u64,
    /// The state to go on from, if the queue ran before.
    pub initial_state: Option<QueueState>,
    /// What is waited for.
    pub phase: StartPhase,
    /// The memory table, while it is being sent.
    pub table: Seq<MemoryRegionInfo>,
    /// Whether the interrupt needed a proxy, once known.
    pub event_proxy: bool,
}

/// What to do next in the start of a queue.
#[derive(Debug)]
pub enum StartAction<'a> {
    /// Get the regions of guest memory that can be shared.
    ShareMemory,
    /// Send this memory table, with the file of each region.
    SetMemTable(&'a [MemoryRegionInfo]),
    /// Make a call to the backend.
    Call(Request),
    /// Duplicate the queue's kick event.
    DuplicateKickEvent,
    /// Get the event behind the queue's interrupt, or a new one with a proxy
    /// that delivers the interrupt.
    PrepareInterrupt,
    /// Duplicate the event for the queue's interrupt.
    DuplicateInterruptEvent,
}

/// What is to be done in the start of a queue.
pub enum StartActionView {
    /// Get the regions of guest memory that can be shared.
    ShareMemory,
    /// Send a memory table.
    SetMemTable(Seq<MemoryRegionInfo>),
    /// Make a call to the backend.
    Call(Request),
    /// Duplicate the queue's kick event.
    DuplicateKickEvent,
    /// Get an event for the queue's interrupt.
    PrepareInterrupt,
    /// Duplicate the event for the queue's interrupt.
    DuplicateInterruptEvent,
}

/// The outcome of an action that did not fail.
#[derive(Debug)]
pub enum StartReply {
    /// Guest memory cannot be shared.
    NotShareable,
    /// The regions that can be shared.
    Regions(Vec<ShareableRegion>),
    /// There is an event for the interrupt.
    Interrupt {
        /// Whether it took a proxy.
        event_proxy: bool,
    },
    /// It was done, and there is no more to say.
    Done,
}

/// The outcome of an action that did not fail.
pub enum StartReplyView {
    /// Guest memory cannot be shared.
    NotShareable,
    /// The regions that can be shared.
    Regions(Seq<ShareableRegion>),
    /// There is an event for the interrupt.
    Interrupt {
        /// Whether it took a proxy.
        event_proxy: bool,
    },
    /// It was done, and there is no more to say.
    Done,
}

/// What came of a step.
#[derive(Debug)]
pub enum StartStep<E> {
    /// There is more to do.
    Next(StartQueue),
    /// The queue runs, or cannot.
    Done(Result<(), FrontendError<E>>),
}

/// What comes of a step.
pub enum StartOutcome<E> {
    /// There is more to do.
    Next(StartView),
    /// The queue runs, or cannot.
    Done(Result<(), FrontendError<E>>),
}

impl View for StartQueue {
    type V = StartView;

    closed spec fn view(&self) -> StartView {
        StartView {
            idx: self.idx,
            params: self.params,
            features: self.features,
            initial_state: self.initial_state,
            phase: self.phase,
            table: self.table@,
            event_proxy: self.event_proxy,
        }
    }
}

impl View for StartAction<'_> {
    type V = StartActionView;

    open spec fn view(&self) -> StartActionView {
        match *self {
            StartAction::ShareMemory => StartActionView::ShareMemory,
            StartAction::SetMemTable(table) => StartActionView::SetMemTable(table@),
            StartAction::Call(request) => StartActionView::Call(request),
            StartAction::DuplicateKickEvent => StartActionView::DuplicateKickEvent,
            StartAction::PrepareInterrupt => StartActionView::PrepareInterrupt,
            StartAction::DuplicateInterruptEvent => StartActionView::DuplicateInterruptEvent,
        }
    }
}

impl View for StartReply {
    type V = StartReplyView;

    open spec fn view(&self) -> StartReplyView {
        match *self {
            StartReply::NotShareable => StartReplyView::NotShareable,
            StartReply::Regions(regions) => StartReplyView::Regions(regions@),
            StartReply::Interrupt { event_proxy } => StartReplyView::Interrupt { event_proxy },
            StartReply::Done => StartReplyView::Done,
        }
    }
}

impl<E> View for StartStep<E> {
    type V = StartOutcome<E>;

    open spec fn view(&self) -> StartOutcome<E> {
        match *self {
            StartStep::Next(start) => StartOutcome::Next(start@),
            StartStep::Done(result) => StartOutcome::Done(result),
        }
    }
}

/// The outcome of an action, failed or not.
pub open spec fn start_reply_view<E>(reply: Result<StartReply, E>) -> Result<StartReplyView, E> {
    match reply {
        Ok(reply) => Ok(reply@),
        Err(error) => Err(error),
    }
}

/// The entry for a region in the memory table.
pub open spec fn region_info(region: ShareableRegion) -> MemoryRegionInfo {
    MemoryRegionInfo {
        guest_phys_addr: region.guest_address,
        memory_size: region.size,
        userspace_addr: (region.guest_address + GPA_TO_VA_OFFSET) as u64,
        mmap_offset: region.file_offset,
        mmap_handle: region.file,
    }
}

/// The memory table for a list of regions.
pub open spec fn mem_table(regions: Seq<ShareableRegion>) -> Seq<MemoryRegionInfo> {
    Seq::new(regions.len(), |i: int| region_info(regions[i]))
}

/// The features that are in effect: those of the guest that the backend
/// advertised. The transport may have offered others of its own.
pub open spec fn effective_features(s: FrontendState, features: u64) -> u64 {
    features & s.device_features_raw
}

/// The features that the backend is told: those in effect, and no others. If the
/// backend has protocol features, their own bit stays among them, since its
/// absence would be taken for de-negotiation.
pub open spec fn wire_features(s: FrontendState, features: u64) -> u64 {
    if contains_flag(s.device_features_raw, VHOST_USER_F_PROTOCOL_FEATURES) {
        effective_features(s, features) | VHOST_USER_F_PROTOCOL_FEATURES
    } else {
        effective_features(s, features)
    }
}

/// The available index that a queue starts from. A packed ring that never ran
/// starts with its wrap counter, bit 15, at one.
pub open spec fn start_avail(packed_ring: bool, initial_state: Option<QueueState>) -> u16 {
    match initial_state {
        Some(state) => state.avail_index,
        None => if packed_ring {
            0x8000
        } else {
            0
        },
    }
}

/// The used index that a packed ring starts from.
pub open spec fn start_used(initial_state: Option<QueueState>) -> u16 {
    match initial_state {
        Some(state) => state.used_index,
        None => 0x8000,
    }
}

/// A packed ring's state in 32 bits: the available index and its wrap counter in
/// the low half, the used index and its wrap counter in the high half.
pub open spec fn packed_base(avail: u16, used: u16) -> u32 {
    (avail + used * 0x1_0000) as u32
}

/// Addresses of the rings of a queue, in the coordinates of the memory table.
pub open spec fn vring_config(params: QueueParams) -> VringConfigData {
    VringConfigData {
        queue_max_size: params.size,
        queue_size: params.size,
        flags: 0,
        desc_table_addr: (params.desc_addr + GPA_TO_VA_OFFSET) as u64,
        used_ring_addr: (params.used_addr + GPA_TO_VA_OFFSET) as u64,
        avail_ring_addr: (params.avail_addr + GPA_TO_VA_OFFSET) as u64,
        log_addr: None,
    }
}

/// The request that tells the backend where a queue goes on from.
pub open spec fn base_request(
    packed_ring: bool,
    index: usize,
    initial_state: Option<QueueState>,
) -> Request {
    let avail = start_avail(packed_ring, initial_state);
    if packed_ring {
        Request::SetVringBaseRaw { index, state: packed_base(avail, start_used(initial_state)) }
    } else {
        Request::SetVringBase { index, base: avail }
    }
}

/// Where the start of a queue begins: the memory table and the guest's features
/// are sent only if they were not yet.
pub open spec fn first_phase(s: FrontendState) -> StartPhase {
    if !s.mem_table_sent {
        StartPhase::Regions
    } else {
        phase_after_mem_table(s)
    }
}

/// What follows the memory table.
pub open spec fn phase_after_mem_table(s: FrontendState) -> StartPhase {
    if !s.guest_features_sent {
        StartPhase::Features
    } else {
        StartPhase::VringNum
    }
}

/// The start of a queue, before anything was done.
pub open spec fn start_begin(
    s: FrontendState,
    idx: u16,
    params: QueueParams,
    features: u64,
    initial_state: Option<QueueState>,
) -> StartView {
    StartView {
        idx,
        params,
        features,
        initial_state,
        phase: first_phase(s),
        table: Seq::empty(),
        event_proxy: false,
    }
}

/// What holds of a start under way: what its phase has behind it was done.
pub open spec fn start_wf(s: FrontendState, v: StartView) -> bool {
    &&& v.phase.rank() > StartPhase::MemTable.rank() ==> s.mem_table_sent
    &&& v.phase.rank() > StartPhase::Features.rank() ==> s.guest_features_sent
    &&& v.phase.rank() > StartPhase::VringNum.rank() ==> params_translatable(v.params)
}

/// What is done in each phase.
pub open spec fn start_action(s: FrontendState, v: StartView) -> StartActionView {
    let index = v.idx as usize;
    match v.phase {
        StartPhase::Regions => StartActionView::ShareMemory,
        StartPhase::MemTable => StartActionView::SetMemTable(v.table),
        StartPhase::Features => StartActionView::Call(
            Request::SetFeatures(wire_features(s, v.features)),
        ),
        StartPhase::VringNum => StartActionView::Call(
            Request::SetVringNum { index, size: v.params.size },
        ),
        StartPhase::VringAddr => StartActionView::Call(
            Request::SetVringAddr { index, config: vring_config(v.params) },
        ),
        StartPhase::VringBase => StartActionView::Call(
            base_request(s.packed_ring, index, v.initial_state),
        ),
        StartPhase::KickEvent => StartActionView::DuplicateKickEvent,
        StartPhase::VringKick => StartActionView::Call(Request::SetVringKick { index }),
        StartPhase::Interrupt => StartActionView::PrepareInterrupt,
        StartPhase::InterruptEvent => StartActionView::DuplicateInterruptEvent,
        StartPhase::VringCall => StartActionView::Call(Request::SetVringCall { index }),
        StartPhase::VringEnable => StartActionView::Call(
            Request::SetVringEnable { index, enable: true },
        ),
    }
}

/// What it means that the action of a phase failed.
pub open spec fn start_error<E>(phase: StartPhase, source: E) -> FrontendError<E> {
    match phase {
        StartPhase::Regions => FrontendError::Regions(source),
        StartPhase::MemTable => FrontendError::Call { call: CallName::SetMemTable, source },
        StartPhase::Features => FrontendError::Call { call: CallName::SetFeatures, source },
        StartPhase::VringNum => FrontendError::Call { call: CallName::SetVringNum, source },
        StartPhase::VringAddr => FrontendError::Call { call: CallName::SetVringAddr, source },
        StartPhase::VringBase => FrontendError::Call { call: CallName::SetVringBase, source },
        StartPhase::KickEvent => FrontendError::KickEvent(source),
        StartPhase::VringKick => FrontendError::Call { call: CallName::SetVringKick, source },
        StartPhase::Interrupt => FrontendError::Interrupt(source),
        StartPhase::InterruptEvent => FrontendError::InterruptEvent(source),
        StartPhase::VringCall => FrontendError::Call { call: CallName::SetVringCall, source },
        StartPhase::VringEnable => FrontendError::Call { call: CallName::SetVringEnable, source },
    }
}

/// Whether `reply` is of the kind that the action of `phase` has.
pub open spec fn start_reply_fits<E>(
    phase: StartPhase,
    reply: Result<StartReplyView, E>,
) -> bool {
    match reply {
        Ok(StartReplyView::NotShareable) => phase is Regions,
        Ok(StartReplyView::Regions(regions)) => phase is Regions,
        Ok(StartReplyView::Interrupt { event_proxy }) => phase is Interrupt,
        Ok(StartReplyView::Done) => !(phase is Regions || phase is Interrupt),
        Err(error) => true,
    }
}

/// Whether every region can be expressed in the protocol's coordinates.
pub open spec fn regions_translatable(regions: Seq<ShareableRegion>) -> bool {
    forall|i: int| 0 <= i < regions.len() ==> translatable((#[trigger] regions[i]).guest_address)
}

/// Whether the addresses that `reply` lets the start go on to can be expressed
/// in the protocol's coordinates.
pub open spec fn start_reply_translatable<E>(
    v: StartView,
    reply: Result<StartReplyView, E>,
) -> bool {
    match reply {
        Ok(StartReplyView::Regions(regions)) => regions_translatable(regions),
        Ok(StartReplyView::Done) => v.phase is VringNum ==> params_translatable(v.params),
        _ => true,
    }
}

/// The tracking state of a queue that was started.
pub open spec fn started_queue(v: StartView) -> FrontendQueueState {
    FrontendQueueState { active: true, params: Some(v.params), event_proxy: v.event_proxy }
}

/// The phase that follows one whose action has nothing to report. (The last one
/// is followed by none.)
pub open spec fn next_phase(s: FrontendState, phase: StartPhase) -> StartPhase {
    match phase {
        StartPhase::Regions => StartPhase::MemTable,
        StartPhase::MemTable => phase_after_mem_table(s),
        StartPhase::Features => StartPhase::VringNum,
        StartPhase::VringNum => StartPhase::VringAddr,
        StartPhase::VringAddr => StartPhase::VringBase,
        StartPhase::VringBase => StartPhase::KickEvent,
        StartPhase::KickEvent => StartPhase::VringKick,
        StartPhase::VringKick => StartPhase::Interrupt,
        StartPhase::Interrupt => StartPhase::InterruptEvent,
        StartPhase::InterruptEvent => StartPhase::VringCall,
        StartPhase::VringCall => StartPhase::VringEnable,
        StartPhase::VringEnable => StartPhase::VringEnable,
    }
}

/// The state of the frontend after the action of a phase was done.
pub open spec fn state_after(s: FrontendState, v: StartView) -> FrontendState {
    match v.phase {
        StartPhase::MemTable => FrontendState { mem_table_sent: true, guest_memory: true, ..s },
        StartPhase::Features => FrontendState {
            guest_features_sent: true,
            packed_ring: contains_flag(effective_features(s, v.features), VIRTIO_F_RING_PACKED),
            ..s
        },
        StartPhase::VringEnable => if v.idx < s.queues.len() {
            s.with_queue(v.idx as int, started_queue(v))
        } else {
            s
        },
        _ => s,
    }
}

/// What comes of the outcome of the action of each phase.
pub open spec fn start_step<E>(
    s: FrontendState,
    v: StartView,
    reply: Result<StartReplyView, E>,
) -> (FrontendState, StartOutcome<E>) {
    match reply {
        Err(source) => (s, StartOutcome::Done(Err(start_error(v.phase, source)))),
        Ok(StartReplyView::NotShareable) => (
            s,
            StartOutcome::Done(Err(FrontendError::NotShareable)),
        ),
        Ok(StartReplyView::Regions(regions)) => (
            s,
            StartOutcome::Next(
                StartView { phase: StartPhase::MemTable, table: mem_table(regions), ..v },
            ),
        ),
        Ok(StartReplyView::Interrupt { event_proxy }) => (
            s,
            StartOutcome::Next(StartView { phase: StartPhase::InterruptEvent, event_proxy, ..v }),
        ),
        Ok(StartReplyView::Done) => (
            state_after(s, v),
            if v.phase is VringEnable {
                StartOutcome::Done(Ok(()))
            } else {
                StartOutcome::Next(StartView { phase: next_phase(s, v.phase), ..v })
            },
        ),
    }
}

/// The memory table for a list of regions.
fn build_mem_table(regions: &Vec<ShareableRegion>) -> (table: Vec<MemoryRegionInfo>)
    requires
        regions_translatable(regions@),
    ensures
        table@ == mem_table(regions@),
{
    let mut table: Vec<MemoryRegionInfo> = Vec::with_capacity(regions.len());
    let mut i: usize = 0;
    while i < regions.len()
        invariant
            i <= regions@.len(),
            table@ == mem_table(regions@.take(i as int)),
            regions_translatable(regions@),
        decreases regions@.len() - i,
    {
        let region: ShareableRegion = regions[i];
        assert(translatable(regions@[i as int].guest_address));
        table.push(
            MemoryRegionInfo {
                guest_phys_addr: region.guest_address,
                memory_size: region.size,
                userspace_addr: region.guest_address + GPA_TO_VA_OFFSET,
                mmap_offset: region.file_offset,
                mmap_handle: region.file,
            },
        );
        i = i + 1;
        assert(table@ =~= mem_table(regions@.take(i as int)));
    }
    assert(regions@.take(regions@.len() as int) =~= regions@);
    table
}

impl StartQueue {
    /// Which queue is being started.
    pub fn index(&self) -> (idx: u16)
        ensures
            idx == self@.idx,
    {
        self.idx
    }

    /// What to do next.
    pub fn action(&self, frontend: &VhostUserFrontend) -> (action: StartAction<'_>)
        requires
            start_wf(frontend@, self@),
        ensures
            action@ == start_action(frontend@, self@),
    {
        let index: usize = self.idx as usize;
        match self.phase {
            StartPhase::Regions => StartAction::ShareMemory,
            StartPhase::MemTable => StartAction::SetMemTable(self.table.as_slice()),
            StartPhase::Features => {
                let raw: u64 = frontend.device_features_raw();
                let negotiated: u64 = self.features & raw;
                let on_wire: u64 = if contains_flag(raw, VHOST_USER_F_PROTOCOL_FEATURES) {
                    negotiated | VHOST_USER_F_PROTOCOL_FEATURES
                } else {
                    negotiated
                };
                StartAction::Call(Request::SetFeatures(on_wire))
            },
            StartPhase::VringNum => StartAction::Call(
                Request::SetVringNum { index, size: self.params.size },
            ),
            StartPhase::VringAddr => StartAction::Call(
                Request::SetVringAddr {
                    index,
                    config: VringConfigData {
                        queue_max_size: self.params.size,
                        queue_size: self.params.size,
                        flags: 0,
                        desc_table_addr: self.params.desc_addr + GPA_TO_VA_OFFSET,
                        used_ring_addr: self.params.used_addr + GPA_TO_VA_OFFSET,
                        avail_ring_addr: self.params.avail_addr + GPA_TO_VA_OFFSET,
                        log_addr: None,
                    },
                },
            ),
            StartPhase::VringBase => {
                let packed_ring: bool = frontend.packed_ring();
                let avail: u16 = match self.initial_state {
                    Some(state) => state.avail_index,
                    None => if packed_ring {
                        0x8000
                    } else {
                        0
                    },
                };
                if packed_ring {
                    let used: u16 = match self.initial_state {
                        Some(state) => state.used_index,
                        None => 0x8000,
                    };
                    StartAction::Call(
                        Request::SetVringBaseRaw {
                            index,
                            state: avail as u32 + used as u32 * 0x1_0000,
                        },
                    )
                } else {
                    StartAction::Call(Request::SetVringBase { index, base: avail })
                }
            },
            StartPhase::KickEvent => StartAction::DuplicateKickEvent,
            StartPhase::VringKick => StartAction::Call(Request::SetVringKick { index }),
            StartPhase::Interrupt => StartAction::PrepareInterrupt,
            StartPhase::InterruptEvent => StartAction::DuplicateInterruptEvent,
            StartPhase::VringCall => StartAction::Call(Request::SetVringCall { index }),
            StartPhase::VringEnable => StartAction::Call(
                Request::SetVringEnable { index, enable: true },
            ),
        }
    }

    /// What it means that the action failed.
    fn error<E>(&self, source: E) -> (error: FrontendError<E>)
        ensures
            error == start_error(self@.phase, source),
    {
        match self.phase {
            StartPhase::Regions => FrontendError::Regions(source),
            StartPhase::MemTable => FrontendError::Call { call: CallName::SetMemTable, source },
            StartPhase::Features => FrontendError::Call { call: CallName::SetFeatures, source },
            StartPhase::VringNum => FrontendError::Call { call: CallName::SetVringNum, source },
            StartPhase::VringAddr => FrontendError::Call { call: CallName::SetVringAddr, source },
            StartPhase::VringBase => FrontendError::Call { call: CallName::SetVringBase, source },
            StartPhase::KickEvent => FrontendError::KickEvent(source),
            StartPhase::VringKick => FrontendError::Call { call: CallName::SetVringKick, source },
            StartPhase::Interrupt => FrontendError::Interrupt(source),
            StartPhase::InterruptEvent => FrontendError::InterruptEvent(source),
            StartPhase::VringCall => FrontendError::Call { call: CallName::SetVringCall, source },
            StartPhase::VringEnable => FrontendError::Call {
                call: CallName::SetVringEnable,
                source,
            },
        }
    }
}

impl VhostUserFrontend {
    /// Begins to start a queue.
    ///
    /// `features` are those that the guest negotiated with the transport, and
    /// `initial_state` is where the queue goes on from if it ran before.
    pub fn start_queue(
        &self,
        idx: u16,
        params: QueueParams,
        features: u64,
        initial_state: Option<QueueState>,
    ) -> (start: StartQueue)
        ensures
            start@ == start_begin(self@, idx, params, features, initial_state),
            start_wf(self@, start@),
    {
        let phase: StartPhase = if !self.mem_table_sent() {
            StartPhase::Regions
        } else if !self.guest_features_sent() {
            StartPhase::Features
        } else {
            StartPhase::VringNum
        };
        let table: Vec<MemoryRegionInfo> = Vec::new();
        StartQueue { idx, params, features, initial_state, phase, table, event_proxy: false }
    }

    /// Goes on with the outcome of the action of `start`.
    pub fn start_queue_step<E>(
        &mut self,
        start: StartQueue,
        reply: Result<StartReply, E>,
    ) -> (step: StartStep<E>)
        requires
            old(self)@.wf(),
            start_wf(old(self)@, start@),
            start_reply_fits(start@.phase, start_reply_view(reply)),
            start_reply_translatable(start@, start_reply_view(reply)),
        ensures
            (final(self)@, step@) == start_step(old(self)@, start@, start_reply_view(reply)),
            final(self)@.wf(),
            step matches StartStep::Next(next) ==> start_wf(final(self)@, next@),
            start@.phase is Features && reply is Ok ==> (final(self)@.packed_ring
                <==> start@.features & old(self)@.device_features_raw & 0x4_0000_0000 != 0),
    {
        let mut start = start;
        match reply {
            Err(source) => StartStep::Done(Err(start.error(source))),
            Ok(StartReply::NotShareable) => StartStep::Done(Err(FrontendError::NotShareable)),
            Ok(StartReply::Regions(regions)) => {
                start.table = build_mem_table(&regions);
                start.phase = StartPhase::MemTable;
                StartStep::Next(start)
            },
            Ok(StartReply::Interrupt { event_proxy }) => {
                start.event_proxy = event_proxy;
                start.phase = StartPhase::InterruptEvent;
                StartStep::Next(start)
            },
            Ok(StartReply::Done) => {
                let features_sent: bool = self.guest_features_sent();
                let next: StartPhase = match start.phase {
                    StartPhase::Regions => StartPhase::MemTable,
                    StartPhase::MemTable => {
                        self.set_mem_table_sent();
                        if !features_sent {
                            StartPhase::Features
                        } else {
                            StartPhase::VringNum
                        }
                    },
                    StartPhase::Features => {
                        let negotiated: u64 = start.features & self.device_features_raw();
                        assert(negotiated & 0x4_0000_0000 == 0x4_0000_0000 <==> negotiated
                            & 0x4_0000_0000 != 0) by (bit_vector);
                        self.set_guest_features_sent(
                            contains_flag(negotiated, VIRTIO_F_RING_PACKED),
                        );
                        StartPhase::VringNum
                    },
                    StartPhase::VringNum => StartPhase::VringAddr,
                    StartPhase::VringAddr => StartPhase::VringBase,
                    StartPhase::VringBase => StartPhase::KickEvent,
                    StartPhase::KickEvent => StartPhase::VringKick,
                    StartPhase::VringKick => StartPhase::Interrupt,
                    StartPhase::Interrupt => StartPhase::InterruptEvent,
                    StartPhase::InterruptEvent => StartPhase::VringCall,
                    StartPhase::VringCall => StartPhase::VringEnable,
                    StartPhase::VringEnable => {
                        let index: usize = start.idx as usize;
                        if index < self.queue_count() {
                            self.set_queue(
                                index,
                                FrontendQueueState {
                                    active: true,
                                    params: Some(start.params),
                                    event_proxy: start.event_proxy,
                                },
                            );
                        }
                        return StartStep::Done(Ok(()));
                    },
                };
                start.phase = next;
                StartStep::Next(start)
            },
        }
    }
}

} // verus!
