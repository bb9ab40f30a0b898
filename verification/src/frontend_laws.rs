//! What holds of the frontend's operations as a whole.

use crate::device::ConfigPatch;
use crate::device::ConfigView;
use crate::device::QueueParams;
use crate::device::QueueState;
use crate::device::Request;
use crate::device::ShareableRegion;
use crate::error::FrontendError;
use crate::frontend::covers;
use crate::frontend::patched_byte;
use crate::frontend::register_bytes;
use crate::frontend::stopped_queue;
use crate::frontend::translatable;
use crate::frontend::FrontendQueueState;
use crate::frontend::FrontendState;
use crate::frontend::GPA_TO_VA_OFFSET;
use crate::frontend::REGISTER_WIDTH;
use crate::handshake::handshake_action;
use crate::handshake::handshake_finish;
use crate::handshake::handshake_step;
use crate::handshake::wanted_features;
use crate::handshake::HandshakeAction;
use crate::handshake::HandshakeOutcome;
use crate::handshake::HandshakePhase;
use crate::handshake::HandshakeReply;
use crate::handshake::HandshakeView;
use crate::protocol::contains_flag;
use crate::protocol::NEED_REPLY;
use crate::protocol::PROTOCOL_F_CONFIG;
use crate::protocol::PROTOCOL_F_MQ;
use crate::protocol::PROTOCOL_F_REPLY_ACK;
use crate::protocol::PROTOCOL_F_RESET_DEVICE;
use crate::protocol::VHOST_USER_F_PROTOCOL_FEATURES;
use crate::protocol::VIRTIO_F_RING_PACKED;
use crate::reset::lemma_next_active;
use crate::reset::next_active;
use crate::reset::reset_from;
use crate::reset::reset_next;
use crate::reset::reset_request;
use crate::reset::ResetDevice;
use crate::reset::ResetPhase;
use crate::reset::ResetStep;
use crate::start::base_request;
use crate::start::effective_features;
use crate::start::first_phase;
use crate::start::mem_table;
use crate::start::packed_base;
use crate::start::phase_after_mem_table;
use crate::start::region_info;
use crate::start::start_action;
use crate::start::start_begin;
use crate::start::start_reply_fits;
use crate::start::start_step;
use crate::start::vring_config;
use crate::start::wire_features;
use crate::start::StartActionView;
use crate::start::StartOutcome;
use crate::start::StartPhase;
use crate::start::StartReplyView;
use crate::start::StartView;
use crate::stop::packed_state;
use crate::stop::stop_action;
use crate::stop::stop_step;
use crate::stop::stop_wf;
use crate::stop::used_index;
use crate::stop::StopAction;
use crate::stop::StopPhase;
use crate::stop::StopQueue;
use crate::stop::StopReply;
use crate::stop::StopStep;
use crate::stop::USED_INDEX_OFFSET;
use vstd::prelude::*;

verus! {

/// What a backend answers that never fails.
pub struct Answers {
    /// Its features.
    pub features: u64,
    /// Its protocol features.
    pub protocol_features: u64,
    /// Its queue count.
    pub queue_num: u64,
}

/// The answer in each phase of a handshake.
pub open spec fn handshake_answer(answers: Answers, phase: HandshakePhase) -> HandshakeReply {
    match phase {
        HandshakePhase::Features => HandshakeReply::Value(answers.features),
        HandshakePhase::ProtocolFeatures => HandshakeReply::Value(answers.protocol_features),
        HandshakePhase::QueueNum => HandshakeReply::Value(answers.queue_num),
        _ => HandshakeReply::Done,
    }
}

/// How many phases may follow.
pub open spec fn phases_after(phase: HandshakePhase) -> nat {
    match phase {
        HandshakePhase::Features => 5,
        HandshakePhase::ProtocolFeatures => 4,
        HandshakePhase::ProtocolFeaturesSet => 3,
        HandshakePhase::HeaderFlags => 2,
        HandshakePhase::Owner => 1,
        HandshakePhase::QueueNum => 0,
    }
}

/// A handshake with a backend that never fails: what is done, and what comes of
/// it.
pub open spec fn handshake_run<E>(v: HandshakeView, answers: Answers) -> (
    Seq<HandshakeAction>,
    HandshakeOutcome<E>,
)
    decreases phases_after(v.phase),
{
    match handshake_step::<E>(v, Ok(handshake_answer(answers, v.phase))) {
        HandshakeOutcome::Next(next) => {
            let rest = handshake_run::<E>(next, answers);
            (seq![handshake_action(v)] + rest.0, rest.1)
        },
        end => (seq![handshake_action(v)], end),
    }
}

/// The protocol features that are negotiated with a backend.
pub open spec fn negotiated_features(use_backend_config: bool, answers: Answers) -> u64 {
    if contains_flag(answers.features, VHOST_USER_F_PROTOCOL_FEATURES) {
        answers.protocol_features & wanted_features(use_backend_config)
    } else {
        0
    }
}

/// What is done in a handshake, in order: features first; protocol features only
/// if the backend has them, and acknowledgments asked for only once these were
/// sent; ownership; and the queue count only if the backend reports it.
pub open spec fn handshake_plan(use_backend_config: bool, answers: Answers) -> Seq<
    HandshakeAction,
> {
    let negotiated = negotiated_features(use_backend_config, answers);
    let protocol = if contains_flag(answers.features, VHOST_USER_F_PROTOCOL_FEATURES) {
        seq![
            HandshakeAction::Call(Request::GetProtocolFeatures),
            HandshakeAction::Call(Request::SetProtocolFeatures(negotiated)),
        ] + (if contains_flag(negotiated, PROTOCOL_F_REPLY_ACK) {
            seq![HandshakeAction::SetHeaderFlags(NEED_REPLY)]
        } else {
            seq![]
        })
    } else {
        seq![]
    };
    let queue_num = if contains_flag(negotiated, PROTOCOL_F_MQ) {
        seq![HandshakeAction::Call(Request::GetQueueNum)]
    } else {
        seq![]
    };
    seq![HandshakeAction::Call(Request::GetFeatures)] + protocol + seq![
        HandshakeAction::Call(Request::SetOwner),
    ] + queue_num
}

/// No protocol feature is in an empty set of them.
proof fn lemma_empty_features()
    ensures
        !contains_flag(0, PROTOCOL_F_MQ),
        !contains_flag(0, PROTOCOL_F_REPLY_ACK),
        !contains_flag(0, PROTOCOL_F_CONFIG),
        !contains_flag(0, PROTOCOL_F_RESET_DEVICE),
{
    assert(0u64 & 0x1 != 0x1) by (bit_vector);
    assert(0u64 & 0x8 != 0x8) by (bit_vector);
    assert(0u64 & 0x200 != 0x200) by (bit_vector);
    assert(0u64 & 0x2000 != 0x2000) by (bit_vector);
}

/// A handshake with a backend that never fails does what `handshake_plan` says,
/// and ends with the checks on the queue count.
pub proof fn law_handshake<E>(config: ConfigView, answers: Answers)
    ensures
        ({
            let begin = HandshakeView {
                config,
                phase: HandshakePhase::Features,
                features: 0,
                negotiated: 0,
            };
            let negotiated = negotiated_features(config.use_backend_config, answers);
            let run = handshake_run::<E>(begin, answers);
            let counted = contains_flag(negotiated, PROTOCOL_F_MQ);
            &&& run.0 == handshake_plan(config.use_backend_config, answers)
            &&& run.1 == handshake_finish::<E>(
                HandshakeView {
                    config,
                    phase: if counted {
                        HandshakePhase::QueueNum
                    } else {
                        HandshakePhase::Owner
                    },
                    features: answers.features,
                    negotiated,
                },
                if counted {
                    Some((answers.queue_num % 0x1_0000) as u16)
                } else {
                    None
                },
            )
        }),
{
    reveal_with_fuel(handshake_run, 7);
    lemma_empty_features();
    let begin = HandshakeView {
        config,
        phase: HandshakePhase::Features,
        features: 0,
        negotiated: 0,
    };
    assert(handshake_run::<E>(begin, answers).0 =~= handshake_plan(
        config.use_backend_config,
        answers,
    ));
}

/// Only what the backend advertised and the frontend wants is negotiated, and of
/// that everything. The backend's config space is negotiated only for a device
/// that is to use it.
pub proof fn law_negotiated_features(use_backend_config: bool, answers: Answers, flag: u64)
    requires
        flag == PROTOCOL_F_MQ || flag == PROTOCOL_F_REPLY_ACK || flag == PROTOCOL_F_RESET_DEVICE
            || flag == PROTOCOL_F_CONFIG,
    ensures
        contains_flag(negotiated_features(use_backend_config, answers), flag) <==> (contains_flag(
            answers.features,
            VHOST_USER_F_PROTOCOL_FEATURES,
        ) && contains_flag(answers.protocol_features, flag) && (flag == PROTOCOL_F_CONFIG
            ==> use_backend_config)),
        negotiated_features(use_backend_config, answers) & !answers.protocol_features == 0,
        negotiated_features(use_backend_config, answers) & !wanted_features(use_backend_config)
            == 0,
{
    lemma_empty_features();
    let a = answers.protocol_features;
    assert((a & (0x1u64 | 0x8 | 0x2000)) & 0x1 == a & 0x1) by (bit_vector);
    assert((a & (0x1u64 | 0x8 | 0x2000)) & 0x8 == a & 0x8) by (bit_vector);
    assert((a & (0x1u64 | 0x8 | 0x2000)) & 0x2000 == a & 0x2000) by (bit_vector);
    assert((a & (0x1u64 | 0x8 | 0x2000)) & 0x200 == 0) by (bit_vector);
    assert((a & ((0x1u64 | 0x8 | 0x2000) | 0x200)) & 0x1 == a & 0x1) by (bit_vector);
    assert((a & ((0x1u64 | 0x8 | 0x2000) | 0x200)) & 0x8 == a & 0x8) by (bit_vector);
    assert((a & ((0x1u64 | 0x8 | 0x2000) | 0x200)) & 0x2000 == a & 0x2000) by (bit_vector);
    assert((a & ((0x1u64 | 0x8 | 0x2000) | 0x200)) & 0x200 == a & 0x200) by (bit_vector);
    let w = wanted_features(use_backend_config);
    assert((a & w) & !a == 0 && (a & w) & !w == 0) by (bit_vector);
    assert(0u64 & !a == 0 && 0u64 & !w == 0) by (bit_vector);
}

/// The guest is never offered the protocol's own feature bit, and is offered
/// every other feature of the backend.
pub proof fn law_offered_features(s: FrontendState)
    requires
        s.wf(),
    ensures
        s.device_traits.device_features & VHOST_USER_F_PROTOCOL_FEATURES == 0,
        s.device_traits.device_features | VHOST_USER_F_PROTOCOL_FEATURES == s.device_features_raw
            | VHOST_USER_F_PROTOCOL_FEATURES,
{
    let raw = s.device_features_raw;
    assert((raw & !0x4000_0000u64) & 0x4000_0000 == 0) by (bit_vector);
    assert((raw & !0x4000_0000u64) | 0x4000_0000 == raw | 0x4000_0000) by (bit_vector);
}

/// What the backend is told of the guest's features: nothing that it did not
/// advertise; the protocol's own bit exactly if it advertised that; and of the
/// others exactly those that the guest has and it advertised.
pub proof fn law_wire_features(s: FrontendState, features: u64)
    ensures
        contains_flag(wire_features(s, features), VHOST_USER_F_PROTOCOL_FEATURES)
            <==> contains_flag(s.device_features_raw, VHOST_USER_F_PROTOCOL_FEATURES),
        wire_features(s, features) & !s.device_features_raw == 0,
        wire_features(s, features) & !VHOST_USER_F_PROTOCOL_FEATURES == features
            & s.device_features_raw & !VHOST_USER_F_PROTOCOL_FEATURES,
        !contains_flag(s.device_features_raw, VHOST_USER_F_PROTOCOL_FEATURES) ==> wire_features(
            s,
            features,
        ) == features & s.device_features_raw,
{
    let raw = s.device_features_raw;
    assert(((features & raw) | 0x4000_0000) & 0x4000_0000 == 0x4000_0000) by (bit_vector);
    assert(raw & 0x4000_0000 != 0x4000_0000 ==> (features & raw) & 0x4000_0000 != 0x4000_0000)
        by (bit_vector);
    assert((features & raw) & !raw == 0) by (bit_vector);
    assert(raw & 0x4000_0000 == 0x4000_0000 ==> ((features & raw) | 0x4000_0000) & !raw == 0)
        by (bit_vector);
    assert(((features & raw) | 0x4000_0000) & !0x4000_0000u64 == features & raw & !0x4000_0000u64)
        by (bit_vector);
}

/// The backend gets back the guest-physical address of a ring from the address
/// that it is told, by way of the memory table entry that covers it.
pub proof fn law_backend_translation(region: ShareableRegion, address: u64)
    requires
        translatable(region.guest_address),
        translatable(address),
        region.guest_address <= address < region.guest_address + region.size,
    ensures
        ({
            let info = region_info(region);
            let told = address + GPA_TO_VA_OFFSET;
            &&& told <= u64::MAX
            &&& info.userspace_addr <= told < info.userspace_addr + info.memory_size
            &&& told - info.userspace_addr + info.guest_phys_addr == address
        }),
{
}

/// What the caller finds when it starts a queue and nothing fails.
pub struct Surroundings {
    /// The regions of guest memory.
    pub regions: Seq<ShareableRegion>,
    /// Whether the interrupt needs a proxy.
    pub event_proxy: bool,
}

/// The outcome in each phase of the start of a queue.
pub open spec fn start_outcome_of(found: Surroundings, phase: StartPhase) -> StartReplyView {
    match phase {
        StartPhase::Regions => StartReplyView::Regions(found.regions),
        StartPhase::Interrupt => StartReplyView::Interrupt { event_proxy: found.event_proxy },
        _ => StartReplyView::Done,
    }
}

/// The start of a queue in which nothing fails: what is done, the state after
/// it, and the result.
pub open spec fn start_run<E>(s: FrontendState, v: StartView, found: Surroundings) -> (
    Seq<StartActionView>,
    FrontendState,
    Result<(), FrontendError<E>>,
)
    decreases 12 - v.phase.rank(),
{
    let after = start_step::<E>(s, v, Ok(start_outcome_of(found, v.phase)));
    match after.1 {
        StartOutcome::Next(next) => {
            let rest = start_run::<E>(after.0, next, found);
            (seq![start_action(s, v)] + rest.0, rest.1, rest.2)
        },
        StartOutcome::Done(result) => (seq![start_action(s, v)], after.0, result),
    }
}

/// Whether a queue runs as a packed ring once it is started. The features that
/// were sent first since the last reset decide.
pub open spec fn starts_packed(s: FrontendState, features: u64) -> bool {
    if s.guest_features_sent {
        s.packed_ring
    } else {
        contains_flag(effective_features(s, features), VIRTIO_F_RING_PACKED)
    }
}

/// What is done for the queue itself when it is started.
pub open spec fn vring_plan(
    packed_ring: bool,
    idx: u16,
    params: QueueParams,
    initial_state: Option<QueueState>,
) -> Seq<StartActionView> {
    let index = idx as usize;
    seq![
        StartActionView::Call(Request::SetVringNum { index, size: params.size }),
        StartActionView::Call(Request::SetVringAddr { index, config: vring_config(params) }),
        StartActionView::Call(base_request(packed_ring, index, initial_state)),
        StartActionView::DuplicateKickEvent,
        StartActionView::Call(Request::SetVringKick { index }),
        StartActionView::PrepareInterrupt,
        StartActionView::DuplicateInterruptEvent,
        StartActionView::Call(Request::SetVringCall { index }),
        StartActionView::Call(Request::SetVringEnable { index, enable: true }),
    ]
}

/// What is done when a queue is started, in order: the memory table is sent if
/// the backend does not have it, then the guest's features if it does not know
/// them, then the queue is set up and, last of all, enabled.
pub open spec fn start_plan(s: FrontendState, v: StartView, found: Surroundings) -> Seq<
    StartActionView,
> {
    let memory = if s.mem_table_sent {
        seq![]
    } else {
        seq![
            StartActionView::ShareMemory,
            StartActionView::SetMemTable(mem_table(found.regions)),
        ]
    };
    let features = if s.guest_features_sent {
        seq![]
    } else {
        seq![StartActionView::Call(Request::SetFeatures(wire_features(s, v.features)))]
    };
    memory + features + vring_plan(
        starts_packed(s, v.features),
        v.idx,
        v.params,
        v.initial_state,
    )
}

/// The state of a frontend after a queue was started.
pub open spec fn started(s: FrontendState, v: StartView, found: Surroundings) -> FrontendState {
    let queue = FrontendQueueState {
        active: true,
        params: Some(v.params),
        event_proxy: found.event_proxy,
    };
    FrontendState {
        mem_table_sent: true,
        guest_memory: true,
        guest_features_sent: true,
        packed_ring: starts_packed(s, v.features),
        queues: if v.idx < s.queues.len() {
            s.queues.update(v.idx as int, queue)
        } else {
            s.queues
        },
        ..s
    }
}

/// The start of a queue from where its size is sent.
proof fn lemma_start_vring<E>(s: FrontendState, v: StartView, found: Surroundings)
    requires
        v.phase is VringNum,
        s.mem_table_sent,
        s.guest_memory,
        s.guest_features_sent,
    ensures
        start_run::<E>(s, v, found).0 == vring_plan(s.packed_ring, v.idx, v.params, v.initial_state),
        start_run::<E>(s, v, found).1 == started(s, v, found),
        start_run::<E>(s, v, found).2 == Ok::<(), FrontendError<E>>(()),
{
    reveal_with_fuel(start_run, 10);
    assert(start_run::<E>(s, v, found).0 =~= vring_plan(
        s.packed_ring,
        v.idx,
        v.params,
        v.initial_state,
    ));
}

/// The start of a queue from where the memory table is with the backend.
proof fn lemma_start_after_memory<E>(s: FrontendState, v: StartView, found: Surroundings)
    requires
        v.phase == (if s.guest_features_sent {
            StartPhase::VringNum
        } else {
            StartPhase::Features
        }),
        s.mem_table_sent,
        s.guest_memory,
    ensures
        start_run::<E>(s, v, found).0 == start_plan(s, v, found),
        start_run::<E>(s, v, found).1 == started(s, v, found),
        start_run::<E>(s, v, found).2 == Ok::<(), FrontendError<E>>(()),
{
    if s.guest_features_sent {
        lemma_start_vring::<E>(s, v, found);
        assert(start_run::<E>(s, v, found).0 =~= start_plan(s, v, found));
    } else {
        let after = start_step::<E>(s, v, Ok(StartReplyView::Done));
        let next = StartView { phase: StartPhase::VringNum, ..v };
        assert(after.1 == StartOutcome::<E>::Next(next));
        lemma_start_vring::<E>(after.0, next, found);
        assert(start_run::<E>(s, v, found).0 =~= start_plan(s, v, found));
    }
}

/// The start of a queue in which nothing fails does what `start_plan` says and
/// succeeds, and the queue is then active.
pub proof fn law_start<E>(
    s: FrontendState,
    idx: u16,
    params: QueueParams,
    features: u64,
    initial_state: Option<QueueState>,
    found: Surroundings,
)
    requires
        s.wf(),
    ensures
        ({
            let v = start_begin(s, idx, params, features, initial_state);
            let run = start_run::<E>(s, v, found);
            &&& run.0 == start_plan(s, v, found)
            &&& run.1 == started(s, v, found)
            &&& run.2 == Ok::<(), FrontendError<E>>(())
        }),
{
    let v = start_begin(s, idx, params, features, initial_state);
    if s.mem_table_sent {
        lemma_start_after_memory::<E>(s, v, found);
    } else {
        reveal_with_fuel(start_run, 3);
        let table = StartView { phase: StartPhase::MemTable, table: mem_table(found.regions), ..v };
        assert(start_step::<E>(s, v, Ok(start_outcome_of(found, v.phase))) == (
            s,
            StartOutcome::<E>::Next(table),
        ));
        let after = start_step::<E>(s, table, Ok(StartReplyView::Done));
        let next = StartView { phase: phase_after_mem_table(s), ..table };
        assert(after.1 == StartOutcome::<E>::Next(next));
        lemma_start_after_memory::<E>(after.0, next, found);
        assert(start_run::<E>(s, v, found).0 =~= start_plan(s, v, found));
    }
}

/// The memory table is sent once in the life of a connection: no step takes it
/// back, a start that finds it sent does not begin with it, and no start comes
/// back to it.
pub proof fn law_mem_table_is_sent_once<E>(
    s: FrontendState,
    v: StartView,
    reply: Result<StartReplyView, E>,
)
    requires
        start_reply_fits(v.phase, reply),
    ensures
        s.mem_table_sent ==> start_step(s, v, reply).0.mem_table_sent,
        s.mem_table_sent ==> first_phase(s).rank() > StartPhase::MemTable.rank(),
        start_step(s, v, reply).1 matches StartOutcome::Next(next) ==> next.phase.rank()
            > v.phase.rank(),
{
}

/// A start that fails leaves the queues as they were. What the backend was told
/// before that stays known.
pub proof fn law_failed_start_keeps_queues<E>(
    s: FrontendState,
    v: StartView,
    reply: Result<StartReplyView, E>,
)
    requires
        !(start_step(s, v, reply).1 matches StartOutcome::Done(Ok(_))),
    ensures
        start_step(s, v, reply).0.queues == s.queues,
        s.guest_features_sent ==> start_step(s, v, reply).0.guest_features_sent,
        s.mem_table_sent ==> start_step(s, v, reply).0.mem_table_sent,
{
}

/// Saving and restoring a packed ring loses nothing: a queue that is started
/// with the state it was stopped with is given the very bits that the backend
/// reported.
pub proof fn law_packed_ring_restores(index: usize, base: u32)
    ensures
        base_request(true, index, Some(packed_state(base))) == (Request::SetVringBaseRaw {
            index,
            state: base,
        }),
{
}

/// Conversely, the state that a packed ring is started with is the one that is
/// read out of the bits that the backend is given.
pub proof fn law_packed_ring_saves(state: QueueState)
    ensures
        packed_state(packed_base(state.avail_index, state.used_index)) == state,
{
}

/// A split ring that is started with the state it was stopped with is given the
/// available index that the backend reported.
pub proof fn law_split_ring_restores(index: usize, base: u32, used: u16)
    ensures
        base_request(
            false,
            index,
            Some(QueueState { avail_index: (base % 0x1_0000) as u16, used_index: used }),
        ) == (Request::SetVringBase { index, base: (base % 0x1_0000) as u16 }),
{
}

/// A ring that never ran starts at zero. A packed one has both wrap counters,
/// bits 15 and 31, at one.
pub proof fn law_fresh_ring(index: usize)
    ensures
        base_request(false, index, None) == (Request::SetVringBase { index, base: 0 }),
        base_request(true, index, None) == (Request::SetVringBaseRaw {
            index,
            state: 0x8000_8000,
        }),
{
}

/// How a queue stops whose ring is packed, whatever became of the request to
/// disable it: it is disabled, then stopped, and its state is the backend's.
pub proof fn law_packed_queue_stops(s: FrontendState, idx: u16, base: u32)
    requires
        s.wf(),
        idx < s.queues.len(),
        s.queues[idx as int].active,
        s.packed_ring,
    ensures
        ({
            let index = idx as usize;
            let disable = StopQueue { idx, phase: StopPhase::Disable, avail_index: 0 };
            let stop = StopQueue { idx, phase: StopPhase::Base, avail_index: 0 };
            &&& stop_action(s, disable) == StopAction::Call(
                Request::SetVringEnable { index, enable: false },
            )
            &&& stop_step(s, disable, StopReply::Disabled) == (s, StopStep::Next(stop))
            &&& stop_action(s, stop) == StopAction::Call(Request::GetVringBase { index })
            &&& stop_step(s, stop, StopReply::Base(Some(base))) == (
                s.with_queue(idx as int, stopped_queue()),
                StopStep::Done(Some(packed_state(base))),
            )
        }),
{
}

/// How a queue stops whose ring is split, whatever became of the request to
/// disable it: it is disabled, then stopped, and its state is the available
/// index of the backend and the used index that the guest sees.
pub proof fn law_split_queue_stops(s: FrontendState, idx: u16, base: u32, read: Option<[u8; 2]>)
    requires
        s.wf(),
        idx < s.queues.len(),
        s.queues[idx as int].active,
        !s.packed_ring,
    ensures
        ({
            let index = idx as usize;
            let avail_index = (base % 0x1_0000) as u16;
            let disable = StopQueue { idx, phase: StopPhase::Disable, avail_index: 0 };
            let stop = StopQueue { idx, phase: StopPhase::Base, avail_index: 0 };
            let used = StopQueue { idx, phase: StopPhase::UsedRing, avail_index };
            &&& stop_action(s, disable) == StopAction::Call(
                Request::SetVringEnable { index, enable: false },
            )
            &&& stop_step(s, disable, StopReply::Disabled) == (s, StopStep::Next(stop))
            &&& stop_action(s, stop) == StopAction::Call(Request::GetVringBase { index })
            &&& stop_step(s, stop, StopReply::Base(Some(base))) == (s, StopStep::Next(used))
            &&& s.guest_memory
            &&& s.queues[idx as int].params matches Some(params)
            &&& stop_action(s, used) == (StopAction::ReadUsedRing {
                address: (params.used_addr + USED_INDEX_OFFSET) as u64,
            })
            &&& params.used_addr + USED_INDEX_OFFSET <= u64::MAX
            &&& stop_step(s, used, StopReply::UsedRing(read)) == (
                s.with_queue(idx as int, stopped_queue()),
                StopStep::Done(Some(QueueState { avail_index, used_index: used_index(read) })),
            )
        }),
{
    assert(s.queue_wf(s.queues[idx as int]));
}

/// A stop that has ended leaves the queue stopped, so that there is nothing to
/// stop a second time, and leaves every other queue as it was.
pub proof fn law_stopped_queue_stays_stopped(s: FrontendState, v: StopQueue, reply: StopReply)
    requires
        stop_wf(s, v),
        stop_step(s, v, reply).1 is Done,
    ensures
        stop_step(s, v, reply).0.queues.len() == s.queues.len(),
        stop_step(s, v, reply).0.queues[v.idx as int] == stopped_queue(),
        forall|i: int|
            0 <= i < s.queues.len() && i != v.idx ==> #[trigger] stop_step(
                s,
                v,
                reply,
            ).0.queues[i] == s.queues[i],
{
}

/// The calls that stop the active queues at or behind `from`, in order.
pub open spec fn stop_calls(queues: Seq<FrontendQueueState>, from: nat) -> Seq<Request>
    decreases queues.len() - from,
{
    if from >= queues.len() {
        seq![]
    } else if queues[from as int].active {
        seq![
            Request::SetVringEnable { index: from as usize, enable: false },
            Request::GetVringBase { index: from as usize },
        ] + stop_calls(queues, from + 1)
    } else {
        stop_calls(queues, from + 1)
    }
}

/// A reset from `v` on: the calls that are made, and the state after it. Calls
/// that fail make no difference.
pub open spec fn reset_run(s: FrontendState, v: ResetDevice) -> (Seq<Request>, FrontendState)
    decreases
        s.queues.len() - v.idx,
        (if v.phase is Disable {
            2nat
        } else if v.phase is Base {
            1nat
        } else {
            0nat
        }),
    when s.queues.len() <= u16::MAX && (v.idx < s.queues.len() || v.phase is Device)
    via reset_run_ends
{
    match reset_next(s, v) {
        (after, ResetStep::Next(next)) => {
            let rest = reset_run(after, next);
            (seq![reset_request(v)] + rest.0, rest.1)
        },
        (after, ResetStep::Done) => (seq![reset_request(v)], after),
    }
}

#[via_fn]
proof fn reset_run_ends(s: FrontendState, v: ResetDevice) {
    if v.phase is Base {
        lemma_next_active(s.with_queue(v.idx as int, stopped_queue()).queues, v.idx as nat + 1);
    }
}

/// A reset from a step on.
pub open spec fn reset_run_from(after: FrontendState, step: ResetStep) -> (
    Seq<Request>,
    FrontendState,
) {
    match step {
        ResetStep::Next(next) => reset_run(after, next),
        ResetStep::Done => (seq![], after),
    }
}

/// The calls of a reset: those that stop the active queues, in order, and then
/// the reset of the backend if it can be reset.
pub open spec fn reset_plan(s: FrontendState, from: nat) -> Seq<Request> {
    stop_calls(s.queues, from) + (if contains_flag(s.protocol_features, PROTOCOL_F_RESET_DEVICE) {
        seq![Request::ResetDevice]
    } else {
        seq![]
    })
}

/// The state of a frontend after a reset.
pub open spec fn after_reset(s: FrontendState) -> FrontendState {
    FrontendState {
        queues: Seq::new(s.queues.len(), |i: int| stopped_queue()),
        guest_features_sent: false,
        packed_ring: false,
        ..s
    }
}

/// The calls up to the next active queue are none.
proof fn lemma_stop_calls_skip(queues: Seq<FrontendQueueState>, from: nat)
    requires
        from <= queues.len(),
    ensures
        stop_calls(queues, from) == stop_calls(queues, next_active(queues, from)),
    decreases queues.len() - from,
{
    if from < queues.len() && !queues[from as int].active {
        lemma_stop_calls_skip(queues, from + 1);
    }
}

/// The calls for queues behind one do not depend on that one.
proof fn lemma_stop_calls_behind(queues: Seq<FrontendQueueState>, index: int, from: nat)
    requires
        0 <= index < queues.len(),
        index < from,
    ensures
        stop_calls(queues.update(index, stopped_queue()), from) == stop_calls(queues, from),
    decreases queues.len() - from,
{
    if from < queues.len() {
        lemma_stop_calls_behind(queues, index, from + 1);
    }
}

/// How a reset goes on when the queues before `from` are stopped.
proof fn lemma_reset_from(s: FrontendState, from: nat)
    requires
        s.wf(),
        from <= s.queues.len(),
        forall|i: int| 0 <= i < from ==> s.queues[i] == stopped_queue(),
    ensures
        ({
            let (after, step) = reset_from(s, from);
            &&& reset_run_from(after, step).0 == reset_plan(s, from)
            &&& reset_run_from(after, step).1 == after_reset(s)
        }),
    decreases s.queues.len() - from,
{
    let idx = next_active(s.queues, from);
    lemma_next_active(s.queues, from);
    lemma_stop_calls_skip(s.queues, from);
    assert forall|i: int| 0 <= i < idx implies s.queues[i] == stopped_queue() by {
        assert(s.queue_wf(s.queues[i]));
    }
    if idx < s.queues.len() {
        let disable = ResetDevice { idx: idx as usize, phase: ResetPhase::Disable };
        let base = ResetDevice { idx: idx as usize, phase: ResetPhase::Base };
        let stopped = s.with_queue(idx as int, stopped_queue());
        lemma_stop_calls_behind(s.queues, idx as int, idx + 1);
        assert(stopped.wf()) by {
            assert forall|i: int| 0 <= i < stopped.queues.len() implies stopped.queue_wf(
                #[trigger] stopped.queues[i],
            ) by {
                assert(s.queue_wf(s.queues[i]));
            }
        }
        lemma_reset_from(stopped, idx + 1);
        let (after, step) = reset_from(stopped, idx + 1);
        let rest = reset_run_from(after, step);
        assert(reset_next(s, base) == (after, step));
        assert(reset_run(s, base).0 =~= seq![reset_request(base)] + rest.0);
        assert(reset_run(s, base).1 == rest.1);
        assert(reset_next(s, disable) == (s, ResetStep::Next(base)));
        assert(reset_run(s, disable).0 =~= seq![reset_request(disable)] + reset_run(s, base).0);
        assert(reset_run(s, disable).0 =~= reset_plan(s, from));
        assert(after_reset(stopped).queues =~= after_reset(s).queues);
    } else {
        let (after, step) = reset_from(s, from);
        assert(after.queues =~= after_reset(s).queues);
        assert(reset_run_from(after, step).0 =~= reset_plan(s, from));
    }
}

/// A reset makes the calls of `reset_plan`, and after it every queue is stopped
/// and the guest has negotiated nothing. The memory table stays with the backend,
/// and nothing else changes.
pub proof fn law_reset(s: FrontendState)
    requires
        s.wf(),
    ensures
        ({
            let (after, step) = reset_from(s, 0);
            &&& reset_run_from(after, step).0 == reset_plan(s, 0)
            &&& reset_run_from(after, step).1 == after_reset(s)
        }),
        after_reset(s).wf(),
{
    lemma_reset_from(s, 0);
}

/// A queue can be started again after a reset. The guest's features are then sent
/// anew, and the memory table is not.
pub proof fn law_start_after_reset(s: FrontendState)
    requires
        s.wf(),
        s.mem_table_sent,
    ensures
        first_phase(after_reset(s)) is Features,
        forall|idx: int|
            0 <= idx < s.queues.len() ==> !(#[trigger] after_reset(s).queues[idx]).active,
{
}

/// A byte that no patch covers is the backend's.
pub proof fn law_unpatched_byte(patches: Seq<ConfigPatch>, address: nat, base: u8)
    requires
        forall|k: int| 0 <= k < patches.len() ==> !covers(#[trigger] patches[k], address),
    ensures
        patched_byte(patches, address, base) == base,
    decreases patches.len(),
{
    if patches.len() > 0 {
        let rest = patches.drop_last();
        assert forall|k: int| 0 <= k < rest.len() implies !covers(#[trigger] rest[k], address) by {
            assert(rest[k] == patches[k]);
        }
        law_unpatched_byte(rest, address, base);
    }
}

/// A byte that a patch covers is that of the last one to cover it, and the
/// backend has no say in it.
pub proof fn law_patched_byte(patches: Seq<ConfigPatch>, k: int, address: nat, base: u8)
    requires
        0 <= k < patches.len(),
        covers(patches[k], address),
        forall|j: int| k < j < patches.len() ==> !covers(#[trigger] patches[j], address),
    ensures
        patched_byte(patches, address, base) == patches[k].data[address - patches[k].offset],
    decreases patches.len(),
{
    if k < patches.len() - 1 {
        let rest = patches.drop_last();
        assert(!covers(patches[patches.len() - 1], address));
        assert forall|j: int| k < j < rest.len() implies !covers(#[trigger] rest[j], address) by {
            assert(rest[j] == patches[j]);
        }
        law_patched_byte(rest, k, address, base);
    }
}

/// A config space that is one patch at offset zero reads back as the patch,
/// whatever the backend has there.
pub proof fn law_frontend_owned_config(data: Seq<u8>, offset: nat, base: Seq<u8>)
    requires
        offset + REGISTER_WIDTH <= data.len(),
        base.len() == REGISTER_WIDTH,
    ensures
        register_bytes(seq![ConfigPatch { offset: 0, data }], offset, base) == data.subrange(
            offset as int,
            offset + REGISTER_WIDTH,
        ),
{
    let patches = seq![ConfigPatch { offset: 0, data }];
    assert forall|i: int| 0 <= i < REGISTER_WIDTH implies #[trigger] register_bytes(
        patches,
        offset,
        base,
    )[i] == data[offset + i] by {
        law_patched_byte(patches, 0, (offset + i) as nat, base[i]);
    }
    assert(register_bytes(patches, offset, base) =~= data.subrange(
        offset as int,
        offset + REGISTER_WIDTH,
    ));
}

/// A byte of the config space is the same by whichever register it is read.
pub proof fn law_registers_agree(
    patches: Seq<ConfigPatch>,
    offset: nat,
    base: Seq<u8>,
    other_offset: nat,
    other_base: Seq<u8>,
    i: int,
    j: int,
)
    requires
        0 <= i < REGISTER_WIDTH,
        0 <= j < REGISTER_WIDTH,
        offset + i == other_offset + j,
        base[i] == other_base[j],
    ensures
        register_bytes(patches, offset, base)[i] == register_bytes(
            patches,
            other_offset,
            other_base,
        )[j],
{
}

} // verus!
