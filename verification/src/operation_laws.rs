//! What each operation of the frontend does, from what goes in to what comes out:
//! the bits and bytes that the backend and the guest get to see.

use crate::device::patches_of;
use crate::device::ConfigPatch;
use crate::device::ConfigView;
use crate::device::MemoryRegionInfo;
use crate::device::QueueParams;
use crate::device::QueueState;
use crate::device::Request;
use crate::device::VhostUserConfig;
use crate::device::VringConfigData;
use crate::error::CallName;
use crate::error::FrontendError;
use crate::frontend::covers;
use crate::frontend::register_base;
use crate::frontend::register_bytes;
use crate::frontend::FrontendQueueState;
use crate::frontend::FrontendState;
use crate::frontend_laws::handshake_run;
use crate::frontend_laws::law_handshake;
use crate::frontend_laws::law_patched_byte;
use crate::frontend_laws::law_reset;
use crate::frontend_laws::law_start;
use crate::frontend_laws::law_unpatched_byte;
use crate::frontend_laws::negotiated_features;
use crate::frontend_laws::reset_run_from;
use crate::frontend_laws::start_run;
use crate::frontend_laws::stop_calls;
use crate::frontend_laws::Answers;
use crate::frontend_laws::Surroundings;
use crate::handshake::handshake_action;
use crate::handshake::handshake_step;
use crate::handshake::patches_end;
use crate::handshake::HandshakeAction;
use crate::handshake::HandshakeOutcome;
use crate::handshake::HandshakePhase;
use crate::handshake::HandshakeStep;
use crate::handshake::HandshakeView;
use crate::le::le_value;
use crate::le::lemma_le_value_bound;
use crate::le::lemma_pow256;
use crate::protocol::contains_flag;
use crate::reset::reset_from;
use crate::start::mem_table;
use crate::start::start_action;
use crate::start::start_begin;
use crate::start::start_reply_view;
use crate::start::start_step;
use crate::start::wire_features;
use crate::start::StartAction;
use crate::start::StartActionView;
use crate::start::StartOutcome;
use crate::start::StartReply;
use crate::start::StartReplyView;
use crate::start::StartStep;
use crate::start::StartView;
use crate::stop::stop_action;
use crate::stop::stop_step;
use crate::stop::StopAction;
use crate::stop::StopPhase;
use crate::stop::StopQueue;
use crate::stop::StopReply;
use crate::stop::StopStep;
use crate::virtiofsd::args_view;
use crate::virtiofsd::configured_binary;
use crate::virtiofsd::launch_args;
use crate::virtiofsd::path_view;
use crate::wire_laws::law_four_byte_value;
use crate::wire_laws::law_le_value_digit;
use crate::wire_laws::law_two_byte_value;
use vstd::arithmetic::power::pow;
use vstd::prelude::*;
use vstd::string::StringSliceAdditionalSpecFns;

verus! {

/// A flag of one bit is there if masking leaves anything.
proof fn lemma_one_bit_flags(bits: u64)
    ensures
        contains_flag(bits, 0x1) <==> bits & 0x1 != 0,
        contains_flag(bits, 0x8) <==> bits & 0x8 != 0,
        contains_flag(bits, 0x200) <==> bits & 0x200 != 0,
        contains_flag(bits, 0x2000) <==> bits & 0x2000 != 0,
        contains_flag(bits, 0x4000_0000) <==> bits & 0x4000_0000 != 0,
        contains_flag(bits, 0x4_0000_0000) <==> bits & 0x4_0000_0000 != 0,
{
    assert((bits & 0x1 == 0x1 <==> bits & 0x1 != 0) && (bits & 0x8 == 0x8 <==> bits & 0x8 != 0)
        && (bits & 0x200 == 0x200 <==> bits & 0x200 != 0) && (bits & 0x2000 == 0x2000 <==> bits
        & 0x2000 != 0) && (bits & 0x4000_0000 == 0x4000_0000 <==> bits & 0x4000_0000 != 0) && (bits
        & 0x4_0000_0000 == 0x4_0000_0000 <==> bits & 0x4_0000_0000 != 0)) by (bit_vector);
}

/// The patches of a configuration are its offsets and bytes, in order.
pub proof fn law_config_view(config: VhostUserConfig, patches: Seq<(u16, Vec<u8>)>, i: int)
    ensures
        config@.device_id == config.device_id,
        config@.use_backend_config == config.use_backend_config,
        config@.queue_sizes == config.queue_sizes@,
        config@.patches == patches_of(config.config_patches@),
        patches_of(patches).len() == patches.len(),
        0 <= i < patches.len() ==> patches_of(patches)[i].offset == patches[i].0
            && patches_of(patches)[i].data == patches[i].1@,
{
}

/// The end of the patches is where the one that reaches furthest ends.
pub proof fn law_patches_end(patches: Seq<ConfigPatch>)
    ensures
        forall|k: int|
            0 <= k < patches.len() ==> patches_end(patches) >= (#[trigger] patches[k]).offset
                + patches[k].data.len() % 0x1_0000_0000,
        patches.len() == 0 ==> patches_end(patches) == 0,
        patches.len() > 0 ==> exists|k: int|
            0 <= k < patches.len() && patches_end(patches) == (#[trigger] patches[k]).offset
                + patches[k].data.len() % 0x1_0000_0000,
    decreases patches.len(),
{
    if patches.len() > 0 {
        let rest = patches.drop_last();
        let last = patches.len() - 1;
        law_patches_end(rest);
        assert forall|k: int| 0 <= k < patches.len() implies patches_end(patches) >= (
        #[trigger] patches[k]).offset + patches[k].data.len() % 0x1_0000_0000 by {
            if k < last {
                assert(rest[k] == patches[k]);
            }
        }
        let end = patches[last].offset + patches[last].data.len() % 0x1_0000_0000;
        if patches_end(patches) != end {
            let k = choose|k: int|
                0 <= k < rest.len() && patches_end(rest) == (#[trigger] rest[k]).offset
                    + rest[k].data.len() % 0x1_0000_0000;
            assert(patches[k] == rest[k]);
        }
    }
}

/// A handshake with a backend that never fails, on the bits that it answers.
///
/// Bit 30 of its features says whether there are protocol features; of these
/// bits 0, 3 and 13, and bit 9 if its config space is wanted, are negotiated as
/// far as it has them. Of its queue count 16 bits count, and only if bit 0 was
/// negotiated.
pub proof fn law_handshake_trace<E>(config: ConfigView, answers: Answers)
    ensures
        ({
            let begin = HandshakeView {
                config,
                phase: HandshakePhase::Features,
                features: 0,
                negotiated: 0,
            };
            let wanted: u64 = if config.use_backend_config {
                0x2209
            } else {
                0x2009
            };
            let negotiated: u64 = if answers.features & 0x4000_0000 != 0 {
                answers.protocol_features & wanted
            } else {
                0
            };
            handshake_run::<E>(begin, answers).0 == seq![
                HandshakeAction::Call(Request::GetFeatures),
            ] + (if answers.features & 0x4000_0000 != 0 {
                seq![
                    HandshakeAction::Call(Request::GetProtocolFeatures),
                    HandshakeAction::Call(Request::SetProtocolFeatures(negotiated)),
                ]
            } else {
                seq![]
            }) + (if negotiated & 0x8 != 0 {
                seq![HandshakeAction::SetHeaderFlags(8)]
            } else {
                seq![]
            }) + seq![HandshakeAction::Call(Request::SetOwner)] + (if negotiated & 0x1 != 0 {
                seq![HandshakeAction::Call(Request::GetQueueNum)]
            } else {
                seq![]
            })
        }),
{
    let begin = HandshakeView {
        config,
        phase: HandshakePhase::Features,
        features: 0,
        negotiated: 0,
    };
    law_handshake::<E>(config, answers);
    lemma_negotiated_bits(config.use_backend_config, answers);
    let negotiated = negotiated_features(config.use_backend_config, answers);
    lemma_one_bit_flags(answers.features);
    lemma_one_bit_flags(negotiated);
    assert(0u64 & 0x8 == 0) by (bit_vector);
    assert(handshake_run::<E>(begin, answers).0 =~= seq![
        HandshakeAction::Call(Request::GetFeatures),
    ] + (if answers.features & 0x4000_0000 != 0 {
        seq![
            HandshakeAction::Call(Request::GetProtocolFeatures),
            HandshakeAction::Call(Request::SetProtocolFeatures(negotiated)),
        ]
    } else {
        seq![]
    }) + (if negotiated & 0x8 != 0 {
        seq![HandshakeAction::SetHeaderFlags(8)]
    } else {
        seq![]
    }) + seq![HandshakeAction::Call(Request::SetOwner)] + (if negotiated & 0x1 != 0 {
        seq![HandshakeAction::Call(Request::GetQueueNum)]
    } else {
        seq![]
    }));
}

/// The protocol features that are negotiated, as bits.
proof fn lemma_negotiated_bits(use_backend_config: bool, answers: Answers)
    ensures
        negotiated_features(use_backend_config, answers) == (if answers.features & 0x4000_0000
            != 0 {
            answers.protocol_features & (if use_backend_config {
                0x2209
            } else {
                0x2009
            })
        } else {
            0
        }),
{
    lemma_one_bit_flags(answers.features);
    assert((0x1u64 | 0x8 | 0x2000) == 0x2009 && ((0x1u64 | 0x8 | 0x2000) | 0x200) == 0x2209)
        by (bit_vector);
}

/// What a handshake with a backend that never fails comes to: a frontend if there
/// are between 1 and 65535 queues and no more than the backend says it has, and
/// the error that names the count otherwise. The frontend is the device that was
/// configured, with the queues, sizes and patches that were, and the features
/// that the backend has; it shows the guest all of these but bit 30, and a
/// config space of 256 bytes or as long as the patches reach.
pub proof fn law_handshake_result<E>(config: ConfigView, answers: Answers)
    ensures
        ({
            let begin = HandshakeView {
                config,
                phase: HandshakePhase::Features,
                features: 0,
                negotiated: 0,
            };
            let negotiated: u64 = if answers.features & 0x4000_0000 != 0 {
                answers.protocol_features & (if config.use_backend_config {
                    0x2209
                } else {
                    0x2009
                })
            } else {
                0
            };
            let count = config.queue_sizes.len();
            let limit = answers.queue_num % 0x1_0000;
            let outcome = handshake_run::<E>(begin, answers).1;
            if count == 0 {
                outcome == HandshakeOutcome::<E>::Failed(FrontendError::NoQueues)
            } else if count > 65535 {
                outcome == HandshakeOutcome::<E>::Failed(
                    FrontendError::TooManyQueues(count as usize),
                )
            } else if negotiated & 0x1 != 0 && count > limit {
                outcome == HandshakeOutcome::<E>::Failed(
                    FrontendError::ExceedsBackend {
                        requested: count as u16,
                        supported: limit as u16,
                    },
                )
            } else {
                &&& outcome matches HandshakeOutcome::Ready(f)
                &&& f.device_traits.device_id == config.device_id
                &&& f.device_traits.max_queues == count
                &&& f.device_traits.device_features == answers.features & 0xFFFF_FFFF_BFFF_FFFF
                &&& negotiated & 0x200 != 0 ==> f.device_traits.device_register_length == 256
                &&& negotiated & 0x200 == 0 && patches_end(config.patches) <= u32::MAX
                    ==> f.device_traits.device_register_length == patches_end(config.patches)
                &&& f.device_traits.shared_memory.id == 0
                &&& f.device_traits.shared_memory.size == 0
                &&& f.protocol_features == negotiated
                &&& f.queue_sizes == config.queue_sizes
                &&& f.patches == config.patches
                &&& f.device_features_raw == answers.features
                &&& !f.guest_features_sent
                &&& !f.packed_ring
                &&& !f.mem_table_sent
                &&& !f.guest_memory
                &&& f.queues.len() == count
                &&& forall|i: int|
                    0 <= i < count ==> !(#[trigger] f.queues[i]).active && f.queues[i].params
                        is None && !f.queues[i].event_proxy
            }
        }),
{
    law_handshake::<E>(config, answers);
    lemma_negotiated_bits(config.use_backend_config, answers);
    let negotiated = negotiated_features(config.use_backend_config, answers);
    lemma_one_bit_flags(negotiated);
    let features = answers.features;
    assert(features & !0x4000_0000u64 == features & 0xFFFF_FFFF_BFFF_FFFF) by (bit_vector);
    assert(0u64 & 0x1 == 0 && 0u64 & 0x200 == 0) by (bit_vector);
}

/// A call of a handshake that fails ends it with the name of that call and its
/// own error, whatever went before.
pub proof fn law_handshake_failure<E>(v: HandshakeView, source: E)
    ensures
        match handshake_action(v) {
            HandshakeAction::Call(request) => {
                &&& handshake_step(v, Err(source)) matches HandshakeOutcome::Failed(
                    FrontendError::Call { call, source: reported },
                )
                &&& reported == source
                &&& request is GetFeatures ==> call is GetFeatures
                &&& request is GetProtocolFeatures ==> call is GetProtocolFeatures
                &&& request is SetProtocolFeatures ==> call is SetProtocolFeatures
                &&& request is SetOwner ==> call is SetOwner
                &&& request is GetQueueNum ==> call is GetQueueNum
            },
            HandshakeAction::SetHeaderFlags(flags) => true,
        },
{
}

/// What a step of a handshake hands out is what its contract speaks of.
pub proof fn law_handshake_view<E>(step: HandshakeStep<E>)
    ensures
        match step {
            HandshakeStep::Next(next) => step@ == HandshakeOutcome::<E>::Next(next@),
            HandshakeStep::Ready(frontend) => step@ == HandshakeOutcome::<E>::Ready(frontend@),
            HandshakeStep::Failed(error) => step@ == HandshakeOutcome::<E>::Failed(error),
        },
{
}

/// What is done when a queue is started and nothing fails, on the bits and
/// addresses that the backend gets.
///
/// The features that it is told are those that both sides have, and bit 30 if it
/// has that. The queue is packed, from this start on, exactly if both sides have
/// bit 34; if the features were sent by an earlier start, that one has decided.
/// Addresses are offset by 2 to the power of 52.
pub proof fn law_start_trace<E>(
    s: FrontendState,
    idx: u16,
    params: QueueParams,
    features: u64,
    initial_state: Option<QueueState>,
    found: Surroundings,
)
    requires
        s.wf(),
    ensures
        ({
            let run = start_run::<E>(
                s,
                start_begin(s, idx, params, features, initial_state),
                found,
            );
            let index = idx as usize;
            let packed = if s.guest_features_sent {
                s.packed_ring
            } else {
                features & s.device_features_raw & 0x4_0000_0000 != 0
            };
            let told = (features & s.device_features_raw) | (s.device_features_raw & 0x4000_0000);
            let table = Seq::new(
                found.regions.len(),
                |i: int|
                    MemoryRegionInfo {
                        guest_phys_addr: found.regions[i].guest_address,
                        memory_size: found.regions[i].size,
                        userspace_addr: (found.regions[i].guest_address
                            + 0x10_0000_0000_0000) as u64,
                        mmap_offset: found.regions[i].file_offset,
                        mmap_handle: found.regions[i].file,
                    },
            );
            let base = match initial_state {
                Some(state) => if packed {
                    Request::SetVringBaseRaw {
                        index,
                        state: (state.avail_index + 0x1_0000 * state.used_index) as u32,
                    }
                } else {
                    Request::SetVringBase { index, base: state.avail_index }
                },
                None => if packed {
                    Request::SetVringBaseRaw { index, state: 0x8000_8000 }
                } else {
                    Request::SetVringBase { index, base: 0 }
                },
            };
            let addresses = VringConfigData {
                queue_max_size: params.size,
                queue_size: params.size,
                flags: 0,
                desc_table_addr: (params.desc_addr + 0x10_0000_0000_0000) as u64,
                used_ring_addr: (params.used_addr + 0x10_0000_0000_0000) as u64,
                avail_ring_addr: (params.avail_addr + 0x10_0000_0000_0000) as u64,
                log_addr: None,
            };
            &&& run.2 == Ok::<(), FrontendError<E>>(())
            &&& run.0 == (if s.mem_table_sent {
                seq![]
            } else {
                seq![StartActionView::ShareMemory, StartActionView::SetMemTable(table)]
            }) + (if s.guest_features_sent {
                seq![]
            } else {
                seq![StartActionView::Call(Request::SetFeatures(told))]
            }) + seq![
                StartActionView::Call(Request::SetVringNum { index, size: params.size }),
                StartActionView::Call(Request::SetVringAddr { index, config: addresses }),
                StartActionView::Call(base),
                StartActionView::DuplicateKickEvent,
                StartActionView::Call(Request::SetVringKick { index }),
                StartActionView::PrepareInterrupt,
                StartActionView::DuplicateInterruptEvent,
                StartActionView::Call(Request::SetVringCall { index }),
                StartActionView::Call(Request::SetVringEnable { index, enable: true }),
            ]
        }),
{
    let v = start_begin(s, idx, params, features, initial_state);
    law_start::<E>(s, idx, params, features, initial_state, found);
    lemma_told_features(s, features);
    let table = Seq::new(
        found.regions.len(),
        |i: int|
            MemoryRegionInfo {
                guest_phys_addr: found.regions[i].guest_address,
                memory_size: found.regions[i].size,
                userspace_addr: (found.regions[i].guest_address + 0x10_0000_0000_0000) as u64,
                mmap_offset: found.regions[i].file_offset,
                mmap_handle: found.regions[i].file,
            },
    );
    assert(mem_table(found.regions) =~= table);
}

/// The features that the backend is told and what they say about packed rings,
/// as bits.
proof fn lemma_told_features(s: FrontendState, features: u64)
    ensures
        wire_features(s, features) == (features & s.device_features_raw) | (s.device_features_raw
            & 0x4000_0000),
        contains_flag(features & s.device_features_raw, 0x4_0000_0000) <==> features
            & s.device_features_raw & 0x4_0000_0000 != 0,
{
    let raw = s.device_features_raw;
    let both = features & raw;
    lemma_one_bit_flags(raw);
    lemma_one_bit_flags(both);
    assert(raw & 0x4000_0000 == 0 || raw & 0x4000_0000 == 0x4000_0000) by (bit_vector);
    assert(both | 0 == both) by (bit_vector);
}

/// What a start in which nothing fails leaves behind: the backend has the memory
/// table and the features; the queue is active with its parameters and its
/// proxy, if it took one; rings are packed exactly if both sides have bit 34,
/// whatever other bits they have, unless an earlier start has decided; and
/// nothing else changes.
pub proof fn law_start_result<E>(
    s: FrontendState,
    idx: u16,
    params: QueueParams,
    features: u64,
    initial_state: Option<QueueState>,
    found: Surroundings,
)
    requires
        s.wf(),
    ensures
        ({
            let after = start_run::<E>(
                s,
                start_begin(s, idx, params, features, initial_state),
                found,
            ).1;
            &&& after.mem_table_sent
            &&& after.guest_memory
            &&& after.guest_features_sent
            &&& !s.guest_features_sent ==> (after.packed_ring <==> features & s.device_features_raw
                & 0x4_0000_0000 != 0)
            &&& s.guest_features_sent ==> after.packed_ring == s.packed_ring
            &&& after.queues.len() == s.queues.len()
            &&& idx < s.queues.len() ==> {
                &&& after.queues[idx as int].active
                &&& after.queues[idx as int].params == Some(params)
                &&& after.queues[idx as int].event_proxy == found.event_proxy
            }
            &&& forall|i: int|
                0 <= i < s.queues.len() && i != idx ==> #[trigger] after.queues[i] == s.queues[i]
            &&& after.device_traits == s.device_traits
            &&& after.protocol_features == s.protocol_features
            &&& after.queue_sizes == s.queue_sizes
            &&& after.patches == s.patches
            &&& after.device_features_raw == s.device_features_raw
        }),
{
    law_start::<E>(s, idx, params, features, initial_state, found);
    lemma_told_features(s, features);
}

/// The backend runs packed rings exactly if the frontend takes them for packed:
/// the features that a start sends have bit 34 exactly if `packed_ring` is set
/// once they were sent.
pub proof fn law_packed_as_told<E>(s: FrontendState, v: StartView)
    requires
        v.phase is Features,
    ensures
        start_action(s, v) matches StartActionView::Call(Request::SetFeatures(told)) && (start_step::<
            E,
        >(s, v, Ok(StartReplyView::Done)).0.packed_ring <==> told & 0x4_0000_0000 != 0),
{
    let features = v.features;
    let raw = s.device_features_raw;
    lemma_told_features(s, features);
    assert(((features & raw) | (raw & 0x4000_0000)) & 0x4_0000_0000 == features & raw
        & 0x4_0000_0000) by (bit_vector);
}

/// Something that fails in the start of a queue ends it there, changes nothing,
/// and is reported for what was being done, with its own error.
pub proof fn law_start_failure<E>(s: FrontendState, v: StartView, source: E)
    ensures
        start_step::<E>(s, v, Err(source)).0 == s,
        start_step::<E>(s, v, Err(source)).1 matches StartOutcome::Done(Err(error)) && match (
        start_action(s, v)) {
            StartActionView::ShareMemory => error == FrontendError::Regions(source),
            StartActionView::SetMemTable(table) => error == (FrontendError::Call {
                call: CallName::SetMemTable,
                source,
            }),
            StartActionView::DuplicateKickEvent => error == FrontendError::KickEvent(source),
            StartActionView::PrepareInterrupt => error == FrontendError::Interrupt(source),
            StartActionView::DuplicateInterruptEvent => error == FrontendError::InterruptEvent(
                source,
            ),
            StartActionView::Call(request) => {
                &&& error matches FrontendError::Call { call, source: reported }
                &&& reported == source
                &&& request is SetFeatures ==> call is SetFeatures
                &&& request is SetVringNum ==> call is SetVringNum
                &&& request is SetVringAddr ==> call is SetVringAddr
                &&& request is SetVringBase ==> call is SetVringBase
                &&& request is SetVringBaseRaw ==> call is SetVringBase
                &&& request is SetVringKick ==> call is SetVringKick
                &&& request is SetVringCall ==> call is SetVringCall
                &&& request is SetVringEnable ==> call is SetVringEnable
            },
        },
{
}

/// Memory that cannot be shared ends a start, and changes nothing.
pub proof fn law_start_needs_shareable_memory<E>(s: FrontendState, v: StartView)
    ensures
        start_step::<E>(s, v, Ok(StartReplyView::NotShareable)) == (
            s,
            StartOutcome::<E>::Done(Err(FrontendError::NotShareable)),
        ),
{
}

/// What the start of a queue hands out and is handed is what its contracts speak
/// of.
pub proof fn law_start_views<E>(
    action: StartAction<'_>,
    reply: Result<StartReply, E>,
    step: StartStep<E>,
)
    ensures
        match action {
            StartAction::ShareMemory => action@ is ShareMemory,
            StartAction::SetMemTable(table) => action@ == StartActionView::SetMemTable(table@),
            StartAction::Call(request) => action@ == StartActionView::Call(request),
            StartAction::DuplicateKickEvent => action@ is DuplicateKickEvent,
            StartAction::PrepareInterrupt => action@ is PrepareInterrupt,
            StartAction::DuplicateInterruptEvent => action@ is DuplicateInterruptEvent,
        },
        match reply {
            Ok(StartReply::NotShareable) => start_reply_view(reply) == Ok::<StartReplyView, E>(
                StartReplyView::NotShareable,
            ),
            Ok(StartReply::Regions(regions)) => start_reply_view(reply) == Ok::<StartReplyView, E>(
                StartReplyView::Regions(regions@),
            ),
            Ok(StartReply::Interrupt { event_proxy }) => start_reply_view(reply) == Ok::<
                StartReplyView,
                E,
            >(StartReplyView::Interrupt { event_proxy }),
            Ok(StartReply::Done) => start_reply_view(reply) == Ok::<StartReplyView, E>(
                StartReplyView::Done,
            ),
            Err(error) => start_reply_view(reply) == Err::<StartReplyView, E>(error),
        },
        match step {
            StartStep::Next(next) => step@ == StartOutcome::<E>::Next(next@),
            StartStep::Done(result) => step@ == StartOutcome::<E>::Done(result),
        },
{
}

/// How many phases of a stop may follow.
pub open spec fn stop_phases_after(phase: StopPhase) -> nat {
    match phase {
        StopPhase::Disable => 2,
        StopPhase::Base => 1,
        StopPhase::UsedRing => 0,
    }
}

/// The stop of a queue: what is done, the state after it, and where the queue
/// stopped. `base` is what the backend reports, if it does, and `read` what is
/// read of guest memory, if it can be.
pub open spec fn stop_run(
    s: FrontendState,
    v: StopQueue,
    base: Option<u32>,
    read: Option<[u8; 2]>,
) -> (Seq<StopAction>, FrontendState, Option<QueueState>)
    decreases stop_phases_after(v.phase),
{
    let reply = match v.phase {
        StopPhase::Disable => StopReply::Disabled,
        StopPhase::Base => StopReply::Base(base),
        StopPhase::UsedRing => StopReply::UsedRing(read),
    };
    match stop_step(s, v, reply) {
        (after, StopStep::Next(next)) => {
            let rest = stop_run(after, next, base, read);
            (seq![stop_action(s, v)] + rest.0, rest.1, rest.2)
        },
        (after, StopStep::Done(state)) => (seq![stop_action(s, v)], after, state),
    }
}

/// How a queue stops. It is disabled, then the backend is asked for its state,
/// and for a split ring the index is read that stands two bytes into the used
/// ring.
///
/// A backend that does not answer leaves nothing to go on from. Otherwise the
/// available index is the low half of its answer. The used index of a packed
/// ring is the high half; that of a split ring is the first byte that was read
/// and 256 times the second, or zero if nothing could be read. Either way the
/// queue is stopped, and nothing else changes.
pub proof fn law_stop(s: FrontendState, idx: u16, base: Option<u32>, read: Option<[u8; 2]>)
    requires
        s.wf(),
        idx < s.queues.len(),
        s.queues[idx as int].active,
    ensures
        ({
            let begin = StopQueue { idx, phase: StopPhase::Disable, avail_index: 0 };
            let (actions, after, state) = stop_run(s, begin, base, read);
            let index = idx as usize;
            let stopped = FrontendQueueState { active: false, params: None, event_proxy: false };
            &&& s.queues[idx as int].params is Some
            &&& actions == seq![
                StopAction::Call(Request::SetVringEnable { index, enable: false }),
                StopAction::Call(Request::GetVringBase { index }),
            ] + (if base is Some && !s.packed_ring {
                seq![
                    StopAction::ReadUsedRing {
                        address: (s.queues[idx as int].params->0.used_addr + 2) as u64,
                    },
                ]
            } else {
                seq![]
            })
            &&& after == FrontendState { queues: s.queues.update(idx as int, stopped), ..s }
            &&& match base {
                None => state is None,
                Some(base) => {
                    &&& state matches Some(state)
                    &&& state.avail_index == base % 0x1_0000
                    &&& s.packed_ring ==> state.used_index == base / 0x1_0000
                    &&& !s.packed_ring ==> match read {
                        Some(bytes) => state.used_index == bytes[0] + 256 * bytes[1],
                        None => state.used_index == 0,
                    }
                },
            }
        }),
{
    reveal_with_fuel(stop_run, 4);
    assert(s.queue_wf(s.queues[idx as int]));
    if let Some(bytes) = read {
        law_two_byte_value(bytes@);
    }
    let begin = StopQueue { idx, phase: StopPhase::Disable, avail_index: 0 };
    let index = idx as usize;
    assert(stop_run(s, begin, base, read).0 =~= seq![
        StopAction::Call(Request::SetVringEnable { index, enable: false }),
        StopAction::Call(Request::GetVringBase { index }),
    ] + (if base is Some && !s.packed_ring {
        seq![
            StopAction::ReadUsedRing {
                address: (s.queues[idx as int].params->0.used_addr + 2) as u64,
            },
        ]
    } else {
        seq![]
    }));
}

/// A queue goes on where it stopped. If it is started again with the state that a
/// stop gave, the third thing that is done hands the backend back what it
/// reported: all 32 bits for a packed ring, the low 16 for a split one.
pub proof fn law_queue_goes_on<E>(
    s: FrontendState,
    idx: u16,
    base: u32,
    read: Option<[u8; 2]>,
    params: QueueParams,
    features: u64,
    found: Surroundings,
)
    requires
        s.wf(),
        idx < s.queues.len(),
        s.queues[idx as int].active,
    ensures
        ({
            let stop = StopQueue { idx, phase: StopPhase::Disable, avail_index: 0 };
            let (actions, after, state) = stop_run(s, stop, Some(base), read);
            let start = start_begin(after, idx, params, features, state);
            let index = idx as usize;
            start_run::<E>(after, start, found).0[2] == StartActionView::Call(
                if s.packed_ring {
                    Request::SetVringBaseRaw { index, state: base }
                } else {
                    Request::SetVringBase { index, base: (base % 0x1_0000) as u16 }
                },
            )
        }),
{
    law_stop(s, idx, Some(base), read);
    assert(s.queue_wf(s.queues[idx as int]));
    let stop = StopQueue { idx, phase: StopPhase::Disable, avail_index: 0 };
    let (actions, after, state) = stop_run(s, stop, Some(base), read);
    assert(after.wf()) by {
        assert forall|i: int| 0 <= i < after.queues.len() implies after.queue_wf(
            #[trigger] after.queues[i],
        ) by {
            assert(s.queue_wf(s.queues[i]));
        }
    }
    law_start_trace::<E>(after, idx, params, features, state, found);
}

/// The calls by which a reset stops queue `i`, if it is active.
pub open spec fn queue_stop_calls(queues: Seq<FrontendQueueState>, i: int) -> Seq<Request> {
    if queues[i].active {
        seq![
            Request::SetVringEnable { index: i as usize, enable: false },
            Request::GetVringBase { index: i as usize },
        ]
    } else {
        seq![]
    }
}

/// The calls for the queues from `from` on, one queue behind the other.
proof fn lemma_stop_calls_flat(queues: Seq<FrontendQueueState>, from: nat)
    requires
        from <= queues.len(),
    ensures
        stop_calls(queues, from) == Seq::new(
            (queues.len() - from) as nat,
            |i: int| queue_stop_calls(queues, from + i),
        ).flatten(),
    decreases queues.len() - from,
{
    let parts = Seq::new(
        (queues.len() - from) as nat,
        |i: int| queue_stop_calls(queues, from + i),
    );
    if from < queues.len() {
        lemma_stop_calls_flat(queues, from + 1);
        let rest = Seq::new(
            (queues.len() - (from + 1)) as nat,
            |i: int| queue_stop_calls(queues, from + 1 + i),
        );
        assert(parts.drop_first() =~= rest);
        assert(parts.first() == queue_stop_calls(queues, from as int));
        assert(parts.flatten() == parts.first() + rest.flatten());
        assert(stop_calls(queues, from) =~= parts.flatten());
    }
}

/// What a reset does: each active queue, in order, is disabled and then asked for
/// its state, which stops it; then the backend is reset if bit 13 of the
/// protocol features was negotiated.
pub proof fn law_reset_trace(s: FrontendState)
    requires
        s.wf(),
    ensures
        ({
            let (after, step) = reset_from(s, 0);
            reset_run_from(after, step).0 == Seq::new(
                s.queues.len(),
                |i: int|
                    if s.queues[i].active {
                        seq![
                            Request::SetVringEnable { index: i as usize, enable: false },
                            Request::GetVringBase { index: i as usize },
                        ]
                    } else {
                        seq![]
                    },
            ).flatten() + (if s.protocol_features & 0x2000 != 0 {
                seq![Request::ResetDevice]
            } else {
                seq![]
            })
        }),
{
    law_reset(s);
    lemma_one_bit_flags(s.protocol_features);
    lemma_stop_calls_flat(s.queues, 0);
    let parts = Seq::new(
        s.queues.len(),
        |i: int|
            if s.queues[i].active {
                seq![
                    Request::SetVringEnable { index: i as usize, enable: false },
                    Request::GetVringBase { index: i as usize },
                ]
            } else {
                seq![]
            },
    );
    assert(parts =~= Seq::new(
        (s.queues.len() - 0) as nat,
        |i: int| queue_stop_calls(s.queues, 0 + i),
    ));
}

/// What a reset leaves behind: no queue is active or has anything left, the
/// guest's features are forgotten, and nothing else changes; so the memory table
/// stays with the backend.
pub proof fn law_reset_result(s: FrontendState)
    requires
        s.wf(),
    ensures
        ({
            let (begun, step) = reset_from(s, 0);
            let after = reset_run_from(begun, step).1;
            &&& !after.guest_features_sent
            &&& !after.packed_ring
            &&& after.queues.len() == s.queues.len()
            &&& forall|i: int|
                0 <= i < s.queues.len() ==> !(#[trigger] after.queues[i]).active
                    && after.queues[i].params is None && !after.queues[i].event_proxy
            &&& after.mem_table_sent == s.mem_table_sent
            &&& after.guest_memory == s.guest_memory
            &&& after.device_traits == s.device_traits
            &&& after.protocol_features == s.protocol_features
            &&& after.queue_sizes == s.queue_sizes
            &&& after.patches == s.patches
            &&& after.device_features_raw == s.device_features_raw
        }),
{
    law_reset(s);
}

/// The backend serves the config space exactly if bit 9 of the protocol features
/// was negotiated.
pub proof fn law_backend_config(s: FrontendState)
    ensures
        s.backend_config() <==> s.protocol_features & 0x200 != 0,
{
    lemma_one_bit_flags(s.protocol_features);
}

/// A byte of a register that no patch covers is the byte that the backend
/// replied at that position, or zero if it did not reply with four.
pub proof fn law_register_byte_of_backend(
    patches: Seq<ConfigPatch>,
    offset: nat,
    reply: Option<Seq<u8>>,
    i: int,
)
    requires
        0 <= i < 4,
        forall|k: int|
            0 <= k < patches.len() ==> !((#[trigger] patches[k]).offset <= offset + i
                < patches[k].offset + patches[k].data.len()),
    ensures
        (le_value(register_bytes(patches, offset, register_base(reply))) as int / pow(
            256,
            i as nat,
        )) % 256 == (match reply {
            Some(data) => if data.len() >= 4 {
                data[i] as int
            } else {
                0
            },
            None => 0,
        }),
{
    let address = (offset + i) as nat;
    let base = register_base(reply);
    assert forall|k: int| 0 <= k < patches.len() implies !covers(#[trigger] patches[k], address) by {
    }
    law_unpatched_byte(patches, address, base[i]);
    law_le_value_digit(register_bytes(patches, offset, base), i);
}

/// A byte of a register that a patch covers is that patch's, if no later one
/// covers it, whatever the backend replied.
pub proof fn law_register_byte_of_patch(
    patches: Seq<ConfigPatch>,
    offset: nat,
    reply: Option<Seq<u8>>,
    i: int,
    k: int,
)
    requires
        0 <= i < 4,
        0 <= k < patches.len(),
        patches[k].offset <= offset + i < patches[k].offset + patches[k].data.len(),
        forall|j: int|
            k < j < patches.len() ==> !((#[trigger] patches[j]).offset <= offset + i
                < patches[j].offset + patches[j].data.len()),
    ensures
        (le_value(register_bytes(patches, offset, register_base(reply))) as int / pow(
            256,
            i as nat,
        )) % 256 == patches[k].data[offset + i - patches[k].offset],
{
    let address = (offset + i) as nat;
    let base = register_base(reply);
    law_patched_byte(patches, k, address, base[i]);
    law_le_value_digit(register_bytes(patches, offset, base), i);
}

/// A register has four bytes.
pub proof fn law_register_width(
    patches: Seq<ConfigPatch>,
    offset: nat,
    reply: Option<Seq<u8>>,
)
    ensures
        le_value(register_bytes(patches, offset, register_base(reply))) < 0x1_0000_0000,
{
    lemma_le_value_bound(register_bytes(patches, offset, register_base(reply)));
    lemma_pow256();
}

/// A register that no patch reaches into is read as the backend replied it, least
/// significant byte first.
pub proof fn law_unpatched_register(patches: Seq<ConfigPatch>, offset: nat, data: Seq<u8>)
    requires
        data.len() >= 4,
        forall|k: int|
            0 <= k < patches.len() ==> (#[trigger] patches[k]).offset + patches[k].data.len()
                <= offset || offset + 4 <= patches[k].offset,
    ensures
        le_value(register_bytes(patches, offset, register_base(Some(data)))) == data[0] + 0x100
            * data[1] + 0x1_0000 * data[2] + 0x100_0000 * data[3],
{
    let base = register_base(Some(data));
    let bytes = register_bytes(patches, offset, base);
    assert forall|i: int| 0 <= i < 4 implies #[trigger] bytes[i] == data[i] by {
        assert forall|k: int| 0 <= k < patches.len() implies !covers(
            #[trigger] patches[k],
            (offset + i) as nat,
        ) by {
            assert(patches[k].offset + patches[k].data.len() <= offset || offset + 4
                <= patches[k].offset);
        }
        law_unpatched_byte(patches, (offset + i) as nat, base[i]);
    }
    law_four_byte_value(bytes);
}

/// The configured binary is what the variable says, unless that is nothing.
pub proof fn law_configured_binary(variable: Option<Vec<u8>>, path: Seq<u8>)
    ensures
        path_view(None) is None,
        variable matches Some(bytes) ==> path_view(variable) == Some(bytes@),
        configured_binary(None) is None,
        configured_binary(Some(path)) == (if path.len() == 0 {
            None
        } else {
            Some(path)
        }),
{
}

/// The daemon is told the very paths, behind the options for them, and is not
/// sandboxed.
pub proof fn law_launch_args(
    shared_dir: Seq<u8>,
    socket_path: Seq<u8>,
    args: Seq<Vec<u8>>,
    i: int,
)
    ensures
        args_view(args).len() == args.len(),
        0 <= i < args.len() ==> args_view(args)[i] == args[i]@,
        launch_args(shared_dir, socket_path).len() == 8,
        launch_args(shared_dir, socket_path)[0] == "--socket-path".spec_bytes(),
        launch_args(shared_dir, socket_path)[1] == socket_path,
        launch_args(shared_dir, socket_path)[2] == "--shared-dir".spec_bytes(),
        launch_args(shared_dir, socket_path)[3] == shared_dir,
        launch_args(shared_dir, socket_path)[4] == "--sandbox".spec_bytes(),
        launch_args(shared_dir, socket_path)[5] == "none".spec_bytes(),
        launch_args(shared_dir, socket_path)[6] == "--log-level".spec_bytes(),
        launch_args(shared_dir, socket_path)[7] == "debug".spec_bytes(),
{
}

} // verus!
