//! Setting up a connection: feature negotiation and the checks on the backend.
//!
//! The caller asks a `Handshake` what to do, does it, and hands the outcome to
//! `step`, until that gives a `VhostUserFrontend` or an error.

use crate::device::patches_of;
use crate::device::ConfigPatch;
use crate::device::ConfigView;
use crate::device::DeviceTraits;
use crate::device::DeviceTraitsSharedMemory;
use crate::device::Request;
use crate::device::VhostUserConfig;
use crate::error::CallName;
use crate::error::FrontendError;
use crate::frontend::stopped_queue;
use crate::frontend::FrontendState;
use crate::frontend::VhostUserFrontend;
use crate::frontend::BACKEND_CONFIG_LENGTH;
use crate::protocol::contains_flag;
use crate::protocol::need_reply_flag;
use crate::protocol::protocol_flags;
use crate::protocol::NEED_REPLY;
use crate::protocol::PROTOCOL_F_CONFIG;
use crate::protocol::PROTOCOL_F_MQ;
use crate::protocol::PROTOCOL_F_REPLY_ACK;
use crate::protocol::PROTOCOL_F_RESET_DEVICE;
use crate::protocol::VHOST_USER_F_PROTOCOL_FEATURES;
use vstd::prelude::*;

verus! {

/// What a handshake is waiting for.
#[derive(Debug, Clone, Copy, PartialEq, Eq, Structural)]
pub enum HandshakePhase {
    /// The backend's features.
    Features,
    /// The backend's protocol features.
    ProtocolFeatures,
    /// Word that the negotiated protocol features were sent.
    ProtocolFeaturesSet,
    /// Word that requests ask for acknowledgments from now on.
    HeaderFlags,
    /// Word that the connection is owned.
    Owner,
    /// The backend's queue count.
    QueueNum,
}

/// What to do next in a handshake.
#[derive(Debug, Clone, Copy, PartialEq, Eq)]
pub enum HandshakeAction {
    /// Make a call to the backend.
    Call(Request),
    /// Put these flags in the header of every request from now on.
    SetHeaderFlags(u32),
}

/// The outcome of an action that did not fail.
#[derive(Debug, Clone, Copy, PartialEq, Eq, Structural)]
pub enum HandshakeReply {
    /// The backend answered with a number.
    Value(u64),
    /// It was done, and there is no more to say.
    Done,
}

/// A handshake under way.
#[derive(Debug)]
pub struct Handshake {
    config: VhostUserConfig,
    phase: HandshakePhase,
    features: u64,
    negotiated: u64,
}

/// The state of a `Handshake`.
pub struct HandshakeView {
    /// What the frontend is to be.
    pub config: ConfigView,
    /// What is waited for.
    pub phase: HandshakePhase,
    /// The backend's features, once known.
    pub features: u64,
    /// The negotiated protocol features, once known.
    pub negotiated: u64,
}

/// What came of a step.
#[derive(Debug)]
pub enum HandshakeStep<E> {
    /// There is more to do.
    Next(Handshake),
    /// The frontend is ready.
    Ready(VhostUserFrontend),
    /// The connection is of no use.
    Failed(FrontendError<E>),
}

/// What comes of a step.
pub enum HandshakeOutcome<E> {
    /// There is more to do.
    Next(HandshakeView),
    /// The frontend is ready.
    Ready(FrontendState),
    /// The connection is of no use.
    Failed(FrontendError<E>),
}

impl View for Handshake {
    type V = HandshakeView;

    closed spec fn view(&self) -> HandshakeView {
        HandshakeView {
            config: self.config@,
            phase: self.phase,
            features: self.features,
            negotiated: self.negotiated,
        }
    }
}

impl<E> View for HandshakeStep<E> {
    type V = HandshakeOutcome<E>;

    open spec fn view(&self) -> HandshakeOutcome<E> {
        match *self {
            HandshakeStep::Next(handshake) => HandshakeOutcome::Next(handshake@),
            HandshakeStep::Ready(frontend) => HandshakeOutcome::Ready(frontend@),
            HandshakeStep::Failed(error) => HandshakeOutcome::Failed(error),
        }
    }
}

/// The protocol features that the frontend wants.
pub open spec fn wanted_features(use_backend_config: bool) -> u64 {
    let always = PROTOCOL_F_MQ | PROTOCOL_F_REPLY_ACK | PROTOCOL_F_RESET_DEVICE;
    if use_backend_config {
        always | PROTOCOL_F_CONFIG
    } else {
        always
    }
}

/// Where a patch ends in the config space. The space is counted in 32 bits, and
/// so is the patch.
pub open spec fn patch_end(patch: ConfigPatch) -> nat {
    patch.offset + patch.data.len() % 0x1_0000_0000
}

/// Where the last of the patches ends, or zero if there are none.
pub open spec fn patches_end(patches: Seq<ConfigPatch>) -> nat
    decreases patches.len(),
{
    if patches.len() == 0 {
        0
    } else {
        let before = patches_end(patches.drop_last());
        let end = patch_end(patches.last());
        if end > before {
            end
        } else {
            before
        }
    }
}

/// What is done in each phase.
pub open spec fn handshake_action(v: HandshakeView) -> HandshakeAction {
    match v.phase {
        HandshakePhase::Features => HandshakeAction::Call(Request::GetFeatures),
        HandshakePhase::ProtocolFeatures => HandshakeAction::Call(Request::GetProtocolFeatures),
        HandshakePhase::ProtocolFeaturesSet => HandshakeAction::Call(
            Request::SetProtocolFeatures(v.negotiated),
        ),
        HandshakePhase::HeaderFlags => HandshakeAction::SetHeaderFlags(NEED_REPLY),
        HandshakePhase::Owner => HandshakeAction::Call(Request::SetOwner),
        HandshakePhase::QueueNum => HandshakeAction::Call(Request::GetQueueNum),
    }
}

/// The call that is made in each phase, if one is.
pub open spec fn handshake_call(phase: HandshakePhase) -> CallName {
    match phase {
        HandshakePhase::Features => CallName::GetFeatures,
        HandshakePhase::ProtocolFeatures => CallName::GetProtocolFeatures,
        HandshakePhase::ProtocolFeaturesSet => CallName::SetProtocolFeatures,
        HandshakePhase::HeaderFlags => CallName::SetProtocolFeatures,
        HandshakePhase::Owner => CallName::SetOwner,
        HandshakePhase::QueueNum => CallName::GetQueueNum,
    }
}

/// Whether `reply` is of the kind that the action of `phase` has: a number where
/// the backend is asked for one. Setting the header flags does not fail.
pub open spec fn handshake_reply_fits<E>(
    phase: HandshakePhase,
    reply: Result<HandshakeReply, E>,
) -> bool {
    match reply {
        Ok(HandshakeReply::Value(value)) => phase is Features || phase is ProtocolFeatures
            || phase is QueueNum,
        Ok(HandshakeReply::Done) => phase is ProtocolFeaturesSet || phase is HeaderFlags
            || phase is Owner,
        Err(error) => !(phase is HeaderFlags),
    }
}

/// The frontend that comes of a negotiation.
pub open spec fn negotiated_frontend(v: HandshakeView) -> FrontendState {
    FrontendState {
        device_traits: DeviceTraits {
            device_id: v.config.device_id,
            device_features: v.features & !VHOST_USER_F_PROTOCOL_FEATURES,
            max_queues: v.config.queue_sizes.len() as u16,
            device_register_length: if contains_flag(v.negotiated, PROTOCOL_F_CONFIG) {
                BACKEND_CONFIG_LENGTH
            } else {
                patches_end(v.config.patches) as u32
            },
            shared_memory: DeviceTraitsSharedMemory { id: 0, size: 0 },
        },
        protocol_features: v.negotiated,
        queue_sizes: v.config.queue_sizes,
        patches: v.config.patches,
        device_features_raw: v.features,
        guest_features_sent: false,
        packed_ring: false,
        mem_table_sent: false,
        queues: Seq::new(v.config.queue_sizes.len(), |i: int| stopped_queue()),
        guest_memory: false,
    }
}

/// The checks on the queue count, and the frontend that passes them. `supported`
/// is how many queues the backend supports, if it says.
pub open spec fn handshake_finish<E>(
    v: HandshakeView,
    supported: Option<u16>,
) -> HandshakeOutcome<E> {
    let count = v.config.queue_sizes.len();
    if count == 0 {
        HandshakeOutcome::Failed(FrontendError::NoQueues)
    } else if count > u16::MAX {
        HandshakeOutcome::Failed(FrontendError::TooManyQueues(count as usize))
    } else if supported is Some && count > supported->0 {
        HandshakeOutcome::Failed(
            FrontendError::ExceedsBackend { requested: count as u16, supported: supported->0 },
        )
    } else {
        HandshakeOutcome::Ready(negotiated_frontend(v))
    }
}

/// What comes of the reply to the action of each phase.
pub open spec fn handshake_step<E>(
    v: HandshakeView,
    reply: Result<HandshakeReply, E>,
) -> HandshakeOutcome<E> {
    match reply {
        Err(source) => HandshakeOutcome::Failed(
            FrontendError::Call { call: handshake_call(v.phase), source },
        ),
        Ok(HandshakeReply::Value(value)) => match v.phase {
            HandshakePhase::Features => HandshakeOutcome::Next(
                HandshakeView {
                    phase: if contains_flag(value, VHOST_USER_F_PROTOCOL_FEATURES) {
                        HandshakePhase::ProtocolFeatures
                    } else {
                        HandshakePhase::Owner
                    },
                    features: value,
                    negotiated: 0,
                    ..v
                },
            ),
            HandshakePhase::ProtocolFeatures => HandshakeOutcome::Next(
                HandshakeView {
                    phase: HandshakePhase::ProtocolFeaturesSet,
                    negotiated: value & wanted_features(v.config.use_backend_config),
                    ..v
                },
            ),
            _ => handshake_finish(v, Some((value % 0x1_0000) as u16)),
        },
        Ok(HandshakeReply::Done) => match v.phase {
            HandshakePhase::ProtocolFeaturesSet => HandshakeOutcome::Next(
                HandshakeView {
                    phase: if contains_flag(v.negotiated, PROTOCOL_F_REPLY_ACK) {
                        HandshakePhase::HeaderFlags
                    } else {
                        HandshakePhase::Owner
                    },
                    ..v
                },
            ),
            HandshakePhase::HeaderFlags => HandshakeOutcome::Next(
                HandshakeView { phase: HandshakePhase::Owner, ..v },
            ),
            _ => if contains_flag(v.negotiated, PROTOCOL_F_MQ) {
                HandshakeOutcome::Next(HandshakeView { phase: HandshakePhase::QueueNum, ..v })
            } else {
                handshake_finish(v, None)
            },
        },
    }
}

/// Where the last of the patches ends, or zero if there are none.
fn patches_length(patches: &Vec<(u16, Vec<u8>)>) -> (length: u64)
    ensures
        length == patches_end(patches_of(patches@)),
{
    let ghost all = patches_of(patches@);
    let mut length: u64 = 0;
    let mut i: usize = 0;
    while i < patches.len()
        invariant
            i <= patches@.len(),
            all == patches_of(patches@),
            length == patches_end(all.take(i as int)),
            length <= 0x1_0000_FFFF,
        decreases patches@.len() - i,
    {
        let patch: &(u16, Vec<u8>) = &patches[i];
        let end: u64 = patch.0 as u64 + patch.1.len() as u64 % 0x1_0000_0000;
        proof {
            let longer = all.take(i as int + 1);
            assert(longer.drop_last() =~= all.take(i as int));
            assert(longer.last() == all[i as int]);
        }
        if end > length {
            length = end;
        }
        i = i + 1;
    }
    assert(all.take(patches@.len() as int) =~= all);
    length
}

impl VhostUserFrontend {
    /// Begins the handshake on a connected socket.
    ///
    /// Gives the handshake, and the queue count that the connection is to be set
    /// up for.
    pub fn from_stream(config: VhostUserConfig) -> (result: (u64, Handshake))
        ensures
            result.0 == config@.queue_sizes.len(),
            result.1@ == (HandshakeView {
                config: config@,
                phase: HandshakePhase::Features,
                features: 0,
                negotiated: 0,
            }),
    {
        let count: u64 = config.queue_sizes.len() as u64;
        (count, VhostUserFrontend::new(config))
    }

    /// Begins the handshake on a connection that is set up already.
    pub fn new(config: VhostUserConfig) -> (handshake: Handshake)
        ensures
            handshake@ == (HandshakeView {
                config: config@,
                phase: HandshakePhase::Features,
                features: 0,
                negotiated: 0,
            }),
    {
        Handshake { config, phase: HandshakePhase::Features, features: 0, negotiated: 0 }
    }
}

impl Handshake {
    /// What to do next.
    pub fn action(&self) -> (action: HandshakeAction)
        ensures
            action == handshake_action(self@),
    {
        match self.phase {
            HandshakePhase::Features => HandshakeAction::Call(Request::GetFeatures),
            HandshakePhase::ProtocolFeatures => HandshakeAction::Call(
                Request::GetProtocolFeatures,
            ),
            HandshakePhase::ProtocolFeaturesSet => HandshakeAction::Call(
                Request::SetProtocolFeatures(self.negotiated),
            ),
            HandshakePhase::HeaderFlags => HandshakeAction::SetHeaderFlags(need_reply_flag()),
            HandshakePhase::Owner => HandshakeAction::Call(Request::SetOwner),
            HandshakePhase::QueueNum => HandshakeAction::Call(Request::GetQueueNum),
        }
    }

    /// Whether `reply` would make a frontend whose config space, as the patches
    /// give it, cannot be measured in 32 bits. Such a reply must not be handed to
    /// `step`.
    pub fn config_too_long<E>(&self, reply: &Result<HandshakeReply, E>) -> (too_long: bool)
        requires
            handshake_reply_fits(self@.phase, *reply),
        ensures
            too_long == (handshake_step(self@, *reply) is Ready && !contains_flag(
                self@.negotiated,
                PROTOCOL_F_CONFIG,
            ) && patches_end(self@.config.patches) > u32::MAX),
    {
        let flags = protocol_flags();
        let count: usize = self.config.queue_sizes.len();
        let passes: bool = match reply {
            Ok(HandshakeReply::Value(value)) => match self.phase {
                HandshakePhase::QueueNum => count <= (*value % 0x1_0000) as usize,
                _ => false,
            },
            Ok(HandshakeReply::Done) => match self.phase {
                HandshakePhase::Owner => !contains_flag(self.negotiated, flags.mq),
                _ => false,
            },
            Err(_) => false,
        };
        passes && 0 < count && count <= 65535 && !contains_flag(self.negotiated, flags.config)
            && patches_length(&self.config.config_patches) > 0xFFFF_FFFF
    }

    /// Goes on with the outcome of the action.
    ///
    /// If this makes a frontend whose config space the backend does not serve,
    /// the length of that space, which the patches give, must fit in 32 bits; see
    /// `config_too_long`.
    pub fn step<E>(self, reply: Result<HandshakeReply, E>) -> (step: HandshakeStep<E>)
        requires
            handshake_reply_fits(self@.phase, reply),
            handshake_step(self@, reply) is Ready && !contains_flag(
                self@.negotiated,
                PROTOCOL_F_CONFIG,
            ) ==> patches_end(self@.config.patches) <= u32::MAX,
        ensures
            step@ == handshake_step(self@, reply),
            step matches HandshakeStep::Ready(frontend) ==> {
                &&& frontend@.wf()
                &&& frontend@.device_traits.device_id == self@.config.device_id
                &&& frontend@.device_traits.max_queues == self@.config.queue_sizes.len()
                &&& frontend@.queue_sizes == self@.config.queue_sizes
                &&& frontend@.patches == self@.config.patches
                &&& frontend@.protocol_features == self@.negotiated
                &&& frontend@.device_features_raw == self@.features
            },
    {
        match reply {
            Err(source) => {
                let call: CallName = match self.phase {
                    HandshakePhase::Features => CallName::GetFeatures,
                    HandshakePhase::ProtocolFeatures => CallName::GetProtocolFeatures,
                    HandshakePhase::ProtocolFeaturesSet => CallName::SetProtocolFeatures,
                    HandshakePhase::HeaderFlags => CallName::SetProtocolFeatures,
                    HandshakePhase::Owner => CallName::SetOwner,
                    HandshakePhase::QueueNum => CallName::GetQueueNum,
                };
                HandshakeStep::Failed(FrontendError::Call { call, source })
            },
            Ok(HandshakeReply::Value(value)) => match self.phase {
                HandshakePhase::Features => {
                    let phase: HandshakePhase = if contains_flag(
                        value,
                        VHOST_USER_F_PROTOCOL_FEATURES,
                    ) {
                        HandshakePhase::ProtocolFeatures
                    } else {
                        HandshakePhase::Owner
                    };
                    HandshakeStep::Next(
                        Handshake {
                            config: self.config,
                            phase,
                            features: value,
                            negotiated: 0,
                        },
                    )
                },
                HandshakePhase::ProtocolFeatures => {
                    let flags = protocol_flags();
                    let mut wanted: u64 = flags.mq | flags.reply_ack | flags.reset_device;
                    if self.config.use_backend_config {
                        wanted = wanted | flags.config;
                    }
                    HandshakeStep::Next(
                        Handshake {
                            config: self.config,
                            phase: HandshakePhase::ProtocolFeaturesSet,
                            features: self.features,
                            negotiated: value & wanted,
                        },
                    )
                },
                _ => self.finish(Some((value % 0x1_0000) as u16)),
            },
            Ok(HandshakeReply::Done) => {
                let flags = protocol_flags();
                let phase: HandshakePhase = match self.phase {
                    HandshakePhase::ProtocolFeaturesSet => {
                        if contains_flag(self.negotiated, flags.reply_ack) {
                            HandshakePhase::HeaderFlags
                        } else {
                            HandshakePhase::Owner
                        }
                    },
                    HandshakePhase::HeaderFlags => HandshakePhase::Owner,
                    _ => {
                        if !contains_flag(self.negotiated, flags.mq) {
                            return self.finish(None);
                        }
                        HandshakePhase::QueueNum
                    },
                };
                HandshakeStep::Next(
                    Handshake {
                        config: self.config,
                        phase,
                        features: self.features,
                        negotiated: self.negotiated,
                    },
                )
            },
        }
    }

    /// Checks the queue count and makes the frontend.
    fn finish<E>(self, supported: Option<u16>) -> (step: HandshakeStep<E>)
        requires
            handshake_finish::<E>(self@, supported) is Ready && !contains_flag(
                self@.negotiated,
                PROTOCOL_F_CONFIG,
            ) ==> patches_end(self@.config.patches) <= u32::MAX,
        ensures
            step@ == handshake_finish::<E>(self@, supported),
            step matches HandshakeStep::Ready(frontend) ==> frontend@.wf(),
    {
        let count: usize = self.config.queue_sizes.len();
        if count == 0 {
            return HandshakeStep::Failed(FrontendError::NoQueues);
        }
        if count > 65535 {
            return HandshakeStep::Failed(FrontendError::TooManyQueues(count));
        }
        let max_queues: u16 = count as u16;
        if let Some(supported) = supported {
            if max_queues > supported {
                return HandshakeStep::Failed(
                    FrontendError::ExceedsBackend { requested: max_queues, supported },
                );
            }
        }
        let device_register_length: u32 = if contains_flag(
            self.negotiated,
            protocol_flags().config,
        ) {
            BACKEND_CONFIG_LENGTH
        } else {
            patches_length(&self.config.config_patches) as u32
        };
        let device_traits = DeviceTraits {
            device_id: self.config.device_id,
            device_features: self.features & !VHOST_USER_F_PROTOCOL_FEATURES,
            max_queues,
            device_register_length,
            shared_memory: DeviceTraitsSharedMemory::default(),
        };
        HandshakeStep::Ready(
            VhostUserFrontend::from_parts(
                device_traits,
                self.negotiated,
                self.config.queue_sizes,
                self.config.config_patches,
                self.features,
            ),
        )
    }
}

} // verus!
