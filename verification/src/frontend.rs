//! The device side of the frontend: its state between operations, and the
//! config space that it shows to the guest.

use crate::device::patches_of;
use crate::device::ConfigPatch;
use crate::device::DeviceTraits;
use crate::device::QueueParams;
use crate::le::from_le_bytes;
use crate::le::law_le_value_of_le_bytes;
use crate::le::le_bytes;
use crate::le::le_value;
use crate::le::lemma_le_value_bound;
use crate::le::lemma_pow256;
use crate::le::to_le_bytes;
use crate::operation_laws::law_unpatched_register;
use crate::protocol::contains_flag;
use crate::protocol::protocol_flags;
use crate::protocol::PROTOCOL_F_CONFIG;
use crate::protocol::PROTOCOL_F_RESET_DEVICE;
use crate::protocol::VHOST_USER_F_PROTOCOL_FEATURES;
use crate::wire_laws::law_four_byte_value;
use vstd::prelude::*;

verus! {

/// Offset added to guest-physical addresses to produce the "userspace" addresses
/// of the vhost-user protocol, in which vring addresses are expressed and which
/// the backend translates back by way of the memory table.
///
/// Guest memory is not mapped here, so guest-physical addresses serve as the
/// base. The offset keeps the two coordinate systems apart, so that a missing
/// translation shows. It is 2 to the power of 52, the size of the largest
/// physical address space of ARM64, and so collides with no valid address.
pub const GPA_TO_VA_OFFSET: u64 = 0x10_0000_0000_0000;

/// Bytes of config space that a guest sees when the backend serves it.
pub const BACKEND_CONFIG_LENGTH: u32 = 256;

/// Bytes of a config register access.
pub const REGISTER_WIDTH: u32 = 4;

/// Whether a guest-physical address can be expressed in the protocol's
/// coordinates.
pub open spec fn translatable(address: u64) -> bool {
    address + GPA_TO_VA_OFFSET <= u64::MAX
}

/// Whether every address of a queue can be expressed in the protocol's
/// coordinates.
pub open spec fn params_translatable(params: QueueParams) -> bool {
    &&& translatable(params.desc_addr)
    &&& translatable(params.avail_addr)
    &&& translatable(params.used_addr)
}

/// Per-queue tracking state.
#[derive(Debug, Clone, Copy, PartialEq, Eq, Structural)]
pub struct FrontendQueueState {
    /// Whether the backend is processing the queue.
    pub active: bool,
    /// Parameters of the queue while it is active, for reading the used index
    /// when it stops.
    pub params: Option<QueueParams>,
    /// Whether an interrupt proxy is kept alive for the queue.
    pub event_proxy: bool,
}

/// A queue that the backend is not processing.
pub open spec fn stopped_queue() -> FrontendQueueState {
    FrontendQueueState { active: false, params: None, event_proxy: false }
}

/// A `VirtioDevice` that proxies to a vhost-user backend.
///
/// The objects that go with it (the connection, guest memory, and interrupt
/// proxies) stay with the caller, who carries out what the operations ask for.
#[derive(Debug)]
pub struct VhostUserFrontend {
    device_traits: DeviceTraits,
    protocol_features: u64,
    queue_sizes: Vec<u16>,
    config_patches: Vec<(u16, Vec<u8>)>,
    device_features_raw: u64,
    guest_features_sent: bool,
    packed_ring: bool,
    mem_table_sent: bool,
    queues: Vec<FrontendQueueState>,
    guest_memory: bool,
}

/// The state of a `VhostUserFrontend`.
pub struct FrontendState {
    /// What the device tells its transport.
    pub device_traits: DeviceTraits,
    /// Negotiated protocol feature bits.
    pub protocol_features: u64,
    /// Size of each queue.
    pub queue_sizes: Seq<u16>,
    /// Patches to the config space, in order.
    pub patches: Seq<ConfigPatch>,
    /// Feature bits that the backend advertised.
    pub device_features_raw: u64,
    /// Whether the guest's features were sent since the last reset.
    pub guest_features_sent: bool,
    /// Whether the guest negotiated packed rings.
    pub packed_ring: bool,
    /// Whether the memory table was sent. It is sent once in the life of the
    /// connection.
    pub mem_table_sent: bool,
    /// Tracking state of each queue.
    pub queues: Seq<FrontendQueueState>,
    /// Whether the guest memory that the table describes is held.
    pub guest_memory: bool,
}

impl FrontendState {
    /// What holds of a frontend between any two operations, and between the
    /// steps of one.
    pub open spec fn wf(self) -> bool {
        &&& 0 < self.queues.len() <= u16::MAX
        &&& self.queue_sizes.len() == self.queues.len()
        &&& self.device_traits.max_queues == self.queues.len()
        &&& self.device_traits.device_features == self.device_features_raw
            & !VHOST_USER_F_PROTOCOL_FEATURES
        &&& self.mem_table_sent == self.guest_memory
        &&& self.packed_ring ==> self.guest_features_sent
        &&& forall|i: int|
            0 <= i < self.queues.len() ==> self.queue_wf(#[trigger] self.queues[i])
    }

    /// A queue that is active has parameters, and the backend knows the memory
    /// they point into and the features to go by; one that is not has nothing.
    pub open spec fn queue_wf(self, queue: FrontendQueueState) -> bool {
        if queue.active {
            &&& self.mem_table_sent
            &&& self.guest_features_sent
            &&& queue.params matches Some(params) && params_translatable(params)
        } else {
            queue == stopped_queue()
        }
    }

    /// Whether the backend serves the config space.
    pub open spec fn backend_config(self) -> bool {
        contains_flag(self.protocol_features, PROTOCOL_F_CONFIG)
    }

    /// This state with queue `index` replaced.
    pub open spec fn with_queue(self, index: int, queue: FrontendQueueState) -> FrontendState {
        FrontendState { queues: self.queues.update(index, queue), ..self }
    }
}

impl View for VhostUserFrontend {
    type V = FrontendState;

    closed spec fn view(&self) -> FrontendState {
        FrontendState {
            device_traits: self.device_traits,
            protocol_features: self.protocol_features,
            queue_sizes: self.queue_sizes@,
            patches: patches_of(self.config_patches@),
            device_features_raw: self.device_features_raw,
            guest_features_sent: self.guest_features_sent,
            packed_ring: self.packed_ring,
            mem_table_sent: self.mem_table_sent,
            queues: self.queues@,
            guest_memory: self.guest_memory,
        }
    }
}

/// Whether a patch replaces the byte at `address`.
pub open spec fn covers(patch: ConfigPatch, address: nat) -> bool {
    patch.offset <= address < patch.offset + patch.data.len()
}

/// The byte that the guest reads at `address` of the config space: from the
/// last patch that covers the address, or `base` if none does.
pub open spec fn patched_byte(patches: Seq<ConfigPatch>, address: nat, base: u8) -> u8
    decreases patches.len(),
{
    if patches.len() == 0 {
        base
    } else if covers(patches.last(), address) {
        patches.last().data[address - patches.last().offset]
    } else {
        patched_byte(patches.drop_last(), address, base)
    }
}

/// What the backend's config space holds at a register, going by the reply to
/// the request for it: zeros if there was none, or too short a one.
pub open spec fn register_base(reply: Option<Seq<u8>>) -> Seq<u8> {
    match reply {
        Some(data) if data.len() >= REGISTER_WIDTH => data.take(REGISTER_WIDTH as int),
        _ => seq![0u8, 0u8, 0u8, 0u8],
    }
}

/// The four bytes that the guest reads at `offset`.
pub open spec fn register_bytes(
    patches: Seq<ConfigPatch>,
    offset: nat,
    base: Seq<u8>,
) -> Seq<u8> {
    Seq::new(
        REGISTER_WIDTH as nat,
        |i: int| patched_byte(patches, (offset + i) as nat, base[i]),
    )
}

/// A read of the backend's config space.
#[derive(Debug, Clone, Copy, PartialEq, Eq, Structural)]
pub struct ConfigRead {
    /// Offset of the first byte.
    pub offset: u32,
    /// How many bytes to read; the request carries as many zeros.
    pub size: u32,
    /// Flags of the request.
    pub flags: u32,
}

/// A write to the backend's config space.
#[derive(Debug)]
pub struct ConfigWrite {
    /// Offset of the first byte.
    pub offset: u32,
    /// Flags of the request.
    pub flags: u32,
    /// The bytes to write.
    pub data: Vec<u8>,
}

/// Applies one patch to the part of the config space that starts at `offset`.
fn apply_patch(buf: &mut Vec<u8>, offset: u16, patch_offset: u16, patch_data: &Vec<u8>)
    requires
        old(buf)@.len() == REGISTER_WIDTH,
    ensures
        final(buf)@.len() == REGISTER_WIDTH,
        forall|i: int|
            0 <= i < REGISTER_WIDTH ==> #[trigger] final(buf)@[i] == (if patch_offset <= offset + i
                < patch_offset + patch_data@.len() {
                patch_data@[offset + i - patch_offset]
            } else {
                old(buf)@[i]
            }),
{
    let mut i: usize = 0;
    while i < 4
        invariant
            0 <= i <= 4,
            buf@.len() == REGISTER_WIDTH,
            forall|j: int|
                0 <= j < i ==> #[trigger] buf@[j] == (if patch_offset <= offset + j < patch_offset
                    + patch_data@.len() {
                    patch_data@[offset + j - patch_offset]
                } else {
                    old(buf)@[j]
                }),
            forall|j: int| i <= j < REGISTER_WIDTH ==> buf@[j] == old(buf)@[j],
        decreases 4 - i,
    {
        let address: usize = offset as usize + i;
        if patch_offset as usize <= address && address - (patch_offset as usize)
            < patch_data.len() {
            buf[i] = patch_data[address - patch_offset as usize];
        }
        i = i + 1;
    }
}

impl VhostUserFrontend {
    /// A frontend for a backend that was just negotiated with.
    pub(crate) fn from_parts(
        device_traits: DeviceTraits,
        protocol_features: u64,
        queue_sizes: Vec<u16>,
        config_patches: Vec<(u16, Vec<u8>)>,
        device_features_raw: u64,
    ) -> (frontend: VhostUserFrontend)
        requires
            0 < queue_sizes@.len() <= u16::MAX,
            device_traits.max_queues == queue_sizes@.len(),
            device_traits.device_features == device_features_raw & !VHOST_USER_F_PROTOCOL_FEATURES,
        ensures
            frontend@ == (FrontendState {
                device_traits,
                protocol_features,
                queue_sizes: queue_sizes@,
                patches: patches_of(config_patches@),
                device_features_raw,
                guest_features_sent: false,
                packed_ring: false,
                mem_table_sent: false,
                queues: Seq::new(queue_sizes@.len(), |i: int| stopped_queue()),
                guest_memory: false,
            }),
            frontend@.wf(),
    {
        let count: usize = queue_sizes.len();
        let mut queues: Vec<FrontendQueueState> = Vec::with_capacity(count);
        let mut i: usize = 0;
        while i < count
            invariant
                i <= count,
                queues@ == Seq::new(i as nat, |i: int| stopped_queue()),
            decreases count - i,
        {
            queues.push(FrontendQueueState { active: false, params: None, event_proxy: false });
            i = i + 1;
            assert(queues@ =~= Seq::new(i as nat, |i: int| stopped_queue()));
        }
        VhostUserFrontend {
            device_traits,
            protocol_features,
            queue_sizes,
            config_patches,
            device_features_raw,
            guest_features_sent: false,
            packed_ring: false,
            mem_table_sent: false,
            queues,
            guest_memory: false,
        }
    }

    /// Records that the backend has the memory table, and that the guest memory
    /// it describes is held.
    pub(crate) fn set_mem_table_sent(&mut self)
        ensures
            final(self)@ == (FrontendState {
                mem_table_sent: true,
                guest_memory: true,
                ..old(self)@
            }),
    {
        self.mem_table_sent = true;
        self.guest_memory = true;
    }

    /// Records that the backend has the guest's features.
    pub(crate) fn set_guest_features_sent(&mut self, packed_ring: bool)
        ensures
            final(self)@ == (FrontendState { guest_features_sent: true, packed_ring, ..old(self)@ }),
    {
        self.guest_features_sent = true;
        self.packed_ring = packed_ring;
    }

    /// Forgets the features that the guest negotiated.
    pub(crate) fn clear_guest_features(&mut self)
        ensures
            final(self)@ == (FrontendState {
                guest_features_sent: false,
                packed_ring: false,
                ..old(self)@
            }),
    {
        self.guest_features_sent = false;
        self.packed_ring = false;
    }

    /// Replaces the tracking state of a queue.
    pub(crate) fn set_queue(&mut self, index: usize, queue: FrontendQueueState)
        requires
            index < old(self)@.queues.len(),
        ensures
            final(self)@ == old(self)@.with_queue(index as int, queue),
    {
        self.queues.set(index, queue);
    }

    /// What the device tells its transport about itself.
    pub fn traits(&self) -> (traits: DeviceTraits)
        ensures
            traits == self@.device_traits,
    {
        self.device_traits
    }

    /// The size of a queue.
    pub fn queue_size(&self, queue_index: u16) -> (size: u16)
        requires
            queue_index < self@.queue_sizes.len(),
        ensures
            size == self@.queue_sizes[queue_index as int],
    {
        self.queue_sizes[queue_index as usize]
    }

    /// How many queues the frontend tracks.
    pub fn queue_count(&self) -> (count: usize)
        ensures
            count == self@.queues.len(),
    {
        self.queues.len()
    }

    /// The tracking state of a queue.
    pub fn queue(&self, index: usize) -> (queue: FrontendQueueState)
        requires
            index < self@.queues.len(),
        ensures
            queue == self@.queues[index as int],
    {
        self.queues[index]
    }

    /// The negotiated protocol feature bits.
    pub fn protocol_features(&self) -> (features: u64)
        ensures
            features == self@.protocol_features,
    {
        self.protocol_features
    }

    /// The feature bits that the backend advertised.
    pub fn device_features_raw(&self) -> (features: u64)
        ensures
            features == self@.device_features_raw,
    {
        self.device_features_raw
    }

    /// Whether the guest's features were sent since the last reset.
    pub fn guest_features_sent(&self) -> (sent: bool)
        ensures
            sent == self@.guest_features_sent,
    {
        self.guest_features_sent
    }

    /// Whether the guest negotiated packed rings.
    pub fn packed_ring(&self) -> (packed: bool)
        ensures
            packed == self@.packed_ring,
    {
        self.packed_ring
    }

    /// Whether the memory table was sent.
    pub fn mem_table_sent(&self) -> (sent: bool)
        ensures
            sent == self@.mem_table_sent,
    {
        self.mem_table_sent
    }

    /// Whether the backend can be reset.
    pub(crate) fn can_reset_device(&self) -> (can: bool)
        ensures
            can == contains_flag(self@.protocol_features, PROTOCOL_F_RESET_DEVICE),
    {
        contains_flag(self.protocol_features, protocol_flags().reset_device)
    }

    /// The device keeps its queue state across a save and a restore.
    pub fn supports_save_restore(&self) -> (supports: bool)
        ensures
            supports,
    {
        true
    }

    /// What to ask of the backend before the register at `offset` is read with
    /// `read_registers_u32`: nothing, unless it serves the config space.
    pub fn read_registers_request(&self, offset: u16) -> (request: Option<ConfigRead>)
        ensures
            request == (if self@.backend_config() {
                Some(ConfigRead { offset: offset as u32, size: REGISTER_WIDTH, flags: 0 })
            } else {
                None
            }),
    {
        if contains_flag(self.protocol_features, protocol_flags().config) {
            Some(ConfigRead { offset: offset as u32, size: REGISTER_WIDTH, flags: 0 })
        } else {
            None
        }
    }

    /// What the guest reads at `offset` of the config space.
    ///
    /// `reply` is what the backend answered to `read_registers_request`, and
    /// `None` if the request failed. It counts only if there was a request to
    /// make.
    pub fn read_registers_u32(&self, offset: u16, reply: Option<&[u8]>) -> (value: u32)
        ensures
            value == le_value(
                register_bytes(
                    self@.patches,
                    offset as nat,
                    register_base(
                        match reply {
                            Some(data) if self@.backend_config() => Some(data@),
                            _ => None,
                        },
                    ),
                ),
            ),
            match reply {
                Some(data) => self@.protocol_features & 0x200 == 0x200 && data@.len() >= 4 && (
                forall|k: int|
                    0 <= k < self@.patches.len() ==> (#[trigger] self@.patches[k]).offset
                        + self@.patches[k].data.len() <= offset || offset + 4
                        <= self@.patches[k].offset) ==> value == data@[0] + 0x100 * data@[1]
                    + 0x1_0000 * data@[2] + 0x100_0000 * data@[3],
                None => true,
            },
    {
        let mut buf: Vec<u8> = Vec::with_capacity(4);
        let served: bool = contains_flag(self.protocol_features, protocol_flags().config);
        match reply {
            Some(data) if served && data.len() >= 4 => {
                buf.push(data[0]);
                buf.push(data[1]);
                buf.push(data[2]);
                buf.push(data[3]);
            },
            _ => {
                buf.push(0);
                buf.push(0);
                buf.push(0);
                buf.push(0);
            },
        }
        let ghost base = buf@;
        let ghost reply_data: Option<Seq<u8>> = match reply {
            Some(data) if served => Some(data@),
            _ => None,
        };
        assert(base =~= register_base(reply_data));
        let count: usize = self.config_patches.len();
        let mut k: usize = 0;
        let ghost patches = self@.patches;
        while k < count
            invariant
                k <= count == self.config_patches@.len(),
                patches == patches_of(self.config_patches@),
                buf@.len() == REGISTER_WIDTH,
                forall|i: int|
                    0 <= i < REGISTER_WIDTH ==> #[trigger] buf@[i] == patched_byte(
                        patches.take(k as int),
                        (offset + i) as nat,
                        base[i],
                    ),
            decreases count - k,
        {
            let patch: &(u16, Vec<u8>) = &self.config_patches[k];
            apply_patch(&mut buf, offset, patch.0, &patch.1);
            proof {
                let longer = patches.take(k as int + 1);
                assert(longer.drop_last() =~= patches.take(k as int));
                assert(longer.last() == patches[k as int]);
            }
            k = k + 1;
        }
        proof {
            assert(patches.take(count as int) =~= patches);
            assert(buf@ =~= register_bytes(patches, offset as nat, base));
            lemma_le_value_bound(buf@);
            lemma_pow256();
            if reply is Some && served && reply->0@.len() >= 4 && (forall|k: int|
                0 <= k < patches.len() ==> (#[trigger] patches[k]).offset + patches[k].data.len()
                    <= offset || offset + 4 <= patches[k].offset) {
                law_unpatched_register(patches, offset as nat, reply->0@);
            }
        }
        from_le_bytes(buf.as_slice()) as u32
    }

    /// What to ask of the backend when the guest writes `val` at `offset` of the
    /// config space: nothing, unless it serves the config space. Patches play no
    /// part in it.
    pub fn write_registers_u32(&self, offset: u16, val: u32) -> (write: Option<ConfigWrite>)
        ensures
            write is Some <==> self@.backend_config(),
            write matches Some(write) ==> {
                &&& write.offset == offset
                &&& write.flags == 0
                &&& write.data@ == le_bytes(val as nat, 4)
                &&& write.data@.len() == 4
                &&& val == write.data@[0] + 0x100 * write.data@[1] + 0x1_0000 * write.data@[2]
                    + 0x100_0000 * write.data@[3]
            },
            write is Some <==> self@.protocol_features & 0x200 == 0x200,
    {
        if !contains_flag(self.protocol_features, protocol_flags().config) {
            return None;
        }
        let data: Vec<u8> = to_le_bytes(val as u64, 4);
        proof {
            lemma_pow256();
            law_le_value_of_le_bytes(val as nat, 4);
            law_four_byte_value(data@);
        }
        Some(ConfigWrite { offset: offset as u32, flags: 0, data })
    }
}

} // verus!
