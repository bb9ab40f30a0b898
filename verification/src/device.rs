//! Plain data that the frontend is configured with, reports, and hands to the
//! backend.

use vstd::prelude::*;

verus! {

/// A virtio device ID.
#[derive(Debug, Clone, Copy, PartialEq, Eq, Structural)]
pub struct VirtioDeviceType(pub u16);

/// A shared memory region that a device offers to its guest.
#[derive(Debug, Clone, Copy, PartialEq, Eq, Structural)]
pub struct DeviceTraitsSharedMemory {
    /// ID of the region.
    pub id: u8,
    /// Bytes in the region; zero if there is none.
    pub size: u64,
}

impl Default for DeviceTraitsSharedMemory {
    /// No shared memory.
    fn default() -> (shared_memory: Self)
        ensures
            shared_memory == (DeviceTraitsSharedMemory { id: 0, size: 0 }),
    {
        DeviceTraitsSharedMemory { id: 0, size: 0 }
    }
}

/// What a device tells its transport about itself.
#[derive(Debug, Clone, Copy, PartialEq, Eq, Structural)]
pub struct DeviceTraits {
    /// Which kind of device this is.
    pub device_id: VirtioDeviceType,
    /// Feature bits offered to the guest.
    pub device_features: u64,
    /// How many queues the device has.
    pub max_queues: u16,
    /// Bytes of device config space.
    pub device_register_length: u32,
    /// The device's shared memory.
    pub shared_memory: DeviceTraitsSharedMemory,
}

/// Where a queue lies in guest memory.
#[derive(Debug, Clone, Copy, PartialEq, Eq, Structural)]
pub struct QueueParams {
    /// Entries in the queue.
    pub size: u16,
    /// Whether the guest enabled the queue.
    pub enable: bool,
    /// Guest-physical address of the descriptor table.
    pub desc_addr: u64,
    /// Guest-physical address of the available ring.
    pub avail_addr: u64,
    /// Guest-physical address of the used ring.
    pub used_addr: u64,
}

/// How far a queue has been processed.
///
/// For a packed ring each index carries its wrap counter in bit 15.
#[derive(Debug, Clone, Copy, PartialEq, Eq, Structural)]
pub struct QueueState {
    /// The next entry to take from the available ring.
    pub avail_index: u16,
    /// The next entry to put on the used ring.
    pub used_index: u16,
}

/// A part of guest memory that is backed by a shareable file.
#[derive(Debug, Clone, Copy, PartialEq, Eq, Structural)]
pub struct ShareableRegion {
    /// Guest-physical address at which the region begins.
    pub guest_address: u64,
    /// Bytes in the region.
    pub size: u64,
    /// The backing file's descriptor or handle, by value.
    pub file: u64,
    /// Offset of the region in the backing file.
    pub file_offset: u64,
}

/// An entry of the memory table that the backend gets.
#[derive(Debug, Clone, Copy, PartialEq, Eq, Structural)]
pub struct MemoryRegionInfo {
    /// Guest-physical address at which the region begins.
    pub guest_phys_addr: u64,
    /// Bytes in the region.
    pub memory_size: u64,
    /// Address of the region in the coordinates that vring addresses use.
    pub userspace_addr: u64,
    /// Offset of the region in the backing file.
    pub mmap_offset: u64,
    /// The backing file's descriptor or handle, by value.
    pub mmap_handle: u64,
}

/// Addresses of a vring, as the backend gets them.
#[derive(Debug, Clone, Copy, PartialEq, Eq, Structural)]
pub struct VringConfigData {
    /// Largest size of the queue.
    pub queue_max_size: u16,
    /// Size of the queue.
    pub queue_size: u16,
    /// Vring flags.
    pub flags: u32,
    /// Address of the descriptor table.
    pub desc_table_addr: u64,
    /// Address of the used ring.
    pub used_ring_addr: u64,
    /// Address of the available ring.
    pub avail_ring_addr: u64,
    /// Address for logging writes to the used ring.
    pub log_addr: Option<u64>,
}

/// A request of the control channel whose content is fixed-size.
#[derive(Debug, Clone, Copy, PartialEq, Eq)]
pub enum Request {
    /// `GET_FEATURES`.
    GetFeatures,
    /// `SET_FEATURES`, with the feature bits.
    SetFeatures(u64),
    /// `GET_PROTOCOL_FEATURES`.
    GetProtocolFeatures,
    /// `SET_PROTOCOL_FEATURES`, with the protocol feature bits.
    SetProtocolFeatures(u64),
    /// `SET_OWNER`.
    SetOwner,
    /// `GET_QUEUE_NUM`.
    GetQueueNum,
    /// `SET_VRING_NUM`.
    SetVringNum {
        /// Which queue.
        index: usize,
        /// Its size.
        size: u16,
    },
    /// `SET_VRING_ADDR`.
    SetVringAddr {
        /// Which queue.
        index: usize,
        /// Its addresses.
        config: VringConfigData,
    },
    /// `SET_VRING_BASE` with a split ring's available index.
    SetVringBase {
        /// Which queue.
        index: usize,
        /// The available index to go on from.
        base: u16,
    },
    /// `SET_VRING_BASE` with all 32 bits of a packed ring's state.
    SetVringBaseRaw {
        /// Which queue.
        index: usize,
        /// Available state in the low half, used state in the high half.
        state: u32,
    },
    /// `SET_VRING_KICK`, with the duplicated kick event.
    SetVringKick {
        /// Which queue.
        index: usize,
    },
    /// `SET_VRING_CALL`, with the duplicated interrupt event.
    SetVringCall {
        /// Which queue.
        index: usize,
    },
    /// `SET_VRING_ENABLE`.
    SetVringEnable {
        /// Which queue.
        index: usize,
        /// On or off.
        enable: bool,
    },
    /// `GET_VRING_BASE`.
    GetVringBase {
        /// Which queue.
        index: usize,
    },
    /// `RESET_DEVICE`.
    ResetDevice,
}

/// Configuration for creating a `VhostUserFrontend`.
///
/// A virtio-fs device serves its whole config space as a patch at offset zero,
/// a block device takes it from the backend and patches the queue count, and a
/// generic device takes it from the backend as it is.
#[derive(Debug)]
pub struct VhostUserConfig {
    /// Virtio device ID.
    pub device_id: VirtioDeviceType,
    /// Whether to negotiate `VHOST_USER_PROTOCOL_F_CONFIG` and use the
    /// backend's config space. If not, config reads start from zeros (patches
    /// still apply) and writes are dropped.
    pub use_backend_config: bool,
    /// Per-queue sizes. The length is the queue count; must be non-empty.
    pub queue_sizes: Vec<u16>,
    /// Patches applied to config reads: byte offset and replacement bytes.
    pub config_patches: Vec<(u16, Vec<u8>)>,
}

/// Replacement bytes for part of a device's config space.
pub struct ConfigPatch {
    /// Offset of the first replaced byte.
    pub offset: nat,
    /// The bytes that replace what is there.
    pub data: Seq<u8>,
}

/// What a `VhostUserConfig` asks for.
pub struct ConfigView {
    /// Virtio device ID.
    pub device_id: VirtioDeviceType,
    /// Whether to use the backend's config space.
    pub use_backend_config: bool,
    /// Size of each queue.
    pub queue_sizes: Seq<u16>,
    /// Patches to the config space, in order.
    pub patches: Seq<ConfigPatch>,
}

/// The patches that a list of offsets and bytes stands for.
pub open spec fn patches_of(patches: Seq<(u16, Vec<u8>)>) -> Seq<ConfigPatch> {
    Seq::new(
        patches.len(),
        |i: int| ConfigPatch { offset: patches[i].0 as nat, data: patches[i].1@ },
    )
}

impl View for VhostUserConfig {
    type V = ConfigView;

    open spec fn view(&self) -> ConfigView {
        ConfigView {
            device_id: self.device_id,
            use_backend_config: self.use_backend_config,
            queue_sizes: self.queue_sizes@,
            patches: patches_of(self.config_patches@),
        }
    }
}

} // verus!
