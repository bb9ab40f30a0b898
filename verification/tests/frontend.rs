//! The frontend's operations, driven against a backend that is played here.

use vhost_user::device::DeviceTraitsSharedMemory;
use vhost_user::device::MemoryRegionInfo;
use vhost_user::device::QueueParams;
use vhost_user::device::QueueState;
use vhost_user::device::Request;
use vhost_user::device::ShareableRegion;
use vhost_user::device::VhostUserConfig;
use vhost_user::device::VirtioDeviceType;
use vhost_user::device::VringConfigData;
use vhost_user::error::CallName;
use vhost_user::error::FrontendError;
use vhost_user::frontend::ConfigRead;
use vhost_user::frontend::VhostUserFrontend;
use vhost_user::frontend::GPA_TO_VA_OFFSET;
use vhost_user::handshake::Handshake;
use vhost_user::handshake::HandshakeAction;
use vhost_user::handshake::HandshakeReply;
use vhost_user::handshake::HandshakeStep;
use vhost_user::protocol::PROTOCOL_F_CONFIG;
use vhost_user::protocol::PROTOCOL_F_MQ;
use vhost_user::protocol::PROTOCOL_F_REPLY_ACK;
use vhost_user::protocol::PROTOCOL_F_RESET_DEVICE;
use vhost_user::protocol::VHOST_USER_F_PROTOCOL_FEATURES;
use vhost_user::protocol::VIRTIO_F_RING_PACKED;
use vhost_user::reset::ResetStep;
use vhost_user::start::StartAction;
use vhost_user::start::StartReply;
use vhost_user::start::StartStep;
use vhost_user::stop::read_used_index;
use vhost_user::stop::StopAction;
use vhost_user::stop::StopReply;
use vhost_user::stop::StopStep;

const BLK: VirtioDeviceType = VirtioDeviceType(2);
const FS: VirtioDeviceType = VirtioDeviceType(26);
const DEFAULT_QUEUE_SIZE: u16 = 256;
const TAG_LEN: usize = 36;
const GUEST_MEMORY_SIZE: usize = 65536;

/// What is seen to be done by the frontend.
#[derive(Debug, Clone, PartialEq)]
enum Seen {
    Call(Request),
    HeaderFlags(u32),
    ShareMemory,
    MemTable(Vec<MemoryRegionInfo>),
    DuplicateKickEvent,
    PrepareInterrupt,
    DuplicateInterruptEvent,
    ReadUsedRing(u64),
}

/// A backend with its device, and the guest memory behind it.
struct Backend {
    features: u64,
    max_queues: u64,
    config_space: Vec<u8>,
    stop_avail: u16,
    stop_used: u16,
    packed: bool,
    memory: Vec<u8>,
    memory_shareable: bool,
    /// Whether the queue's interrupt comes with an event of its own.
    event_interrupt: bool,
    /// Which of the things to do fails, counted over all of them.
    fail_at: Option<usize>,
    seen: Vec<Seen>,
}

impl Backend {
    fn new() -> Self {
        Backend {
            features: VHOST_USER_F_PROTOCOL_FEATURES,
            max_queues: 2,
            config_space: Vec::new(),
            stop_avail: 42,
            stop_used: 0,
            packed: false,
            memory: vec![0; GUEST_MEMORY_SIZE],
            memory_shareable: true,
            event_interrupt: true,
            fail_at: None,
            seen: Vec::new(),
        }
    }

    fn with_state(packed: bool, stop_avail: u16, stop_used: u16) -> Self {
        let mut backend = Backend::new();
        backend.packed = packed;
        backend.stop_avail = stop_avail;
        backend.stop_used = stop_used;
        if packed {
            backend.features |= VIRTIO_F_RING_PACKED;
        }
        backend
    }

    fn protocol_features(&self) -> u64 {
        // One bit that no frontend here has a use for.
        let mut features: u64 =
            PROTOCOL_F_MQ | PROTOCOL_F_REPLY_ACK | PROTOCOL_F_RESET_DEVICE | 0x2;
        if !self.config_space.is_empty() {
            features |= PROTOCOL_F_CONFIG;
        }
        features
    }

    /// Notes what is done, and says whether it works.
    fn see(&mut self, seen: Seen) -> Result<(), String> {
        let n = self.seen.len();
        self.seen.push(seen);
        if self.fail_at == Some(n) {
            Err(format!("failure {n}"))
        } else {
            Ok(())
        }
    }

    fn shake(&mut self, handshake: Handshake) -> Result<VhostUserFrontend, FrontendError<String>> {
        let mut handshake = handshake;
        loop {
            let action = handshake.action();
            let reply = match action {
                HandshakeAction::SetHeaderFlags(flags) => {
                    self.seen.push(Seen::HeaderFlags(flags));
                    Ok(HandshakeReply::Done)
                }
                HandshakeAction::Call(request) => {
                    self.see(Seen::Call(request)).map(|()| match request {
                        Request::GetFeatures => HandshakeReply::Value(self.features),
                        Request::GetProtocolFeatures => {
                            HandshakeReply::Value(self.protocol_features())
                        }
                        Request::GetQueueNum => HandshakeReply::Value(self.max_queues),
                        _ => HandshakeReply::Done,
                    })
                }
            };
            assert!(!handshake.config_too_long(&reply));
            match handshake.step(reply) {
                HandshakeStep::Next(next) => handshake = next,
                HandshakeStep::Ready(frontend) => return Ok(frontend),
                HandshakeStep::Failed(error) => return Err(error),
            }
        }
    }

    fn connect(&mut self, config: VhostUserConfig) -> Result<VhostUserFrontend, FrontendError<String>> {
        let count = config.queue_sizes.len();
        let (announced, handshake) = VhostUserFrontend::from_stream(config);
        assert_eq!(announced, count as u64);
        self.shake(handshake)
    }

    fn start(
        &mut self,
        frontend: &mut VhostUserFrontend,
        idx: u16,
        params: QueueParams,
        features: u64,
        initial_state: Option<QueueState>,
    ) -> Result<(), FrontendError<String>> {
        let mut start = frontend.start_queue(idx, params, features, initial_state);
        loop {
            assert_eq!(start.index(), idx);
            let seen = match start.action(frontend) {
                StartAction::ShareMemory => Seen::ShareMemory,
                StartAction::SetMemTable(table) => Seen::MemTable(table.to_vec()),
                StartAction::Call(request) => Seen::Call(request),
                StartAction::DuplicateKickEvent => Seen::DuplicateKickEvent,
                StartAction::PrepareInterrupt => Seen::PrepareInterrupt,
                StartAction::DuplicateInterruptEvent => Seen::DuplicateInterruptEvent,
            };
            let reply = match seen {
                Seen::ShareMemory if !self.memory_shareable => StartReply::NotShareable,
                Seen::ShareMemory => StartReply::Regions(vec![ShareableRegion {
                    guest_address: 0,
                    size: GUEST_MEMORY_SIZE as u64,
                    file: 7,
                    file_offset: 0,
                }]),
                Seen::PrepareInterrupt => {
                    StartReply::Interrupt { event_proxy: !self.event_interrupt }
                }
                _ => StartReply::Done,
            };
            let reply = self.see(seen).map(|()| reply);
            match frontend.start_queue_step(start, reply) {
                StartStep::Next(next) => start = next,
                StartStep::Done(result) => return result,
            }
        }
    }

    fn stop(&mut self, frontend: &mut VhostUserFrontend, idx: u16) -> Option<QueueState> {
        let mut stop = frontend.stop_queue(idx)?;
        loop {
            let reply = match stop.action(frontend) {
                StopAction::Call(request) => {
                    let result = self.see(Seen::Call(request));
                    match request {
                        Request::GetVringBase { .. } => {
                            let used = if self.packed { self.stop_used as u32 } else { 0 };
                            let base = self.stop_avail as u32 | used << 16;
                            StopReply::Base(result.ok().map(|()| base))
                        }
                        _ => StopReply::Disabled,
                    }
                }
                StopAction::ReadUsedRing { address } => {
                    let result = self.see(Seen::ReadUsedRing(address));
                    let at = address as usize;
                    let read = self.memory.get(at..at + 2).map(|bytes| [bytes[0], bytes[1]]);
                    StopReply::UsedRing(result.ok().and(read))
                }
            };
            match frontend.stop_queue_step(stop, reply) {
                StopStep::Next(next) => stop = next,
                StopStep::Done(state) => return state,
            }
        }
    }

    fn reset(&mut self, frontend: &mut VhostUserFrontend) {
        let mut step = frontend.reset();
        while let ResetStep::Next(reset) = step {
            let _ = self.see(Seen::Call(reset.request()));
            step = frontend.reset_step(reset);
        }
    }

    fn read_register(&mut self, frontend: &VhostUserFrontend, offset: u16) -> u32 {
        match frontend.read_registers_request(offset) {
            Some(read) => {
                let start = read.offset as usize;
                let data: Vec<u8> = (start..start + read.size as usize)
                    .map(|at| self.config_space.get(at).copied().unwrap_or(0))
                    .collect();
                frontend.read_registers_u32(offset, Some(&data))
            }
            None => frontend.read_registers_u32(offset, None),
        }
    }

    /// What was done since the last time this was asked.
    fn take_seen(&mut self) -> Vec<Seen> {
        std::mem::take(&mut self.seen)
    }
}

fn default_config() -> VhostUserConfig {
    VhostUserConfig {
        device_id: BLK,
        use_backend_config: true,
        queue_sizes: vec![DEFAULT_QUEUE_SIZE; 2],
        config_patches: vec![],
    }
}

fn queue_params() -> QueueParams {
    QueueParams {
        size: 16,
        enable: true,
        desc_addr: 0x0000,
        avail_addr: 0x1000,
        used_addr: 0x2000,
    }
}

fn fs_config(tag: &[u8], num_request_queues: u32) -> Vec<u8> {
    let mut config = vec![0u8; TAG_LEN];
    config[..tag.len()].copy_from_slice(tag);
    config.extend_from_slice(&num_request_queues.to_le_bytes());
    config
}

#[test]
fn frontend_backend_dogfood() {
    let mut backend = Backend::new();
    let mut frontend = backend.connect(default_config()).expect("frontend handshake failed");

    let traits = frontend.traits();
    assert_eq!(traits.device_id, BLK);
    assert_eq!(traits.max_queues, 2);

    backend.reset(&mut frontend);
    assert!(frontend.supports_save_restore());
}

/// An interrupt with an event needs no proxy.
#[test]
fn start_stop_queue_event_interrupt() {
    let mut backend = Backend::new();
    let mut frontend = backend.connect(default_config()).expect("frontend handshake failed");

    backend
        .start(&mut frontend, 0, queue_params(), 0, None)
        .expect("start_queue failed");
    assert!(!frontend.queue(0).event_proxy);

    let state = backend.stop(&mut frontend, 0);
    assert!(state.is_some());

    let state2 = backend.stop(&mut frontend, 0);
    assert!(state2.is_none());
}

/// An interrupt without an event gets a proxy.
#[test]
fn start_stop_queue_fn_interrupt() {
    let mut backend = Backend::new();
    backend.event_interrupt = false;
    let mut frontend = backend.connect(default_config()).expect("frontend handshake failed");

    backend
        .start(&mut frontend, 0, queue_params(), 0, None)
        .expect("start_queue failed");

    let state = backend.stop(&mut frontend, 0);
    assert!(state.is_some());
}

/// A proxy lives as long as its queue runs.
#[test]
fn interrupt_proxy_delivers() {
    let mut backend = Backend::new();
    backend.event_interrupt = false;
    let mut frontend = backend.connect(default_config()).expect("frontend handshake failed");

    backend
        .start(&mut frontend, 0, queue_params(), 0, None)
        .expect("start_queue failed");
    assert!(frontend.queue(0).event_proxy);

    let state = backend.stop(&mut frontend, 0);
    assert!(state.is_some());
    assert!(!frontend.queue(0).event_proxy);
}

/// A reset stops the queues and clears the features flag.
#[test]
fn reset_clears_state() {
    let mut backend = Backend::new();
    let mut frontend = backend.connect(default_config()).expect("frontend handshake failed");

    backend
        .start(&mut frontend, 0, queue_params(), 0, None)
        .expect("start_queue failed");
    assert!(frontend.guest_features_sent());

    backend.reset(&mut frontend);
    assert!(!frontend.guest_features_sent());
    assert!(!frontend.queue(0).active);

    assert!(backend.stop(&mut frontend, 0).is_none());

    backend
        .start(&mut frontend, 0, queue_params(), 0, None)
        .expect("start_queue after reset failed");
    assert!(frontend.guest_features_sent());
}

/// Split ring: the available index is the backend's, the used index is what the
/// guest sees.
#[test]
fn stop_queue_split_ring_state() {
    let mut backend = Backend::with_state(false, 100, 999);
    let mut frontend = backend.connect(default_config()).expect("frontend handshake failed");

    let used_addr: usize = 0x2000;
    let used_idx_value: u16 = 77;
    backend.memory[used_addr + 2..used_addr + 4].copy_from_slice(&used_idx_value.to_le_bytes());

    backend
        .start(&mut frontend, 0, queue_params(), 0, None)
        .expect("start_queue failed");
    let state = backend
        .stop(&mut frontend, 0)
        .expect("stop_queue should return state");
    assert_eq!(state.avail_index, 100);
    assert_eq!(state.used_index, used_idx_value);
}

/// Packed ring: both indices are the backend's.
#[test]
fn stop_queue_packed_ring_state() {
    let mut backend = Backend::with_state(true, 200, 300);
    let mut frontend = backend.connect(default_config()).expect("frontend handshake failed");

    backend
        .start(&mut frontend, 0, queue_params(), VIRTIO_F_RING_PACKED, None)
        .expect("start_queue failed");
    assert!(frontend.packed_ring());

    let state = backend
        .stop(&mut frontend, 0)
        .expect("stop_queue should return state");
    assert_eq!(state.avail_index, 200);
    assert_eq!(state.used_index, 300);
}

/// A config space that is one patch is served without the backend.
#[test]
fn frontend_owned_config_space() {
    let config_bytes = fs_config(b"myfs", 1);
    let mut backend = Backend::new();
    // The backend would serve a config space, but is not asked to.
    backend.config_space = vec![0xff; 64];
    let frontend = backend
        .connect(VhostUserConfig {
            device_id: FS,
            use_backend_config: false,
            queue_sizes: vec![1024; 2],
            config_patches: vec![(0, config_bytes.clone())],
        })
        .expect("frontend handshake failed");

    assert_eq!(frontend.protocol_features() & PROTOCOL_F_CONFIG, 0);
    assert_eq!(frontend.traits().device_register_length, config_bytes.len() as u32);

    let val = backend.read_register(&frontend, 0);
    assert_eq!(val, u32::from_le_bytes(*b"myfs"));

    let val = backend.read_register(&frontend, 4);
    assert_eq!(val, 0);

    let val = backend.read_register(&frontend, TAG_LEN as u16);
    assert_eq!(val, 1);

    assert!(frontend.write_registers_u32(0, 0xdeadbeef).is_none());
}

/// Three queues: one for high priority and two for requests.
#[test]
fn fs_multi_queue_config() {
    let num_request_queues: u16 = 2;
    let queue_size: u16 = 1024;
    let total_queues = 1 + num_request_queues as usize;
    let mut backend = Backend::new();
    backend.max_queues = 4;
    let frontend = backend
        .connect(VhostUserConfig {
            device_id: FS,
            use_backend_config: false,
            queue_sizes: vec![queue_size; total_queues],
            config_patches: vec![(0, fs_config(b"testfs", num_request_queues as u32))],
        })
        .expect("frontend handshake failed");

    assert_eq!(frontend.traits().max_queues, total_queues as u16);
    for i in 0..total_queues {
        assert_eq!(frontend.queue_size(i as u16), queue_size);
    }
    let val = backend.read_register(&frontend, TAG_LEN as u16);
    assert_eq!(val, num_request_queues as u32);
}

/// The patched queue count hides the backend's.
#[test]
fn blk_multi_queue_config() {
    let num_queues: u16 = 2;
    let queue_size: u16 = 512;
    let num_queues_offset: u16 = 34;
    let mut backend = Backend::new();
    backend.config_space = vec![0; 64];
    let frontend = backend
        .connect(VhostUserConfig {
            device_id: BLK,
            use_backend_config: true,
            queue_sizes: vec![queue_size; num_queues as usize],
            config_patches: vec![(num_queues_offset, num_queues.to_le_bytes().to_vec())],
        })
        .expect("frontend handshake failed");

    assert_eq!(frontend.traits().max_queues, num_queues);
    for i in 0..num_queues {
        assert_eq!(frontend.queue_size(i), queue_size);
    }
    let val = backend.read_register(&frontend, num_queues_offset);
    assert_eq!(val, num_queues as u32);
}

#[test]
fn generic_per_queue_sizes() {
    let queue_sizes = vec![256u16, 512u16];
    let mut backend = Backend::new();
    let frontend = backend
        .connect(VhostUserConfig {
            device_id: BLK,
            use_backend_config: true,
            queue_sizes: queue_sizes.clone(),
            config_patches: vec![],
        })
        .expect("frontend handshake failed");

    assert_eq!(frontend.traits().max_queues, 2);
    assert_eq!(frontend.queue_size(0), 256);
    assert_eq!(frontend.queue_size(1), 512);
}

#[test]
fn queue_count_exceeds_backend() {
    let mut backend = Backend::new();
    let result = backend.connect(VhostUserConfig {
        device_id: BLK,
        use_backend_config: true,
        queue_sizes: vec![256; 4],
        config_patches: vec![],
    });

    let err = result.err().expect("should fail when queue count exceeds backend");
    let err_msg = err.context().unwrap();
    assert!(
        err_msg.contains("4 queues"),
        "error should mention requested count: {err_msg}"
    );
    assert_eq!(err_msg, "requested 4 queues but backend supports at most 2");
}

#[test]
fn handshake_does_everything_in_order() {
    let mut backend = Backend::new();
    backend.config_space = vec![0; 64];
    let frontend = backend.connect(default_config()).unwrap();
    let negotiated =
        PROTOCOL_F_MQ | PROTOCOL_F_REPLY_ACK | PROTOCOL_F_RESET_DEVICE | PROTOCOL_F_CONFIG;
    assert_eq!(negotiated, 0x2209);
    assert_eq!(
        backend.take_seen(),
        vec![
            Seen::Call(Request::GetFeatures),
            Seen::Call(Request::GetProtocolFeatures),
            Seen::Call(Request::SetProtocolFeatures(negotiated)),
            Seen::HeaderFlags(8),
            Seen::Call(Request::SetOwner),
            Seen::Call(Request::GetQueueNum),
        ]
    );
    assert_eq!(frontend.protocol_features(), negotiated);
    assert_eq!(frontend.device_features_raw(), VHOST_USER_F_PROTOCOL_FEATURES);
    assert_eq!(frontend.traits().device_features, 0);
    assert_eq!(frontend.traits().device_register_length, 256);
    assert_eq!(frontend.traits().shared_memory, DeviceTraitsSharedMemory::default());
    assert_eq!(frontend.queue_count(), 2);
    assert!(!frontend.mem_table_sent());
    assert!(!frontend.packed_ring());
}

#[test]
fn handshake_without_protocol_features() {
    let mut backend = Backend::new();
    backend.features = VIRTIO_F_RING_PACKED;
    // More queues than the backend has, which it is not asked about.
    let mut config = default_config();
    config.queue_sizes = vec![128; 3];
    config.config_patches = vec![(4, vec![1, 2, 3]), (2, vec![9; 2])];
    let frontend = backend.shake(VhostUserFrontend::new(config)).unwrap();
    assert_eq!(
        backend.take_seen(),
        vec![Seen::Call(Request::GetFeatures), Seen::Call(Request::SetOwner)]
    );
    assert_eq!(frontend.protocol_features(), 0);
    assert_eq!(frontend.traits().device_features, VIRTIO_F_RING_PACKED);
    assert_eq!(frontend.traits().device_register_length, 7);
    assert_eq!(frontend.traits().max_queues, 3);
}

#[test]
fn handshake_reports_the_call_that_failed() {
    let expected = [
        (0, CallName::GetFeatures, "GET_FEATURES failed"),
        (1, CallName::GetProtocolFeatures, "GET_PROTOCOL_FEATURES failed"),
        (2, CallName::SetProtocolFeatures, "SET_PROTOCOL_FEATURES failed"),
        (4, CallName::SetOwner, "SET_OWNER failed"),
        (5, CallName::GetQueueNum, "GET_QUEUE_NUM failed despite MQ being negotiated"),
    ];
    for (at, name, message) in expected {
        let mut backend = Backend::new();
        backend.fail_at = Some(at);
        let error = backend.connect(default_config()).err().unwrap();
        assert_eq!(error.context().unwrap(), message);
        assert_eq!(name.context(), message);
        match error {
            FrontendError::Call { call, source } => {
                assert_eq!(call, name);
                assert_eq!(source, format!("failure {at}"));
            }
            other => panic!("unexpected error: {other:?}"),
        }
        assert_eq!(backend.seen.len(), at + 1);
    }
}

#[test]
fn handshake_checks_the_queue_count() {
    let mut backend = Backend::new();
    let mut config = default_config();
    config.queue_sizes = vec![];
    let error = backend.connect(config).err().unwrap();
    assert!(matches!(error, FrontendError::NoQueues));
    assert_eq!(error.context().unwrap(), "queue_sizes must be non-empty");

    let mut config = default_config();
    config.queue_sizes = vec![1; 65536];
    let error = backend.connect(config).err().unwrap();
    assert!(matches!(error, FrontendError::TooManyQueues(65536)));
    assert_eq!(
        error.context().unwrap(),
        "queue_sizes has 65536 entries, exceeding maximum supported queue count 65535"
    );

    // Of the backend's queue count, sixteen bits count.
    backend.max_queues = 0x1_0001;
    let error = backend.connect(default_config()).err().unwrap();
    assert!(matches!(error, FrontendError::ExceedsBackend { requested: 2, supported: 1 }));

    backend.max_queues = 65535;
    let mut config = default_config();
    config.queue_sizes = vec![1; 65535];
    let frontend = backend.connect(config).unwrap();
    assert_eq!(frontend.traits().max_queues, 65535);
}

#[test]
fn start_does_everything_in_order() {
    let mut backend = Backend::new();
    let mut frontend = backend.connect(default_config()).unwrap();
    backend.take_seen();
    // The transport offers packed rings, which the backend does not have.
    backend
        .start(&mut frontend, 1, queue_params(), VIRTIO_F_RING_PACKED | 1, None)
        .unwrap();
    let offset = 1u64 << 52;
    assert_eq!(GPA_TO_VA_OFFSET, offset);
    let vring = vec![
        Seen::Call(Request::SetVringNum { index: 1, size: 16 }),
        Seen::Call(Request::SetVringAddr {
            index: 1,
            config: VringConfigData {
                queue_max_size: 16,
                queue_size: 16,
                flags: 0,
                desc_table_addr: offset,
                used_ring_addr: offset + 0x2000,
                avail_ring_addr: offset + 0x1000,
                log_addr: None,
            },
        }),
        Seen::Call(Request::SetVringBase { index: 1, base: 0 }),
        Seen::DuplicateKickEvent,
        Seen::Call(Request::SetVringKick { index: 1 }),
        Seen::PrepareInterrupt,
        Seen::DuplicateInterruptEvent,
        Seen::Call(Request::SetVringCall { index: 1 }),
        Seen::Call(Request::SetVringEnable { index: 1, enable: true }),
    ];
    let mut all = vec![
        Seen::ShareMemory,
        Seen::MemTable(vec![MemoryRegionInfo {
            guest_phys_addr: 0,
            memory_size: 65536,
            userspace_addr: offset,
            mmap_offset: 0,
            mmap_handle: 7,
        }]),
        Seen::Call(Request::SetFeatures(0x4000_0000)),
    ];
    all.extend(vring.clone());
    assert_eq!(backend.take_seen(), all);
    assert!(frontend.mem_table_sent());
    assert!(!frontend.packed_ring());
    assert!(frontend.queue(1).active);
    assert_eq!(frontend.queue(1).params, Some(queue_params()));
    assert!(!frontend.queue(0).active);

    // The memory table and the features are with the backend now.
    backend.stop(&mut frontend, 1).unwrap();
    backend.take_seen();
    backend.start(&mut frontend, 1, queue_params(), 0, None).unwrap();
    assert_eq!(backend.take_seen(), vring);

    // After a reset it has forgotten the features only.
    backend.reset(&mut frontend);
    backend.take_seen();
    backend.start(&mut frontend, 1, queue_params(), 0, None).unwrap();
    let mut after_reset = vec![Seen::Call(Request::SetFeatures(0x4000_0000))];
    after_reset.extend(vring);
    assert_eq!(backend.take_seen(), after_reset);
}

/// The features that the backend was told when a queue was started.
fn features_told(backend_features: u64, guest_features: u64) -> u64 {
    let mut backend = Backend::new();
    backend.features = backend_features;
    let mut frontend = backend.connect(default_config()).unwrap();
    backend.start(&mut frontend, 0, queue_params(), guest_features, None).unwrap();
    let told: Vec<u64> = backend
        .take_seen()
        .iter()
        .filter_map(|seen| match seen {
            Seen::Call(Request::SetFeatures(features)) => Some(*features),
            _ => None,
        })
        .collect();
    assert_eq!(told.len(), 1);
    told[0]
}

/// A backend is told no feature that it did not advertise.
#[test]
fn backend_without_protocol_features_is_not_told_of_them() {
    let bit = VHOST_USER_F_PROTOCOL_FEATURES;
    assert_eq!(features_told(0x35, 0x1f), 0x15);
    assert_eq!(features_told(0x35, 0x1f | bit), 0x15);
    assert_eq!(features_told(0, 0), 0);
    assert_eq!(features_told(VIRTIO_F_RING_PACKED, u64::MAX), VIRTIO_F_RING_PACKED);
}

/// A backend with protocol features is told their bit, whether the guest has it
/// or not.
#[test]
fn backend_with_protocol_features_is_told_of_them() {
    let bit = VHOST_USER_F_PROTOCOL_FEATURES;
    assert_eq!(features_told(0x35 | bit, 0x1f), 0x4000_0015);
    assert_eq!(features_told(0x35 | bit, 0x1f | bit), 0x4000_0015);
    assert_eq!(features_told(bit, 0), bit);
}

#[test]
fn start_reports_what_failed() {
    let expected = [
        (0, None),
        (1, Some("SET_MEM_TABLE failed")),
        (2, Some("SET_FEATURES failed")),
        (3, Some("SET_VRING_NUM failed")),
        (4, Some("SET_VRING_ADDR failed")),
        (5, Some("SET_VRING_BASE failed")),
        (6, Some("failed to duplicate kick event")),
        (7, Some("SET_VRING_KICK failed")),
        (8, None),
        (9, Some("failed to duplicate interrupt event")),
        (10, Some("SET_VRING_CALL failed")),
        (11, Some("SET_VRING_ENABLE failed")),
    ];
    for (at, message) in expected {
        let mut backend = Backend::new();
        let mut frontend = backend.connect(default_config()).unwrap();
        backend.take_seen();
        backend.fail_at = Some(at);
        let error = backend
            .start(&mut frontend, 0, queue_params(), 0, None)
            .err()
            .unwrap();
        assert_eq!(error.context().as_deref(), message);
        let failure = format!("failure {at}");
        match error {
            FrontendError::Call { source, .. }
            | FrontendError::Regions(source)
            | FrontendError::KickEvent(source)
            | FrontendError::Interrupt(source)
            | FrontendError::InterruptEvent(source) => assert_eq!(source, failure),
            other => panic!("unexpected error: {other:?}"),
        }
        // Nothing runs, and what the backend knows already is remembered.
        assert!(!frontend.queue(0).active);
        assert_eq!(frontend.queue(0).params, None);
        assert_eq!(frontend.mem_table_sent(), at > 1);
        assert_eq!(frontend.guest_features_sent(), at > 2);
    }
}

#[test]
fn start_needs_shareable_memory() {
    let mut backend = Backend::new();
    backend.memory_shareable = false;
    let mut frontend = backend.connect(default_config()).unwrap();
    let error = backend
        .start(&mut frontend, 0, queue_params(), 0, None)
        .err()
        .unwrap();
    assert!(matches!(error, FrontendError::NotShareable));
    assert_eq!(
        error.context().unwrap(),
        "vhost-user requires file-backed guest memory (sharing() returned None)"
    );
    assert!(!frontend.mem_table_sent());
}

#[test]
fn start_of_a_queue_that_is_not_tracked() {
    let mut backend = Backend::new();
    let mut frontend = backend.connect(default_config()).unwrap();
    backend.start(&mut frontend, 5, queue_params(), 0, None).unwrap();
    assert_eq!(frontend.queue_count(), 2);
    assert!(!frontend.queue(0).active && !frontend.queue(1).active);
    assert!(frontend.stop_queue(5).is_none());
}

#[test]
fn memory_table_entries_are_offset() {
    let mut backend = Backend::new();
    let mut frontend = backend.connect(default_config()).unwrap();
    let start = frontend.start_queue(0, queue_params(), 0, None);
    let regions = vec![
        ShareableRegion { guest_address: 0, size: 0x1000, file: 3, file_offset: 0x40 },
        ShareableRegion { guest_address: 0x1_0000_0000, size: 0x2000, file: 4, file_offset: 0 },
    ];
    let step = frontend.start_queue_step::<String>(start, Ok(StartReply::Regions(regions)));
    let start = match step {
        StartStep::Next(start) => start,
        other => panic!("unexpected step: {other:?}"),
    };
    match start.action(&frontend) {
        StartAction::SetMemTable(table) => assert_eq!(
            table,
            [
                MemoryRegionInfo {
                    guest_phys_addr: 0,
                    memory_size: 0x1000,
                    userspace_addr: 0x10_0000_0000_0000,
                    mmap_offset: 0x40,
                    mmap_handle: 3,
                },
                MemoryRegionInfo {
                    guest_phys_addr: 0x1_0000_0000,
                    memory_size: 0x2000,
                    userspace_addr: 0x10_0001_0000_0000,
                    mmap_offset: 0,
                    mmap_handle: 4,
                },
            ]
        ),
        other => panic!("unexpected action: {other:?}"),
    };
}

/// The request by which a queue was last told where to go on from.
fn base_seen(backend: &mut Backend) -> Request {
    let mut base = None;
    for seen in backend.take_seen() {
        match seen {
            Seen::Call(request @ Request::SetVringBase { .. })
            | Seen::Call(request @ Request::SetVringBaseRaw { .. }) => base = Some(request),
            _ => {}
        }
    }
    base.unwrap()
}

#[test]
fn packed_ring_goes_on_where_it_stopped() {
    let mut backend = Backend::with_state(true, 0x80c8, 0x012c);
    let mut frontend = backend.connect(default_config()).unwrap();
    backend
        .start(&mut frontend, 0, queue_params(), VIRTIO_F_RING_PACKED, None)
        .unwrap();
    assert_eq!(
        base_seen(&mut backend),
        Request::SetVringBaseRaw { index: 0, state: 0x8000_8000 }
    );
    let state = backend.stop(&mut frontend, 0).unwrap();
    assert_eq!(state, QueueState { avail_index: 0x80c8, used_index: 0x012c });
    // The used ring is of no interest.
    assert!(!backend.take_seen().iter().any(|seen| matches!(seen, Seen::ReadUsedRing(_))));
    backend
        .start(&mut frontend, 0, queue_params(), VIRTIO_F_RING_PACKED, Some(state))
        .unwrap();
    assert_eq!(
        base_seen(&mut backend),
        Request::SetVringBaseRaw { index: 0, state: 0x012c_80c8 }
    );
}

#[test]
fn split_ring_goes_on_where_it_stopped() {
    let mut backend = Backend::with_state(false, 100, 0);
    let mut frontend = backend.connect(default_config()).unwrap();
    backend.start(&mut frontend, 0, queue_params(), 0, None).unwrap();
    assert_eq!(base_seen(&mut backend), Request::SetVringBase { index: 0, base: 0 });
    let state = backend.stop(&mut frontend, 0).unwrap();
    backend.start(&mut frontend, 0, queue_params(), 0, Some(state)).unwrap();
    assert_eq!(base_seen(&mut backend), Request::SetVringBase { index: 0, base: 100 });
}

#[test]
fn features_of_the_first_start_decide_about_packed_rings() {
    let mut backend = Backend::with_state(true, 0, 0);
    let mut frontend = backend.connect(default_config()).unwrap();
    backend.start(&mut frontend, 0, queue_params(), 0, None).unwrap();
    assert!(!frontend.packed_ring());
    backend
        .start(&mut frontend, 1, queue_params(), VIRTIO_F_RING_PACKED, None)
        .unwrap();
    assert!(!frontend.packed_ring());
    backend.reset(&mut frontend);
    backend
        .start(&mut frontend, 1, queue_params(), VIRTIO_F_RING_PACKED, None)
        .unwrap();
    assert!(frontend.packed_ring());
}

#[test]
fn stop_disables_the_queue_first() {
    let mut backend = Backend::new();
    let mut frontend = backend.connect(default_config()).unwrap();
    backend.start(&mut frontend, 0, queue_params(), 0, None).unwrap();
    backend.start(&mut frontend, 1, queue_params(), 0, None).unwrap();
    backend.take_seen();
    let state = backend.stop(&mut frontend, 0);
    assert_eq!(state, Some(QueueState { avail_index: 42, used_index: 0 }));
    assert_eq!(
        backend.take_seen(),
        vec![
            Seen::Call(Request::SetVringEnable { index: 0, enable: false }),
            Seen::Call(Request::GetVringBase { index: 0 }),
            Seen::ReadUsedRing(0x2002),
        ]
    );
    assert!(frontend.queue(1).active);
}

#[test]
fn stop_bears_failures() {
    // A queue that cannot be disabled is stopped all the same.
    let mut backend = Backend::new();
    let mut frontend = backend.connect(default_config()).unwrap();
    backend.start(&mut frontend, 0, queue_params(), 0, None).unwrap();
    backend.take_seen();
    backend.fail_at = Some(0);
    assert!(backend.stop(&mut frontend, 0).is_some());

    // One whose state cannot be had is given up.
    backend.start(&mut frontend, 0, queue_params(), 0, None).unwrap();
    backend.take_seen();
    backend.fail_at = Some(1);
    assert!(backend.stop(&mut frontend, 0).is_none());
    assert!(!frontend.queue(0).active);
    assert_eq!(frontend.queue(0).params, None);

    // A used ring that cannot be read counts as zero.
    backend.fail_at = None;
    backend.start(&mut frontend, 0, queue_params(), 0, None).unwrap();
    backend.memory[0x2002] = 5;
    backend.take_seen();
    backend.fail_at = Some(2);
    assert_eq!(
        backend.stop(&mut frontend, 0),
        Some(QueueState { avail_index: 42, used_index: 0 })
    );
}

#[test]
fn used_index_is_little_endian() {
    assert_eq!(read_used_index(Some([0x34, 0x12])), 0x1234);
    assert_eq!(read_used_index(None), 0);
}

#[test]
fn reset_stops_active_queues_in_order() {
    let mut backend = Backend::new();
    backend.max_queues = 4;
    let mut config = default_config();
    config.queue_sizes = vec![64; 4];
    let mut frontend = backend.connect(config).unwrap();
    backend.start(&mut frontend, 3, queue_params(), 0, None).unwrap();
    backend.start(&mut frontend, 1, queue_params(), 0, None).unwrap();
    backend.take_seen();
    // It makes no difference that calls fail.
    backend.fail_at = Some(1);
    backend.reset(&mut frontend);
    assert_eq!(
        backend.take_seen(),
        vec![
            Seen::Call(Request::SetVringEnable { index: 1, enable: false }),
            Seen::Call(Request::GetVringBase { index: 1 }),
            Seen::Call(Request::SetVringEnable { index: 3, enable: false }),
            Seen::Call(Request::GetVringBase { index: 3 }),
            Seen::Call(Request::ResetDevice),
        ]
    );
    for i in 0..4 {
        assert!(!frontend.queue(i).active);
    }
    assert!(frontend.mem_table_sent());
}

#[test]
fn reset_of_a_backend_that_cannot_be_reset() {
    let mut backend = Backend::new();
    backend.features = 0;
    let mut frontend = backend.connect(default_config()).unwrap();
    backend.start(&mut frontend, 0, queue_params(), 0, None).unwrap();
    backend.take_seen();
    backend.reset(&mut frontend);
    assert_eq!(
        backend.take_seen(),
        vec![
            Seen::Call(Request::SetVringEnable { index: 0, enable: false }),
            Seen::Call(Request::GetVringBase { index: 0 }),
        ]
    );
    assert!(!frontend.guest_features_sent());
}

#[test]
fn config_reads_and_writes_reach_the_backend() {
    let mut backend = Backend::new();
    backend.config_space = (0u8..64).collect();
    let mut config = default_config();
    config.config_patches = vec![(2, vec![0xaa, 0xbb, 0xcc]), (3, vec![0xdd])];
    let frontend = backend.connect(config).unwrap();

    assert_eq!(
        frontend.read_registers_request(8),
        Some(ConfigRead { offset: 8, size: 4, flags: 0 })
    );
    assert_eq!(backend.read_register(&frontend, 8), 0x0b0a_0908);
    // The later of two patches wins, and bytes without one are the backend's.
    assert_eq!(backend.read_register(&frontend, 0), 0xddaa_0100);
    assert_eq!(backend.read_register(&frontend, 2), 0x05cc_ddaa);
    assert_eq!(backend.read_register(&frontend, 4), 0x0706_05cc);
    // A failed or short reply counts as zeros.
    assert_eq!(frontend.read_registers_u32(0, None), 0xddaa_0000);
    assert_eq!(frontend.read_registers_u32(0, Some(&[1, 1, 1])), 0xddaa_0000);
    // Of a long one the front counts.
    assert_eq!(frontend.read_registers_u32(8, Some(&[1, 2, 3, 4, 5])), 0x0403_0201);

    let write = frontend.write_registers_u32(2, 0x0102_0304).unwrap();
    assert_eq!(write.offset, 2);
    assert_eq!(write.flags, 0);
    assert_eq!(write.data, [4, 3, 2, 1]);
}

#[test]
fn config_space_without_a_backend_starts_from_zeros() {
    let mut backend = Backend::new();
    let mut config = default_config();
    config.use_backend_config = false;
    config.config_patches = vec![(6, vec![1, 2])];
    let frontend = backend.connect(config).unwrap();
    assert_eq!(frontend.read_registers_request(4), None);
    assert_eq!(frontend.read_registers_u32(4, Some(&[9, 9, 9, 9])), 0x0201_0000);
    assert_eq!(frontend.read_registers_u32(65535, None), 0);
    assert_eq!(frontend.traits().device_register_length, 8);
}
