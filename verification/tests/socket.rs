//! Messages over a connection whose wire is played here.

use std::io;
use vhost_user::protocol::VhostUserMsgHeader;
use vhost_user::protocol::HEADER_SIZE;
use vhost_user::protocol::VHOST_USER_MAX_FDS;
use vhost_user::send::build_remaining_iov;
use vhost_user::send::SendAction;
use vhost_user::send::SendEvent;
use vhost_user::send::SendMessage;
use vhost_user::send::SendStep;
use vhost_user::socket::Message;
use vhost_user::socket::MessageReceiver;
use vhost_user::socket::Platform;
use vhost_user::socket::ReadRequest;
use vhost_user::socket::RecvEvent;
use vhost_user::socket::RecvMessage;
use vhost_user::socket::RecvStep;
use vhost_user::socket::SocketError;
use vhost_user::socket::VhostUserSocket;
use vhost_user::socket::MAX_PAYLOAD_SIZE;

const PEER: u64 = 0x5c;

fn header(size: u32) -> VhostUserMsgHeader {
    VhostUserMsgHeader { request: 5, flags: 9, size }
}

/// How the wire behaves.
struct Wire {
    /// Bytes that it takes at a time.
    chunk: usize,
    /// Which write fails, and how.
    failing_write: Option<(usize, SendEvent)>,
    writes: usize,
    bytes: Vec<u8>,
    /// Where in the bytes objects were attached.
    attached: Vec<usize>,
    /// Handles live in the peer process.
    live: Vec<u64>,
    next_handle: u64,
    /// Which duplication fails.
    failing_object: Option<usize>,
}

impl Wire {
    fn new(chunk: usize) -> Self {
        Wire {
            chunk,
            failing_write: None,
            writes: 0,
            bytes: Vec::new(),
            attached: Vec::new(),
            live: Vec::new(),
            next_handle: 0x100,
            failing_object: None,
        }
    }

    fn write(&mut self, data: &[u8]) -> SendEvent {
        let write = self.writes;
        self.writes += 1;
        if let Some((at, _)) = &self.failing_write {
            if *at == write {
                return self.failing_write.take().unwrap().1;
            }
        }
        let n = data.len().min(self.chunk);
        self.bytes.extend_from_slice(&data[..n]);
        SendEvent::Sent(n)
    }

    fn send(&mut self, send: SendMessage<'_>) -> Result<(), SocketError> {
        let mut send = send;
        loop {
            let event = match send.action() {
                SendAction::SendMsg { iov, attach } => {
                    assert!(iov.iter().all(|slice| !slice.is_empty()));
                    if attach {
                        self.attached.push(self.bytes.len());
                    }
                    self.write(&iov.concat())
                }
                SendAction::Duplicate { object, peer } => {
                    assert_eq!(peer, PEER);
                    if self.failing_object == Some(object) {
                        SendEvent::Failed(io::Error::from_raw_os_error(5))
                    } else {
                        let handle = self.next_handle;
                        self.next_handle += 4;
                        self.live.push(handle);
                        SendEvent::Duplicated(handle)
                    }
                }
                SendAction::Write { data } => self.write(data),
            };
            match send.step(event) {
                SendStep::Next(next) => send = next,
                SendStep::Done { result, close } => {
                    self.live.retain(|handle| !close.contains(handle));
                    return result;
                }
            }
        }
    }
}

/// Receives from `bytes`, at most `chunk` at a time, with `objects` coming along
/// with every read.
fn receive(
    socket: VhostUserSocket,
    bytes: &[u8],
    chunk: usize,
    objects: &[u32],
) -> Result<Message<u32>, SocketError> {
    let mut recv: RecvMessage<u32> = socket.recv_message(&MessageReceiver::new());
    let mut at = 0;
    loop {
        let request = recv.request();
        let n = request.len.min(chunk).min(bytes.len() - at);
        let event = RecvEvent::Read { data: &bytes[at..at + n], objects: objects.to_vec() };
        at += n;
        match recv.step(event) {
            RecvStep::Next(next) => recv = next,
            RecvStep::Done(result) => return result,
        }
    }
}

#[test]
fn remaining_slices() {
    let original: Vec<&[u8]> = vec![&[1, 2, 3], &[], &[4, 5]];
    let expected: [&[&[u8]]; 7] = [
        &[&[1, 2, 3], &[4, 5]],
        &[&[2, 3], &[4, 5]],
        &[&[3], &[4, 5]],
        &[&[4, 5]],
        &[&[5]],
        &[],
        &[],
    ];
    for (skip, left) in expected.iter().enumerate() {
        assert_eq!(build_remaining_iov(&original, skip), *left);
    }
}

#[test]
fn message_goes_over_in_pieces() {
    let socket = VhostUserSocket::new(Platform::Posix);
    let payload: Vec<u8> = (0u8..40).collect();
    for chunk in [1, 5, 12, 13, 100] {
        let mut wire = Wire::new(chunk);
        let send = socket.send_message(&header(40), &payload, 2).unwrap();
        wire.send(send).unwrap();
        let mut expected = vec![5, 0, 0, 0, 9, 0, 0, 0, 40, 0, 0, 0];
        expected.extend_from_slice(&payload);
        assert_eq!(wire.bytes, expected);
        // Objects ride with the first bytes, and with no others.
        assert_eq!(wire.attached, [0]);
        for chunk in [1, 7, 12, 100] {
            let message = receive(socket, &wire.bytes, chunk, &[11, 12]).unwrap();
            assert_eq!(message.header, header(40));
            assert_eq!(message.payload, payload);
            assert_eq!(message.objects, [11, 12]);
        }
    }
}

#[test]
fn message_without_payload() {
    for socket in [
        VhostUserSocket::new(Platform::Posix),
        VhostUserSocket::new(Platform::Windows),
    ] {
        let mut wire = Wire::new(5);
        wire.send(socket.send_message(&header(0), &[], 0).unwrap()).unwrap();
        assert_eq!(wire.bytes.len(), HEADER_SIZE);
        let message = receive(socket, &wire.bytes, 4, &[]).unwrap();
        assert_eq!(message.header, header(0));
        assert_eq!(message.payload, Vec::<u8>::new());
    }
}

#[test]
fn handles_follow_the_payload() {
    let socket = VhostUserSocket::with_peer_process(PEER);
    let payload = [7u8; 3];
    let mut wire = Wire::new(4);
    wire.send(socket.send_message(&header(3), &payload, 2).unwrap()).unwrap();
    assert_eq!(
        wire.bytes,
        [
            5, 0, 0, 0, 9, 0, 0, 0, 19, 0, 0, 0, 7, 7, 7, 0, 1, 0, 0, 0, 0, 0, 0, 4, 1, 0, 0, 0, 0,
            0, 0
        ]
    );
    // The peer owns what was announced to it.
    assert_eq!(wire.live, [0x100, 0x104]);
    assert!(wire.attached.is_empty());

    let message = receive(socket, &wire.bytes, 6, &[1]).unwrap();
    assert_eq!(message.header, header(19));
    assert_eq!(message.payload[..3], payload);
    assert_eq!(message.payload[3..11], 0x100u64.to_le_bytes());
    assert_eq!(message.payload[11..], 0x104u64.to_le_bytes());
    // No object arrives in any other way.
    assert!(message.objects.is_empty());
}

#[test]
fn most_objects_that_fit() {
    let socket = VhostUserSocket::with_peer_process(PEER);
    let mut wire = Wire::new(1000);
    wire.send(socket.send_message(&header(0), &[], VHOST_USER_MAX_FDS).unwrap()).unwrap();
    assert_eq!(wire.bytes.len(), HEADER_SIZE + 8 * VHOST_USER_MAX_FDS);
    assert_eq!(wire.live.len(), VHOST_USER_MAX_FDS);
}

#[test]
fn failed_send_takes_handles_back() {
    let socket = VhostUserSocket::with_peer_process(PEER);

    let mut wire = Wire::new(4);
    wire.failing_write = Some((2, SendEvent::Failed(io::Error::from_raw_os_error(32))));
    let error = wire.send(socket.send_message(&header(1), &[1], 3).unwrap()).unwrap_err();
    assert_eq!(error.message(), "i/o error");
    match error {
        SocketError::Io(source) => assert_eq!(source.raw_os_error(), Some(32)),
        other => panic!("unexpected error: {other:?}"),
    }
    assert!(wire.live.is_empty());

    // A peer that takes nothing has gone.
    let mut wire = Wire::new(4);
    wire.failing_write = Some((1, SendEvent::Sent(0)));
    let error = wire.send(socket.send_message(&header(1), &[1], 3).unwrap()).unwrap_err();
    assert!(matches!(error, SocketError::Closed));
    assert!(wire.live.is_empty());

    // Nothing is sent of a message whose objects cannot all be duplicated.
    let mut wire = Wire::new(4);
    wire.failing_object = Some(2);
    let error = wire.send(socket.send_message(&header(1), &[1], 3).unwrap()).unwrap_err();
    assert_eq!(error.message(), "failed to duplicate an object into the backend process");
    match error {
        SocketError::Duplicate(source) => assert_eq!(source.raw_os_error(), Some(5)),
        other => panic!("unexpected error: {other:?}"),
    }
    assert!(wire.live.is_empty());
    assert!(wire.bytes.is_empty());
}

#[test]
fn failed_send_over_ancillary_data() {
    let socket = VhostUserSocket::new(Platform::Posix);
    let mut wire = Wire::new(4);
    // Nothing sent at first is no end.
    wire.failing_write = Some((0, SendEvent::Sent(0)));
    wire.send(socket.send_message(&header(1), &[1], 1).unwrap()).unwrap();
    assert_eq!(wire.bytes.len(), 13);
    assert_eq!(wire.attached, [0, 0]);

    let mut wire = Wire::new(4);
    wire.failing_write = Some((1, SendEvent::Failed(io::Error::from_raw_os_error(32))));
    let error = wire.send(socket.send_message(&header(1), &[1], 1).unwrap()).unwrap_err();
    assert!(matches!(error, SocketError::Io(_)));
}

#[test]
fn objects_need_a_peer_process() {
    let socket = VhostUserSocket::new(Platform::Windows);
    let error = socket.send_message(&header(1), &[1], 3).err().unwrap();
    assert!(matches!(error, SocketError::NoPeerProcess(3)));
    assert_eq!(
        error.message(),
        "cannot pass 3 object(s) to the backend: no backend process handle was configured for \
         this connection"
    );
    assert!(socket.send_message(&header(1), &[1], 0).is_ok());
}

#[test]
fn read_requests_stop_at_the_message_end() {
    let socket = VhostUserSocket::new(Platform::Posix);
    let recv: RecvMessage<u32> = socket.recv_message(&MessageReceiver::default());
    assert_eq!(
        recv.request(),
        ReadRequest { len: 12, max_objects: 8, keep_objects: true }
    );
    let bytes = header(5).as_bytes();
    let recv = match recv.step(RecvEvent::Read { data: &bytes[..3], objects: vec![1] }) {
        RecvStep::Next(recv) => recv,
        other => panic!("unexpected step: {other:?}"),
    };
    assert_eq!(
        recv.request(),
        ReadRequest { len: 9, max_objects: 8, keep_objects: false }
    );
    let recv = match recv.step(RecvEvent::Read { data: &bytes[3..], objects: vec![2] }) {
        RecvStep::Next(recv) => recv,
        other => panic!("unexpected step: {other:?}"),
    };
    assert_eq!(recv.request().len, 5);
    match recv.step(RecvEvent::Read { data: &[1, 2, 3, 4, 5], objects: vec![3] }) {
        RecvStep::Done(Ok(message)) => {
            assert_eq!(message.payload, [1, 2, 3, 4, 5]);
            // Stray objects are dropped.
            assert_eq!(message.objects, [1]);
        }
        other => panic!("unexpected step: {other:?}"),
    }

    let windows = VhostUserSocket::with_peer_process(PEER);
    let recv: RecvMessage<u32> = windows.recv_message(&MessageReceiver::new());
    assert_eq!(
        recv.request(),
        ReadRequest { len: 12, max_objects: 0, keep_objects: false }
    );
}

#[test]
fn closed_connections() {
    let socket = VhostUserSocket::new(Platform::Posix);
    let mut bytes = header(3).as_bytes();
    bytes.extend_from_slice(&[1, 2]);
    for end in [0, 5, 12, 14] {
        let error = receive(socket, &bytes[..end], 100, &[]).err().unwrap();
        assert!(matches!(error, SocketError::Closed));
        assert_eq!(error.message(), "connection closed");
    }
    // It makes no difference what the header would have announced.
    let large = header(MAX_PAYLOAD_SIZE + 1).as_bytes();
    for chunk in [1, 4, 100] {
        let error = receive(socket, &large[..11], chunk, &[]).err().unwrap();
        assert!(matches!(error, SocketError::Closed));
    }
}

#[test]
fn large_payloads_are_turned_down() {
    let socket = VhostUserSocket::new(Platform::Posix);
    assert_eq!(MAX_PAYLOAD_SIZE, 4 * 1024 * 1024);
    let error = receive(socket, &header(MAX_PAYLOAD_SIZE + 1).as_bytes(), 12, &[])
        .err()
        .unwrap();
    assert!(matches!(error, SocketError::PayloadTooLarge(4194305)));
    assert_eq!(error.message(), "payload too large: 4194305 bytes");

    let mut bytes = header(MAX_PAYLOAD_SIZE).as_bytes();
    bytes.resize(HEADER_SIZE + MAX_PAYLOAD_SIZE as usize, 3);
    let message = receive(socket, &bytes, usize::MAX, &[]).unwrap();
    assert_eq!(message.payload.len(), MAX_PAYLOAD_SIZE as usize);
}

#[test]
fn failed_reads() {
    let socket = VhostUserSocket::new(Platform::Windows);
    let recv: RecvMessage<u32> = socket.recv_message(&MessageReceiver::new());
    match recv.step(RecvEvent::Failed(io::Error::from_raw_os_error(104))) {
        RecvStep::Done(Err(SocketError::Io(source))) => {
            assert_eq!(source.raw_os_error(), Some(104));
        }
        other => panic!("unexpected step: {other:?}"),
    }
    let converted = SocketError::from(io::Error::from_raw_os_error(1));
    assert!(matches!(converted, SocketError::Io(_)));
}
