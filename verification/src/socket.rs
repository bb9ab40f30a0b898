//! Framing of vhost-user messages on a stream socket, along with the objects
//! that travel with them.
//!
//! The messages are the same on both platforms. What differs is how an object
//! reaches the peer: on POSIX it rides with the first `sendmsg` of its message;
//! on Windows it is duplicated into the peer process, as `crate::win32` tells.
//!
//! Sending and receiving are driven by the caller, who asks what to do, does it,
//! and hands the outcome to `step`.

use crate::error::decimal;
use crate::error::to_decimal;
use crate::protocol::header_of_bytes;
use crate::protocol::VhostUserMsgHeader;
use crate::protocol::HEADER_SIZE;
use crate::protocol::VHOST_USER_MAX_FDS;
use vstd::prelude::*;
use vstd::slice::slice_subrange;
use vstd::string::StringExecFns;

verus! {

/// Why a message was not sent or received.
#[derive(Debug)]
pub enum SocketError {
    /// The socket failed.
    Io(std::io::Error),
    /// The peer closed the connection.
    Closed,
    /// The peer announced a larger payload than is accepted.
    PayloadTooLarge(u32),
    /// The message carries objects, but there is no process to duplicate them
    /// into.
    NoPeerProcess(usize),
    /// Duplicating an object into the backend process failed.
    Duplicate(std::io::Error),
}

impl From<std::io::Error> for SocketError {
    fn from(e: std::io::Error) -> (error: Self) {
        SocketError::Io(e)
    }
}

impl vstd::std_specs::convert::FromSpecImpl<std::io::Error> for SocketError {
    open spec fn obeys_from_spec() -> bool {
        true
    }

    open spec fn from_spec(e: std::io::Error) -> Self {
        SocketError::Io(e)
    }
}

/// What is said of a message that was not sent or received.
pub open spec fn socket_error_message(error: SocketError) -> Seq<char> {
    match error {
        SocketError::Io(source) => "i/o error"@,
        SocketError::Closed => "connection closed"@,
        SocketError::PayloadTooLarge(size) => "payload too large: "@ + decimal(size as nat)
            + " bytes"@,
        SocketError::NoPeerProcess(count) => "cannot pass "@ + decimal(count as nat)
            + " object(s) to the backend: no backend process handle was configured for this connection"@,
        SocketError::Duplicate(
            source,
        ) => "failed to duplicate an object into the backend process"@,
    }
}

impl SocketError {
    /// What to say of this error, apart from the operating system's own error in
    /// it.
    pub fn message(&self) -> (message: String)
        ensures
            message@ == socket_error_message(*self),
    {
        match self {
            SocketError::Io(_) => String::from_str("i/o error"),
            SocketError::Closed => String::from_str("connection closed"),
            SocketError::PayloadTooLarge(size) => {
                let mut s: String = String::from_str("payload too large: ");
                s.append(to_decimal(*size as u64).as_str());
                s.append(" bytes");
                s
            },
            SocketError::NoPeerProcess(count) => {
                let mut s: String = String::from_str("cannot pass ");
                s.append(to_decimal(*count as u64).as_str());
                s.append(
                    " object(s) to the backend: no backend process handle was configured for this connection",
                );
                s
            },
            SocketError::Duplicate(_) => String::from_str(
                "failed to duplicate an object into the backend process",
            ),
        }
    }
}

/// Largest payload that is accepted, in bytes.
pub const MAX_PAYLOAD_SIZE: u32 = 0x40_0000;

/// How objects travel.
#[derive(Debug, Clone, Copy, PartialEq, Eq, Structural)]
pub enum Platform {
    /// As ancillary data of the socket.
    Posix,
    /// As handles in the peer process.
    Windows,
}

/// Per-connection state for receiving messages: room for the objects that may
/// come with one.
#[derive(Debug, Clone, Copy, PartialEq, Eq, Structural)]
pub struct MessageReceiver {
    /// How many objects are taken from the socket at a time.
    pub max_objects: usize,
}

impl MessageReceiver {
    /// Room for as many objects as a message may carry.
    pub fn new() -> (receiver: MessageReceiver)
        ensures
            receiver.max_objects == VHOST_USER_MAX_FDS,
    {
        MessageReceiver { max_objects: VHOST_USER_MAX_FDS }
    }
}

impl Default for MessageReceiver {
    /// Room for as many objects as a message may carry.
    fn default() -> (receiver: MessageReceiver)
        ensures
            receiver.max_objects == VHOST_USER_MAX_FDS,
    {
        MessageReceiver::new()
    }
}

/// One end of a connection that carries vhost-user messages.
#[derive(Debug, Clone, Copy, PartialEq, Eq, Structural)]
pub struct VhostUserSocket {
    /// How objects travel on it.
    pub platform: Platform,
    /// On Windows, the process to duplicate objects into. Needed only to send a
    /// message that carries one.
    pub peer_process: Option<u64>,
}

/// A message that was received.
#[derive(Debug)]
pub struct Message<T> {
    /// Its header.
    pub header: VhostUserMsgHeader,
    /// Its payload.
    pub payload: Vec<u8>,
    /// The objects that came with it.
    pub objects: Vec<T>,
}

/// A message.
pub struct MessageView<T> {
    /// Its header.
    pub header: VhostUserMsgHeader,
    /// Its payload.
    pub payload: Seq<u8>,
    /// The objects that came with it.
    pub objects: Seq<T>,
}

/// A message that is being received.
#[derive(Debug)]
pub struct RecvMessage<T> {
    platform: Platform,
    max_objects: usize,
    bytes: Vec<u8>,
    objects: Vec<T>,
}

/// The state of a `RecvMessage`.
pub struct RecvView<T> {
    /// How objects travel.
    pub platform: Platform,
    /// How many objects are taken from the socket at a time.
    pub max_objects: usize,
    /// What has arrived of the message.
    pub bytes: Seq<u8>,
    /// The objects that have arrived.
    pub objects: Seq<T>,
}

/// What to read next.
#[derive(Debug, Clone, Copy, PartialEq, Eq, Structural)]
pub struct ReadRequest {
    /// Bytes to read at most.
    pub len: usize,
    /// Objects to take at most.
    pub max_objects: usize,
    /// Whether the objects belong to the message. If not, they are stray, and
    /// are dropped.
    pub keep_objects: bool,
}

/// The outcome of a read.
#[derive(Debug)]
pub enum RecvEvent<'a, T> {
    /// Bytes and objects arrived. No bytes mean that the peer closed the
    /// connection.
    Read {
        /// The bytes.
        data: &'a [u8],
        /// The objects.
        objects: Vec<T>,
    },
    /// The read failed.
    Failed(std::io::Error),
}

/// What came of a step.
#[derive(Debug)]
pub enum RecvStep<T> {
    /// There is more to read.
    Next(RecvMessage<T>),
    /// The message is there, or will not come.
    Done(Result<Message<T>, SocketError>),
}

/// What comes of a step.
pub enum RecvOutcome<T> {
    /// There is more to read.
    Next(RecvView<T>),
    /// The message is there, or will not come.
    Done(Result<MessageView<T>, SocketError>),
}

impl<T> View for Message<T> {
    type V = MessageView<T>;

    open spec fn view(&self) -> MessageView<T> {
        MessageView { header: self.header, payload: self.payload@, objects: self.objects@ }
    }
}

impl<T> View for RecvMessage<T> {
    type V = RecvView<T>;

    closed spec fn view(&self) -> RecvView<T> {
        RecvView {
            platform: self.platform,
            max_objects: self.max_objects,
            bytes: self.bytes@,
            objects: self.objects@,
        }
    }
}

impl<T> View for RecvStep<T> {
    type V = RecvOutcome<T>;

    open spec fn view(&self) -> RecvOutcome<T> {
        match *self {
            RecvStep::Next(recv) => RecvOutcome::Next(recv@),
            RecvStep::Done(Ok(message)) => RecvOutcome::Done(Ok(message@)),
            RecvStep::Done(Err(error)) => RecvOutcome::Done(Err(error)),
        }
    }
}

/// What the bytes at the front of a stream amount to.
pub enum RecvStatus {
    /// Part of a message. This many bytes can be read before there is something
    /// new to decide.
    Partial(nat),
    /// A whole message.
    Complete {
        /// Its header.
        header: VhostUserMsgHeader,
        /// Its payload.
        payload: Seq<u8>,
    },
    /// The header of a message whose payload is too large.
    TooLarge(u32),
}

/// What the bytes at the front of a stream amount to: a header of twelve bytes,
/// and as much payload as it announces.
pub open spec fn recv_status(bytes: Seq<u8>) -> RecvStatus {
    if bytes.len() < HEADER_SIZE {
        RecvStatus::Partial((HEADER_SIZE - bytes.len()) as nat)
    } else {
        let header = header_of_bytes(bytes.take(HEADER_SIZE as int));
        let end = HEADER_SIZE + header.size;
        if header.size > MAX_PAYLOAD_SIZE {
            RecvStatus::TooLarge(header.size)
        } else if bytes.len() < end {
            RecvStatus::Partial((end - bytes.len()) as nat)
        } else {
            RecvStatus::Complete { header, payload: bytes.subrange(HEADER_SIZE as int, end) }
        }
    }
}

/// A message of which nothing has arrived.
pub open spec fn recv_begin<T>(
    socket: VhostUserSocket,
    receiver: MessageReceiver,
) -> RecvView<T> {
    RecvView {
        platform: socket.platform,
        max_objects: receiver.max_objects,
        bytes: Seq::empty(),
        objects: Seq::empty(),
    }
}

/// Whether objects that arrive now belong to the message: they come with its
/// first bytes, and as ancillary data only.
pub open spec fn recv_keeps_objects<T>(v: RecvView<T>) -> bool {
    v.bytes.len() == 0 && v.platform is Posix
}

/// A message after more of it has arrived.
pub open spec fn recv_extend<T>(v: RecvView<T>, data: Seq<u8>, objects: Seq<T>) -> RecvView<T> {
    RecvView {
        bytes: v.bytes + data,
        objects: if recv_keeps_objects(v) {
            objects
        } else {
            v.objects
        },
        ..v
    }
}

/// What comes of bytes and objects that arrive.
pub open spec fn recv_read<T>(v: RecvView<T>, data: Seq<u8>, objects: Seq<T>) -> RecvOutcome<T> {
    if data.len() == 0 {
        RecvOutcome::Done(Err(SocketError::Closed))
    } else {
        let next = recv_extend(v, data, objects);
        match recv_status(next.bytes) {
            RecvStatus::Partial(len) => RecvOutcome::Next(next),
            RecvStatus::Complete { header, payload } => RecvOutcome::Done(
                Ok(MessageView { header, payload, objects: next.objects }),
            ),
            RecvStatus::TooLarge(size) => RecvOutcome::Done(
                Err(SocketError::PayloadTooLarge(size)),
            ),
        }
    }
}

/// What comes of the outcome of a read.
pub open spec fn recv_step<T>(v: RecvView<T>, event: RecvEvent<'_, T>) -> RecvOutcome<T> {
    match event {
        RecvEvent::Failed(error) => RecvOutcome::Done(Err(SocketError::Io(error))),
        RecvEvent::Read { data, objects } => recv_read(v, data@, objects@),
    }
}

/// Whether no more bytes arrived than were to be read.
pub open spec fn recv_event_fits<T>(v: RecvView<T>, event: RecvEvent<'_, T>) -> bool {
    match event {
        RecvEvent::Failed(error) => true,
        RecvEvent::Read { data, objects } => data@.len() <= recv_status(v.bytes)->Partial_0,
    }
}

impl VhostUserSocket {
    /// One end of a connection. On Windows it cannot pass objects to the peer,
    /// which a backend never does.
    pub fn new(platform: Platform) -> (socket: VhostUserSocket)
        ensures
            socket == (VhostUserSocket { platform, peer_process: None }),
    {
        VhostUserSocket { platform, peer_process: None }
    }

    /// One end of a connection on Windows, and the process that objects are
    /// duplicated into.
    pub fn with_peer_process(peer_process: u64) -> (socket: VhostUserSocket)
        ensures
            socket == (VhostUserSocket {
                platform: Platform::Windows,
                peer_process: Some(peer_process),
            }),
    {
        VhostUserSocket { platform: Platform::Windows, peer_process: Some(peer_process) }
    }

    /// Begins to receive a message.
    pub fn recv_message<T>(&self, receiver: &MessageReceiver) -> (recv: RecvMessage<T>)
        ensures
            recv@ == recv_begin::<T>(*self, *receiver),
            recv_status(recv@.bytes) is Partial,
    {
        RecvMessage {
            platform: self.platform,
            max_objects: receiver.max_objects,
            bytes: Vec::new(),
            objects: Vec::new(),
        }
    }
}

impl<T> RecvMessage<T> {
    /// What to read next.
    pub fn request(&self) -> (request: ReadRequest)
        requires
            recv_status(self@.bytes) is Partial,
        ensures
            request.len == recv_status(self@.bytes)->Partial_0,
            request.max_objects == (if self@.platform is Posix {
                self@.max_objects
            } else {
                0
            }),
            request.keep_objects == recv_keeps_objects(self@),
    {
        let posix: bool = match self.platform {
            Platform::Posix => true,
            Platform::Windows => false,
        };
        let len: usize = if self.bytes.len() < HEADER_SIZE {
            HEADER_SIZE - self.bytes.len()
        } else {
            let header: VhostUserMsgHeader = self.header();
            HEADER_SIZE + header.size as usize - self.bytes.len()
        };
        ReadRequest {
            len,
            max_objects: if posix {
                self.max_objects
            } else {
                0
            },
            keep_objects: posix && self.bytes.len() == 0,
        }
    }

    /// The header of a message of which that much has arrived.
    fn header(&self) -> (header: VhostUserMsgHeader)
        requires
            self@.bytes.len() >= HEADER_SIZE,
        ensures
            header == header_of_bytes(self@.bytes.take(HEADER_SIZE as int)),
    {
        let front: &[u8] = slice_subrange(self.bytes.as_slice(), 0, HEADER_SIZE);
        assert(front@ =~= self@.bytes.take(HEADER_SIZE as int));
        match VhostUserMsgHeader::read_from_bytes(front) {
            Some(header) => header,
            None => VhostUserMsgHeader { request: 0, flags: 0, size: 0 },
        }
    }

    /// Goes on with the outcome of a read.
    pub fn step(self, event: RecvEvent<'_, T>) -> (step: RecvStep<T>)
        requires
            recv_status(self@.bytes) is Partial,
            recv_event_fits(self@, event),
        ensures
            step@ == recv_step(self@, event),
            step matches RecvStep::Next(next) ==> recv_status(next@.bytes) is Partial,
    {
        let (data, objects) = match event {
            RecvEvent::Failed(error) => {
                return RecvStep::Done(Err(SocketError::from(error)));
            },
            RecvEvent::Read { data, objects } => (data, objects),
        };
        if data.len() == 0 {
            return RecvStep::Done(Err(SocketError::Closed));
        }
        let mut next = self;
        let first: bool = next.bytes.len() == 0;
        next.bytes.extend_from_slice(data);
        assert(next.bytes@ =~= self@.bytes + data@);
        if first {
            match next.platform {
                Platform::Posix => {
                    next.objects = objects;
                },
                Platform::Windows => {},
            }
        }
        if next.bytes.len() < HEADER_SIZE {
            return RecvStep::Next(next);
        }
        let header: VhostUserMsgHeader = next.header();
        if header.size > MAX_PAYLOAD_SIZE {
            return RecvStep::Done(Err(SocketError::PayloadTooLarge(header.size)));
        }
        if next.bytes.len() < HEADER_SIZE + header.size as usize {
            return RecvStep::Next(next);
        }
        let payload: Vec<u8> = next.bytes.split_off(HEADER_SIZE);
        proof {
            let bytes = self@.bytes + data@;
            if self@.bytes.len() >= HEADER_SIZE {
                assert(bytes.take(HEADER_SIZE as int) =~= self@.bytes.take(HEADER_SIZE as int));
            }
            assert(bytes.len() == HEADER_SIZE + header.size);
            assert(payload@ =~= bytes.subrange(HEADER_SIZE as int, bytes.len() as int));
        }
        RecvStep::Done(Ok(Message { header, payload, objects: next.objects }))
    }
}

} // verus!
