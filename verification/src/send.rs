//! Sending a message over a stream socket.
//!
//! The caller asks a `SendMessage` what to do, does it, and hands the outcome to
//! `step`, until that says how the send ended.

use crate::protocol::header_bytes;
use crate::protocol::lemma_header_bytes_len;
use crate::protocol::VhostUserMsgHeader;
use crate::protocol::HEADER_SIZE;
use crate::protocol::VHOST_USER_MAX_FDS;
use crate::socket::Platform;
use crate::socket::SocketError;
use crate::socket::VhostUserSocket;
use crate::win32::lemma_trailer_len;
use crate::win32::trailer_bytes;
use crate::win32::RemoteHandles;
use crate::win32::HANDLE_RECORD_SIZE;
use vstd::prelude::*;
use vstd::slice::slice_subrange;

verus! {

/// The contents of a list of slices.
pub open spec fn slices_view(slices: Seq<&[u8]>) -> Seq<Seq<u8>> {
    Seq::new(slices.len(), |i: int| slices[i]@)
}

/// What is left of a list of slices behind its first `skip` bytes: the slice in
/// which these end is cut short, and slices of which nothing is left are left
/// out.
pub open spec fn remaining_iov(original: Seq<Seq<u8>>, skip: nat) -> Seq<Seq<u8>>
    decreases original.len(),
{
    if original.len() == 0 {
        seq![]
    } else if skip >= original[0].len() {
        remaining_iov(original.drop_first(), (skip - original[0].len()) as nat)
    } else {
        seq![original[0].skip(skip as int)] + remaining_iov(original.drop_first(), 0)
    }
}

/// What is left of a list of slices holds, one behind the other, exactly the
/// bytes behind the first `skip`, and no slice of it is empty. Nothing is left
/// exactly if there are no more than `skip` bytes.
pub proof fn law_remaining_iov_bytes(original: Seq<Seq<u8>>, skip: nat)
    ensures
        remaining_iov(original, skip).flatten() == original.flatten().skip(
            if skip <= original.flatten().len() {
                skip as int
            } else {
                original.flatten().len() as int
            },
        ),
        remaining_iov(original, skip).len() == 0 <==> skip >= original.flatten().len(),
        forall|i: int|
            0 <= i < remaining_iov(original, skip).len() ==> (#[trigger] remaining_iov(
                original,
                skip,
            )[i]).len() > 0,
    decreases original.len(),
{
    let all = original.flatten();
    if original.len() == 0 {
        assert(remaining_iov(original, skip).flatten() =~= all.skip(0));
    } else {
        let first = original[0];
        let rest = original.drop_first();
        let behind = rest.flatten();
        assert(all == first + behind);
        if skip >= first.len() {
            law_remaining_iov_bytes(rest, (skip - first.len()) as nat);
            if skip <= all.len() {
                assert(behind.skip(skip - first.len()) =~= all.skip(skip as int));
            } else {
                assert(behind.skip(behind.len() as int) =~= all.skip(all.len() as int));
            }
        } else {
            law_remaining_iov_bytes(rest, 0);
            let tail = remaining_iov(rest, 0);
            let left = remaining_iov(original, skip);
            assert(left.drop_first() =~= tail);
            assert(left.flatten() == first.skip(skip as int) + tail.flatten());
            assert(left.flatten() =~= all.skip(skip as int));
        }
    }
}

/// The slices that are left of `original` behind its first `skip` bytes.
pub fn build_remaining_iov<'a>(original: &Vec<&'a [u8]>, skip: usize) -> (result: Vec<&'a [u8]>)
    ensures
        slices_view(result@) == remaining_iov(slices_view(original@), skip as nat),
{
    let mut remaining: usize = skip;
    let mut result: Vec<&'a [u8]> = Vec::new();
    let mut i: usize = 0;
    let ghost all = slices_view(original@);
    assert(all.skip(0) =~= all);
    assert(slices_view(result@) + remaining_iov(all, skip as nat) =~= remaining_iov(
        all,
        skip as nat,
    ));
    while i < original.len()
        invariant
            i <= original@.len(),
            all == slices_view(original@),
            slices_view(result@) + remaining_iov(all.skip(i as int), remaining as nat)
                == remaining_iov(all, skip as nat),
        decreases original@.len() - i,
    {
        let slice: &'a [u8] = original[i];
        let ghost before = slices_view(result@);
        let ghost here = all.skip(i as int);
        assert(here[0] == slice@);
        assert(here.drop_first() =~= all.skip(i as int + 1));
        if remaining >= slice.len() {
            remaining = remaining - slice.len();
        } else {
            let rest: &'a [u8] = slice_subrange(slice, remaining, slice.len());
            assert(rest@ =~= slice@.skip(remaining as int));
            result.push(rest);
            assert(slices_view(result@) =~= before.push(rest@));
            assert(slices_view(result@) + remaining_iov(here.drop_first(), 0) =~= before + (
            seq![rest@] + remaining_iov(here.drop_first(), 0)));
            remaining = 0;
        }
        i = i + 1;
    }
    assert(slices_view(result@) + remaining_iov(all.skip(i as int), remaining as nat)
        =~= slices_view(result@));
    result
}

/// A message that is being sent.
#[derive(Debug)]
pub enum SendMessage<'a> {
    /// With its objects, if any, as ancillary data.
    Posix {
        /// The header on the wire.
        head: Vec<u8>,
        /// The payload.
        payload: &'a [u8],
        /// How much of header and payload was sent.
        sent: usize,
    },
    /// Its objects are being duplicated into the peer process.
    Duplicating {
        /// The header, which does not count the trailer yet.
        header: VhostUserMsgHeader,
        /// The payload.
        payload: &'a [u8],
        /// How many objects the message carries.
        count: usize,
        /// The handles that were duplicated so far.
        handles: RemoteHandles,
    },
    /// Its objects, if any, are in the peer process.
    Writing {
        /// The message on the wire.
        wire: Vec<u8>,
        /// How much of it was sent.
        sent: usize,
        /// The handles that the message announces, if it carries objects.
        announced: Option<RemoteHandles>,
    },
}

/// The state of a `SendMessage`.
pub enum SendView {
    /// With its objects, if any, as ancillary data.
    Posix {
        /// The header on the wire.
        head: Seq<u8>,
        /// The payload.
        payload: Seq<u8>,
        /// How much of header and payload was sent.
        sent: nat,
    },
    /// Its objects are being duplicated into the peer process.
    Duplicating {
        /// The header, which does not count the trailer yet.
        header: VhostUserMsgHeader,
        /// The payload.
        payload: Seq<u8>,
        /// How many objects the message carries.
        count: nat,
        /// The peer process.
        peer: u64,
        /// The handles that were duplicated so far.
        values: Seq<u64>,
    },
    /// Its objects, if any, are in the peer process.
    Writing {
        /// The message on the wire.
        wire: Seq<u8>,
        /// How much of it was sent.
        sent: nat,
        /// The handles that the message announces.
        values: Seq<u64>,
    },
}

/// What to do next.
#[derive(Debug)]
pub enum SendAction<'b> {
    /// Send these slices, with the objects or without.
    SendMsg {
        /// The slices.
        iov: Vec<&'b [u8]>,
        /// Whether to attach the message's objects.
        attach: bool,
    },
    /// Duplicate an object into the peer process.
    Duplicate {
        /// Which of the message's objects.
        object: usize,
        /// The peer process.
        peer: u64,
    },
    /// Write these bytes.
    Write {
        /// The bytes.
        data: &'b [u8],
    },
}

/// What is to be done.
pub enum SendActionView {
    /// Send slices, with the objects or without.
    SendMsg {
        /// The slices.
        iov: Seq<Seq<u8>>,
        /// Whether to attach the message's objects.
        attach: bool,
    },
    /// Duplicate an object into the peer process.
    Duplicate {
        /// Which of the message's objects.
        object: nat,
        /// The peer process.
        peer: u64,
    },
    /// Write bytes.
    Write {
        /// The bytes.
        data: Seq<u8>,
    },
}

/// The outcome of an action.
#[derive(Debug)]
pub enum SendEvent {
    /// This many bytes were sent.
    Sent(usize),
    /// The object was duplicated, and this is the handle in the peer process.
    Duplicated(u64),
    /// The action failed.
    Failed(std::io::Error),
}

/// What came of a step.
#[derive(Debug)]
pub enum SendStep<'a> {
    /// There is more to do.
    Next(SendMessage<'a>),
    /// The send has ended.
    Done {
        /// Whether the message was sent in full.
        result: Result<(), SocketError>,
        /// Handles to close in the peer process.
        close: Vec<u64>,
    },
}

/// What comes of a step.
pub enum SendOutcome {
    /// There is more to do.
    Next(SendView),
    /// The send has ended.
    Done {
        /// Whether the message was sent in full.
        result: Result<(), SocketError>,
        /// Handles to close in the peer process.
        close: Seq<u64>,
    },
}

impl View for SendMessage<'_> {
    type V = SendView;

    open spec fn view(&self) -> SendView {
        match *self {
            SendMessage::Posix { head, payload, sent } => SendView::Posix {
                head: head@,
                payload: payload@,
                sent: sent as nat,
            },
            SendMessage::Duplicating { header, payload, count, handles } => SendView::Duplicating {
                header,
                payload: payload@,
                count: count as nat,
                peer: handles@.peer,
                values: handles@.values,
            },
            SendMessage::Writing { wire, sent, announced } => SendView::Writing {
                wire: wire@,
                sent: sent as nat,
                values: match announced {
                    Some(handles) => handles@.values,
                    None => Seq::empty(),
                },
            },
        }
    }
}

impl View for SendAction<'_> {
    type V = SendActionView;

    open spec fn view(&self) -> SendActionView {
        match *self {
            SendAction::SendMsg { iov, attach } => SendActionView::SendMsg {
                iov: slices_view(iov@),
                attach,
            },
            SendAction::Duplicate { object, peer } => SendActionView::Duplicate {
                object: object as nat,
                peer,
            },
            SendAction::Write { data } => SendActionView::Write { data: data@ },
        }
    }
}

impl View for SendStep<'_> {
    type V = SendOutcome;

    open spec fn view(&self) -> SendOutcome {
        match *self {
            SendStep::Next(send) => SendOutcome::Next(send@),
            SendStep::Done { result, close } => SendOutcome::Done { result, close: close@ },
        }
    }
}

/// A header whose size also counts the records of `count` handles.
pub open spec fn header_with_trailer(header: VhostUserMsgHeader, count: nat) -> VhostUserMsgHeader {
    VhostUserMsgHeader { size: (header.size + count * HANDLE_RECORD_SIZE) as u32, ..header }
}

/// A message on the wire.
pub open spec fn message_bytes(header: VhostUserMsgHeader, payload: Seq<u8>) -> Seq<u8> {
    header_bytes(header) + payload
}

/// A message on the wire that announces handles: their records follow the
/// payload, and the header counts them.
pub open spec fn message_bytes_with_handles(
    header: VhostUserMsgHeader,
    payload: Seq<u8>,
    values: Seq<u64>,
) -> Seq<u8> {
    message_bytes(
        header_with_trailer(header, values.len()),
        payload + trailer_bytes(values),
    )
}

/// Whether a message with `count` objects can be framed on this socket: its
/// parts fit in memory, and its header can count them.
pub open spec fn frameable(
    socket: VhostUserSocket,
    header: VhostUserMsgHeader,
    payload: Seq<u8>,
    count: nat,
) -> bool {
    &&& count <= VHOST_USER_MAX_FDS
    &&& HEADER_SIZE + payload.len() + count * HANDLE_RECORD_SIZE <= usize::MAX
    &&& socket.platform is Windows && socket.peer_process is Some ==> header.size + count
        * HANDLE_RECORD_SIZE <= u32::MAX
}

/// How a send begins.
pub open spec fn send_begin(
    socket: VhostUserSocket,
    header: VhostUserMsgHeader,
    payload: Seq<u8>,
    count: nat,
) -> Result<SendView, SocketError> {
    if socket.platform is Posix {
        Ok(SendView::Posix { head: header_bytes(header), payload, sent: 0 })
    } else if count == 0 {
        Ok(
            SendView::Writing {
                wire: message_bytes(header, payload),
                sent: 0,
                values: Seq::empty(),
            },
        )
    } else {
        match socket.peer_process {
            None => Err(SocketError::NoPeerProcess(count as usize)),
            Some(peer) => Ok(
                SendView::Duplicating { header, payload, count, peer, values: Seq::empty() },
            ),
        }
    }
}

/// What holds of a send under way: there is something left to do, and room for
/// it.
pub open spec fn send_wf(v: SendView) -> bool {
    match v {
        SendView::Posix { head, payload, sent } => sent < head.len() + payload.len()
            <= usize::MAX,
        SendView::Duplicating { header, payload, count, peer, values } => {
            &&& values.len() < count <= VHOST_USER_MAX_FDS
            &&& HEADER_SIZE + payload.len() + count * HANDLE_RECORD_SIZE <= usize::MAX
            &&& header.size + count * HANDLE_RECORD_SIZE <= u32::MAX
        },
        SendView::Writing { wire, sent, values } => sent < wire.len(),
    }
}

/// What is done next.
pub open spec fn send_action(v: SendView) -> SendActionView {
    match v {
        SendView::Posix { head, payload, sent } => SendActionView::SendMsg {
            iov: remaining_iov(seq![head, payload], sent),
            attach: sent == 0,
        },
        SendView::Duplicating { header, payload, count, peer, values } => SendActionView::Duplicate {
            object: values.len(),
            peer,
        },
        SendView::Writing { wire, sent, values } => SendActionView::Write {
            data: wire.skip(sent as int),
        },
    }
}

/// Whether `event` can be the outcome of what is done next.
pub open spec fn send_event_fits(v: SendView, event: SendEvent) -> bool {
    match event {
        SendEvent::Sent(n) => match v {
            SendView::Posix { head, payload, sent } => sent + n <= head.len() + payload.len(),
            SendView::Duplicating { header, payload, count, peer, values } => false,
            SendView::Writing { wire, sent, values } => sent + n <= wire.len(),
        },
        SendEvent::Duplicated(value) => v is Duplicating,
        SendEvent::Failed(error) => true,
    }
}

/// What comes of an outcome.
///
/// A message that is not sent in full takes its handles back: those that were
/// duplicated for it are to be closed in the peer process. One that is sent
/// leaves them to the peer.
pub open spec fn send_step(v: SendView, event: SendEvent) -> SendOutcome {
    match v {
        SendView::Posix { head, payload, sent } => match event {
            SendEvent::Failed(error) => SendOutcome::Done {
                result: Err(SocketError::Io(error)),
                close: Seq::empty(),
            },
            SendEvent::Sent(n) if sent + n == head.len() + payload.len() => SendOutcome::Done {
                result: Ok(()),
                close: Seq::empty(),
            },
            SendEvent::Sent(n) => SendOutcome::Next(
                SendView::Posix { head, payload, sent: sent + n as nat },
            ),
            SendEvent::Duplicated(value) => SendOutcome::Next(v),
        },
        SendView::Duplicating { header, payload, count, peer, values } => match event {
            SendEvent::Failed(error) => SendOutcome::Done {
                result: Err(SocketError::Duplicate(error)),
                close: values,
            },
            SendEvent::Duplicated(value) => {
                let values = values.push(value);
                if values.len() < count {
                    SendOutcome::Next(
                        SendView::Duplicating { header, payload, count, peer, values },
                    )
                } else {
                    SendOutcome::Next(
                        SendView::Writing {
                            wire: message_bytes_with_handles(header, payload, values),
                            sent: 0,
                            values,
                        },
                    )
                }
            },
            SendEvent::Sent(n) => SendOutcome::Next(v),
        },
        SendView::Writing { wire, sent, values } => match event {
            SendEvent::Failed(error) => SendOutcome::Done {
                result: Err(SocketError::Io(error)),
                close: values,
            },
            SendEvent::Sent(n) if n == 0 => SendOutcome::Done {
                result: Err(SocketError::Closed),
                close: values,
            },
            SendEvent::Sent(n) if sent + n == wire.len() => SendOutcome::Done {
                result: Ok(()),
                close: Seq::empty(),
            },
            SendEvent::Sent(n) => SendOutcome::Next(
                SendView::Writing { wire, sent: sent + n as nat, values },
            ),
            SendEvent::Duplicated(value) => SendOutcome::Next(v),
        },
    }
}

/// A message on the wire.
fn frame(header: &VhostUserMsgHeader, payload: &[u8], trailer: &Vec<u8>) -> (wire: Vec<u8>)
    ensures
        wire@ == message_bytes(*header, payload@ + trailer@),
{
    let mut wire: Vec<u8> = header.as_bytes();
    wire.extend_from_slice(payload);
    wire.extend_from_slice(trailer.as_slice());
    assert(wire@ =~= message_bytes(*header, payload@ + trailer@));
    wire
}

impl VhostUserSocket {
    /// Begins to send a message that carries `objects` objects.
    ///
    /// On Windows each object is duplicated into the backend process first, and
    /// the resulting handles are appended to the payload. If the message is not
    /// written in full, they are to be closed again in the backend, so that a
    /// failed send leaves nothing behind.
    pub fn send_message<'a>(
        &self,
        header: &VhostUserMsgHeader,
        payload: &'a [u8],
        objects: usize,
    ) -> (send: Result<SendMessage<'a>, SocketError>)
        requires
            frameable(*self, *header, payload@, objects as nat),
        ensures
            match send {
                Ok(send) => send_begin(*self, *header, payload@, objects as nat) == Ok::<
                    SendView,
                    SocketError,
                >(send@) && send.wf(),
                Err(error) => send_begin(*self, *header, payload@, objects as nat) == Err::<
                    SendView,
                    SocketError,
                >(error),
            },
    {
        match self.platform {
            Platform::Posix => Ok(
                SendMessage::Posix { head: header.as_bytes(), payload, sent: 0 },
            ),
            Platform::Windows => {
                if objects == 0 {
                    let trailer: Vec<u8> = Vec::new();
                    let wire: Vec<u8> = frame(header, payload, &trailer);
                    proof {
                        assert(payload@ + trailer@ =~= payload@);
                        lemma_header_bytes_len(*header);
                    }
                    return Ok(SendMessage::Writing { wire, sent: 0, announced: None });
                }
                match self.peer_process {
                    None => Err(SocketError::NoPeerProcess(objects)),
                    Some(peer) => Ok(
                        SendMessage::Duplicating {
                            header: *header,
                            payload,
                            count: objects,
                            handles: RemoteHandles::new(peer),
                        },
                    ),
                }
            },
        }
    }
}

impl<'a> SendMessage<'a> {
    /// What holds of a send under way: there is something left to do and room
    /// for it, and the handles are still to be handed over.
    pub open spec fn wf(&self) -> bool {
        &&& send_wf(self@)
        &&& match *self {
            SendMessage::Posix { head, payload, sent } => true,
            SendMessage::Duplicating { header, payload, count, handles } => !handles@.committed,
            SendMessage::Writing { wire, sent, announced } => announced matches Some(handles)
                ==> !handles@.committed,
        }
    }

    /// What to do next.
    pub fn action(&self) -> (action: SendAction<'_>)
        requires
            self.wf(),
        ensures
            action@ == send_action(self@),
            action matches SendAction::Duplicate { object, peer } ==> {
                &&& *self matches SendMessage::Duplicating { header, payload, count, handles }
                &&& object == handles@.values.len()
                &&& peer == handles@.peer
            },
    {
        match self {
            SendMessage::Posix { head, payload, sent } => {
                let mut parts: Vec<&[u8]> = Vec::new();
                parts.push(head.as_slice());
                parts.push(*payload);
                assert(slices_view(parts@) =~= seq![head@, payload@]);
                let iov: Vec<&[u8]> = build_remaining_iov(&parts, *sent);
                SendAction::SendMsg { iov, attach: *sent == 0 }
            },
            SendMessage::Duplicating { header: _, payload: _, count: _, handles } => {
                SendAction::Duplicate { object: handles.len(), peer: handles.peer() }
            },
            SendMessage::Writing { wire, sent, announced: _ } => {
                let data: &[u8] = slice_subrange(wire.as_slice(), *sent, wire.len());
                assert(data@ =~= wire@.skip(*sent as int));
                SendAction::Write { data }
            },
        }
    }

    /// Goes on with the outcome of the action.
    pub fn step(self, event: SendEvent) -> (step: SendStep<'a>)
        requires
            self.wf(),
            send_event_fits(self@, event),
        ensures
            step@ == send_step(self@, event),
            step matches SendStep::Next(next) ==> next.wf(),
    {
        match self {
            SendMessage::Posix { head, payload, sent } => match event {
                SendEvent::Failed(error) => SendStep::Done {
                    result: Err(SocketError::from(error)),
                    close: Vec::new(),
                },
                SendEvent::Sent(n) => {
                    let sent: usize = sent + n;
                    if sent == head.len() + payload.len() {
                        return SendStep::Done { result: Ok(()), close: Vec::new() };
                    }
                    SendStep::Next(SendMessage::Posix { head, payload, sent })
                },
                SendEvent::Duplicated(_) => SendStep::Next(
                    SendMessage::Posix { head, payload, sent },
                ),
            },
            SendMessage::Duplicating { header, payload, count, handles } => {
                let mut handles = handles;
                let outcome: Result<u64, std::io::Error> = match event {
                    SendEvent::Failed(error) => Err(error),
                    SendEvent::Duplicated(value) => Ok(value),
                    SendEvent::Sent(_) => {
                        return SendStep::Next(
                            SendMessage::Duplicating { header, payload, count, handles },
                        );
                    },
                };
                match handles.duplicate(outcome) {
                    Err(error) => {
                        return SendStep::Done {
                            result: Err(SocketError::Duplicate(error)),
                            close: handles.handles_to_close(),
                        };
                    },
                    Ok(_) => {},
                }
                if handles.len() < count {
                    return SendStep::Next(
                        SendMessage::Duplicating { header, payload, count, handles },
                    );
                }
                let trailer: Vec<u8> = handles.trailer();
                proof {
                    lemma_trailer_len(handles@.values);
                }
                let mut extended: VhostUserMsgHeader = header;
                extended.size = header.size + trailer.len() as u32;
                let wire: Vec<u8> = frame(&extended, payload, &trailer);
                proof {
                    lemma_header_bytes_len(extended);
                }
                SendStep::Next(SendMessage::Writing { wire, sent: 0, announced: Some(handles) })
            },
            SendMessage::Writing { wire, sent, announced } => {
                let mut announced = announced;
                let total: usize = wire.len();
                let result: Result<(), SocketError> = match event {
                    SendEvent::Failed(error) => Err(SocketError::from(error)),
                    SendEvent::Sent(n) => {
                        let sent: usize = sent + n;
                        if n == 0 {
                            Err(SocketError::Closed)
                        } else if sent == total {
                            if let Some(mut delivered) = announced {
                                delivered.commit();
                                announced = Some(delivered);
                            }
                            Ok(())
                        } else {
                            return SendStep::Next(SendMessage::Writing { wire, sent, announced });
                        }
                    },
                    SendEvent::Duplicated(_) => {
                        return SendStep::Next(SendMessage::Writing { wire, sent, announced });
                    },
                };
                let close: Vec<u64> = match announced {
                    Some(handles) => handles.handles_to_close(),
                    None => Vec::new(),
                };
                SendStep::Done { result, close }
            },
        }
    }
}

} // verus!
