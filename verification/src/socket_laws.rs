//! What holds of sending and receiving as a whole, however the socket cuts the
//! stream into pieces.

use crate::protocol::header_bytes;
use crate::protocol::law_header_of_header_bytes;
use crate::protocol::lemma_header_bytes_len;
use crate::protocol::VhostUserMsgHeader;
use crate::protocol::HEADER_SIZE;
use crate::send::frameable;
use crate::send::header_with_trailer;
use crate::send::law_remaining_iov_bytes;
use crate::send::message_bytes;
use crate::send::message_bytes_with_handles;
use crate::send::send_action;
use crate::send::send_begin;
use crate::send::send_event_fits;
use crate::send::send_step;
use crate::send::send_wf;
use crate::send::SendActionView;
use crate::send::SendEvent;
use crate::send::SendOutcome;
use crate::send::SendView;
use crate::socket::recv_begin;
use crate::socket::recv_extend;
use crate::socket::recv_read;
use crate::socket::recv_status;
use crate::socket::MessageReceiver;
use crate::socket::MessageView;
use crate::socket::RecvOutcome;
use crate::socket::RecvStatus;
use crate::socket::RecvView;
use crate::socket::SocketError;
use crate::socket::VhostUserSocket;
use crate::socket::MAX_PAYLOAD_SIZE;
use crate::win32::lemma_trailer_len;
use crate::win32::trailer_bytes;
use crate::win32::HANDLE_RECORD_SIZE;
use vstd::prelude::*;

verus! {

/// Bytes and objects that arrive together.
pub struct Arrival<T> {
    /// The bytes.
    pub data: Seq<u8>,
    /// The objects.
    pub objects: Seq<T>,
}

/// The bytes of a list of arrivals, one behind the other.
pub open spec fn arrived_bytes<T>(arrivals: Seq<Arrival<T>>) -> Seq<u8>
    decreases arrivals.len(),
{
    if arrivals.len() == 0 {
        seq![]
    } else {
        arrivals[0].data + arrived_bytes(arrivals.drop_first())
    }
}

/// What comes of a message when a list of arrivals is handed to it, or as many
/// of them as it takes to come to an end.
pub open spec fn recv_run<T>(v: RecvView<T>, arrivals: Seq<Arrival<T>>) -> RecvOutcome<T>
    decreases arrivals.len(),
{
    if arrivals.len() == 0 {
        RecvOutcome::Next(v)
    } else {
        match recv_read(v, arrivals[0].data, arrivals[0].objects) {
            RecvOutcome::Next(next) => recv_run(next, arrivals.drop_first()),
            RecvOutcome::Done(result) => RecvOutcome::Done(result),
        }
    }
}

/// Any shorter front of a message on the wire is part of a message; all of it is
/// the message.
pub proof fn law_status_of_message_front(
    header: VhostUserMsgHeader,
    payload: Seq<u8>,
    len: int,
)
    requires
        header.size == payload.len() <= MAX_PAYLOAD_SIZE,
        0 <= len <= message_bytes(header, payload).len(),
    ensures
        message_bytes(header, payload).len() == HEADER_SIZE + payload.len(),
        len < message_bytes(header, payload).len() ==> recv_status(
            message_bytes(header, payload).take(len),
        ) is Partial,
        recv_status(message_bytes(header, payload)) == (RecvStatus::Complete { header, payload }),
{
    let wire = message_bytes(header, payload);
    lemma_header_bytes_len(header);
    law_header_of_header_bytes(header);
    assert(wire.take(HEADER_SIZE as int) =~= header_bytes(header));
    assert(wire.subrange(HEADER_SIZE as int, wire.len() as int) =~= payload);
    if len >= HEADER_SIZE {
        assert(wire.take(len).take(HEADER_SIZE as int) =~= header_bytes(header));
    }
}

/// How a message goes on that has arrived in part.
proof fn lemma_recv_rest<T>(
    header: VhostUserMsgHeader,
    payload: Seq<u8>,
    v: RecvView<T>,
    arrivals: Seq<Arrival<T>>,
)
    requires
        header.size == payload.len() <= MAX_PAYLOAD_SIZE,
        v.bytes.len() > 0,
        v.bytes.len() < message_bytes(header, payload).len(),
        v.bytes + arrived_bytes(arrivals) == message_bytes(header, payload),
        forall|i: int| 0 <= i < arrivals.len() ==> (#[trigger] arrivals[i]).data.len() > 0,
    ensures
        recv_run(v, arrivals) == RecvOutcome::Done(
            Ok(MessageView { header, payload, objects: v.objects }),
        ),
    decreases arrivals.len(),
{
    let wire = message_bytes(header, payload);
    if arrivals.len() == 0 {
        assert(v.bytes + arrived_bytes(arrivals) =~= v.bytes);
    } else {
        let data = arrivals[0].data;
        let rest = arrivals.drop_first();
        let bytes = v.bytes + data;
        assert(bytes + arrived_bytes(rest) =~= wire);
        assert(bytes =~= wire.take(bytes.len() as int));
        law_status_of_message_front(header, payload, bytes.len() as int);
        if bytes.len() == wire.len() {
            assert(bytes =~= wire);
        } else {
            let next = RecvView { bytes, ..v };
            assert forall|i: int| 0 <= i < rest.len() implies (#[trigger] rest[i]).data.len()
                > 0 by {
                assert(rest[i] == arrivals[i + 1]);
            }
            lemma_recv_rest(header, payload, next, rest);
        }
    }
}

/// A message that arrives in full is received as it was sent, in however many
/// pieces its bytes arrive. Its objects are those that came with the first
/// piece, where objects come with bytes at all.
pub proof fn law_message_is_received<T>(
    socket: VhostUserSocket,
    receiver: MessageReceiver,
    header: VhostUserMsgHeader,
    payload: Seq<u8>,
    arrivals: Seq<Arrival<T>>,
)
    requires
        header.size == payload.len() <= MAX_PAYLOAD_SIZE,
        arrived_bytes(arrivals) == message_bytes(header, payload),
        forall|i: int| 0 <= i < arrivals.len() ==> (#[trigger] arrivals[i]).data.len() > 0,
    ensures
        arrivals.len() > 0,
        recv_run(recv_begin::<T>(socket, receiver), arrivals) == RecvOutcome::Done(
            Ok(
                MessageView {
                    header,
                    payload,
                    objects: if socket.platform is Posix {
                        arrivals[0].objects
                    } else {
                        Seq::empty()
                    },
                },
            ),
        ),
{
    let wire = message_bytes(header, payload);
    law_status_of_message_front(header, payload, 0);
    assert(arrivals.len() > 0);
    let data = arrivals[0].data;
    let rest = arrivals.drop_first();
    let begin = recv_begin::<T>(socket, receiver);
    assert(begin.bytes + data =~= data);
    assert(data =~= wire.take(data.len() as int));
    law_status_of_message_front(header, payload, data.len() as int);
    if data.len() == wire.len() {
        assert(data =~= wire);
    } else {
        let next = RecvView {
            bytes: data,
            objects: if socket.platform is Posix {
                arrivals[0].objects
            } else {
                Seq::empty()
            },
            ..begin
        };
        assert(next.bytes + arrived_bytes(rest) =~= wire);
        assert forall|i: int| 0 <= i < rest.len() implies (#[trigger] rest[i]).data.len() > 0 by {
            assert(rest[i] == arrivals[i + 1]);
        }
        lemma_recv_rest(header, payload, next, rest);
    }
}

/// A message that announces handles is received with the handles' records behind
/// its payload, and a header that counts them.
pub proof fn law_message_with_handles_is_received<T>(
    socket: VhostUserSocket,
    receiver: MessageReceiver,
    header: VhostUserMsgHeader,
    payload: Seq<u8>,
    values: Seq<u64>,
    arrivals: Seq<Arrival<T>>,
)
    requires
        header.size == payload.len(),
        payload.len() + values.len() * HANDLE_RECORD_SIZE <= MAX_PAYLOAD_SIZE,
        arrived_bytes(arrivals) == message_bytes_with_handles(header, payload, values),
        forall|i: int| 0 <= i < arrivals.len() ==> (#[trigger] arrivals[i]).data.len() > 0,
        socket.platform is Windows,
    ensures
        recv_run(recv_begin::<T>(socket, receiver), arrivals) == RecvOutcome::Done(
            Ok(
                MessageView {
                    header: header_with_trailer(header, values.len()),
                    payload: payload + trailer_bytes(values),
                    objects: Seq::<T>::empty(),
                },
            ),
        ),
{
    lemma_trailer_len(values);
    law_message_is_received(
        socket,
        receiver,
        header_with_trailer(header, values.len()),
        payload + trailer_bytes(values),
        arrivals,
    );
}

/// A front of part of a message is part of a message.
proof fn lemma_partial_front(bytes: Seq<u8>, len: int)
    requires
        recv_status(bytes) is Partial,
        0 <= len <= bytes.len(),
    ensures
        recv_status(bytes.take(len)) is Partial,
{
    if len >= HEADER_SIZE {
        assert(bytes.take(len).take(HEADER_SIZE as int) =~= bytes.take(HEADER_SIZE as int));
    }
}

/// How a message goes on that has arrived in part, and of which not all will.
proof fn lemma_recv_cut<T>(v: RecvView<T>, arrivals: Seq<Arrival<T>>, end: Arrival<T>)
    requires
        recv_status(v.bytes + arrived_bytes(arrivals)) is Partial,
        forall|i: int| 0 <= i < arrivals.len() ==> (#[trigger] arrivals[i]).data.len() > 0,
        end.data.len() == 0,
    ensures
        recv_run(v, arrivals.push(end)) == RecvOutcome::<T>::Done(Err(SocketError::Closed)),
    decreases arrivals.len(),
{
    let all = arrivals.push(end);
    if arrivals.len() > 0 {
        let rest = arrivals.drop_first();
        let next = recv_extend(v, arrivals[0].data, arrivals[0].objects);
        let bytes = v.bytes + arrived_bytes(arrivals);
        assert(all.drop_first() =~= rest.push(end));
        assert(next.bytes + arrived_bytes(rest) =~= bytes);
        assert(next.bytes =~= bytes.take(next.bytes.len() as int));
        lemma_partial_front(bytes, next.bytes.len() as int);
        assert forall|i: int| 0 <= i < rest.len() implies (#[trigger] rest[i]).data.len() > 0 by {
            assert(rest[i] == arrivals[i + 1]);
        }
        lemma_recv_cut(next, rest, end);
    }
}

/// If the stream ends while what has arrived is not yet decided, be it inside a
/// header or inside a payload, the connection is reported closed.
pub proof fn law_stream_end_is_reported<T>(
    socket: VhostUserSocket,
    receiver: MessageReceiver,
    arrivals: Seq<Arrival<T>>,
    end: Arrival<T>,
)
    requires
        recv_status(arrived_bytes(arrivals)) is Partial,
        forall|i: int| 0 <= i < arrivals.len() ==> (#[trigger] arrivals[i]).data.len() > 0,
        end.data.len() == 0,
    ensures
        recv_run(recv_begin::<T>(socket, receiver), arrivals.push(end)) == RecvOutcome::<T>::Done(
            Err(SocketError::Closed),
        ),
{
    let begin = recv_begin::<T>(socket, receiver);
    assert(begin.bytes + arrived_bytes(arrivals) =~= arrived_bytes(arrivals));
    lemma_recv_cut(begin, arrivals, end);
}

/// A message of an accepted size that is cut off by the end of the stream,
/// wherever that is, is not received.
pub proof fn law_cut_message_is_not_received<T>(
    socket: VhostUserSocket,
    receiver: MessageReceiver,
    header: VhostUserMsgHeader,
    payload: Seq<u8>,
    len: int,
    arrivals: Seq<Arrival<T>>,
    end: Arrival<T>,
)
    requires
        header.size == payload.len() <= MAX_PAYLOAD_SIZE,
        0 <= len < message_bytes(header, payload).len(),
        arrived_bytes(arrivals) == message_bytes(header, payload).take(len),
        forall|i: int| 0 <= i < arrivals.len() ==> (#[trigger] arrivals[i]).data.len() > 0,
        end.data.len() == 0,
    ensures
        recv_run(recv_begin::<T>(socket, receiver), arrivals.push(end)) == RecvOutcome::<T>::Done(
            Err(SocketError::Closed),
        ),
{
    law_status_of_message_front(header, payload, len);
    law_stream_end_is_reported(socket, receiver, arrivals, end);
}

/// A message whose header announces too large a payload is turned down as soon
/// as the header is there, whatever follows it.
pub proof fn law_large_message_is_turned_down(header: VhostUserMsgHeader, rest: Seq<u8>)
    requires
        header.size > MAX_PAYLOAD_SIZE,
    ensures
        recv_status(message_bytes(header, rest)) == RecvStatus::TooLarge(header.size),
{
    lemma_header_bytes_len(header);
    law_header_of_header_bytes(header);
    assert(message_bytes(header, rest).take(HEADER_SIZE as int) =~= header_bytes(header));
}

/// The bytes that an action sends at most.
pub open spec fn pending_bytes(v: SendView) -> Seq<u8> {
    match send_action(v) {
        SendActionView::SendMsg { iov, attach } => iov.flatten(),
        SendActionView::Write { data } => data,
        SendActionView::Duplicate { object, peer } => seq![],
    }
}

/// How a send went.
pub struct SendRun {
    /// What came of it.
    pub outcome: SendOutcome,
    /// The bytes that went out.
    pub wired: Seq<u8>,
    /// The handles that came to be in the peer process.
    pub duplicated: Seq<u64>,
}

/// The bytes that went out by one outcome.
pub open spec fn wired_by(v: SendView, event: SendEvent) -> Seq<u8> {
    match event {
        SendEvent::Sent(n) => pending_bytes(v).take(n as int),
        _ => seq![],
    }
}

/// The handle that came to be in the peer process by one outcome.
pub open spec fn duplicated_by(event: SendEvent) -> Seq<u64> {
    match event {
        SendEvent::Duplicated(value) => seq![value],
        _ => seq![],
    }
}

/// How a send goes on when a list of outcomes is handed to it, or as many of
/// them as it takes to come to an end.
pub open spec fn send_run(v: SendView, events: Seq<SendEvent>) -> SendRun
    decreases events.len(),
{
    if events.len() == 0 {
        SendRun { outcome: SendOutcome::Next(v), wired: seq![], duplicated: seq![] }
    } else {
        let wired = wired_by(v, events[0]);
        let duplicated = duplicated_by(events[0]);
        match send_step(v, events[0]) {
            SendOutcome::Next(next) => {
                let rest = send_run(next, events.drop_first());
                SendRun {
                    outcome: rest.outcome,
                    wired: wired + rest.wired,
                    duplicated: duplicated + rest.duplicated,
                }
            },
            done => SendRun { outcome: done, wired, duplicated },
        }
    }
}

/// Whether each of a list of outcomes can be one when its turn comes.
pub open spec fn send_events_fit(v: SendView, events: Seq<SendEvent>) -> bool
    decreases events.len(),
{
    events.len() > 0 ==> {
        &&& send_event_fits(v, events[0])
        &&& send_step(v, events[0]) matches SendOutcome::Next(next) ==> send_events_fit(
            next,
            events.drop_first(),
        )
    }
}

/// All the bytes of a send whose handles are known.
pub open spec fn whole_message(v: SendView, duplicated: Seq<u64>) -> Seq<u8> {
    match v {
        SendView::Posix { head, payload, sent } => head + payload,
        SendView::Duplicating { header, payload, count, peer, values } => {
            message_bytes_with_handles(header, payload, values + duplicated)
        },
        SendView::Writing { wire, sent, values } => wire,
    }
}

/// How many bytes of a send are out.
pub open spec fn sent_bytes(v: SendView) -> nat {
    match v {
        SendView::Posix { head, payload, sent } => sent,
        SendView::Duplicating { header, payload, count, peer, values } => 0,
        SendView::Writing { wire, sent, values } => sent,
    }
}

/// The handles of a send that are in the peer process.
pub open spec fn held_handles(v: SendView) -> Seq<u64> {
    match v {
        SendView::Posix { head, payload, sent } => seq![],
        SendView::Duplicating { header, payload, count, peer, values } => values,
        SendView::Writing { wire, sent, values } => values,
    }
}

/// What an action sends at most is what is left of the message.
proof fn lemma_pending_bytes(v: SendView)
    requires
        send_wf(v),
        !(v is Duplicating),
    ensures
        pending_bytes(v) == whole_message(v, seq![]).skip(sent_bytes(v) as int),
{
    match v {
        SendView::Posix { head, payload, sent } => {
            let parts = seq![head, payload];
            assert(parts.flatten() =~= head + payload) by {
                assert(parts.drop_first() =~= seq![payload]);
                assert(seq![payload].drop_first() =~= Seq::<Seq<u8>>::empty());
                assert(seq![payload].flatten() =~= payload + Seq::<Seq<u8>>::empty().flatten());
            }
            law_remaining_iov_bytes(parts, sent);
        },
        _ => {},
    }
}

/// Whether `bytes` begins with `front` and goes on behind it.
pub open spec fn is_front(front: Seq<u8>, bytes: Seq<u8>) -> bool {
    front.len() < bytes.len() && front == bytes.take(front.len() as int)
}

/// What went out before a front of the rest makes a longer front with it.
proof fn lemma_front_extends(bytes: Seq<u8>, n: int, rest: Seq<u8>)
    requires
        0 <= n <= bytes.len(),
        is_front(rest, bytes.skip(n)),
    ensures
        is_front(bytes.take(n) + rest, bytes),
{
    assert(bytes.take(n) + rest =~= bytes.take(n + rest.len()));
}

/// How a send ends that is under way.
proof fn lemma_send_end(v: SendView, events: Seq<SendEvent>)
    requires
        send_wf(v),
        send_events_fit(v, events),
    ensures
        send_run(v, events).outcome matches SendOutcome::Done { result, close } ==> {
            &&& result is Ok ==> {
                &&& close == Seq::<u64>::empty()
                &&& send_run(v, events).wired == whole_message(
                    v,
                    send_run(v, events).duplicated,
                ).skip(sent_bytes(v) as int)
            }
            &&& result is Err ==> {
                &&& close == held_handles(v) + send_run(v, events).duplicated
                &&& is_front(
                    send_run(v, events).wired,
                    whole_message(v, send_run(v, events).duplicated).skip(sent_bytes(v) as int),
                )
            }
        },
    decreases events.len(),
{
    let run = send_run(v, events);
    if events.len() > 0 {
        let event = events[0];
        if !(v is Duplicating) {
            lemma_pending_bytes(v);
        }
        match send_step(v, event) {
            SendOutcome::Next(next) => {
                let rest = events.drop_first();
                if let SendView::Duplicating { header, payload, count, peer, values } = v {
                    lemma_trailer_len(values.push(event->Duplicated_0));
                    lemma_header_bytes_len(header_with_trailer(header, values.len() + 1));
                }
                lemma_send_end(next, rest);
                let tail = send_run(next, rest);
                if !(v is Duplicating) {
                    let left = whole_message(v, seq![]).skip(sent_bytes(v) as int);
                    let n = event->Sent_0 as int;
                    assert(left.skip(n) =~= whole_message(v, seq![]).skip(sent_bytes(v) + n));
                    if is_front(tail.wired, left.skip(n)) {
                        lemma_front_extends(left, n, tail.wired);
                    }
                }
                match v {
                    SendView::Posix { head, payload, sent } => {
                        let all = head + payload;
                        assert(all.skip(sent as int).take(event->Sent_0 as int) + all.skip(
                            sent + event->Sent_0,
                        ) =~= all.skip(sent as int));
                        assert(held_handles(v) + run.duplicated =~= held_handles(next)
                            + tail.duplicated);
                    },
                    SendView::Duplicating { header, payload, count, peer, values } => {
                        let value = event->Duplicated_0;
                        assert(values + (seq![value] + tail.duplicated) =~= values.push(value)
                            + tail.duplicated);
                        if next is Writing {
                            lemma_writing_duplicates_nothing(next, rest);
                            assert(values + run.duplicated =~= values.push(value));
                            let wire = message_bytes_with_handles(
                                header,
                                payload,
                                values.push(value),
                            );
                            assert(wire.skip(0) =~= wire);
                        }
                        assert(run.wired =~= tail.wired);
                        assert(whole_message(next, tail.duplicated) == whole_message(
                            v,
                            run.duplicated,
                        ));
                    },
                    SendView::Writing { wire, sent, values } => {
                        assert(wire.skip(sent as int).take(event->Sent_0 as int) + wire.skip(
                            sent + event->Sent_0,
                        ) =~= wire.skip(sent as int));
                        assert(held_handles(v) + run.duplicated =~= held_handles(next)
                            + tail.duplicated);
                    },
                }
            },
            SendOutcome::Done { result, close } => {
                assert(held_handles(v) + duplicated_by(event) =~= held_handles(v));
                let left = whole_message(v, run.duplicated).skip(sent_bytes(v) as int);
                assert(left.take(0) =~= Seq::<u8>::empty());
                if let SendView::Duplicating { header, payload, count, peer, values } = v {
                    lemma_header_bytes_len(header_with_trailer(header, values.len()));
                    assert(values + run.duplicated =~= values);
                }
                if result is Ok {
                    let all = whole_message(v, seq![]);
                    assert(all.skip(sent_bytes(v) as int).take(event->Sent_0 as int) =~= all.skip(
                        sent_bytes(v) as int,
                    ));
                }
            },
        }
    }
}

/// Once its bytes are being written, a message takes no more handles.
proof fn lemma_writing_duplicates_nothing(v: SendView, events: Seq<SendEvent>)
    requires
        v is Writing,
        send_events_fit(v, events),
    ensures
        send_run(v, events).duplicated == Seq::<u64>::empty(),
    decreases events.len(),
{
    if events.len() > 0 {
        match send_step(v, events[0]) {
            SendOutcome::Next(next) => {
                lemma_writing_duplicates_nothing(next, events.drop_first());
                assert(send_run(v, events).duplicated =~= Seq::<u64>::empty());
            },
            _ => {},
        }
    }
}

/// The message that is to be on the wire when a send succeeds.
pub open spec fn message_on_wire(
    socket: VhostUserSocket,
    header: VhostUserMsgHeader,
    payload: Seq<u8>,
    objects: nat,
    duplicated: Seq<u64>,
) -> Seq<u8> {
    if socket.platform is Posix || objects == 0 {
        message_bytes(header, payload)
    } else {
        message_bytes_with_handles(header, payload, duplicated)
    }
}

/// A send is all or nothing. If it succeeds, exactly the bytes of the message
/// went out, and its handles, if any, are the peer's. If it fails, some bytes are
/// missing at the end, and every handle that was duplicated for it is to be
/// closed in the peer again.
pub proof fn law_send_is_all_or_nothing(
    socket: VhostUserSocket,
    header: VhostUserMsgHeader,
    payload: Seq<u8>,
    objects: nat,
    begin: SendView,
    events: Seq<SendEvent>,
)
    requires
        frameable(socket, header, payload, objects),
        send_begin(socket, header, payload, objects) == Ok::<SendView, SocketError>(begin),
        send_events_fit(begin, events),
    ensures
        send_run(begin, events).outcome matches SendOutcome::Done { result, close } ==> {
            &&& result is Ok ==> {
                &&& close == Seq::<u64>::empty()
                &&& send_run(begin, events).wired == message_on_wire(
                    socket,
                    header,
                    payload,
                    objects,
                    send_run(begin, events).duplicated,
                )
            }
            &&& result is Err ==> {
                &&& close == send_run(begin, events).duplicated
                &&& is_front(
                    send_run(begin, events).wired,
                    message_on_wire(
                        socket,
                        header,
                        payload,
                        objects,
                        send_run(begin, events).duplicated,
                    ),
                )
            }
        },
{
    lemma_header_bytes_len(header);
    lemma_send_end(begin, events);
    let run = send_run(begin, events);
    assert(held_handles(begin) + run.duplicated =~= run.duplicated);
    let whole = whole_message(begin, run.duplicated);
    assert(whole.skip(0) =~= whole);
    assert(Seq::<u64>::empty() + run.duplicated =~= run.duplicated);
}

/// What one end sends, the other receives: if a send without handles succeeds,
/// and the bytes that went out arrive in any pieces, the message is received as
/// it was given to the send.
pub proof fn law_sent_message_is_received<T>(
    socket: VhostUserSocket,
    header: VhostUserMsgHeader,
    payload: Seq<u8>,
    objects: nat,
    begin: SendView,
    events: Seq<SendEvent>,
    peer: VhostUserSocket,
    receiver: MessageReceiver,
    arrivals: Seq<Arrival<T>>,
)
    requires
        frameable(socket, header, payload, objects),
        send_begin(socket, header, payload, objects) == Ok::<SendView, SocketError>(begin),
        send_events_fit(begin, events),
        send_run(begin, events).outcome matches SendOutcome::Done { result, close } && result is Ok,
        socket.platform is Posix || objects == 0,
        header.size == payload.len() <= MAX_PAYLOAD_SIZE,
        arrived_bytes(arrivals) == send_run(begin, events).wired,
        forall|i: int| 0 <= i < arrivals.len() ==> (#[trigger] arrivals[i]).data.len() > 0,
    ensures
        recv_run(recv_begin::<T>(peer, receiver), arrivals) == RecvOutcome::Done(
            Ok(
                MessageView {
                    header,
                    payload,
                    objects: if peer.platform is Posix {
                        arrivals[0].objects
                    } else {
                        Seq::empty()
                    },
                },
            ),
        ),
{
    law_send_is_all_or_nothing(socket, header, payload, objects, begin, events);
    law_message_is_received(peer, receiver, header, payload, arrivals);
}

/// What one end sends with handles, the other receives: if such a send succeeds,
/// and the bytes that went out arrive in any pieces, the payload is received
/// with a record for each handle behind it.
pub proof fn law_sent_handles_are_received<T>(
    socket: VhostUserSocket,
    header: VhostUserMsgHeader,
    payload: Seq<u8>,
    objects: nat,
    begin: SendView,
    events: Seq<SendEvent>,
    peer: VhostUserSocket,
    receiver: MessageReceiver,
    arrivals: Seq<Arrival<T>>,
)
    requires
        frameable(socket, header, payload, objects),
        send_begin(socket, header, payload, objects) == Ok::<SendView, SocketError>(begin),
        send_events_fit(begin, events),
        send_run(begin, events).outcome matches SendOutcome::Done { result, close } && result is Ok,
        socket.platform is Windows && objects > 0,
        peer.platform is Windows,
        header.size == payload.len(),
        payload.len() + objects * HANDLE_RECORD_SIZE <= MAX_PAYLOAD_SIZE,
        arrived_bytes(arrivals) == send_run(begin, events).wired,
        forall|i: int| 0 <= i < arrivals.len() ==> (#[trigger] arrivals[i]).data.len() > 0,
    ensures
        send_run(begin, events).duplicated.len() == objects,
        recv_run(recv_begin::<T>(peer, receiver), arrivals) == RecvOutcome::Done(
            Ok(
                MessageView {
                    header: header_with_trailer(header, objects),
                    payload: payload + trailer_bytes(send_run(begin, events).duplicated),
                    objects: Seq::<T>::empty(),
                },
            ),
        ),
{
    law_send_is_all_or_nothing(socket, header, payload, objects, begin, events);
    lemma_all_objects_duplicated(begin, events);
    law_message_with_handles_is_received(
        peer,
        receiver,
        header,
        payload,
        send_run(begin, events).duplicated,
        arrivals,
    );
}

/// A message is not delivered before all of its objects are in the peer process.
pub proof fn lemma_all_objects_duplicated(v: SendView, events: Seq<SendEvent>)
    requires
        send_wf(v),
        v is Duplicating,
        send_events_fit(v, events),
        send_run(v, events).outcome matches SendOutcome::Done { result, close } && result is Ok,
    ensures
        held_handles(v).len() + send_run(v, events).duplicated.len() == v->count,
    decreases events.len(),
{
    match send_step(v, events[0]) {
        SendOutcome::Next(next) => {
            if next is Writing {
                lemma_writing_duplicates_nothing(next, events.drop_first());
            } else {
                lemma_all_objects_duplicated(next, events.drop_first());
            }
        },
        _ => {},
    }
}

/// Objects ride with the first bytes of a message: as long as none are out they
/// are attached to what is sent, and from then on they are not.
pub proof fn law_objects_ride_with_first_bytes(v: SendView, event: SendEvent)
    requires
        v is Posix,
        send_wf(v),
        send_event_fits(v, event),
        event is Sent,
    ensures
        send_action(v) matches SendActionView::SendMsg { iov, attach } && attach == (sent_bytes(v)
            == 0),
        send_step(v, event) matches SendOutcome::Next(next) ==> (send_action(
            next,
        ) matches SendActionView::SendMsg { iov, attach } && attach == (sent_bytes(v) == 0
            && event->Sent_0 == 0)),
{
}

} // verus!
