//! What stands on the wire, byte by byte, and what is made of what arrives.

use crate::error::decimal;
use crate::error::error_context;
use crate::error::FrontendError;
use crate::le::law_le_bytes_of_le_value;
use crate::le::le_bytes;
use crate::le::le_value;
use crate::le::lemma_le_bytes_len;
use crate::protocol::contains_flag;
use crate::protocol::header_bytes;
use crate::protocol::header_of_bytes;
use crate::protocol::lemma_header_bytes_len;
use crate::protocol::VhostUserMsgHeader;
use crate::send::frameable;
use crate::send::message_bytes;
use crate::send::message_bytes_with_handles;
use crate::send::send_action;
use crate::send::send_begin;
use crate::send::send_step;
use crate::send::send_wf;
use crate::send::slices_view;
use crate::send::SendAction;
use crate::send::SendActionView;
use crate::send::SendEvent;
use crate::send::SendMessage;
use crate::send::SendOutcome;
use crate::send::SendStep;
use crate::send::SendView;
use crate::socket::recv_begin;
use crate::socket::recv_keeps_objects;
use crate::socket::recv_status;
use crate::socket::recv_step;
use crate::socket::socket_error_message;
use crate::socket::Message;
use crate::socket::MessageReceiver;
use crate::socket::MessageView;
use crate::socket::RecvEvent;
use crate::socket::RecvOutcome;
use crate::socket::RecvStatus;
use crate::socket::RecvStep;
use crate::socket::RecvView;
use crate::socket::SocketError;
use crate::socket::VhostUserSocket;
use crate::socket_laws::law_send_is_all_or_nothing;
use crate::socket_laws::lemma_all_objects_duplicated;
use crate::socket_laws::send_events_fit;
use crate::socket_laws::send_run;
use crate::win32::lemma_trailer_len;
use crate::win32::trailer_bytes;
use crate::win32::unclaimed;
use crate::win32::RemoteHandlesView;
use vstd::arithmetic::div_mod::lemma_div_basics;
use vstd::arithmetic::div_mod::lemma_div_denominator;
use vstd::arithmetic::power::lemma_pow0;
use vstd::arithmetic::power::lemma_pow1;
use vstd::arithmetic::power::lemma_pow_adds;
use vstd::arithmetic::power::lemma_pow_positive;
use vstd::arithmetic::power::pow;
use vstd::prelude::*;

verus! {

/// A flag is in a set of bits exactly if masking the set with it leaves it whole.
pub proof fn law_contains_flag(bits: u64, flag: u64)
    ensures
        contains_flag(bits, flag) <==> bits & flag == flag,
{
}

/// Byte `i` of a number is its digit to the base of 256 with that weight.
pub proof fn law_le_digit(n: nat, width: nat, i: int)
    requires
        0 <= i < width,
    ensures
        le_bytes(n, width).len() == width,
        le_bytes(n, width)[i] == (n as int / pow(256, i as nat)) % 256,
    decreases width,
{
    lemma_le_bytes_len(n, width);
    if i == 0 {
        lemma_pow0(256);
        lemma_div_basics(n as int);
    } else {
        let rest = (width - 1) as nat;
        law_le_digit(n / 256, rest, i - 1);
        lemma_pow1(256);
        lemma_pow_adds(256, 1, (i - 1) as nat);
        lemma_pow_positive(256, (i - 1) as nat);
        lemma_div_denominator(n as int, 256, pow(256, (i - 1) as nat));
        assert(le_bytes(n, width)[i] == le_bytes(n / 256, rest)[i - 1]);
    }
}

/// Byte `i` of bytes is the digit with that weight of the number that they stand
/// for.
pub proof fn law_le_value_digit(bytes: Seq<u8>, i: int)
    requires
        0 <= i < bytes.len(),
    ensures
        (le_value(bytes) as int / pow(256, i as nat)) % 256 == bytes[i],
{
    law_le_bytes_of_le_value(bytes);
    law_le_digit(le_value(bytes), bytes.len(), i);
}

/// Two bytes stand for the first and 256 times the second.
pub proof fn law_two_byte_value(bytes: Seq<u8>)
    requires
        bytes.len() == 2,
    ensures
        le_value(bytes) == bytes[0] + 256 * bytes[1],
{
    reveal_with_fuel(le_value, 3);
}

/// Four bytes stand for the sum of each, weighted by a power of 256.
pub proof fn law_four_byte_value(bytes: Seq<u8>)
    requires
        bytes.len() == 4,
    ensures
        le_value(bytes) == bytes[0] + 0x100 * bytes[1] + 0x1_0000 * bytes[2] + 0x100_0000
            * bytes[3],
{
    reveal_with_fuel(le_value, 5);
}

/// A header on the wire is twelve bytes: the request, the flags and the size, in
/// four bytes each, the least significant of them first.
pub proof fn law_header_layout(header: VhostUserMsgHeader, i: int)
    requires
        0 <= i < 4,
    ensures
        header_bytes(header).len() == 12,
        header_bytes(header)[i] == (header.request as int / pow(256, i as nat)) % 256,
        header_bytes(header)[4 + i] == (header.flags as int / pow(256, i as nat)) % 256,
        header_bytes(header)[8 + i] == (header.size as int / pow(256, i as nat)) % 256,
{
    law_le_digit(header.request as nat, 4, i);
    law_le_digit(header.flags as nat, 4, i);
    law_le_digit(header.size as nat, 4, i);
}

/// The fields of a header, out of the twelve bytes on the wire.
pub proof fn law_header_fields(bytes: Seq<u8>)
    requires
        bytes.len() == 12,
    ensures
        header_of_bytes(bytes).request == bytes[0] + 0x100 * bytes[1] + 0x1_0000 * bytes[2]
            + 0x100_0000 * bytes[3],
        header_of_bytes(bytes).flags == bytes[4] + 0x100 * bytes[5] + 0x1_0000 * bytes[6]
            + 0x100_0000 * bytes[7],
        header_of_bytes(bytes).size == bytes[8] + 0x100 * bytes[9] + 0x1_0000 * bytes[10]
            + 0x100_0000 * bytes[11],
{
    law_four_byte_value(bytes.subrange(0, 4));
    law_four_byte_value(bytes.subrange(4, 8));
    law_four_byte_value(bytes.subrange(8, 12));
}

/// A message on the wire is its header with its payload, unchanged, behind it.
pub proof fn law_message_layout(header: VhostUserMsgHeader, payload: Seq<u8>)
    ensures
        message_bytes(header, payload).len() == 12 + payload.len(),
        forall|i: int|
            0 <= i < 12 ==> #[trigger] message_bytes(header, payload)[i] == header_bytes(header)[i],
        forall|j: int|
            0 <= j < payload.len() ==> #[trigger] payload[j] == message_bytes(header, payload)[12
                + j],
{
    lemma_header_bytes_len(header);
}

/// Byte `j` of record `i` in a trailer is digit `j` of the `i`-th handle.
pub proof fn law_trailer_byte(values: Seq<u64>, i: int, j: int)
    requires
        0 <= i < values.len(),
        0 <= j < 8,
    ensures
        trailer_bytes(values).len() == 8 * values.len(),
        trailer_bytes(values)[8 * i + j] == (values[i] as int / pow(256, j as nat)) % 256,
    decreases values.len(),
{
    lemma_trailer_len(values);
    lemma_trailer_len(values.drop_last());
    lemma_le_bytes_len(values.last() as nat, 8);
    if i == values.len() - 1 {
        law_le_digit(values.last() as nat, 8, j);
    } else {
        law_trailer_byte(values.drop_last(), i, j);
    }
}

/// A message that announces handles is the payload, unchanged, with eight bytes
/// for each handle behind it, in order, and a header whose size counts these and
/// whose other fields are as given.
pub proof fn law_message_with_handles_layout(
    header: VhostUserMsgHeader,
    payload: Seq<u8>,
    values: Seq<u64>,
    i: int,
    j: int,
)
    requires
        header.size + 8 * values.len() <= u32::MAX,
        0 <= i < values.len(),
        0 <= j < 8,
    ensures
        ({
            let wire = message_bytes_with_handles(header, payload, values);
            let size = (header.size + 8 * values.len()) as u32;
            let counted = VhostUserMsgHeader {
                request: header.request,
                flags: header.flags,
                size,
            };
            &&& wire.len() == 12 + payload.len() + 8 * values.len()
            &&& wire.take(12) == header_bytes(counted)
            &&& wire.subrange(12, 12 + payload.len() as int) == payload
            &&& wire[12 + payload.len() + 8 * i + j] == (values[i] as int / pow(256, j as nat))
                % 256
        }),
{
    law_trailer_byte(values, i, j);
    let wire = message_bytes_with_handles(header, payload, values);
    let counted = VhostUserMsgHeader {
        request: header.request,
        flags: header.flags,
        size: (header.size + 8 * values.len()) as u32,
    };
    lemma_header_bytes_len(counted);
    assert(wire =~= header_bytes(counted) + (payload + trailer_bytes(values)));
    assert(wire.take(12) =~= header_bytes(counted));
    assert(wire.subrange(12, 12 + payload.len() as int) =~= payload);
}

/// What the bytes at the front of a stream amount to, in terms of these bytes:
/// bytes 8 to 11 say how much payload there is, and more than 4 MiB is too much.
pub proof fn law_recv_status(bytes: Seq<u8>)
    ensures
        ({
            let size = bytes[8] + 0x100 * bytes[9] + 0x1_0000 * bytes[10] + 0x100_0000 * bytes[11];
            let request = bytes[0] + 0x100 * bytes[1] + 0x1_0000 * bytes[2] + 0x100_0000 * bytes[3];
            let flags = bytes[4] + 0x100 * bytes[5] + 0x1_0000 * bytes[6] + 0x100_0000 * bytes[7];
            if bytes.len() < 12 {
                recv_status(bytes) == RecvStatus::Partial((12 - bytes.len()) as nat)
            } else if size > 4194304 {
                recv_status(bytes) == RecvStatus::TooLarge(size as u32)
            } else if bytes.len() < 12 + size {
                recv_status(bytes) == RecvStatus::Partial((12 + size - bytes.len()) as nat)
            } else {
                &&& recv_status(bytes) matches RecvStatus::Complete { header, payload }
                &&& header.request == request
                &&& header.flags == flags
                &&& header.size == size
                &&& payload == bytes.subrange(12, 12 + size)
            }
        }),
{
    if bytes.len() >= 12 {
        law_header_fields(bytes.take(12));
    }
}

/// A receive begins with nothing, on the socket's platform and with the
/// receiver's room for objects. Objects count only while nothing has arrived,
/// and as ancillary data only.
pub proof fn law_recv_begin<T>(socket: VhostUserSocket, receiver: MessageReceiver, v: RecvView<T>)
    ensures
        recv_begin::<T>(socket, receiver).bytes.len() == 0,
        recv_begin::<T>(socket, receiver).objects.len() == 0,
        recv_begin::<T>(socket, receiver).platform == socket.platform,
        recv_begin::<T>(socket, receiver).max_objects == receiver.max_objects,
        recv_keeps_objects(v) <==> v.bytes.len() == 0 && v.platform is Posix,
{
}

/// What an arrival does: its bytes go behind those that are there; its objects
/// are the message's if it is the first and they come as ancillary data, and are
/// dropped otherwise; and the bytes then decide.
pub proof fn law_recv_arrival<T>(v: RecvView<T>, data: &[u8], objects: Vec<T>)
    requires
        data@.len() > 0,
    ensures
        ({
            let bytes = v.bytes + data@;
            let kept = if v.bytes.len() == 0 && v.platform is Posix {
                objects@
            } else {
                v.objects
            };
            match recv_status(bytes) {
                RecvStatus::Partial(more) => recv_step(v, RecvEvent::Read { data, objects })
                    == RecvOutcome::Next(RecvView { bytes, objects: kept, ..v }),
                RecvStatus::Complete { header, payload } => recv_step(
                    v,
                    RecvEvent::Read { data, objects },
                ) == RecvOutcome::Done(Ok(MessageView { header, payload, objects: kept })),
                RecvStatus::TooLarge(size) => recv_step(v, RecvEvent::Read { data, objects })
                    == RecvOutcome::<T>::Done(Err(SocketError::PayloadTooLarge(size))),
            }
        }),
{
}

/// An arrival of no bytes ends the connection, and a failed read is reported with
/// its own error.
pub proof fn law_recv_end<T>(
    v: RecvView<T>,
    data: &[u8],
    objects: Vec<T>,
    error: std::io::Error,
)
    requires
        data@.len() == 0,
    ensures
        recv_step(v, RecvEvent::Read { data, objects }) == RecvOutcome::<T>::Done(
            Err(SocketError::Closed),
        ),
        recv_step(v, RecvEvent::Failed(error)) == RecvOutcome::<T>::Done(
            Err(SocketError::Io(error)),
        ),
{
}

/// How a send begins. As ancillary data go any objects of a POSIX message. On
/// Windows a message without objects is written at once, one with objects has
/// them duplicated into the peer process first, and without such a process it is
/// refused.
pub proof fn law_send_begin(
    socket: VhostUserSocket,
    header: VhostUserMsgHeader,
    payload: Seq<u8>,
    count: nat,
)
    requires
        count <= 8,
    ensures
        socket.platform is Posix ==> send_begin(socket, header, payload, count) == Ok::<
            SendView,
            SocketError,
        >(SendView::Posix { head: header_bytes(header), payload, sent: 0 }),
        socket.platform is Windows && count == 0 ==> send_begin(socket, header, payload, count)
            == Ok::<SendView, SocketError>(
            SendView::Writing {
                wire: header_bytes(header) + payload,
                sent: 0,
                values: Seq::empty(),
            },
        ),
        socket.platform is Windows && count > 0 && socket.peer_process is None ==> send_begin(
            socket,
            header,
            payload,
            count,
        ) == Err::<SendView, SocketError>(SocketError::NoPeerProcess(count as usize)),
        socket.platform is Windows && count > 0 && socket.peer_process is Some ==> send_begin(
            socket,
            header,
            payload,
            count,
        ) == Ok::<SendView, SocketError>(
            SendView::Duplicating {
                header,
                payload,
                count,
                peer: socket.peer_process->0,
                values: Seq::empty(),
            },
        ),
{
}

/// What a step of a send over ancillary data comes to: bytes that went out are
/// counted, the send has ended exactly if all of them are out, and a failure is
/// reported with its own error.
pub proof fn law_posix_send_step(
    head: Seq<u8>,
    payload: Seq<u8>,
    sent: nat,
    n: usize,
    error: std::io::Error,
)
    requires
        sent + n <= head.len() + payload.len(),
    ensures
        ({
            let v = SendView::Posix { head, payload, sent };
            let none = Seq::<u64>::empty();
            &&& send_step(v, SendEvent::Sent(n)) == (if sent + n == head.len() + payload.len() {
                SendOutcome::Done { result: Ok(()), close: none }
            } else {
                SendOutcome::Next(SendView::Posix { head, payload, sent: (sent + n) as nat })
            })
            &&& send_step(v, SendEvent::Failed(error)) == (SendOutcome::Done {
                result: Err(SocketError::Io(error)),
                close: none,
            })
        }),
{
}

/// What a step of a duplication comes to: the handle goes behind those that are
/// there, writing begins exactly when there is one for each object, and a
/// failure is reported with its own error and takes back what is there.
pub proof fn law_duplicating_step(
    header: VhostUserMsgHeader,
    payload: Seq<u8>,
    count: nat,
    peer: u64,
    values: Seq<u64>,
    value: u64,
    error: std::io::Error,
)
    requires
        values.len() < count,
    ensures
        ({
            let v = SendView::Duplicating { header, payload, count, peer, values };
            &&& send_action(v) == (SendActionView::Duplicate { object: values.len(), peer })
            &&& values.len() + 1 < count ==> send_step(v, SendEvent::Duplicated(value))
                == SendOutcome::Next(
                SendView::Duplicating { header, payload, count, peer, values: values.push(value) },
            )
            &&& values.len() + 1 == count ==> send_step(v, SendEvent::Duplicated(value))
                == SendOutcome::Next(
                SendView::Writing {
                    wire: message_bytes_with_handles(header, payload, values.push(value)),
                    sent: 0,
                    values: values.push(value),
                },
            )
            &&& send_step(v, SendEvent::Failed(error)) == (SendOutcome::Done {
                result: Err(SocketError::Duplicate(error)),
                close: values,
            })
        }),
{
}

/// What a step of writing comes to: what is left is written, bytes that went out
/// are counted, the send has ended exactly if all of them are out or none went,
/// and an end without all of them takes the handles back.
pub proof fn law_writing_step(
    wire: Seq<u8>,
    sent: nat,
    values: Seq<u64>,
    n: usize,
    error: std::io::Error,
)
    requires
        sent < wire.len(),
        sent + n <= wire.len(),
    ensures
        ({
            let v = SendView::Writing { wire, sent, values };
            let none = Seq::<u64>::empty();
            &&& send_action(v) == (SendActionView::Write {
                data: wire.subrange(sent as int, wire.len() as int),
            })
            &&& send_step(v, SendEvent::Sent(n)) == (if n == 0 {
                SendOutcome::Done { result: Err(SocketError::Closed), close: values }
            } else if sent + n == wire.len() {
                SendOutcome::Done { result: Ok(()), close: none }
            } else {
                SendOutcome::Next(SendView::Writing { wire, sent: (sent + n) as nat, values })
            })
            &&& send_step(v, SendEvent::Failed(error)) == (SendOutcome::Done {
                result: Err(SocketError::Io(error)),
                close: values,
            })
        }),
{
    assert(wire.skip(sent as int) =~= wire.subrange(sent as int, wire.len() as int));
}

/// The state of a send after the first `i` of a list of outcomes, as long as it
/// has not ended.
pub open spec fn send_after(v: SendView, events: Seq<SendEvent>, i: nat) -> SendView
    decreases i,
{
    if i == 0 || events.len() == 0 {
        v
    } else {
        match send_step(v, events[0]) {
            SendOutcome::Next(next) => send_after(next, events.drop_first(), (i - 1) as nat),
            _ => v,
        }
    }
}

/// Which object is duplicated by the `i`-th outcome from here.
proof fn lemma_objects_in_order(v: SendView, events: Seq<SendEvent>, i: nat)
    requires
        send_wf(v),
        v is Duplicating,
        send_events_fit(v, events),
        send_run(v, events).outcome matches SendOutcome::Done { result, close } && result is Ok,
        i < v->count - v->Duplicating_values.len(),
    ensures
        i < events.len(),
        i < send_run(v, events).duplicated.len(),
        send_action(send_after(v, events, i)) == (SendActionView::Duplicate {
            object: v->Duplicating_values.len() + i,
            peer: v->peer,
        }),
        events[i as int] == SendEvent::Duplicated(send_run(v, events).duplicated[i as int]),
    decreases i,
{
    let run = send_run(v, events);
    assert(events.len() > 0);
    match send_step(v, events[0]) {
        SendOutcome::Next(next) => {
            let rest = events.drop_first();
            let value = events[0]->Duplicated_0;
            assert(run.duplicated == seq![value] + send_run(next, rest).duplicated);
            if i > 0 {
                assert(next is Duplicating);
                lemma_objects_in_order(next, rest, (i - 1) as nat);
                assert(events[i as int] == rest[i - 1]);
            }
        },
        _ => {},
    }
}

/// Objects are passed in order. In a send of `objects` objects that succeeds on
/// Windows, the `i`-th thing to do is to duplicate object `i` into the socket's
/// peer process, and the `i`-th record behind the payload is the handle that
/// came of it.
pub proof fn law_objects_are_passed_in_order(
    socket: VhostUserSocket,
    header: VhostUserMsgHeader,
    payload: Seq<u8>,
    objects: nat,
    begin: SendView,
    events: Seq<SendEvent>,
    i: nat,
    j: int,
)
    requires
        frameable(socket, header, payload, objects),
        send_begin(socket, header, payload, objects) == Ok::<SendView, SocketError>(begin),
        send_events_fit(begin, events),
        send_run(begin, events).outcome matches SendOutcome::Done { result, close } && result is Ok,
        socket.platform is Windows,
        i < objects,
        0 <= j < 8,
    ensures
        i < events.len(),
        socket.peer_process is Some,
        send_action(send_after(begin, events, i)) == (SendActionView::Duplicate {
            object: i,
            peer: socket.peer_process->0,
        }),
        events[i as int] matches SendEvent::Duplicated(value) && send_run(begin, events).wired[12
            + payload.len() + 8 * i + j] == (value as int / pow(256, j as nat)) % 256,
{
    law_send_is_all_or_nothing(socket, header, payload, objects, begin, events);
    lemma_objects_in_order(begin, events, i);
    let values = send_run(begin, events).duplicated;
    lemma_all_objects_duplicated(begin, events);
    law_message_with_handles_layout(header, payload, values, i as int, j);
}

/// Objects of a POSIX message are attached exactly while none of its bytes are
/// out.
pub proof fn law_attachment(head: Seq<u8>, payload: Seq<u8>, sent: nat)
    ensures
        send_action(SendView::Posix { head, payload, sent }) matches SendActionView::SendMsg {
            iov,
            attach,
        } && attach == (sent == 0),
{
}

/// The handles to close when a set is given up: all of them, in order, unless the
/// peer owns them.
pub proof fn law_unclaimed(handles: RemoteHandlesView)
    ensures
        handles.committed ==> unclaimed(handles).len() == 0,
        !handles.committed ==> unclaimed(handles) == handles.values,
{
}

/// The number that a row of decimal digits stands for.
pub open spec fn decimal_value(digits: Seq<char>) -> int
    decreases digits.len(),
{
    if digits.len() == 0 {
        0
    } else {
        10 * decimal_value(digits.drop_last()) + (digits.last() as int - '0' as int)
    }
}

/// A number in decimal is a row of digits that stands for it, and begins with a
/// zero only if it is zero.
pub proof fn law_decimal(n: nat)
    ensures
        decimal_value(decimal(n)) == n,
        decimal(n).len() > 0,
        forall|i: int| 0 <= i < decimal(n).len() ==> '0' <= #[trigger] decimal(n)[i] <= '9',
        n > 0 ==> decimal(n)[0] != '0',
        n == 0 ==> decimal(n).len() == 1,
    decreases n,
{
    if n < 10 {
        reveal_with_fuel(decimal_value, 2);
        assert(decimal(n).drop_last() =~= Seq::<char>::empty());
    } else {
        law_decimal(n / 10);
        assert(decimal(n).drop_last() =~= decimal(n / 10));
    }
}

/// What is said of queue counts and message sizes names the very numbers.
pub proof fn law_messages_name_numbers<E>(
    count: usize,
    requested: u16,
    supported: u16,
    size: u32,
)
    ensures
        error_context(FrontendError::<E>::TooManyQueues(count)) == Some(
            "queue_sizes has "@ + decimal(count as nat)
                + " entries, exceeding maximum supported queue count "@ + decimal(65535),
        ),
        error_context(FrontendError::<E>::ExceedsBackend { requested, supported }) == Some(
            "requested "@ + decimal(requested as nat) + " queues but backend supports at most "@
                + decimal(supported as nat),
        ),
        socket_error_message(SocketError::PayloadTooLarge(size)) == "payload too large: "@
            + decimal(size as nat) + " bytes"@,
        socket_error_message(SocketError::NoPeerProcess(count)) == "cannot pass "@ + decimal(
            count as nat,
        )
            + " object(s) to the backend: no backend process handle was configured for this connection"@,
{
}

/// What a receive hands out is what its contracts speak of.
pub proof fn law_recv_views<T>(message: Message<T>, step: RecvStep<T>)
    ensures
        message@.header == message.header,
        message@.payload == message.payload@,
        message@.objects == message.objects@,
        match step {
            RecvStep::Next(next) => step@ == RecvOutcome::Next(next@),
            RecvStep::Done(Ok(message)) => step@ == RecvOutcome::Done(Ok(message@)),
            RecvStep::Done(Err(error)) => step@ == RecvOutcome::<T>::Done(Err(error)),
        },
{
}

/// What a send hands out is what its contracts speak of.
pub proof fn law_send_views(action: SendAction<'_>, step: SendStep<'_>, slices: Seq<&[u8]>, i: int)
    ensures
        slices_view(slices).len() == slices.len(),
        0 <= i < slices.len() ==> slices_view(slices)[i] == slices[i]@,
        match action {
            SendAction::SendMsg { iov, attach } => action@ == (SendActionView::SendMsg {
                iov: slices_view(iov@),
                attach,
            }),
            SendAction::Duplicate { object, peer } => action@ == (SendActionView::Duplicate {
                object: object as nat,
                peer,
            }),
            SendAction::Write { data } => action@ == (SendActionView::Write { data: data@ }),
        },
        match step {
            SendStep::Next(next) => step@ == SendOutcome::Next(next@),
            SendStep::Done { result, close } => step@ == (SendOutcome::Done {
                result,
                close: close@,
            }),
        },
{
}

/// A send under way holds what its contracts speak of.
pub proof fn law_send_message_view(send: SendMessage<'_>)
    ensures
        match send {
            SendMessage::Posix { head, payload, sent } => send@ == (SendView::Posix {
                head: head@,
                payload: payload@,
                sent: sent as nat,
            }),
            SendMessage::Duplicating { header, payload, count, handles } => send@ == (
            SendView::Duplicating {
                header,
                payload: payload@,
                count: count as nat,
                peer: handles@.peer,
                values: handles@.values,
            }),
            SendMessage::Writing { wire, sent, announced } => send@ == (SendView::Writing {
                wire: wire@,
                sent: sent as nat,
                values: match announced {
                    Some(handles) => handles@.values,
                    None => Seq::empty(),
                },
            }),
        },
{
}

} // verus!
