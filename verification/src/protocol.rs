//! Wire types of the vhost-user control channel.

use crate::le::from_le_bytes;
use crate::le::law_le_bytes_of_le_value;
use crate::le::law_le_value_of_le_bytes;
use crate::le::le_bytes;
use crate::le::le_value;
use crate::le::lemma_le_bytes_len;
use crate::le::lemma_le_value_bound;
use crate::le::lemma_pow256;
use crate::le::to_le_bytes;
use vhost::vhost_user::message::VhostUserHeaderFlag;
use vhost::vhost_user::message::VhostUserProtocolFeatures;
use vstd::prelude::*;
use vstd::slice::slice_subrange;

verus! {

/// Most objects (descriptors or handles) that one message may carry.
///
/// A memory table is the message with the most of them: one per region, of
/// which the protocol's baseline allows eight.
pub const VHOST_USER_MAX_FDS: usize = 8;

/// Bytes of a message header on the wire.
pub const HEADER_SIZE: usize = 12;

/// `VHOST_USER_PROTOCOL_F_MQ`: the backend reports its queue count.
pub const PROTOCOL_F_MQ: u64 = 0x1;

/// `VHOST_USER_PROTOCOL_F_REPLY_ACK`: the backend acknowledges requests that
/// ask for it.
pub const PROTOCOL_F_REPLY_ACK: u64 = 0x8;

/// `VHOST_USER_PROTOCOL_F_CONFIG`: the backend serves the config space.
pub const PROTOCOL_F_CONFIG: u64 = 0x200;

/// `VHOST_USER_PROTOCOL_F_RESET_DEVICE`: the backend can be reset.
pub const PROTOCOL_F_RESET_DEVICE: u64 = 0x2000;

/// Header flag by which a request asks for an acknowledgment.
pub const NEED_REPLY: u32 = 0x8;

/// Virtio feature bit 30, by which a vhost-user backend says that it has
/// protocol features to negotiate.
pub const VHOST_USER_F_PROTOCOL_FEATURES: u64 = 0x4000_0000;

/// Virtio feature bit 34, `VIRTIO_F_RING_PACKED`.
pub const VIRTIO_F_RING_PACKED: u64 = 0x4_0000_0000;

/// The fixed-size header in front of every message.
#[derive(Debug, Clone, Copy, PartialEq, Eq, Structural)]
pub struct VhostUserMsgHeader {
    /// Which request this is, or which one it answers.
    pub request: u32,
    /// Version, and the reply and need-reply flags.
    pub flags: u32,
    /// Bytes of payload that follow the header.
    pub size: u32,
}

/// The header as it stands on the wire: its three fields in order, each of four
/// bytes, least significant first.
pub open spec fn header_bytes(header: VhostUserMsgHeader) -> Seq<u8> {
    le_bytes(header.request as nat, 4) + le_bytes(header.flags as nat, 4) + le_bytes(
        header.size as nat,
        4,
    )
}

/// The header that twelve bytes on the wire stand for.
pub open spec fn header_of_bytes(bytes: Seq<u8>) -> VhostUserMsgHeader {
    VhostUserMsgHeader {
        request: le_value(bytes.subrange(0, 4)) as u32,
        flags: le_value(bytes.subrange(4, 8)) as u32,
        size: le_value(bytes.subrange(8, 12)) as u32,
    }
}

/// A header takes up twelve bytes.
pub proof fn lemma_header_bytes_len(header: VhostUserMsgHeader)
    ensures
        header_bytes(header).len() == HEADER_SIZE,
{
    lemma_le_bytes_len(header.request as nat, 4);
    lemma_le_bytes_len(header.flags as nat, 4);
    lemma_le_bytes_len(header.size as nat, 4);
}

/// Reading a header that was written gives the header.
pub proof fn law_header_of_header_bytes(header: VhostUserMsgHeader)
    ensures
        header_of_bytes(header_bytes(header)) == header,
{
    lemma_header_bytes_len(header);
    lemma_pow256();
    let request = le_bytes(header.request as nat, 4);
    let flags = le_bytes(header.flags as nat, 4);
    let size = le_bytes(header.size as nat, 4);
    lemma_le_bytes_len(header.request as nat, 4);
    lemma_le_bytes_len(header.flags as nat, 4);
    law_le_value_of_le_bytes(header.request as nat, 4);
    law_le_value_of_le_bytes(header.flags as nat, 4);
    law_le_value_of_le_bytes(header.size as nat, 4);
    let bytes = header_bytes(header);
    assert(bytes.subrange(0, 4) =~= request);
    assert(bytes.subrange(4, 8) =~= flags);
    assert(bytes.subrange(8, 12) =~= size);
}

/// Writing a header that was read gives the bytes it was read from.
pub proof fn law_header_bytes_of_header(bytes: Seq<u8>)
    requires
        bytes.len() == HEADER_SIZE,
    ensures
        header_bytes(header_of_bytes(bytes)) == bytes,
{
    lemma_pow256();
    lemma_le_value_bound(bytes.subrange(0, 4));
    lemma_le_value_bound(bytes.subrange(4, 8));
    lemma_le_value_bound(bytes.subrange(8, 12));
    law_le_bytes_of_le_value(bytes.subrange(0, 4));
    law_le_bytes_of_le_value(bytes.subrange(4, 8));
    law_le_bytes_of_le_value(bytes.subrange(8, 12));
    assert(bytes.subrange(0, 4) + bytes.subrange(4, 8) + bytes.subrange(8, 12) =~= bytes);
}

impl VhostUserMsgHeader {
    /// The header's bytes on the wire.
    pub fn as_bytes(&self) -> (bytes: Vec<u8>)
        ensures
            bytes@ == header_bytes(*self),
            bytes@.len() == HEADER_SIZE,
    {
        let mut bytes: Vec<u8> = to_le_bytes(self.request as u64, 4);
        let mut flags: Vec<u8> = to_le_bytes(self.flags as u64, 4);
        let mut size: Vec<u8> = to_le_bytes(self.size as u64, 4);
        bytes.append(&mut flags);
        bytes.append(&mut size);
        bytes
    }

    /// The header that `bytes` stand for, if they are as many as a header has.
    pub fn read_from_bytes(bytes: &[u8]) -> (header: Option<VhostUserMsgHeader>)
        ensures
            bytes@.len() == HEADER_SIZE ==> header == Some(header_of_bytes(bytes@)),
            bytes@.len() != HEADER_SIZE ==> header is None,
    {
        if bytes.len() != HEADER_SIZE {
            return None;
        }
        proof {
            lemma_pow256();
            lemma_le_value_bound(bytes@.subrange(0, 4));
            lemma_le_value_bound(bytes@.subrange(4, 8));
            lemma_le_value_bound(bytes@.subrange(8, 12));
        }
        Some(
            VhostUserMsgHeader {
                request: from_le_bytes(slice_subrange(bytes, 0, 4)) as u32,
                flags: from_le_bytes(slice_subrange(bytes, 4, 8)) as u32,
                size: from_le_bytes(slice_subrange(bytes, 8, 12)) as u32,
            },
        )
    }
}

/// The protocol features that the frontend has a use for, as bits.
#[derive(Debug, Clone, Copy)]
pub struct ProtocolFlags {
    /// `MQ`.
    pub mq: u64,
    /// `REPLY_ACK`.
    pub reply_ack: u64,
    /// `CONFIG`.
    pub config: u64,
    /// `RESET_DEVICE`.
    pub reset_device: u64,
}

/// Calls `VhostUserProtocolFeatures::bits` of the `vhost` crate on four of its
/// flags, and claims the bit that the crate defines each of them to be.
#[verifier::external_body]
pub(crate) fn protocol_flags() -> (flags: ProtocolFlags)
    ensures
        flags.mq == PROTOCOL_F_MQ,
        flags.reply_ack == PROTOCOL_F_REPLY_ACK,
        flags.config == PROTOCOL_F_CONFIG,
        flags.reset_device == PROTOCOL_F_RESET_DEVICE,
{
    ProtocolFlags {
        mq: VhostUserProtocolFeatures::MQ.bits(),
        reply_ack: VhostUserProtocolFeatures::REPLY_ACK.bits(),
        config: VhostUserProtocolFeatures::CONFIG.bits(),
        reset_device: VhostUserProtocolFeatures::RESET_DEVICE.bits(),
    }
}

/// Calls `VhostUserHeaderFlag::bits` of the `vhost` crate on its need-reply
/// flag, and claims the bit that the crate defines it to be.
#[verifier::external_body]
pub(crate) fn need_reply_flag() -> (flag: u32)
    ensures
        flag == NEED_REPLY,
{
    VhostUserHeaderFlag::NEED_REPLY.bits()
}

/// Whether every bit of `flag` is set in `bits`.
pub open spec fn spec_contains_flag(bits: u64, flag: u64) -> bool {
    bits & flag == flag
}

/// Whether every bit of `flag` is set in `bits`.
#[verifier::when_used_as_spec(spec_contains_flag)]
pub fn contains_flag(bits: u64, flag: u64) -> (contains: bool)
    ensures
        contains == contains_flag(bits, flag),
{
    bits & flag == flag
}

} // verus!
