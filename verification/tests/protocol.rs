//! Wire types and numbers.

use vhost::vhost_user::message::VhostUserHeaderFlag;
use vhost::vhost_user::message::VhostUserProtocolFeatures;
use vhost_user::device::Request;
use vhost_user::device::VhostUserConfig;
use vhost_user::device::VirtioDeviceType;
use vhost_user::error::to_decimal;
use vhost_user::frontend::VhostUserFrontend;
use vhost_user::handshake::HandshakeAction;
use vhost_user::handshake::HandshakeReply;
use vhost_user::handshake::HandshakeStep;
use vhost_user::le::from_le_bytes;
use vhost_user::le::to_le_bytes;
use vhost_user::protocol::contains_flag;
use vhost_user::protocol::VhostUserMsgHeader;
use vhost_user::protocol::NEED_REPLY;
use vhost_user::protocol::PROTOCOL_F_CONFIG;
use vhost_user::protocol::PROTOCOL_F_MQ;
use vhost_user::protocol::PROTOCOL_F_REPLY_ACK;
use vhost_user::protocol::PROTOCOL_F_RESET_DEVICE;
use vhost_user::protocol::VHOST_USER_F_PROTOCOL_FEATURES;
use vhost_user::protocol::VIRTIO_F_RING_PACKED;

#[test]
fn little_endian_numbers() {
    assert_eq!(to_le_bytes(0x0102_0304, 4), [4, 3, 2, 1]);
    assert_eq!(to_le_bytes(0x1_02, 1), [2]);
    assert_eq!(to_le_bytes(u64::MAX, 8), [0xff; 8]);
    assert_eq!(to_le_bytes(7, 0), Vec::<u8>::new());
    assert_eq!(from_le_bytes(&[4, 3, 2, 1]), 0x0102_0304);
    assert_eq!(from_le_bytes(&[]), 0);
    for value in [0u64, 1, 255, 256, 0x8000_0000_0000_0000, u64::MAX] {
        assert_eq!(to_le_bytes(value, 8), value.to_le_bytes());
        assert_eq!(from_le_bytes(&to_le_bytes(value, 8)), value);
    }
}

#[test]
fn headers_on_the_wire() {
    let header = VhostUserMsgHeader { request: 0x0403_0201, flags: 0x9, size: 0x100 };
    let bytes = header.as_bytes();
    assert_eq!(bytes, [1, 2, 3, 4, 9, 0, 0, 0, 0, 1, 0, 0]);
    assert_eq!(VhostUserMsgHeader::read_from_bytes(&bytes), Some(header));
    assert_eq!(VhostUserMsgHeader::read_from_bytes(&bytes[..11]), None);
    assert_eq!(VhostUserMsgHeader::read_from_bytes(&[0; 13]), None);
}

#[test]
fn decimal_numbers() {
    for value in [0u64, 7, 10, 99, 1234567890, u64::MAX] {
        assert_eq!(to_decimal(value), format!("{value}"));
    }
}

#[test]
fn flags_in_bits() {
    assert!(contains_flag(0x2209, PROTOCOL_F_CONFIG));
    assert!(!contains_flag(0x2009, PROTOCOL_F_CONFIG));
    assert!(!contains_flag(0x1, 0x3));
    assert_eq!(VHOST_USER_F_PROTOCOL_FEATURES, 1 << 30);
    assert_eq!(VIRTIO_F_RING_PACKED, 1 << 34);
}

/// The bits that a handshake sends are those of the protocol's flags.
#[test]
fn flags_are_those_of_the_protocol() {
    assert_eq!(PROTOCOL_F_MQ, VhostUserProtocolFeatures::MQ.bits());
    assert_eq!(PROTOCOL_F_REPLY_ACK, VhostUserProtocolFeatures::REPLY_ACK.bits());
    assert_eq!(PROTOCOL_F_CONFIG, VhostUserProtocolFeatures::CONFIG.bits());
    assert_eq!(PROTOCOL_F_RESET_DEVICE, VhostUserProtocolFeatures::RESET_DEVICE.bits());
    assert_eq!(NEED_REPLY, VhostUserHeaderFlag::NEED_REPLY.bits());

    let mut handshake = VhostUserFrontend::new(VhostUserConfig {
        device_id: VirtioDeviceType(26),
        use_backend_config: true,
        queue_sizes: vec![16],
        config_patches: vec![],
    });
    let mut seen = Vec::new();
    for reply in [
        HandshakeReply::Value(u64::MAX),
        HandshakeReply::Value(VhostUserProtocolFeatures::all().bits()),
        HandshakeReply::Done,
        HandshakeReply::Done,
    ] {
        seen.push(handshake.action());
        handshake = match handshake.step::<()>(Ok(reply)) {
            HandshakeStep::Next(next) => next,
            other => panic!("unexpected step: {other:?}"),
        };
    }
    let wanted = VhostUserProtocolFeatures::MQ
        | VhostUserProtocolFeatures::REPLY_ACK
        | VhostUserProtocolFeatures::RESET_DEVICE
        | VhostUserProtocolFeatures::CONFIG;
    assert_eq!(
        seen[2],
        HandshakeAction::Call(Request::SetProtocolFeatures(wanted.bits()))
    );
    assert_eq!(
        seen[3],
        HandshakeAction::SetHeaderFlags(VhostUserHeaderFlag::NEED_REPLY.bits())
    );
}
