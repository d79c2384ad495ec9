use wampproto::transports::rawsocket::{
    receive_handshake, receive_message_header, send_handshake, send_message_header, Handshake,
    Message, MessageHeader, SerializerID, DEFAULT_MAX_MSG_SIZE, PROTOCOL_MAX_MSG_SIZE,
};

#[test]
fn handshake_of_msgpack_and_one_mebibyte() {
    let hs = Handshake::new(SerializerID::Msgpack, 1048576);
    let bytes = send_handshake(&hs).unwrap();
    assert_eq!(bytes, vec![0x7F, 0xB2, 0x00, 0x00]);
    let back = receive_handshake(&bytes).unwrap();
    assert_eq!(back.serializer_id(), SerializerID::Msgpack);
    assert_eq!(back.max_message_size(), 1048576);
}

#[test]
fn handshake_round_trips_for_every_legal_size_and_serializer() {
    for serializer in [SerializerID::Json, SerializerID::Msgpack, SerializerID::Cbor] {
        for exponent in 9..=24u32 {
            let size = 1usize << exponent;
            let bytes = send_handshake(&Handshake::new(serializer, size)).unwrap();
            assert_eq!(bytes.len(), 4);
            assert_eq!(bytes[0], 0x7F);
            assert_eq!(bytes[1], (((exponent - 9) as u8) << 4) | serializer.to_u8());
            assert_eq!(bytes[2], 0);
            assert_eq!(bytes[3], 0);
            let back = receive_handshake(&bytes).unwrap();
            assert_eq!(back.serializer_id(), serializer);
            assert_eq!(back.max_message_size(), size);
        }
    }
}

#[test]
fn handshake_bounds() {
    assert_eq!(PROTOCOL_MAX_MSG_SIZE, 16 * 1024 * 1024);
    assert_eq!(DEFAULT_MAX_MSG_SIZE, 1024 * 1024);
    assert_eq!(
        send_handshake(&Handshake::new(SerializerID::Cbor, 512)).unwrap(),
        vec![0x7F, 0x03, 0, 0]
    );
    assert_eq!(
        send_handshake(&Handshake::new(SerializerID::Json, PROTOCOL_MAX_MSG_SIZE)).unwrap(),
        vec![0x7F, 0xF1, 0, 0]
    );
}

#[test]
fn handshake_refuses_sizes_above_sixteen_mebibytes() {
    for size in [PROTOCOL_MAX_MSG_SIZE + 1, 1 << 25, usize::MAX] {
        assert_eq!(
            send_handshake(&Handshake::new(SerializerID::Cbor, size)).unwrap_err().message,
            "max_message_size must not be more than 16 megabytes"
        );
    }
}

#[test]
fn handshake_refuses_sizes_that_are_no_power_of_two_or_too_small() {
    for size in [0, 1, 2, 256, 511, 513, 1000, 3 << 10, (1 << 24) - 1, (1 << 20) + 1] {
        assert_eq!(
            send_handshake(&Handshake::new(SerializerID::Cbor, size)).unwrap_err().message,
            "max_message_size must be a power of 2 and >= 512",
            "{}",
            size
        );
    }
}

#[test]
fn received_handshake_must_have_four_bytes() {
    assert_eq!(
        receive_handshake(&[]).unwrap_err().message,
        "expected 4 bytes for handshake response, got 0"
    );
    assert_eq!(
        receive_handshake(&[0x7F, 0xB2, 0]).unwrap_err().message,
        "expected 4 bytes for handshake response, got 3"
    );
    assert_eq!(
        receive_handshake(&[0x7F, 0xB2, 0, 0, 0]).unwrap_err().message,
        "expected 4 bytes for handshake response, got 5"
    );
}

#[test]
fn received_handshake_must_begin_with_magic() {
    assert_eq!(
        receive_handshake(&[0x7E, 0xB2, 0, 0]).unwrap_err().message,
        "expected MAGIC, got 126"
    );
    assert_eq!(receive_handshake(&[0, 0, 0, 0]).unwrap_err().message, "expected MAGIC, got 0");
}

#[test]
fn received_handshake_must_end_with_zeros() {
    assert_eq!(
        receive_handshake(&[0x7F, 0xB2, 1, 0]).unwrap_err().message,
        "expected 0x00 for third and fourth byte, got 1 and 0"
    );
    assert_eq!(
        receive_handshake(&[0x7F, 0xB2, 0, 255]).unwrap_err().message,
        "expected 0x00 for third and fourth byte, got 0 and 255"
    );
}

#[test]
fn received_handshake_must_name_a_serializer() {
    for low in [0u8, 4, 5, 15] {
        assert_eq!(
            receive_handshake(&[0x7F, 0xB0 | low, 0, 0]).unwrap_err().message,
            "got invalid serializer byte"
        );
    }
}

#[test]
fn serializer_ids() {
    assert_eq!(SerializerID::from_u8(1), Some(SerializerID::Json));
    assert_eq!(SerializerID::from_u8(2), Some(SerializerID::Msgpack));
    assert_eq!(SerializerID::from_u8(3), Some(SerializerID::Cbor));
    assert_eq!(SerializerID::from_u8(0), None);
    assert_eq!(SerializerID::from_u8(4), None);
    assert_eq!(SerializerID::from_u8(255), None);
    for id in 1..=3u8 {
        assert_eq!(SerializerID::from_u8(id).unwrap().to_u8(), id);
    }
}

#[test]
fn frame_kinds() {
    assert_eq!(Message::from_u8(0), Some(Message::Wamp));
    assert_eq!(Message::from_u8(1), Some(Message::Ping));
    assert_eq!(Message::from_u8(2), Some(Message::Pong));
    assert_eq!(Message::from_u8(3), None);
    for kind in 0..=2u8 {
        assert_eq!(Message::from_u8(kind).unwrap().to_u8(), kind);
    }
}

#[test]
fn header_is_kind_then_big_endian_length() {
    assert_eq!(send_message_header(&MessageHeader::new(Message::Wamp, 0)), vec![0, 0, 0, 0]);
    assert_eq!(send_message_header(&MessageHeader::new(Message::Ping, 1)), vec![1, 0, 0, 1]);
    assert_eq!(
        send_message_header(&MessageHeader::new(Message::Pong, 0x010203)),
        vec![2, 1, 2, 3]
    );
    assert_eq!(
        send_message_header(&MessageHeader::new(Message::Wamp, 0xFFFFFF)),
        vec![0, 255, 255, 255]
    );
}

#[test]
fn header_keeps_the_low_three_bytes_of_a_longer_length() {
    assert_eq!(
        send_message_header(&MessageHeader::new(Message::Wamp, 0x1_000000)),
        vec![0, 0, 0, 0]
    );
    assert_eq!(
        send_message_header(&MessageHeader::new(Message::Wamp, 0x7_0A0B0C)),
        vec![0, 0x0A, 0x0B, 0x0C]
    );
}

#[test]
fn header_round_trips() {
    for kind in [Message::Wamp, Message::Ping, Message::Pong] {
        for length in [0usize, 1, 255, 256, 65535, 65536, 123456, (1 << 24) - 1] {
            let header = MessageHeader::new(kind, length);
            assert_eq!(header.kind(), kind);
            assert_eq!(header.length(), length);
            let back = receive_message_header(&send_message_header(&header)).unwrap();
            assert_eq!(back.kind(), kind);
            assert_eq!(back.length(), length);
        }
    }
}

#[test]
fn received_header_must_have_four_bytes_and_a_known_kind() {
    assert_eq!(
        receive_message_header(&[0, 0, 0]).unwrap_err().message,
        "expected 4 bytes for message header"
    );
    assert_eq!(
        receive_message_header(&[0, 0, 0, 0, 0]).unwrap_err().message,
        "expected 4 bytes for message header"
    );
    assert_eq!(
        receive_message_header(&[3, 0, 0, 0]).unwrap_err().message,
        "received invalid message type"
    );
}
