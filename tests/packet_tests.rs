use lostlove::error::LostLoveError;
use lostlove::packet::{Packet, PacketHeader, PacketType, HEADER_SIZE, PROTOCOL_ID};

#[test]
fn test_packet_type_conversion() {
    assert_eq!(PacketType::from_u8(0x01).unwrap(), PacketType::Data);
    assert_eq!(PacketType::from_u8(0x05).unwrap(), PacketType::KeepAlive);
    assert!(PacketType::from_u8(0xFF).is_err());
}

#[test]
fn test_packet_serialization() {
    let payload = b"Hello, LostLove!".to_vec();
    let packet = Packet::new(PacketType::Data, payload.clone());

    let serialized = packet.serialize();
    let deserialized = Packet::deserialize(&serialized).unwrap();

    assert_eq!(deserialized.header.packet_type, PacketType::Data);
    assert_eq!(deserialized.payload, payload);
}

#[test]
fn test_checksum_verification() {
    let payload = b"test data".to_vec();
    let packet = Packet::new(PacketType::Data, payload);

    assert!(packet.header.verify_checksum(&packet.payload));
}

#[test]
fn test_invalid_checksum() {
    let payload = b"test data".to_vec();
    let mut packet = Packet::new(PacketType::Data, payload);

    packet.header.checksum = 0xDEAD;

    let serialized = packet.serialize();
    let result = Packet::deserialize(&serialized);

    assert!(result.is_err());
}

#[test]
fn test_header_size() {
    let header = PacketHeader::new(PacketType::Data);
    let mut buf = Vec::new();
    header.serialize(&mut buf);

    assert_eq!(buf.len(), HEADER_SIZE);
}

#[test]
fn round_trip_data_packet_with_metadata() {
    let payload = b"Hello, LostLove!".to_vec();
    let packet = Packet::new_with_metadata(PacketType::Data, 7, 42, payload.clone());
    let bytes = packet.serialize();
    assert_eq!(bytes.len(), HEADER_SIZE + payload.len());
    let decoded = Packet::deserialize(&bytes).unwrap();
    assert_eq!(decoded.header, packet.header);
    assert_eq!(decoded.header.stream_id, 7);
    assert_eq!(decoded.header.sequence_number, 42);
    assert_eq!(decoded.header.protocol_id, PROTOCOL_ID);
    assert_eq!(decoded.payload, payload);

    let mut corrupted = bytes.clone();
    corrupted[HEADER_SIZE] ^= 0x01;
    match Packet::deserialize(&corrupted) {
        Err(LostLoveError::ChecksumMismatch { expected, actual }) => {
            assert_eq!(expected, packet.header.checksum);
            assert_ne!(actual, expected);
        }
        other => panic!("expected a checksum mismatch, got {:?}", other.map(|p| p.header)),
    }
}

#[test]
fn packet_type_table() {
    let table = [
        (0x01u8, PacketType::Data),
        (0x02, PacketType::Ack),
        (0x03, PacketType::HandshakeInit),
        (0x04, PacketType::HandshakeResponse),
        (0x05, PacketType::KeepAlive),
        (0x06, PacketType::Disconnect),
    ];
    for (code, t) in table {
        assert_eq!(PacketType::from_u8(code).unwrap(), t);
        assert_eq!(t.to_u8(), code);
    }
    assert_eq!(PacketType::from_u8(0xFF), Err(LostLoveError::InvalidPacketType(0xFF)));
    assert_eq!(PacketType::from_u8(0x00), Err(LostLoveError::InvalidPacketType(0x00)));
    assert_eq!(PacketType::from_u8(0x07), Err(LostLoveError::InvalidPacketType(0x07)));
}

#[test]
fn decoding_a_wire_type_byte_of_ff_fails() {
    let packet = Packet::new_with_metadata_at(PacketType::Data, 1, 2, 3, vec![9, 9]);
    let mut bytes = packet.serialize();
    bytes[2] = 0xFF;
    assert_eq!(Packet::deserialize(&bytes).unwrap_err(), LostLoveError::InvalidPacketType(0xFF));
}

#[test]
fn header_bytes_are_big_endian_in_wire_order() {
    let packet = Packet::new_with_metadata_at(
        PacketType::KeepAlive,
        0x0102,
        0x0304050607080910,
        0x1112131415161718,
        Vec::new(),
    );
    let bytes = packet.serialize();
    assert_eq!(&bytes[0..2], &[0x4C, 0x4C]);
    assert_eq!(bytes[2], 0x05);
    assert_eq!(&bytes[3..5], &[0x01, 0x02]);
    assert_eq!(&bytes[5..13], &[0x03, 0x04, 0x05, 0x06, 0x07, 0x08, 0x09, 0x10]);
    assert_eq!(&bytes[13..21], &[0x11, 0x12, 0x13, 0x14, 0x15, 0x16, 0x17, 0x18]);
    assert_eq!(bytes[21], 0);
    let checksum = packet.header.checksum;
    assert_eq!(&bytes[22..24], &[(checksum >> 8) as u8, checksum as u8]);
}

#[test]
fn crc16_ccitt_check_value() {
    // The checksum covers the header fields in wire order, then the
    // payload; recompute it bit by bit over those bytes.
    let header = PacketHeader::new_at(PacketType::Data, 0);
    let mut data = Vec::new();
    data.extend_from_slice(&0x4C4Cu16.to_be_bytes());
    data.push(0x01);
    data.extend_from_slice(&0u16.to_be_bytes());
    data.extend_from_slice(&0u64.to_be_bytes());
    data.extend_from_slice(&0u64.to_be_bytes());
    data.push(0);
    data.extend_from_slice(b"123456789");
    let mut crc: u16 = 0xFFFF;
    for b in data {
        crc ^= (b as u16) << 8;
        for _ in 0..8 {
            crc = if crc & 0x8000 != 0 { (crc << 1) ^ 0x1021 } else { crc << 1 };
        }
    }
    assert_eq!(header.calculate_checksum(b"123456789"), crc);
}

#[test]
fn every_single_bit_flip_is_detected() {
    let packet = Packet::new_with_metadata_at(PacketType::Data, 7, 42, 1000, b"abc".to_vec());
    let bytes = packet.serialize();
    for i in 0..bytes.len() {
        for bit in 0..8 {
            let mut flipped = bytes.clone();
            flipped[i] ^= 1 << bit;
            assert!(Packet::deserialize(&flipped).is_err(), "byte {} bit {}", i, bit);
        }
    }
}

#[test]
fn short_input_is_insufficient_data() {
    assert_eq!(
        Packet::deserialize(&[0x4C, 0x4C, 0x01]).unwrap_err(),
        LostLoveError::InsufficientData { expected: 24, actual: 3 }
    );
    assert_eq!(
        PacketHeader::deserialize(&[]).unwrap_err(),
        LostLoveError::InsufficientData { expected: 24, actual: 0 }
    );
}

#[test]
fn wrong_protocol_id_is_rejected() {
    let packet = Packet::new_with_metadata_at(PacketType::Ack, 0, 0, 5, Vec::new());
    let mut bytes = packet.serialize();
    bytes[0] = 0x12;
    bytes[1] = 0x34;
    assert_eq!(Packet::deserialize(&bytes).unwrap_err(), LostLoveError::InvalidProtocolId(0x1234));
}

#[test]
fn size_and_control_classification() {
    let data = Packet::new(PacketType::Data, vec![1, 2, 3]);
    assert_eq!(data.size(), HEADER_SIZE + 3);
    assert!(!data.is_control());
    assert!(!Packet::new(PacketType::Ack, Vec::new()).is_control());
    for t in [PacketType::HandshakeInit, PacketType::HandshakeResponse, PacketType::KeepAlive, PacketType::Disconnect] {
        assert!(Packet::new(t, Vec::new()).is_control());
    }
}

#[test]
fn new_header_defaults() {
    let h = PacketHeader::new(PacketType::Disconnect);
    assert_eq!(h.protocol_id, PROTOCOL_ID);
    assert_eq!(h.stream_id, 0);
    assert_eq!(h.sequence_number, 0);
    assert_eq!(h.flags, 0);
    assert_eq!(h.checksum, 0);
    assert!(h.timestamp > 0);
}
