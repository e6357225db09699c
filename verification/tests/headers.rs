use rust_tracer::headers::{
    NTMarsHeader, NTMarsMessageType, NTMarsPacket, NTPacketStatusFlags, NTPacketType, NTTDSHeader,
};

#[test]
fn packet_type_from_known_codes() {
    let cases = [
        (0x01u8, NTPacketType::SqlBatch),
        (0x03, NTPacketType::RpcRequest),
        (0x04, NTPacketType::TabularResult),
        (0x06, NTPacketType::Attention),
        (0x07, NTPacketType::BulkLoad),
        (0x08, NTPacketType::FedAuthToken),
        (0x0E, NTPacketType::TransactionManager),
        (0x10, NTPacketType::Login7),
        (0x11, NTPacketType::SSPI),
        (0x12, NTPacketType::PreLogin),
    ];
    for (code, t) in cases {
        assert_eq!(NTPacketType::from(code), t);
    }
}

#[test]
fn packet_type_from_unknown_codes() {
    for code in [0x00u8, 0x02, 0x05, 0x09, 0x0F, 0x13, 0x53, 0xFF] {
        assert_eq!(NTPacketType::from(code), NTPacketType::Unknown);
    }
}

#[test]
fn mars_type_from_codes() {
    assert_eq!(NTMarsMessageType::from(1), NTMarsMessageType::SYN);
    assert_eq!(NTMarsMessageType::from(2), NTMarsMessageType::ACK);
    assert_eq!(NTMarsMessageType::from(3), NTMarsMessageType::FIN);
    assert_eq!(NTMarsMessageType::from(8), NTMarsMessageType::DATA);
    for code in [0u8, 4, 5, 6, 7, 9, 0x10, 0xFF] {
        assert_eq!(NTMarsMessageType::from(code), NTMarsMessageType::Unknown);
    }
}

#[test]
fn status_flags_from_byte_keeps_bits() {
    assert_eq!(NTPacketStatusFlags::from_byte(0x19).0, 0x19);
}

#[test]
fn hydrate_prelogin_header() {
    let data = [0x12u8, 0x01, 0x00, 0x10, 0x00, 0x00, 0x01, 0x00];
    let h = NTTDSHeader::hydrate(&data);
    assert_eq!(h.packet_type, NTPacketType::PreLogin);
    assert_eq!(h.status.0, 0x01);
    assert_eq!(h.length, 16);
    assert_eq!(h.pid, 1);
}

#[test]
fn hydrate_reads_length_big_endian() {
    let data = [0x04u8, 0x00, 0x12, 0x34, 0xFF, 0xFF, 0x07];
    let h = NTTDSHeader::hydrate(&data);
    assert_eq!(h.packet_type, NTPacketType::TabularResult);
    assert_eq!(h.length, 0x1234);
    assert_eq!(h.pid, 7);
}

#[test]
fn mars_header_new_is_blank() {
    let h = NTMarsHeader::new(true);
    assert_eq!(h.smid, 0);
    assert_eq!(h.msg_type, NTMarsMessageType::Unknown);
    assert_eq!(h.session_id, 0);
    assert_eq!(h.length, 0);
    assert_eq!(h.sequence_number, 0);
    assert_eq!(h.highwater, 0);
    assert!(h.sending);
}

#[test]
fn mars_header_read_little_endian() {
    let bytes = [
        0x53u8, 0x08, 0x34, 0x12, 0x10, 0x00, 0x00, 0x00, 0x01, 0x00, 0x00, 0x00, 0x02, 0x00,
        0x00, 0x01,
    ];
    let mut h = NTMarsHeader::new(false);
    h.read(&bytes);
    assert_eq!(h.smid, 0x53);
    assert_eq!(h.msg_type, NTMarsMessageType::DATA);
    assert_eq!(h.session_id, 0x1234);
    assert_eq!(h.length, 16);
    assert_eq!(h.sequence_number, 1);
    assert_eq!(h.highwater, 0x0100_0002);
    assert!(!h.sending);
}

#[test]
fn mars_packet_new_and_merge() {
    let h = NTMarsHeader::new(false);
    let buffer = [1u8, 2, 3, 4, 5, 6];
    let mut p = NTMarsPacket::new(h, &buffer, 1, 3);
    assert_eq!(p.buffer, vec![2, 3, 4]);
    assert_eq!(p.header, h);
    p.merge(&buffer, 4, 2);
    assert_eq!(p.buffer, vec![2, 3, 4, 5, 6]);
    p.merge(&buffer, 0, 0);
    assert_eq!(p.buffer, vec![2, 3, 4, 5, 6]);
}
