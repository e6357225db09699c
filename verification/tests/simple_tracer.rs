use rust_tracer::headers::NTPacketType;
use rust_tracer::simple_tracer::{NTTDSHeader as SimpleHeader, SimpleTracerState};

#[test]
fn simple_hydrate_and_text() {
    let h = SimpleHeader::hydrate(&[0x12, 0x01, 0x00, 0x10, 0x00, 0x00, 0x01, 0x00]);
    assert_eq!(h.packet_type, NTPacketType::PreLogin);
    assert_eq!(h.status_flags, 1);
    assert_eq!(h.to_string(), "# Type: PreLogin, Status: 0x01, Length: 16, PId: 1");
}

#[test]
fn simple_sample_packet() {
    let mut t = SimpleTracerState::new();
    let data = vec![0x12u8, 0x01, 0x00, 0x10, 0x00, 0x00, 0x01, 0x00];
    let o = t.process_data(false, &data);
    assert_eq!(
        o.out,
        "Processing TDS Packet: # Type: PreLogin, Status: 0x01, Length: 16, PId: 1\n\n12 01 00 10 00 00 01 00 \n"
    );
    assert_eq!(o.err, "");
    assert!(!t.mars_enabled);
}

#[test]
fn simple_rows_of_sixteen() {
    let mut t = SimpleTracerState::new();
    let data: Vec<u8> = (0u8..18).map(|i| if i == 0 { 0x01 } else { i }).collect();
    let o = t.process_data(true, &data);
    assert!(o.out.ends_with(
        "\n01 01 02 03 04 05 06 07 08 09 0A 0B 0C 0D 0E 0F \n10 11 \n"
    ));
}

#[test]
fn simple_mars_marker() {
    let mut t = SimpleTracerState::new();
    let short = vec![0x53u8; 10];
    let o = t.process_data(false, &short);
    assert_eq!(o.out, "");
    assert_eq!(o.err, "");
    assert!(t.mars_enabled);
    let mut long = vec![0x53u8; 16];
    long.extend_from_slice(&[0x03, 0x00, 0x00, 0x20, 0x00, 0x00, 0x09, 0x00]);
    let o = t.process_data(false, &long);
    assert!(o.out.starts_with("Processing TDS Packet: # Type: RpcRequest, Status: 0x00, Length: 32, PId: 9\n"));
}

#[test]
fn simple_no_content() {
    let mut t = SimpleTracerState::new();
    t.print_content = false;
    let o = t.process_data(false, &[0x01, 0, 0, 8, 0, 0, 0, 0]);
    assert_eq!(o.out, "Processing TDS Packet: # Type: SqlBatch, Status: 0x00, Length: 8, PId: 0\n");
}
