use rust_tracer::headers::{NTMarsHeader, NTMarsMessageType, NTPacketStatusFlags, NTTDSHeader};
use rust_tracer::text::{push_dec, push_dump_piece, push_hex, push_line, push_rule};

#[test]
fn tds_header_text() {
    let h = NTTDSHeader::hydrate(&[0x12, 0x01, 0x00, 0x10, 0x00, 0x00, 0x01, 0x00]);
    assert_eq!(h.to_string(), "# Type:PreLogin, Status:0x01, Length:16, PId:1");
}

#[test]
fn tds_header_text_unknown_type() {
    let h = NTTDSHeader::hydrate(&[0x53, 0xAB, 0xFF, 0xFF, 0x00, 0x00, 0xFF]);
    assert_eq!(h.to_string(), "# Type:Unknown, Status:0xab, Length:65535, PId:255");
}

#[test]
fn status_flags_text() {
    assert_eq!(NTPacketStatusFlags(0).to_string(), "0x00");
    assert_eq!(NTPacketStatusFlags(0x0a).to_string(), "0x0a");
    assert_eq!(NTPacketStatusFlags(0xff).to_string(), "0xff");
}

#[test]
fn mars_header_text_incoming() {
    let mut h = NTMarsHeader::new(false);
    h.read(&[
        0x53, 0x08, 0x34, 0x12, 0x10, 0x00, 0x00, 0x00, 0x01, 0x00, 0x00, 0x00, 0x02, 0x00, 0x00,
        0x00,
    ]);
    assert_eq!(
        h.to_string(),
        "# [MARS-In] SMID:83, Type:DATA, Sid:4660, Length:16, Recv-SN:1, SendWaterMark:2"
    );
}

#[test]
fn mars_header_text_outgoing() {
    let mut h = NTMarsHeader::new(true);
    h.msg_type = NTMarsMessageType::SYN;
    h.length = 4294967295;
    assert_eq!(
        h.to_string(),
        "# [MARS-Out] SMID:0, Type:SYN, Sid:0, Length:4294967295, Send-SN:0, RecvWaterMark:0"
    );
}

#[test]
fn hex_formatting_matches_std() {
    for (n, width, upper) in [(0u64, 2usize, true), (5, 2, true), (0xAB, 2, true), (0x1FF, 2, true),
        (0xAB, 8, true), (0xdeadbeef, 8, false), (u64::MAX, 2, true), (0, 0, false)] {
        let mut s = String::from("x");
        push_hex(&mut s, n, width, upper);
        let expected = if upper {
            format!("x{:0w$X}", n, w = width)
        } else {
            format!("x{:0w$x}", n, w = width)
        };
        assert_eq!(s, expected);
    }
}

#[test]
fn decimal_formatting_matches_std() {
    for n in [0u64, 7, 10, 99, 100, 4660, 65535, u64::MAX] {
        let mut s = String::new();
        push_dec(&mut s, n);
        assert_eq!(s, n.to_string());
    }
}

#[test]
fn rule_and_line() {
    let mut s = String::new();
    push_rule(&mut s, '=', 80);
    assert_eq!(s, "=".repeat(80));
    push_line(&mut s, "ab");
    assert_eq!(s, format!("{}ab\n", "=".repeat(80)));
}

#[test]
fn dump_pieces() {
    let mut s = String::new();
    push_dump_piece(&mut s, 0, 0x12);
    assert_eq!(s, "00\t\t\t 12 ");
    push_dump_piece(&mut s, 1, 0xab);
    assert_eq!(s, "00\t\t\t 12 AB ");
    let mut t = String::new();
    push_dump_piece(&mut t, 16, 0x0);
    assert_eq!(t, "\n10\t\t\t 00 ");
    let mut u = String::new();
    push_dump_piece(&mut u, 256, 0xff);
    assert_eq!(u, "\n100\t\t\t FF ");
}

#[test]
fn byte_hex_roundtrip_concrete() {
    for x in [0u8, 9, 10, 0x7f, 0xff] {
        let mut s = String::new();
        push_hex(&mut s, x as u64, 2, true);
        assert_eq!(s.len(), 2);
        assert_eq!(u8::from_str_radix(&s, 16).unwrap(), x);
    }
}
