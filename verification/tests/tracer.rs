use rust_tracer::headers::{NTMarsMessageType, NTPacketType};
use rust_tracer::tracer::{
    mix_clock_and_pid, parse_headers, uuid_like_random_string, ChunkCheck, TracerState,
};

fn eq80() -> String {
    "=".repeat(80)
}

fn closing() -> String {
    format!("\n{}\n\n", "-".repeat(80))
}

#[test]
fn new_state() {
    let t = TracerState::new();
    assert!(t.print_content);
    assert_eq!(t.byte_counter, 0);
    assert!(!t.mars_enabled);
    assert!(t.capture_packet.is_none());
}

#[test]
fn plain_tds_packet_is_written_and_flushed() {
    let mut t = TracerState::new();
    let data = vec![0x12u8, 0x01, 0x00, 0x10, 0x00, 0x00, 0x01, 0x00];
    let out = t.process_data(false, &data, 0, data.len());
    let expected = format!(
        "\n{}\n# Type:PreLogin, Status:0x01, Length:16, PId:1\n{}\n00\t\t\t 12 01 00 10 00 00 01 00 {}",
        eq80(),
        eq80(),
        closing()
    );
    assert_eq!(out.text, expected);
    assert!(out.flush);
    assert_eq!(t.byte_counter, 8);
    assert!(!t.mars_enabled);
}

#[test]
fn chunk_without_header_gives_exception() {
    let mut t = TracerState::new();
    // A MARS marker with an unknown message type is no header at all.
    let data = vec![
        0x53u8, 0x05, 0x34, 0x12, 0x10, 0x00, 0x00, 0x00, 0x01, 0x00, 0x00, 0x00, 0x02, 0x00,
        0x00, 0x00,
    ];
    let out = t.process_data(false, &data, 0, data.len());
    let expected = format!(
        "Exception: partial data with no TDS/MARS header.\n00\t\t\t 53 05 34 12 10 00 00 00 01 00 00 00 02 00 00 00 {}",
        closing()
    );
    assert_eq!(out.text, expected);
    assert!(!out.flush);
    assert!(!t.mars_enabled);
    assert!(t.capture_packet.is_none());
}

#[test]
fn short_chunk_gives_exception() {
    let mut t = TracerState::new();
    let data = vec![0x12u8, 0x01, 0x00];
    let out = t.process_data(true, &data, 0, 3);
    assert_eq!(
        out.text,
        format!("Exception: partial data with no TDS/MARS header.\n00\t\t\t 12 01 00 {}", closing())
    );
}

#[test]
fn sample_session() {
    let mut t = TracerState::new();
    // TDS example (PreLogin = 0x12)
    let tds = vec![0x12u8, 0x01, 0x00, 0x10, 0x00, 0x00, 0x01, 0x00];
    assert!(t.process_data(false, &tds, 0, tds.len()).flush);
    // Partial MARS step 1: a DATA header alone is held back.
    let partial_mars = vec![
        0x53u8, 0x08, 0x34, 0x12, 0x10, 0x00, 0x00, 0x00, 0x01, 0x00, 0x00, 0x00, 0x02, 0x00,
        0x00, 0x00,
    ];
    let o = t.process_data(false, &partial_mars, 0, partial_mars.len());
    assert_eq!(o.text, "");
    assert!(!o.flush);
    assert!(t.mars_enabled);
    assert!(t.capture_packet.is_some());
    // Partial MARS step 2 + TDS: one MARS DATA packet over both chunks.
    let partial_tds = vec![0x04u8, 0x01, 0x00, 0x10, 0x00, 0x00, 0x05, 0x00, 0xAA, 0xBB, 0xCC];
    let o = t.process_data(false, &partial_tds, 0, partial_tds.len());
    assert_eq!(
        o.text,
        format!(
            "\n\n{}\n# [MARS-In] SMID:83, Type:DATA, Sid:4660, Length:16, Recv-SN:1, SendWaterMark:2\n# Type:TabularResult, Status:0x01, Length:16, PId:5\n{}\n\
00\t\t\t 53 08 34 12 10 00 00 00 01 00 00 00 02 00 00 00 \n\
10\t\t\t 04 01 00 10 00 00 05 00 AA BB CC {}",
            eq80(),
            eq80(),
            closing()
        )
    );
    assert!(o.flush);
    assert!(t.capture_packet.is_none());
    assert_eq!(t.byte_counter, 27);
    // Sending data while MARS is on and nothing is captured.
    let send = vec![0x10u8, 0x03, 0x00, 0x15, 0x00, 0x00, 0x02, 0x00];
    let o = t.process_data(true, &send, 0, send.len());
    assert_eq!(
        o.text,
        "Error: MARS is enabled, but TDS header arrived without partial MARS header.\n"
    );
    assert_eq!(t.byte_counter, 27);
}

fn mars_bytes(msg_type: u8) -> Vec<u8> {
    vec![
        0x53, msg_type, 0x34, 0x12, 0x20, 0x00, 0x00, 0x00, 0x01, 0x00, 0x00, 0x00, 0x02, 0x00,
        0x00, 0x00,
    ]
}

#[test]
fn split_mars_data_packet_is_joined() {
    let mut t = TracerState::new();
    let first = mars_bytes(8);
    let o1 = t.process_data(false, &first, 0, first.len());
    assert_eq!(o1.text, "");
    assert!(!o1.flush);
    assert!(t.mars_enabled);
    assert!(t.capture_packet.is_some());
    let second = vec![0x04u8, 0x01, 0x00, 0x10, 0x00, 0x00, 0x05, 0x00, 0xAA];
    let o2 = t.process_data(false, &second, 0, second.len());
    assert!(o2.flush);
    assert!(t.capture_packet.is_none());
    assert!(t.mars_enabled);
    let expected = format!(
        "\n\n{}\n# [MARS-In] SMID:83, Type:DATA, Sid:4660, Length:32, Recv-SN:1, SendWaterMark:2\n# Type:TabularResult, Status:0x01, Length:16, PId:5\n{}\n\
00\t\t\t 53 08 34 12 20 00 00 00 01 00 00 00 02 00 00 00 \n\
10\t\t\t 04 01 00 10 00 00 05 00 AA {}",
        eq80(),
        eq80(),
        closing()
    );
    assert_eq!(o2.text, expected);
    assert_eq!(t.byte_counter, 25);
}

#[test]
fn mars_control_packet_with_tds() {
    let mut t = TracerState::new();
    let mut data = mars_bytes(1);
    data.extend_from_slice(&[0x01, 0x00, 0x00, 0x08, 0x00, 0x00, 0x00, 0x00]);
    let o = t.process_data(true, &data, 0, data.len());
    assert!(!o.flush);
    let expected = format!(
        "\n\n{}\n# [MARS-Out] SMID:83, Type:SYN, Sid:4660, Length:32, Send-SN:1, RecvWaterMark:2\n{}\n\
00\t\t\t 53 01 34 12 20 00 00 00 01 00 00 00 02 00 00 00 \n\
10\t\t\t 01 00 00 08 00 00 00 00 {}",
        eq80(),
        eq80(),
        closing()
    );
    assert_eq!(o.text, expected);
    assert!(t.mars_enabled);
    assert!(t.capture_packet.is_none());
}

#[test]
fn tds_while_mars_on_without_capture_is_an_error() {
    let mut t = TracerState::new();
    let mut data = mars_bytes(8);
    data.extend_from_slice(&[0x01, 0x00, 0x00, 0x08, 0x00, 0x00, 0x00, 0x00]);
    let o = t.process_data(false, &data, 0, data.len());
    assert!(o.flush);
    let tds = vec![0x12u8, 0x01, 0x00, 0x10, 0x00, 0x00, 0x01, 0x00];
    let o = t.process_data(false, &tds, 0, tds.len());
    assert_eq!(
        o.text,
        "Error: MARS is enabled, but TDS header arrived without partial MARS header.\n"
    );
    assert!(!o.flush);
}

#[test]
fn offset_selects_the_chunk() {
    let mut t = TracerState::new();
    let data = vec![0xEEu8, 0xEE, 0x12, 0x01, 0x00, 0x10, 0x00, 0x00, 0x01, 0x00, 0xEE];
    let o = t.process_data(false, &data, 2, 8);
    assert!(o.text.contains("00\t\t\t 12 01 00 10 00 00 01 00 \n"));
    assert!(!o.text.contains("EE"));
}

#[test]
fn no_content_when_printing_is_off() {
    let mut t = TracerState::new();
    t.print_content = false;
    let data = vec![0x12u8, 0x01, 0x00, 0x10, 0x00, 0x00, 0x01, 0x00];
    let o = t.process_data(false, &data, 0, data.len());
    assert_eq!(
        o.text,
        format!("\n{}\n# Type:PreLogin, Status:0x01, Length:16, PId:1\n{}\n{}", eq80(), eq80(), closing())
    );
    assert_eq!(t.byte_counter, 0);
    let o = t.process_data(false, &data, 0, 2);
    assert_eq!(o.text, "Exception: partial data with no TDS/MARS header.\n");
}

#[test]
fn headers_of_chunks() {
    let mut data = mars_bytes(3);
    let (tds, mars) = parse_headers(true, &data, 0, data.len());
    assert!(tds.is_none());
    let mh = mars.unwrap();
    assert_eq!(mh.msg_type, NTMarsMessageType::FIN);
    assert!(mh.sending);
    data.extend_from_slice(&[0x07, 0x00, 0x00, 0x08, 0x00, 0x00, 0x03, 0x00]);
    let (tds, mars) = parse_headers(true, &data, 0, data.len());
    assert!(mars.is_some());
    assert_eq!(tds.unwrap().packet_type, NTPacketType::BulkLoad);
    let (tds, mars) = parse_headers(true, &data, 16, 8);
    assert!(mars.is_none());
    assert_eq!(tds.unwrap().pid, 3);
}

#[test]
fn fin_header_turns_mars_on_and_code_four_does_not() {
    let mut t = TracerState::new();
    let fin = mars_bytes(3);
    let (_, mars) = t.get_headers(false, &fin, 0, 16);
    assert_eq!(mars.unwrap().msg_type, NTMarsMessageType::FIN);
    assert!(t.mars_enabled);
    let mut u = TracerState::new();
    let four = mars_bytes(4);
    let (tds, mars) = u.get_headers(false, &four, 0, 16);
    assert!(mars.is_none());
    assert!(tds.is_none());
    assert!(!u.mars_enabled);
}

#[test]
fn get_headers_turns_mars_on() {
    let mut t = TracerState::new();
    let data = mars_bytes(2);
    let (_, mars) = t.get_headers(false, &data, 0, 16);
    assert!(mars.is_some());
    assert!(t.mars_enabled);
}

#[test]
fn log_file_stem() {
    assert_eq!(uuid_like_random_string(0xAB).unwrap(), "000000AB");
    assert_eq!(uuid_like_random_string(0xDEADBEEF).unwrap(), "DEADBEEF");
}

#[test]
fn clock_and_pid_mixing() {
    assert_eq!(mix_clock_and_pid(0, 0), 12345);
    assert_eq!(mix_clock_and_pid(0xFF, 0x0F), 0xF0 + 12345);
    assert_eq!(mix_clock_and_pid(u128::MAX, 0), 12344);
    let now: u128 = 0x1234_5678_9ABC_DEF0_1122_3344;
    let pid: u128 = 4242;
    assert_eq!(mix_clock_and_pid(now, pid), (now ^ pid).wrapping_add(12345) as u32);
}

#[test]
fn empty_chunk_anywhere() {
    let mut t = TracerState::new();
    let data = vec![0x12u8];
    let o = t.process_data(false, &data, 5, 0);
    assert_eq!(o.text, format!("Exception: partial data with no TDS/MARS header.\n{}", closing()));
    assert_eq!(t.byte_counter, 0);
}

#[test]
fn tds_while_mars_on_reads_only_its_header() {
    let mut t = TracerState::new();
    t.mars_enabled = true;
    let data = vec![0x12u8, 0x01, 0x00, 0x10, 0x00, 0x00, 0x01, 0x00];
    assert_eq!(t.check_chunk(false, &data, 0, 100), ChunkCheck::Accepted);
    let o = t.process_data(false, &data, 0, 100);
    assert_eq!(
        o.text,
        "Error: MARS is enabled, but TDS header arrived without partial MARS header.\n"
    );
}

#[test]
fn chunk_checks() {
    let mut t = TracerState::new();
    let tds = vec![0x12u8, 0x01, 0x00, 0x10, 0x00, 0x00, 0x01, 0x00];
    assert_eq!(t.check_chunk(false, &tds, 0, 8), ChunkCheck::Accepted);
    assert_eq!(t.check_chunk(false, &tds, 0, 9), ChunkCheck::OutOfRange);
    assert_eq!(t.check_chunk(false, &tds, 8, 1), ChunkCheck::OutOfRange);
    assert_eq!(t.check_chunk(false, &tds, 3, 6), ChunkCheck::OutOfRange);
    assert_eq!(t.check_chunk(false, &tds, 9, 0), ChunkCheck::Accepted);
    // Printing off: a plain TDS chunk reads only its header.
    t.print_content = false;
    assert_eq!(t.check_chunk(false, &tds, 0, 50), ChunkCheck::Accepted);
    let o = t.process_data(false, &tds, 0, 50);
    assert!(o.text.contains("# Type:PreLogin, Status:0x01, Length:16, PId:1"));
    t.print_content = true;
    // A MARS header while another one waits.
    let first = mars_bytes(8);
    assert_eq!(t.process_data(false, &first, 0, 16).text, "");
    assert_eq!(t.check_chunk(false, &first, 0, 16), ChunkCheck::PendingCapture);
    // A MARS marker and a long chunk whose 16 header bytes are missing.
    let t2 = TracerState::new();
    assert_eq!(t2.check_chunk(false, &first[..10], 0, 20), ChunkCheck::OutOfRange);
}

#[test]
fn get_headers_of_empty_chunk_anywhere() {
    let mut t = TracerState::new();
    let data = vec![0x53u8];
    let (tds, mars) = t.get_headers(false, &data, 40, 0);
    assert!(tds.is_none());
    assert!(mars.is_none());
    assert!(!t.mars_enabled);
}
