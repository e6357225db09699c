//! TDS and MARS packet headers and their decoding from raw bytes.
use vstd::prelude::*;

verus! {

/// The TDS packet type, the first byte of a TDS header.
#[derive(Copy, Clone, Debug, PartialEq, Eq, Structural)]
pub enum NTPacketType {
    Unknown,
    SqlBatch,
    RpcRequest,
    TabularResult,
    Attention,
    BulkLoad,
    FedAuthToken,
    TransactionManager,
    Login7,
    SSPI,
    PreLogin,
}

/// The packet type that a byte on the wire denotes; every byte that names no
/// known type denotes `Unknown`.
pub open spec fn packet_type_of(b: u8) -> NTPacketType {
    if b == 0x01 {
        NTPacketType::SqlBatch
    } else if b == 0x03 {
        NTPacketType::RpcRequest
    } else if b == 0x04 {
        NTPacketType::TabularResult
    } else if b == 0x06 {
        NTPacketType::Attention
    } else if b == 0x07 {
        NTPacketType::BulkLoad
    } else if b == 0x08 {
        NTPacketType::FedAuthToken
    } else if b == 0x0E {
        NTPacketType::TransactionManager
    } else if b == 0x10 {
        NTPacketType::Login7
    } else if b == 0x11 {
        NTPacketType::SSPI
    } else if b == 0x12 {
        NTPacketType::PreLogin
    } else {
        NTPacketType::Unknown
    }
}

impl NTPacketType {
    /// The byte by which the protocol writes this packet type.
    pub open spec fn wire_code(self) -> u8 {
        match self {
            NTPacketType::Unknown => 0x00,
            NTPacketType::SqlBatch => 0x01,
            NTPacketType::RpcRequest => 0x03,
            NTPacketType::TabularResult => 0x04,
            NTPacketType::Attention => 0x06,
            NTPacketType::BulkLoad => 0x07,
            NTPacketType::FedAuthToken => 0x08,
            NTPacketType::TransactionManager => 0x0E,
            NTPacketType::Login7 => 0x10,
            NTPacketType::SSPI => 0x11,
            NTPacketType::PreLogin => 0x12,
        }
    }
}

impl From<u8> for NTPacketType {
    fn from(value: u8) -> (t: Self) {
        match value {
            0x01 => NTPacketType::SqlBatch,
            0x03 => NTPacketType::RpcRequest,
            0x04 => NTPacketType::TabularResult,
            0x06 => NTPacketType::Attention,
            0x07 => NTPacketType::BulkLoad,
            0x08 => NTPacketType::FedAuthToken,
            0x0E => NTPacketType::TransactionManager,
            0x10 => NTPacketType::Login7,
            0x11 => NTPacketType::SSPI,
            0x12 => NTPacketType::PreLogin,
            _ => NTPacketType::Unknown,
        }
    }
}

impl vstd::std_specs::convert::FromSpecImpl<u8> for NTPacketType {
    open spec fn obeys_from_spec() -> bool {
        true
    }

    open spec fn from_spec(v: u8) -> Self {
        packet_type_of(v)
    }
}

/// Decoding the wire code of a known packet type gives that type back, and
/// the only byte that decodes to a known type is that type's wire code.
pub proof fn lemma_packet_type_code_roundtrip(t: NTPacketType, b: u8)
    ensures
        t != NTPacketType::Unknown ==> packet_type_of(t.wire_code()) == t,
        packet_type_of(b) != NTPacketType::Unknown ==> packet_type_of(b).wire_code() == b,
{
}

/// The status byte of a TDS header, kept as the raw bit set.
#[derive(Copy, Clone, Debug, PartialEq, Eq, Structural)]
pub struct NTPacketStatusFlags(pub u8);

impl NTPacketStatusFlags {
    pub fn from_byte(b: u8) -> (f: Self)
        ensures
            f.0 == b,
    {
        NTPacketStatusFlags(b)
    }
}

/// The 8-byte TDS packet header.
#[derive(Copy, Clone, Debug, PartialEq, Eq, Structural)]
pub struct NTTDSHeader {
    pub packet_type: NTPacketType,
    pub status: NTPacketStatusFlags,
    pub length: u16,
    pub pid: u8,
}

/// A 16-bit big-endian number from its high and low byte.
pub open spec fn be_u16(hi: u8, lo: u8) -> u16 {
    (hi * 256 + lo) as u16
}

/// A 16-bit little-endian number from its low and high byte.
pub open spec fn le_u16(lo: u8, hi: u8) -> u16 {
    (lo + hi * 256) as u16
}

/// The 32-bit little-endian number in the four bytes of `w` from `at` on.
pub open spec fn le_u32(w: Seq<u8>, at: int) -> u32 {
    (w[at] + w[at + 1] * 256 + w[at + 2] * 65536 + w[at + 3] * 16777216) as u32
}

/// The TDS header written in the bytes of `w` from `at` on: the type in the
/// first byte, the status in the second, the length big-endian in the third
/// and fourth, and the packet id in the seventh.
pub open spec fn tds_header_of(w: Seq<u8>, at: int) -> NTTDSHeader {
    NTTDSHeader {
        packet_type: packet_type_of(w[at]),
        status: NTPacketStatusFlags(w[at + 1]),
        length: be_u16(w[at + 2], w[at + 3]),
        pid: w[at + 6],
    }
}

/// A TDS header holds what its bytes say: the packet type that the protocol
/// assigns to the first byte (and `Unknown` for a byte it assigns none), the
/// second byte as status, the third and fourth bytes as a big-endian length,
/// and the seventh byte as packet id.
pub proof fn lemma_tds_header_fields(w: Seq<u8>, at: int)
    ensures
        ({
            let h = tds_header_of(w, at);
            &&& (h.packet_type == NTPacketType::SqlBatch <==> w[at] == 0x01)
            &&& (h.packet_type == NTPacketType::RpcRequest <==> w[at] == 0x03)
            &&& (h.packet_type == NTPacketType::TabularResult <==> w[at] == 0x04)
            &&& (h.packet_type == NTPacketType::Attention <==> w[at] == 0x06)
            &&& (h.packet_type == NTPacketType::BulkLoad <==> w[at] == 0x07)
            &&& (h.packet_type == NTPacketType::FedAuthToken <==> w[at] == 0x08)
            &&& (h.packet_type == NTPacketType::TransactionManager <==> w[at] == 0x0E)
            &&& (h.packet_type == NTPacketType::Login7 <==> w[at] == 0x10)
            &&& (h.packet_type == NTPacketType::SSPI <==> w[at] == 0x11)
            &&& (h.packet_type == NTPacketType::PreLogin <==> w[at] == 0x12)
            &&& h.status.0 == w[at + 1]
            &&& h.length as int == w[at + 2] as int * 256 + w[at + 3] as int
            &&& h.pid == w[at + 6]
        }),
{
    let hi = w[at + 2];
    let lo = w[at + 3];
    assert(0 <= hi * 256 + lo < 65536);
}

impl NTTDSHeader {
    pub fn hydrate(content: &[u8]) -> (h: Self)
        requires
            content@.len() >= 7,
        ensures
            h == tds_header_of(content@, 0),
    {
        let packet_type = NTPacketType::from(content[0]);
        let status = NTPacketStatusFlags::from_byte(content[1]);
        let length: u16 = (content[2] as u16) * 256 + content[3] as u16;
        let pid = content[6];
        NTTDSHeader { packet_type, status, length, pid }
    }
}

/// The message type of a MARS (SMP) header.
#[derive(Copy, Clone, Debug, PartialEq, Eq, Structural)]
pub enum NTMarsMessageType {
    SYN,
    ACK,
    FIN,
    DATA,
    Unknown,
}

/// The MARS message type that a byte on the wire denotes: SYN 0x01, ACK
/// 0x02, FIN 0x03, DATA 0x08; any other byte names no known type.
pub open spec fn mars_type_of(b: u8) -> NTMarsMessageType {
    if b == 1 {
        NTMarsMessageType::SYN
    } else if b == 2 {
        NTMarsMessageType::ACK
    } else if b == 3 {
        NTMarsMessageType::FIN
    } else if b == 8 {
        NTMarsMessageType::DATA
    } else {
        NTMarsMessageType::Unknown
    }
}

impl From<u8> for NTMarsMessageType {
    fn from(value: u8) -> (t: Self) {
        match value {
            1 => NTMarsMessageType::SYN,
            2 => NTMarsMessageType::ACK,
            3 => NTMarsMessageType::FIN,
            8 => NTMarsMessageType::DATA,
            _ => NTMarsMessageType::Unknown,
        }
    }
}

impl vstd::std_specs::convert::FromSpecImpl<u8> for NTMarsMessageType {
    open spec fn obeys_from_spec() -> bool {
        true
    }

    open spec fn from_spec(v: u8) -> Self {
        mars_type_of(v)
    }
}

impl NTMarsMessageType {
    /// The byte by which the protocol writes this message type.
    pub open spec fn wire_code(self) -> u8 {
        match self {
            NTMarsMessageType::SYN => 0x01,
            NTMarsMessageType::ACK => 0x02,
            NTMarsMessageType::FIN => 0x03,
            NTMarsMessageType::DATA => 0x08,
            NTMarsMessageType::Unknown => 0x00,
        }
    }
}

/// Decoding the wire code of a known MARS message type gives that type
/// back, and the only byte that decodes to a known type is its wire code.
pub proof fn lemma_mars_type_code_roundtrip(t: NTMarsMessageType, b: u8)
    ensures
        t != NTMarsMessageType::Unknown ==> mars_type_of(t.wire_code()) == t,
        mars_type_of(b) != NTMarsMessageType::Unknown ==> mars_type_of(b).wire_code() == b,
{
}

/// The 16-byte MARS (SMP) header, with the direction in which it travelled.
#[derive(Copy, Clone, Debug, PartialEq, Eq, Structural)]
pub struct NTMarsHeader {
    pub smid: u8,
    pub msg_type: NTMarsMessageType,
    pub session_id: u16,
    pub length: u32,
    pub sequence_number: u32,
    pub highwater: u32,
    pub sending: bool,
}

/// The MARS header written in the bytes of `w` from `at` on, all numbers
/// little-endian, travelling in the direction `sending`.
pub open spec fn mars_header_of(w: Seq<u8>, at: int, sending: bool) -> NTMarsHeader {
    NTMarsHeader {
        smid: w[at],
        msg_type: mars_type_of(w[at + 1]),
        session_id: le_u16(w[at + 2], w[at + 3]),
        length: le_u32(w, at + 4),
        sequence_number: le_u32(w, at + 8),
        highwater: le_u32(w, at + 12),
        sending,
    }
}

/// A MARS header holds what its bytes say: the first byte as SMID, the
/// message type that the protocol assigns to the second byte (SYN 1, ACK 2,
/// FIN 3, DATA 8, `Unknown` for any other), and the session id, length,
/// sequence number and watermark as little-endian numbers in bytes 2-3, 4-7,
/// 8-11 and 12-15; the direction is the one given.
pub proof fn lemma_mars_header_fields(w: Seq<u8>, at: int, sending: bool)
    ensures
        ({
            let h = mars_header_of(w, at, sending);
            &&& h.smid == w[at]
            &&& (h.msg_type == NTMarsMessageType::SYN <==> w[at + 1] == 1)
            &&& (h.msg_type == NTMarsMessageType::ACK <==> w[at + 1] == 2)
            &&& (h.msg_type == NTMarsMessageType::FIN <==> w[at + 1] == 3)
            &&& (h.msg_type == NTMarsMessageType::DATA <==> w[at + 1] == 8)
            &&& h.session_id as int == w[at + 2] as int + w[at + 3] as int * 256
            &&& h.length as int == w[at + 4] as int + w[at + 5] as int * 256 + w[at + 6] as int
                * 65536 + w[at + 7] as int * 16777216
            &&& h.sequence_number as int == w[at + 8] as int + w[at + 9] as int * 256 + w[at
                + 10] as int * 65536 + w[at + 11] as int * 16777216
            &&& h.highwater as int == w[at + 12] as int + w[at + 13] as int * 256 + w[at + 14] as int
                * 65536 + w[at + 15] as int * 16777216
            &&& h.sending == sending
        }),
{
    assert(0 <= w[at + 2] + w[at + 3] * 256 < 65536);
    assert(0 <= w[at + 4] + w[at + 5] * 256 + w[at + 6] * 65536 + w[at + 7] * 16777216
        < 0x1_0000_0000);
    assert(0 <= w[at + 8] + w[at + 9] * 256 + w[at + 10] * 65536 + w[at + 11] * 16777216
        < 0x1_0000_0000);
    assert(0 <= w[at + 12] + w[at + 13] * 256 + w[at + 14] * 65536 + w[at + 15] * 16777216
        < 0x1_0000_0000);
}

impl NTMarsHeader {
    pub fn new(sending: bool) -> (h: Self)
        ensures
            h == (NTMarsHeader {
                smid: 0,
                msg_type: NTMarsMessageType::Unknown,
                session_id: 0,
                length: 0,
                sequence_number: 0,
                highwater: 0,
                sending,
            }),
    {
        NTMarsHeader {
            smid: 0,
            msg_type: NTMarsMessageType::Unknown,
            session_id: 0,
            length: 0,
            sequence_number: 0,
            highwater: 0,
            sending,
        }
    }

    /// Reads every field but the direction from the first 16 bytes.
    pub fn read(&mut self, bytes: &[u8])
        requires
            bytes@.len() >= 16,
        ensures
            *final(self) == mars_header_of(bytes@, 0, old(self).sending),
    {
        self.smid = bytes[0];
        self.msg_type = NTMarsMessageType::from(bytes[1]);
        self.session_id = bytes[2] as u16 + (bytes[3] as u16) * 256;
        self.length = read_le_u32(bytes, 4);
        self.sequence_number = read_le_u32(bytes, 8);
        self.highwater = read_le_u32(bytes, 12);
    }
}

fn read_le_u32(bytes: &[u8], at: usize) -> (v: u32)
    requires
        at + 4 <= bytes@.len(),
    ensures
        v == le_u32(bytes@, at as int),
{
    bytes[at] as u32 + (bytes[at + 1] as u32) * 256 + (bytes[at + 2] as u32) * 65536 + (bytes[at
        + 3] as u32) * 16777216
}

/// A MARS header together with the bytes captured for it so far.
#[derive(Clone, Debug)]
pub struct NTMarsPacket {
    pub header: NTMarsHeader,
    pub buffer: Vec<u8>,
}

impl NTMarsPacket {
    pub fn new(header: NTMarsHeader, buffer: &[u8], offset: usize, length: usize) -> (p: Self)
        requires
            offset + length <= buffer@.len(),
        ensures
            p.header == header,
            p.buffer@ == buffer@.subrange(offset as int, offset + length),
    {
        let mut data: Vec<u8> = Vec::new();
        append_range(&mut data, buffer, offset, length);
        NTMarsPacket { header, buffer: data }
    }

    /// Appends `length` bytes of `buffer` from `offset` on.
    pub fn merge(&mut self, buffer: &[u8], offset: usize, length: usize)
        requires
            offset + length <= buffer@.len(),
        ensures
            final(self).header == old(self).header,
            final(self).buffer@ == old(self).buffer@ + buffer@.subrange(
                offset as int,
                offset + length,
            ),
    {
        append_range(&mut self.buffer, buffer, offset, length);
    }
}

fn append_range(data: &mut Vec<u8>, buffer: &[u8], offset: usize, length: usize)
    requires
        offset + length <= buffer@.len(),
    ensures
        final(data)@ == old(data)@ + buffer@.subrange(offset as int, offset + length),
{
    let mut i: usize = 0;
    while i < length
        invariant
            i <= length,
            offset + length <= buffer.len(),
            data@ == old(data)@ + buffer@.subrange(offset as int, offset + i),
        decreases length - i,
    {
        data.push(buffer[offset + i]);
        i = i + 1;
        assert(buffer@.subrange(offset as int, offset + i) == buffer@.subrange(
            offset as int,
            offset + i - 1,
        ).push(buffer@[offset + i - 1]));
    }
}

} // verus!
