//! The single-file tracer: it takes a whole buffer, recognises the MARS
//! marker without decoding the MARS header, and prints each TDS packet with
//! a plain hex dump.
use vstd::prelude::*;
use crate::headers::{be_u16, packet_type_of, NTPacketStatusFlags, NTPacketType};
use crate::text::{
    lemma_byte_hex_roundtrip, digits_value, dec, hex_upper, line, packet_type_name, push_dec, push_empty_line, push_hex, push_line,
    push_packet_type_name, status_text,
};

verus! {

/// The TDS header as this tracer keeps it, with the status as a raw byte.
#[derive(Copy, Clone, Debug, PartialEq, Eq, Structural)]
pub struct NTTDSHeader {
    pub packet_type: NTPacketType,
    pub status_flags: u8,
    pub length: u16,
    pub pid: u8,
}

/// The header written in the bytes of `w` from `at` on.
pub open spec fn simple_header_of(w: Seq<u8>, at: int) -> NTTDSHeader {
    NTTDSHeader {
        packet_type: packet_type_of(w[at]),
        status_flags: w[at + 1],
        length: be_u16(w[at + 2], w[at + 3]),
        pid: w[at + 6],
    }
}

/// The one-line rendering of a header.
pub open spec fn simple_header_text(h: NTTDSHeader) -> Seq<char> {
    "# Type: "@ + packet_type_name(h.packet_type) + ", Status: "@ + status_text(h.status_flags)
        + ", Length: "@ + dec(h.length as nat) + ", PId: "@ + dec(h.pid as nat)
}

/// A header holds what its bytes say: the packet type that the protocol
/// assigns to the first byte (`Unknown` for a byte it assigns none), the
/// second byte as status, the third and fourth bytes as a big-endian length,
/// and the seventh byte as packet id.
pub proof fn lemma_simple_header_fields(w: Seq<u8>, at: int)
    ensures
        ({
            let h = simple_header_of(w, at);
            &&& (h.packet_type == NTPacketType::SqlBatch <==> w[at] == 0x01)
            &&& (h.packet_type == NTPacketType::RpcRequest <==> w[at] == 0x03)
            &&& (h.packet_type == NTPacketType::TabularResult <==> w[at] == 0x04)
            &&& (h.packet_type == NTPacketType::Attention <==> w[at] == 0x06)
            &&& (h.packet_type == NTPacketType::BulkLoad <==> w[at] == 0x07)
            &&& (h.packet_type == NTPacketType::FedAuthToken <==> w[at] == 0x08)
            &&& (h.packet_type == NTPacketType::TransactionManager <==> w[at] == 0x0E)
            &&& (h.packet_type == NTPacketType::Login7 <==> w[at] == 0x10)
            &&& (h.packet_type == NTPacketType::SSPI <==> w[at] == 0x11)
            &&& (h.packet_type == NTPacketType::PreLogin <==> w[at] == 0x12)
            &&& h.status_flags == w[at + 1]
            &&& h.length as int == w[at + 2] as int * 256 + w[at + 3] as int
            &&& h.pid == w[at + 6]
        }),
{
    assert(0 <= w[at + 2] * 256 + w[at + 3] < 65536);
}

/// The line of a header starts with the `{:?}` name of the header's own
/// packet type, then gives its status, length and packet id.
pub proof fn lemma_simple_header_text_names_type(h: NTTDSHeader)
    ensures
        ({
            let rest = status_text(h.status_flags) + ", Length: "@ + dec(h.length as nat)
                + ", PId: "@ + dec(h.pid as nat);
            &&& h.packet_type == NTPacketType::Unknown ==> simple_header_text(h)
                == "# Type: Unknown, Status: "@ + rest
            &&& h.packet_type == NTPacketType::SqlBatch ==> simple_header_text(h)
                == "# Type: SqlBatch, Status: "@ + rest
            &&& h.packet_type == NTPacketType::RpcRequest ==> simple_header_text(h)
                == "# Type: RpcRequest, Status: "@ + rest
            &&& h.packet_type == NTPacketType::TabularResult ==> simple_header_text(h)
                == "# Type: TabularResult, Status: "@ + rest
            &&& h.packet_type == NTPacketType::Attention ==> simple_header_text(h)
                == "# Type: Attention, Status: "@ + rest
            &&& h.packet_type == NTPacketType::BulkLoad ==> simple_header_text(h)
                == "# Type: BulkLoad, Status: "@ + rest
            &&& h.packet_type == NTPacketType::FedAuthToken ==> simple_header_text(h)
                == "# Type: FedAuthToken, Status: "@ + rest
            &&& h.packet_type == NTPacketType::TransactionManager ==> simple_header_text(h)
                == "# Type: TransactionManager, Status: "@ + rest
            &&& h.packet_type == NTPacketType::Login7 ==> simple_header_text(h)
                == "# Type: Login7, Status: "@ + rest
            &&& h.packet_type == NTPacketType::SSPI ==> simple_header_text(h)
                == "# Type: SSPI, Status: "@ + rest
            &&& h.packet_type == NTPacketType::PreLogin ==> simple_header_text(h)
                == "# Type: PreLogin, Status: "@ + rest
        }),
{
    reveal_strlit("# Type: ");
    reveal_strlit(", Status: ");
    let rest = status_text(h.status_flags) + ", Length: "@ + dec(h.length as nat) + ", PId: "@
        + dec(h.pid as nat);
    match h.packet_type {
        NTPacketType::Unknown => {
            reveal_strlit("# Type: Unknown, Status: ");
            reveal_strlit("Unknown");
            assert("# Type: "@ + "Unknown"@ + ", Status: "@ =~= "# Type: Unknown, Status: "@);
        },
        NTPacketType::SqlBatch => {
            reveal_strlit("# Type: SqlBatch, Status: ");
            reveal_strlit("SqlBatch");
            assert("# Type: "@ + "SqlBatch"@ + ", Status: "@ =~= "# Type: SqlBatch, Status: "@);
        },
        NTPacketType::RpcRequest => {
            reveal_strlit("# Type: RpcRequest, Status: ");
            reveal_strlit("RpcRequest");
            assert("# Type: "@ + "RpcRequest"@ + ", Status: "@ =~= "# Type: RpcRequest, Status: "@);
        },
        NTPacketType::TabularResult => {
            reveal_strlit("# Type: TabularResult, Status: ");
            reveal_strlit("TabularResult");
            assert("# Type: "@ + "TabularResult"@ + ", Status: "@ =~= "# Type: TabularResult, Status: "@);
        },
        NTPacketType::Attention => {
            reveal_strlit("# Type: Attention, Status: ");
            reveal_strlit("Attention");
            assert("# Type: "@ + "Attention"@ + ", Status: "@ =~= "# Type: Attention, Status: "@);
        },
        NTPacketType::BulkLoad => {
            reveal_strlit("# Type: BulkLoad, Status: ");
            reveal_strlit("BulkLoad");
            assert("# Type: "@ + "BulkLoad"@ + ", Status: "@ =~= "# Type: BulkLoad, Status: "@);
        },
        NTPacketType::FedAuthToken => {
            reveal_strlit("# Type: FedAuthToken, Status: ");
            reveal_strlit("FedAuthToken");
            assert("# Type: "@ + "FedAuthToken"@ + ", Status: "@ =~= "# Type: FedAuthToken, Status: "@);
        },
        NTPacketType::TransactionManager => {
            reveal_strlit("# Type: TransactionManager, Status: ");
            reveal_strlit("TransactionManager");
            assert("# Type: "@ + "TransactionManager"@ + ", Status: "@ =~= "# Type: TransactionManager, Status: "@);
        },
        NTPacketType::Login7 => {
            reveal_strlit("# Type: Login7, Status: ");
            reveal_strlit("Login7");
            assert("# Type: "@ + "Login7"@ + ", Status: "@ =~= "# Type: Login7, Status: "@);
        },
        NTPacketType::SSPI => {
            reveal_strlit("# Type: SSPI, Status: ");
            reveal_strlit("SSPI");
            assert("# Type: "@ + "SSPI"@ + ", Status: "@ =~= "# Type: SSPI, Status: "@);
        },
        NTPacketType::PreLogin => {
            reveal_strlit("# Type: PreLogin, Status: ");
            reveal_strlit("PreLogin");
            assert("# Type: "@ + "PreLogin"@ + ", Status: "@ =~= "# Type: PreLogin, Status: "@);
        },
    }
    assert(simple_header_text(h) =~= ("# Type: "@ + packet_type_name(h.packet_type)
        + ", Status: "@) + rest);
}

impl NTTDSHeader {
    pub fn hydrate(data: &[u8]) -> (h: Self)
        requires
            data@.len() >= 7,
        ensures
            h == simple_header_of(data@, 0),
    {
        let packet_type = NTPacketType::from(data[0]);
        let status_flags = data[1];
        let length: u16 = (data[2] as u16) * 256 + data[3] as u16;
        let pid = data[6];
        NTTDSHeader { packet_type, status_flags, length, pid }
    }

    /// The header on one line: type, status, length and packet id.
    pub fn to_string(&self) -> (r: String)
        ensures
            r@ == simple_header_text(*self),
    {
        let mut s = String::new();
        s.append("# Type: ");
        push_packet_type_name(&mut s, self.packet_type);
        s.append(", Status: ");
        let status = NTPacketStatusFlags(self.status_flags).to_string();
        s.append(status.as_str());
        s.append(", Length: ");
        push_dec(&mut s, self.length as u64);
        s.append(", PId: ");
        push_dec(&mut s, self.pid as u64);
        assert(s@ =~= simple_header_text(*self));
        s
    }
}

/// The first byte of a MARS packet.
pub const MARS_MARKER: u8 = 0x53;

/// The text that the dump writes for the byte `x` at index `i`: each row of
/// sixteen bytes starts on a new line.
pub open spec fn simple_dump_piece(i: nat, x: u8) -> Seq<char> {
    (if i % 16 == 0 {
        seq!['\n']
    } else {
        Seq::<char>::empty()
    }) + hex_upper(x as nat, 2) + " "@
}

/// The dump of `bytes`.
pub open spec fn simple_dump(bytes: Seq<u8>) -> Seq<char>
    decreases bytes.len(),
{
    if bytes.len() == 0 {
        Seq::empty()
    } else {
        simple_dump(bytes.drop_last()) + simple_dump_piece(
            (bytes.len() - 1) as nat,
            bytes.last(),
        )
    }
}

/// The text written for a TDS packet: its header, then (where content is
/// printed) the dump of the whole buffer and a line break.
pub open spec fn simple_tds_text(h: NTTDSHeader, buffer: Seq<u8>, print_content: bool) -> Seq<
    char,
> {
    line("Processing TDS Packet: "@ + simple_header_text(h)) + (if print_content {
        simple_dump(buffer) + seq!['\n']
    } else {
        Seq::empty()
    })
}

/// The dump of the single-file tracer writes each byte as two upper-case hex
/// digits that read back as the byte and a space, and starts a new line
/// before every sixteenth byte (the first one included).
pub proof fn lemma_simple_dump_piece(i: nat, x: u8)
    ensures
        ({
            let p = simple_dump_piece(i, x);
            let k = p.len() as int;
            &&& k == (if i % 16 == 0 {
                4int
            } else {
                3int
            })
            &&& (i % 16 == 0 ==> p[0] == '\n')
            &&& digits_value(p.subrange(k - 3, k - 1), 16) == x
            &&& p[k - 1] == ' '
        }),
{
    reveal_strlit(" ");
    lemma_byte_hex_roundtrip(x);
    let p = simple_dump_piece(i, x);
    let k = p.len() as int;
    let hx = hex_upper(x as nat, 2);
    if i % 16 == 0 {
        assert(p =~= seq!['\n'] + hx + seq![' ']);
    } else {
        assert(p =~= hx + seq![' ']);
    }
    assert(p.subrange(k - 3, k - 1) =~= hx);
}

/// The single-file tracer writes, for a buffer that does not start with the
/// MARS marker, the header at its start; for one that does and is longer
/// than 16 bytes, the header behind the first 16 bytes; for a shorter one
/// nothing. What it writes is the line `Processing TDS Packet: ` with the
/// header line, then (where content is printed) the dump of the whole buffer
/// and a line break.
pub proof fn lemma_simple_output(buffer: Seq<u8>, print_content: bool)
    requires
        simple_accepts(buffer),
    ensures
        ({
            let at: int = if buffer[0] == 0x53 {
                16
            } else {
                0
            };
            &&& (buffer[0] == 0x53 && buffer.len() <= 16) ==> simple_tds_header(buffer) is None
            &&& !(buffer[0] == 0x53 && buffer.len() <= 16) ==> simple_tds_header(buffer) == Some(
                simple_header_of(buffer, at),
            )
            &&& forall|h: NTTDSHeader|
                #![trigger simple_tds_text(h, buffer, print_content)]
                simple_tds_text(h, buffer, print_content) == "Processing TDS Packet: "@
                    + simple_header_text(h) + seq!['\n'] + (if print_content {
                    simple_dump(buffer) + seq!['\n']
                } else {
                    Seq::<char>::empty()
                })
        }),
{
    assert forall|h: NTTDSHeader|
        #![trigger simple_tds_text(h, buffer, print_content)]
        simple_tds_text(h, buffer, print_content) == "Processing TDS Packet: "@ + simple_header_text(
            h,
        ) + seq!['\n'] + (if print_content {
            simple_dump(buffer) + seq!['\n']
        } else {
            Seq::<char>::empty()
        }) by {
        assert(simple_tds_text(h, buffer, print_content) =~= "Processing TDS Packet: "@
            + simple_header_text(h) + seq!['\n'] + (if print_content {
            simple_dump(buffer) + seq!['\n']
        } else {
            Seq::<char>::empty()
        }));
    }
}

/// Written to the error stream where no header is found.
pub open spec fn no_header_message() -> Seq<char> {
    "No valid headers found in data."@
}

/// The tracer's state between buffers.
pub struct SimpleTracerState {
    pub print_content: bool,
    pub mars_enabled: bool,
}

/// What one buffer produces: the text for the standard output and for the
/// error stream.
pub struct SimpleTrace {
    pub out: String,
    pub err: String,
}

/// The buffers that the tracer takes without panicking: a non-empty buffer,
/// with a full TDS header where it does not start with the MARS marker, and a
/// full TDS header behind the MARS header where it goes beyond it.
pub open spec fn simple_accepts(buffer: Seq<u8>) -> bool {
    &&& buffer.len() >= 1
    &&& buffer[0] != MARS_MARKER ==> buffer.len() >= 8
    &&& buffer[0] == MARS_MARKER && buffer.len() > 16 ==> buffer.len() >= 24
}

/// The TDS header that the tracer finds in `buffer`: at the start without the
/// MARS marker, behind the 16-byte MARS header with it.
pub open spec fn simple_tds_header(buffer: Seq<u8>) -> Option<NTTDSHeader> {
    if buffer[0] != MARS_MARKER {
        Some(simple_header_of(buffer, 0))
    } else if buffer.len() > 16 {
        Some(simple_header_of(buffer, 16))
    } else {
        None
    }
}

impl SimpleTracerState {
    pub fn new() -> (t: Self)
        ensures
            t.print_content,
            !t.mars_enabled,
    {
        SimpleTracerState { print_content: true, mars_enabled: false }
    }

    fn parse_mars_header(&self, _buffer: &[u8]) -> (r: Option<()>)
        ensures
            r is None,
    {
        None
    }

    /// Traces one buffer. The MARS marker turns MARS on for good.
    pub fn process_data(&mut self, is_sending: bool, buffer: &[u8]) -> (t: SimpleTrace)
        requires
            simple_accepts(buffer@),
        ensures
            final(self).print_content == old(self).print_content,
            final(self).mars_enabled == (old(self).mars_enabled || buffer@[0] == MARS_MARKER),
            t.out@ == (match simple_tds_header(buffer@) {
                Some(h) => simple_tds_text(h, buffer@, old(self).print_content),
                None => Seq::empty(),
            }),
            t.err@ == Seq::<char>::empty(),
    {
        let mut out = String::new();
        let mut err = String::new();
        let mut mars_header: Option<Option<()>> = None;
        let mut tds_header: Option<NTTDSHeader> = None;
        if buffer[0] == MARS_MARKER {
            mars_header = Some(self.parse_mars_header(buffer));
            self.mars_enabled = true;
        }
        if mars_header.is_none() {
            tds_header = Some(NTTDSHeader::hydrate(vstd::slice::slice_subrange(buffer, 0, 8)));
            assert(simple_header_of(buffer@.subrange(0, 8), 0) == simple_header_of(buffer@, 0));
        } else if buffer.len() > 16 {
            tds_header = Some(NTTDSHeader::hydrate(vstd::slice::slice_subrange(buffer, 16, 24)));
            assert(simple_header_of(buffer@.subrange(16, 24), 0) == simple_header_of(buffer@, 16));
        }
        if tds_header.is_none() && mars_header.is_none() {
            push_line(&mut err, "No valid headers found in data.");
        }
        if let Some(tds) = tds_header {
            self.handle_tds_packet(&mut out, buffer, &tds);
        }
        SimpleTrace { out, err }
    }

    fn handle_tds_packet(&self, s: &mut String, buffer: &[u8], header: &NTTDSHeader)
        ensures
            final(s)@ == old(s)@ + simple_tds_text(*header, buffer@, self.print_content),
    {
        let ghost before = s@;
        s.append("Processing TDS Packet: ");
        let head = header.to_string();
        s.append(head.as_str());
        push_empty_line(s);
        let ghost mid = s@;
        assert(mid =~= before + line("Processing TDS Packet: "@ + simple_header_text(*header)));
        if self.print_content {
            let mut i: usize = 0;
            while i < buffer.len()
                invariant
                    i <= buffer@.len(),
                    s@ == mid + simple_dump(buffer@.take(i as int)),
                decreases buffer.len() - i,
            {
                let byte = buffer[i];
                let ghost pre = s@;
                if i % 16 == 0 {
                    push_empty_line(s);
                }
                push_hex(s, byte as u64, 2, true);
                s.append(" ");
                assert(s@ =~= pre + simple_dump_piece(i as nat, byte));
                i = i + 1;
                assert(buffer@.take(i as int).drop_last() =~= buffer@.take(i - 1));
            }
            assert(buffer@.take(buffer@.len() as int) =~= buffer@);
            push_empty_line(s);
        }
        assert(s@ =~= before + simple_tds_text(*header, buffer@, self.print_content));
    }
}

} // verus!
