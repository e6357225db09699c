//! The tracer's decisions: which headers a chunk of traffic carries, what
//! is written for it, and the MARS state that spans chunks.
//!
//! Each chunk is handed to `TracerState::process_data`, which returns the
//! text to write (the same text goes to the log file and to the console) and
//! whether the log is to be flushed after it.
use vstd::prelude::*;
use vstd::slice::slice_subrange;
use crate::headers::{
    mars_header_of, mars_type_of, packet_type_of, tds_header_of, NTMarsHeader,
    NTMarsMessageType, NTMarsPacket, NTPacketType, NTTDSHeader,
};
use crate::text::{
    dump, hex_upper, line, mars_header_text, push_dump_piece, push_empty_line, push_hex, push_line, push_rule, rule, tds_header_text,
};

verus! {

/// The first byte of a MARS (SMP) header.
pub const MARS_MARKER: u8 = 0x53;

/// The width of the rules around a packet.
pub const RULE_WIDTH: usize = 80;

/// The bytes `offset .. offset + length` of `buffer`: the chunk that a call
/// traces (empty where `length` is zero, whatever `offset` is).
pub open spec fn window(buffer: Seq<u8>, offset: int, length: int) -> Seq<u8> {
    if length == 0 {
        Seq::empty()
    } else {
        buffer.subrange(offset, offset + length)
    }
}

/// The headers at the start of the chunk of `length` bytes from `offset` in
/// `b`: a MARS header where the chunk has 16 bytes, starts with the marker
/// and names a known message type; then a TDS header of a known type at the
/// start (without MARS header) or after the MARS header, where the chunk is
/// long enough.
pub open spec fn spec_headers_in(is_sending: bool, b: Seq<u8>, offset: int, length: int) -> (
    Option<NTTDSHeader>,
    Option<NTMarsHeader>,
) {
    let mars = if length >= 16 && b[offset] == MARS_MARKER && mars_type_of(b[offset + 1])
        != NTMarsMessageType::Unknown {
        Some(mars_header_of(b, offset, is_sending))
    } else {
        None
    };
    let tds = if mars is None {
        if length >= 8 && packet_type_of(b[offset]) != NTPacketType::Unknown {
            Some(tds_header_of(b, offset))
        } else {
            None
        }
    } else {
        if length >= 24 && packet_type_of(b[offset + 16]) != NTPacketType::Unknown {
            Some(tds_header_of(b, offset + 16))
        } else {
            None
        }
    };
    (tds, mars)
}

/// The headers at the start of the chunk `w`.
pub open spec fn spec_headers(is_sending: bool, w: Seq<u8>) -> (
    Option<NTTDSHeader>,
    Option<NTMarsHeader>,
) {
    spec_headers_in(is_sending, w, 0, w.len() as int)
}

/// Every byte that reading the headers looks at lies in `b`: the first byte
/// of a non-empty chunk, the 16 bytes of a MARS header where the chunk starts
/// with the marker and is long enough for one, and the 8 bytes of the TDS
/// header looked for (where the chunk is long enough for it).
pub open spec fn headers_readable(is_sending: bool, b: Seq<u8>, offset: int, length: int) -> bool {
    length == 0 || {
        let mars = spec_headers_in(is_sending, b, offset, length).1;
        &&& 0 <= offset < b.len()
        &&& (b[offset] == MARS_MARKER && length >= 16 ==> offset + 16 <= b.len())
        &&& (mars is None && length >= 8 ==> offset + 8 <= b.len())
        &&& (mars is Some && length >= 24 ==> offset + 24 <= b.len())
    }
}

/// The chunk lies in `b`.
pub open spec fn chunk_fits(b: Seq<u8>, offset: int, length: int) -> bool {
    length == 0 || (0 <= offset && offset + length <= b.len())
}

/// Reads the headers at the start of the chunk `offset .. offset + length`.
pub fn parse_headers(is_sending: bool, buffer: &[u8], offset: usize, length: usize) -> (r: (
    Option<NTTDSHeader>,
    Option<NTMarsHeader>,
))
    requires
        headers_readable(is_sending, buffer@, offset as int, length as int),
    ensures
        r == spec_headers_in(is_sending, buffer@, offset as int, length as int),
{
    let ghost b = buffer@;
    let mut mars_header: Option<NTMarsHeader> = None;
    let mut tds_header: Option<NTTDSHeader> = None;
    if length > 0 && buffer[offset] == MARS_MARKER && length >= 16 {
        let mut mh = NTMarsHeader::new(is_sending);
        let head = slice_subrange(buffer, offset, offset + 16);
        mh.read(head);
        assert(mars_header_of(head@, 0, is_sending) == mars_header_of(b, offset as int, is_sending));
        match mh.msg_type {
            NTMarsMessageType::SYN
            | NTMarsMessageType::ACK
            | NTMarsMessageType::FIN
            | NTMarsMessageType::DATA => {
                mars_header = Some(mh);
            },
            _ => {},
        }
    }
    assert(mars_header == spec_headers_in(is_sending, b, offset as int, length as int).1);
    if mars_header.is_none() {
        if length >= 8 {
            let head = slice_subrange(buffer, offset, offset + 8);
            let th = NTTDSHeader::hydrate(head);
            assert(tds_header_of(head@, 0) == tds_header_of(b, offset as int));
            if th.packet_type != NTPacketType::Unknown {
                tds_header = Some(th);
            }
        }
    } else {
        if length >= 24 {
            let head = slice_subrange(buffer, offset + 16, offset + 24);
            let th = NTTDSHeader::hydrate(head);
            assert(tds_header_of(head@, 0) == tds_header_of(b, offset + 16));
            if th.packet_type != NTPacketType::Unknown {
                tds_header = Some(th);
            }
        }
    }
    (tds_header, mars_header)
}

/// Whether every byte that reading the headers looks at lies in `buffer`.
fn headers_in_range(is_sending: bool, buffer: &[u8], offset: usize, length: usize) -> (ok: bool)
    ensures
        ok == headers_readable(is_sending, buffer@, offset as int, length as int),
{
    if length == 0 {
        return true;
    }
    if offset >= buffer.len() {
        return false;
    }
    let room = buffer.len() - offset;
    if buffer[offset] == MARS_MARKER && length >= 16 {
        if room < 16 {
            return false;
        }
        if NTMarsMessageType::from(buffer[offset + 1]) != NTMarsMessageType::Unknown {
            return length < 24 || room >= 24;
        }
    }
    length < 8 || room >= 8
}

/// What the tracer keeps between chunks, as plain values.
pub struct TracerView {
    pub print_content: bool,
    pub byte_counter: nat,
    pub mars_enabled: bool,
    /// A MARS header that arrived without its TDS packet, and the bytes
    /// captured with it.
    pub capture: Option<(NTMarsHeader, Seq<u8>)>,
}

/// What one chunk does: the state after it, the text written for it, and
/// whether the log is flushed after the text.
pub struct Step {
    pub state: TracerView,
    pub text: Seq<char>,
    pub flush: bool,
}

/// Written for a chunk that starts with no known header.
pub open spec fn no_header_message() -> Seq<char> {
    "Exception: partial data with no TDS/MARS header."@
}

/// Written for a TDS packet while MARS is on and no MARS header waits.
pub open spec fn orphan_tds_message() -> Seq<char> {
    "Error: MARS is enabled, but TDS header arrived without partial MARS header."@
}

/// Written where neither header was found although one was expected.
pub open spec fn unrecognized_message() -> Seq<char> {
    "No recognized MARS or TDS header??"@
}

/// The hex dump, where the tracer prints content.
pub open spec fn content_text(print_content: bool, bytes: Seq<u8>) -> Seq<char> {
    if print_content {
        dump(bytes)
    } else {
        Seq::empty()
    }
}

/// The lines that close a packet: an empty line, a rule of dashes, an empty
/// line.
pub open spec fn closing_text() -> Seq<char> {
    line(Seq::empty()) + line(rule('-', 80)) + line(Seq::empty())
}

/// The text written for a TDS packet.
pub open spec fn tds_block(h: NTTDSHeader, bytes: Seq<u8>, print_content: bool) -> Seq<char> {
    line(Seq::empty()) + line(rule('=', 80)) + line(tds_header_text(h)) + line(rule('=', 80))
        + content_text(print_content, bytes) + closing_text()
}

/// The text written for a MARS data packet and the TDS packet inside it.
pub open spec fn mars_data_block(
    th: NTTDSHeader,
    mh: NTMarsHeader,
    bytes: Seq<u8>,
    print_content: bool,
) -> Seq<char> {
    line(Seq::empty()) + line(Seq::empty()) + line(rule('=', 80)) + line(mars_header_text(mh))
        + line(tds_header_text(th)) + line(rule('=', 80)) + content_text(print_content, bytes)
        + closing_text()
}

/// The text written for a MARS control packet.
pub open spec fn mars_control_block(mh: NTMarsHeader, bytes: Seq<u8>, print_content: bool) -> Seq<
    char,
> {
    line(Seq::empty()) + line(Seq::empty()) + line(rule('=', 80)) + line(mars_header_text(mh))
        + line(rule('=', 80)) + content_text(print_content, bytes) + closing_text()
}

/// The text written for a chunk with no header.
pub open spec fn partial_block(bytes: Seq<u8>, print_content: bool) -> Seq<char> {
    if print_content {
        dump(bytes) + closing_text()
    } else {
        Seq::empty()
    }
}

/// The byte counter after a dump of `n` bytes (it starts from zero, and
/// counts only where content is printed).
pub open spec fn counter_after(print_content: bool, n: nat) -> nat {
    if print_content {
        n
    } else {
        0
    }
}

/// `s` after a dump of `bytes`.
pub open spec fn after_dump(s: TracerView, bytes: Seq<u8>) -> TracerView {
    TracerView { byte_counter: counter_after(s.print_content, bytes.len()), ..s }
}

/// A MARS packet with the TDS header `th` in it: data is written with both
/// headers and flushed, any other message type as a control packet.
pub open spec fn mars_step(s: TracerView, th: NTTDSHeader, mh: NTMarsHeader, bytes: Seq<u8>) -> Step {
    if mh.msg_type == NTMarsMessageType::DATA {
        Step {
            state: after_dump(s, bytes),
            text: mars_data_block(th, mh, bytes, s.print_content),
            flush: true,
        }
    } else {
        Step {
            state: after_dump(s, bytes),
            text: mars_control_block(mh, bytes, s.print_content),
            flush: false,
        }
    }
}

/// What tracing the chunk of `length` bytes from `offset` in `b` does from
/// the state `s`.
pub open spec fn spec_process_at(
    s: TracerView,
    is_sending: bool,
    b: Seq<u8>,
    offset: int,
    length: int,
) -> Step {
    let w = window(b, offset, length);
    let (tds, mars) = spec_headers_in(is_sending, b, offset, length);
    let s1 = TracerView { mars_enabled: s.mars_enabled || mars is Some, ..s };
    if tds is None && mars is None {
        Step {
            state: after_dump(s1, w),
            text: line(no_header_message()) + partial_block(w, s.print_content),
            flush: false,
        }
    } else if !s1.mars_enabled {
        Step {
            state: after_dump(s1, w),
            text: tds_block(tds.unwrap(), w, s.print_content),
            flush: true,
        }
    } else {
        match (mars, tds) {
            (Some(mh), None) => Step {
                state: TracerView { capture: Some((mh, w)), ..s1 },
                text: Seq::empty(),
                flush: false,
            },
            (None, Some(th)) => match s1.capture {
                Some((mh2, captured)) => mars_step(
                    TracerView { capture: None, ..s1 },
                    th,
                    mh2,
                    captured + w,
                ),
                None => Step { state: s1, text: line(orphan_tds_message()), flush: false },
            },
            (Some(mh), Some(th)) => mars_step(s1, th, mh, w),
            (None, None) => Step { state: s1, text: line(unrecognized_message()), flush: false },
        }
    }
}

/// What tracing the chunk `w` (as a buffer of its own) does from `s`.
pub open spec fn spec_process(s: TracerView, is_sending: bool, w: Seq<u8>) -> Step {
    spec_process_at(s, is_sending, w, 0, w.len() as int)
}

/// Tracing a chunk stops with a panic where a MARS header arrives while an
/// earlier one still waits for its TDS packet.
pub open spec fn spec_process_panics(
    s: TracerView,
    is_sending: bool,
    b: Seq<u8>,
    offset: int,
    length: int,
) -> bool {
    s.capture is Some && spec_headers_in(is_sending, b, offset, length).1 is Some
}

/// Whether tracing the chunk reads all of its bytes (beyond the headers):
/// to dump them where content is printed, or to capture or join them.
pub open spec fn reads_chunk(
    s: TracerView,
    is_sending: bool,
    b: Seq<u8>,
    offset: int,
    length: int,
) -> bool {
    let (tds, mars) = spec_headers_in(is_sending, b, offset, length);
    if tds is None && mars is None {
        s.print_content
    } else if !(s.mars_enabled || mars is Some) {
        s.print_content
    } else {
        match (mars, tds) {
            (Some(_), None) => true,
            (None, Some(_)) => s.capture is Some,
            (Some(_), Some(_)) => s.print_content,
            (None, None) => false,
        }
    }
}

/// The chunks that tracing takes without a panic: every byte it reads lies in
/// the buffer, and no MARS header arrives while another one waits.
pub open spec fn spec_process_accepts(
    s: TracerView,
    is_sending: bool,
    b: Seq<u8>,
    offset: int,
    length: int,
) -> bool {
    &&& headers_readable(is_sending, b, offset, length)
    &&& !spec_process_panics(s, is_sending, b, offset, length)
    &&& reads_chunk(s, is_sending, b, offset, length) ==> chunk_fits(b, offset, length)
}

/// Why tracing a chunk would stop, in the order in which it would.
#[derive(Copy, Clone, Debug, PartialEq, Eq, Structural)]
pub enum ChunkCheck {
    /// Tracing runs to its end.
    Accepted,
    /// A byte that tracing reads lies outside the buffer.
    OutOfRange,
    /// A MARS header arrives while an earlier one waits for its TDS packet.
    PendingCapture,
}

/// The outcome of the check of a chunk.
pub open spec fn spec_check_chunk(
    s: TracerView,
    is_sending: bool,
    b: Seq<u8>,
    offset: int,
    length: int,
) -> ChunkCheck {
    if !headers_readable(is_sending, b, offset, length) {
        ChunkCheck::OutOfRange
    } else if spec_process_panics(s, is_sending, b, offset, length) {
        ChunkCheck::PendingCapture
    } else if reads_chunk(s, is_sending, b, offset, length) && !chunk_fits(b, offset, length) {
        ChunkCheck::OutOfRange
    } else {
        ChunkCheck::Accepted
    }
}

/// The text that a chunk produces, and whether the log is flushed after it.
pub struct Trace {
    pub text: String,
    pub flush: bool,
}

/// The tracer's state between chunks.
pub struct TracerState {
    pub print_content: bool,
    pub byte_counter: usize,
    pub mars_enabled: bool,
    pub capture_packet: Option<NTMarsPacket>,
}

impl View for TracerState {
    type V = TracerView;

    open spec fn view(&self) -> TracerView {
        TracerView {
            print_content: self.print_content,
            byte_counter: self.byte_counter as nat,
            mars_enabled: self.mars_enabled,
            capture: match self.capture_packet {
                Some(p) => Some((p.header, p.buffer@)),
                None => None,
            },
        }
    }
}

/// The state of a new tracer: content printed, MARS off, nothing captured.
pub open spec fn initial_view() -> TracerView {
    TracerView { print_content: true, byte_counter: 0, mars_enabled: false, capture: None }
}

impl TracerState {
    pub fn new() -> (t: Self)
        ensures
            t@ == initial_view(),
    {
        TracerState {
            print_content: true,
            byte_counter: 0,
            mars_enabled: false,
            capture_packet: None,
        }
    }

    /// Reads the headers of the chunk; a MARS header turns MARS on.
    pub fn get_headers(&mut self, is_sending: bool, buffer: &[u8], offset: usize, length: usize) -> (r: (
        Option<NTTDSHeader>,
        Option<NTMarsHeader>,
    ))
        requires
            headers_readable(is_sending, buffer@, offset as int, length as int),
        ensures
            r == spec_headers_in(is_sending, buffer@, offset as int, length as int),
            final(self)@ == (TracerView {
                mars_enabled: old(self)@.mars_enabled || r.1 is Some,
                ..old(self)@
            }),
    {
        let r = parse_headers(is_sending, buffer, offset, length);
        if r.1.is_some() {
            self.mars_enabled = true;
        }
        r
    }

    /// Tells whether tracing the chunk would run to its end, and if not, why
    /// it would stop first.
    pub fn check_chunk(&self, is_sending: bool, buffer: &[u8], offset: usize, length: usize) -> (c:
        ChunkCheck)
        ensures
            c == spec_check_chunk(self@, is_sending, buffer@, offset as int, length as int),
            (c == ChunkCheck::Accepted) == spec_process_accepts(
                self@,
                is_sending,
                buffer@,
                offset as int,
                length as int,
            ),
    {
        if !headers_in_range(is_sending, buffer, offset, length) {
            return ChunkCheck::OutOfRange;
        }
        let (tds, mars) = parse_headers(is_sending, buffer, offset, length);
        if self.capture_packet.is_some() && mars.is_some() {
            return ChunkCheck::PendingCapture;
        }
        let reads = if tds.is_none() && mars.is_none() {
            self.print_content
        } else if !(self.mars_enabled || mars.is_some()) {
            self.print_content
        } else if mars.is_some() && tds.is_none() {
            true
        } else if mars.is_none() && tds.is_some() {
            self.capture_packet.is_some()
        } else {
            self.print_content
        };
        let fits = length == 0 || (offset <= buffer.len() && length <= buffer.len() - offset);
        if reads && !fits {
            ChunkCheck::OutOfRange
        } else {
            ChunkCheck::Accepted
        }
    }

    fn reset_byte_counter(&mut self)
        ensures
            final(self)@ == (TracerView { byte_counter: 0, ..old(self)@ }),
    {
        self.byte_counter = 0;
    }

    /// Appends the hex dump of the chunk where content is printed, counting
    /// the bytes from zero.
    fn write_content(&mut self, s: &mut String, buffer: &[u8], offset: usize, length: usize)
        requires
            old(self).print_content ==> offset + length <= buffer@.len(),
            old(self).byte_counter == 0,
        ensures
            final(s)@ == old(s)@ + content_text(
                old(self).print_content,
                window(buffer@, offset as int, length as int),
            ),
            final(self)@ == after_dump(old(self)@, window(buffer@, offset as int, length as int)),
    {
        let ghost w = window(buffer@, offset as int, length as int);
        let ghost before = s@;
        if self.print_content {
            let mut i: usize = 0;
            while i < length
                invariant
                    i <= length,
                    offset + length <= buffer.len(),
                    self.byte_counter == i,
                    self.print_content == old(self).print_content,
                    self.mars_enabled == old(self).mars_enabled,
                    self.capture_packet == old(self).capture_packet,
                    w == window(buffer@, offset as int, length as int),
                    s@ == before + dump(w.take(i as int)),
                decreases length - i,
            {
                let x = buffer[offset + i];
                push_dump_piece(s, self.byte_counter, x);
                self.byte_counter = self.byte_counter + 1;
                i = i + 1;
                assert(w.take(i as int).drop_last() =~= w.take(i - 1));
            }
            assert(w.take(length as int) =~= w);
        }
    }

    fn write_closing(s: &mut String)
        ensures
            final(s)@ == old(s)@ + closing_text(),
    {
        let ghost before = s@;
        push_empty_line(s);
        push_rule_line(s, '-');
        push_empty_line(s);
        assert(s@ =~= before + closing_text());
    }

    fn handle_tds_packet(
        &mut self,
        s: &mut String,
        buffer: &[u8],
        offset: usize,
        length: usize,
        tds_header: &NTTDSHeader,
    )
        requires
            old(self).print_content ==> offset + length <= buffer@.len(),
        ensures
            final(s)@ == old(s)@ + tds_block(
                *tds_header,
                window(buffer@, offset as int, length as int),
                old(self).print_content,
            ),
            final(self)@ == after_dump(old(self)@, window(buffer@, offset as int, length as int)),
    {
        let ghost before = s@;
        self.reset_byte_counter();
        push_empty_line(s);
        push_rule_line(s, '=');
        let head = tds_header.to_string();
        push_line(s, head.as_str());
        push_rule_line(s, '=');
        self.write_content(s, buffer, offset, length);
        Self::write_closing(s);
        assert(s@ =~= before + tds_block(
            *tds_header,
            window(buffer@, offset as int, length as int),
            old(self).print_content,
        ));
    }

    fn handle_mars_control_packet(
        &mut self,
        s: &mut String,
        buffer: &[u8],
        offset: usize,
        length: usize,
        mars_header: &NTMarsHeader,
    )
        requires
            old(self).print_content ==> offset + length <= buffer@.len(),
        ensures
            final(s)@ == old(s)@ + mars_control_block(
                *mars_header,
                window(buffer@, offset as int, length as int),
                old(self).print_content,
            ),
            final(self)@ == after_dump(old(self)@, window(buffer@, offset as int, length as int)),
    {
        let ghost before = s@;
        self.reset_byte_counter();
        push_empty_line(s);
        push_empty_line(s);
        push_rule_line(s, '=');
        let head = mars_header.to_string();
        push_line(s, head.as_str());
        push_rule_line(s, '=');
        self.write_content(s, buffer, offset, length);
        Self::write_closing(s);
        assert(s@ =~= before + mars_control_block(
            *mars_header,
            window(buffer@, offset as int, length as int),
            old(self).print_content,
        ));
    }

    fn handle_mars_packet(
        &mut self,
        s: &mut String,
        buffer: &[u8],
        offset: usize,
        length: usize,
        tds_header: &NTTDSHeader,
        mars_header: &NTMarsHeader,
    ) -> (flush: bool)
        requires
            old(self).print_content ==> offset + length <= buffer@.len(),
        ensures
            ({
                let step = mars_step(
                    old(self)@,
                    *tds_header,
                    *mars_header,
                    window(buffer@, offset as int, length as int),
                );
                &&& final(s)@ == old(s)@ + step.text
                &&& final(self)@ == step.state
                &&& flush == step.flush
            }),
    {
        match mars_header.msg_type {
            NTMarsMessageType::DATA => {
                let ghost before = s@;
                self.reset_byte_counter();
                push_empty_line(s);
                push_empty_line(s);
                push_rule_line(s, '=');
                let mhead = mars_header.to_string();
                push_line(s, mhead.as_str());
                let thead = tds_header.to_string();
                push_line(s, thead.as_str());
                push_rule_line(s, '=');
                self.write_content(s, buffer, offset, length);
                Self::write_closing(s);
                assert(s@ =~= before + mars_data_block(
                    *tds_header,
                    *mars_header,
                    window(buffer@, offset as int, length as int),
                    old(self).print_content,
                ));
                true
            },
            _ => {
                self.handle_mars_control_packet(s, buffer, offset, length, mars_header);
                false
            },
        }
    }

    fn pretty_print_partial_data(&mut self, s: &mut String, buffer: &[u8], offset: usize, length: usize)
        requires
            old(self).print_content ==> offset + length <= buffer@.len(),
        ensures
            final(s)@ == old(s)@ + partial_block(
                window(buffer@, offset as int, length as int),
                old(self).print_content,
            ),
            final(self)@ == after_dump(old(self)@, window(buffer@, offset as int, length as int)),
    {
        let ghost before = s@;
        self.reset_byte_counter();
        if self.print_content {
            self.write_content(s, buffer, offset, length);
            Self::write_closing(s);
            assert(s@ =~= before + partial_block(
                window(buffer@, offset as int, length as int),
                old(self).print_content,
            ));
        } else {
            assert(s@ =~= before + partial_block(
                window(buffer@, offset as int, length as int),
                old(self).print_content,
            ));
        }
    }

    /// Traces the chunk `offset .. offset + length` of `buffer`.
    pub fn process_data(&mut self, is_sending: bool, buffer: &[u8], offset: usize, length: usize) -> (t: Trace)
        requires
            spec_process_accepts(old(self)@, is_sending, buffer@, offset as int, length as int),
        ensures
            ({
                let step = spec_process_at(
                    old(self)@,
                    is_sending,
                    buffer@,
                    offset as int,
                    length as int,
                );
                &&& t.text@ == step.text
                &&& t.flush == step.flush
                &&& final(self)@ == step.state
            }),
    {
        let ghost given_offset = offset as int;
        // An empty chunk reads no byte, wherever it starts.
        let offset = if length == 0 {
            0
        } else {
            offset
        };
        assert(spec_process_at(self@, is_sending, buffer@, offset as int, length as int)
            == spec_process_at(self@, is_sending, buffer@, given_offset, length as int));
        assert(spec_process_accepts(self@, is_sending, buffer@, offset as int, length as int));
        let mut s = String::new();
        let (mut tds_header, mut mars_header) = self.get_headers(is_sending, buffer, offset, length);
        if tds_header.is_none() && mars_header.is_none() {
            push_line(&mut s, "Exception: partial data with no TDS/MARS header.");
            self.pretty_print_partial_data(&mut s, buffer, offset, length);
            return Trace { text: s, flush: false };
        }
        if !self.mars_enabled {
            let mut flush = false;
            if let Some(th) = tds_header.take() {
                self.handle_tds_packet(&mut s, buffer, offset, length, &th);
                flush = true;
            }
            return Trace { text: s, flush };
        }
        match (mars_header.take(), tds_header.take()) {
            (Some(mh), None) => {
                self.capture_packet = Some(NTMarsPacket::new(mh, buffer, offset, length));
                Trace { text: s, flush: false }
            },
            (None, Some(th)) => {
                match self.capture_packet.take() {
                    Some(mut existing) => {
                        existing.merge(buffer, offset, length);
                        let final_buf = existing.buffer;
                        let mars_header_2 = existing.header;
                        let len = final_buf.len();
                        assert(window(final_buf@, 0, len as int) =~= final_buf@);
                        let flush = self.handle_mars_packet(
                            &mut s,
                            final_buf.as_slice(),
                            0,
                            len,
                            &th,
                            &mars_header_2,
                        );
                        Trace { text: s, flush }
                    },
                    None => {
                        push_line(
                            &mut s,
                            "Error: MARS is enabled, but TDS header arrived without partial MARS header.",
                        );
                        Trace { text: s, flush: false }
                    },
                }
            },
            (Some(mh), Some(th)) => {
                let flush = self.handle_mars_packet(&mut s, buffer, offset, length, &th, &mh);
                Trace { text: s, flush }
            },
            (None, None) => {
                push_line(&mut s, "No recognized MARS or TDS header??");
                Trace { text: s, flush: false }
            },
        }
    }
}

/// After a chunk, MARS is on exactly where it was on before or the chunk
/// starts with a MARS header: tracing never turns MARS off again. Whether
/// content is printed never changes.
pub proof fn lemma_mars_stays_enabled(
    s: TracerView,
    is_sending: bool,
    b: Seq<u8>,
    offset: int,
    length: int,
)
    ensures
        spec_process_at(s, is_sending, b, offset, length).state.mars_enabled == (s.mars_enabled
            || spec_headers_in(is_sending, b, offset, length).1 is Some),
        s.mars_enabled ==> spec_process_at(s, is_sending, b, offset, length).state.mars_enabled,
        spec_process_at(s, is_sending, b, offset, length).state.print_content == s.print_content,
{
}

/// A captured MARS header only exists while MARS is on: every chunk keeps
/// that so.
pub proof fn lemma_capture_implies_mars(
    s: TracerView,
    is_sending: bool,
    b: Seq<u8>,
    offset: int,
    length: int,
)
    requires
        s.capture is Some ==> s.mars_enabled,
    ensures
        spec_process_at(s, is_sending, b, offset, length).state.capture is Some
            ==> spec_process_at(s, is_sending, b, offset, length).state.mars_enabled,
{
}

/// A MARS packet of any type but data is written as a control packet: with
/// its MARS header alone, and without a flush.
pub proof fn lemma_mars_control_step(
    s: TracerView,
    th: NTTDSHeader,
    mh: NTMarsHeader,
    bytes: Seq<u8>,
)
    requires
        mh.msg_type != NTMarsMessageType::DATA,
    ensures
        mars_step(s, th, mh, bytes) == (Step {
            state: after_dump(s, bytes),
            text: mars_control_block(mh, bytes, s.print_content),
            flush: false,
        }),
{
}

/// A chunk without a known header changes neither the MARS switch nor the
/// capture.
pub proof fn lemma_no_header_keeps_mars_state(s: TracerView, is_sending: bool, w: Seq<u8>)
    requires
        spec_headers(is_sending, w).0 is None,
        spec_headers(is_sending, w).1 is None,
    ensures
        spec_process(s, is_sending, w).state.mars_enabled == s.mars_enabled,
        spec_process(s, is_sending, w).state.capture == s.capture,
        spec_process(s, is_sending, w).text == line(no_header_message()) + partial_block(
            w,
            s.print_content,
        ),
{
    assert(window(w, 0, w.len() as int) =~= w);
}

/// A MARS header that arrives alone is held back, written nothing for, and
/// joined with the next chunk that carries a TDS header: that chunk writes
/// the MARS packet over the bytes of both chunks and releases the capture.
pub proof fn lemma_split_mars_packet_joined(
    s: TracerView,
    is_sending1: bool,
    w1: Seq<u8>,
    is_sending2: bool,
    w2: Seq<u8>,
)
    requires
        s.capture is None,
        spec_headers(is_sending1, w1).1 is Some,
        spec_headers(is_sending1, w1).0 is None,
        spec_headers(is_sending2, w2).1 is None,
        spec_headers(is_sending2, w2).0 is Some,
    ensures
        ({
            let first = spec_process(s, is_sending1, w1);
            let second = spec_process(first.state, is_sending2, w2);
            let mh = spec_headers(is_sending1, w1).1.unwrap();
            let th = spec_headers(is_sending2, w2).0.unwrap();
            &&& first.text == Seq::<char>::empty()
            &&& !first.flush
            &&& first.state.capture == Some((mh, w1))
            &&& first.state.mars_enabled
            &&& second.state.capture is None
            &&& second.state.mars_enabled
            &&& second == mars_step(
                TracerView { capture: None, ..first.state },
                th,
                mh,
                w1 + w2,
            )
        }),
{
    assert(window(w1, 0, w1.len() as int) =~= w1);
    assert(window(w2, 0, w2.len() as int) =~= w2);
}

/// While MARS is off, a chunk with a TDS header and no MARS header is written
/// as a TDS packet and flushed, and the byte counter ends at the number of
/// bytes dumped.
pub proof fn lemma_plain_tds_written(s: TracerView, is_sending: bool, w: Seq<u8>)
    requires
        !s.mars_enabled,
        spec_headers(is_sending, w).1 is None,
        spec_headers(is_sending, w).0 is Some,
    ensures
        spec_process(s, is_sending, w) == (Step {
            state: TracerView {
                byte_counter: counter_after(s.print_content, w.len()),
                ..s
            },
            text: tds_block(spec_headers(is_sending, w).0.unwrap(), w, s.print_content),
            flush: true,
        }),
{
    assert(window(w, 0, w.len() as int) =~= w);
}

/// A chunk carries a MARS header exactly where it has at least 16 bytes, its
/// first byte is the marker 0x53 and its second names SYN (1), ACK (2), FIN
/// (3) or DATA (8); the header is then the one in its first 16 bytes. It
/// carries a TDS header exactly where a byte that names a known packet type
/// stands at its start (without MARS header, in a chunk of at least 8 bytes)
/// or right after the MARS header (in a chunk of at least 24 bytes).
pub proof fn lemma_headers_found(is_sending: bool, b: Seq<u8>, offset: int, length: int)
    ensures
        ({
            let (tds, mars) = spec_headers_in(is_sending, b, offset, length);
            let has_mars = length >= 16 && b[offset] == 0x53 && (b[offset + 1] == 1 || b[offset
                + 1] == 2 || b[offset + 1] == 3 || b[offset + 1] == 8);
            let at: int = if has_mars {
                16
            } else {
                0
            };
            &&& (mars is Some <==> has_mars)
            &&& (has_mars ==> mars == Some(mars_header_of(b, offset, is_sending)))
            &&& (tds is Some <==> length >= at + 8 && packet_type_of(b[offset + at])
                != NTPacketType::Unknown)
            &&& (tds is Some ==> tds == Some(tds_header_of(b, offset + at)))
        }),
{
}

/// The lines around every packet: a rule of 80 `c` and a line break.
pub open spec fn rule_line(c: char) -> Seq<char> {
    Seq::new(80, |i: int| c).push('\n')
}

/// The dump of a chunk where content is printed, nothing otherwise.
pub open spec fn shown(print_content: bool, w: Seq<u8>) -> Seq<char> {
    if print_content {
        dump(w)
    } else {
        Seq::empty()
    }
}

/// The end of every packet: an empty line, a rule of 80 dashes, an empty
/// line.
pub open spec fn end_lines() -> Seq<char> {
    seq!['\n'] + rule_line('-') + seq!['\n']
}

/// A chunk that carries a MARS data header (type byte 8) and, behind it, a
/// TDS header of a known type, with nothing captured, is written as one data
/// packet: two empty lines, a rule, the MARS header line, the TDS header
/// line, a rule, the dump of the whole chunk, the closing lines; the log is
/// flushed, MARS is on, nothing is captured, and the byte counter counts the
/// dumped bytes.
pub proof fn lemma_mars_data_with_tds_written(
    s: TracerView,
    is_sending: bool,
    b: Seq<u8>,
    offset: int,
    length: int,
)
    requires
        s.capture is None,
        length >= 24,
        0 <= offset,
        offset + length <= b.len(),
        b[offset] == 0x53,
        b[offset + 1] == 0x08,
        packet_type_of(b[offset + 16]) != NTPacketType::Unknown,
    ensures
        ({
            let step = spec_process_at(s, is_sending, b, offset, length);
            let w = b.subrange(offset, offset + length);
            let mh = mars_header_of(b, offset, is_sending);
            let th = tds_header_of(b, offset + 16);
            &&& step.text == seq!['\n', '\n'] + rule_line('=') + mars_header_text(mh).push('\n')
                + tds_header_text(th).push('\n') + rule_line('=') + shown(s.print_content, w)
                + end_lines()
            &&& step.flush
            &&& step.state == (TracerView {
                mars_enabled: true,
                byte_counter: if s.print_content {
                    length as nat
                } else {
                    0
                },
                ..s
            })
        }),
{
    let w = b.subrange(offset, offset + length);
    assert(window(b, offset, length) == w);
    let step = spec_process_at(s, is_sending, b, offset, length);
    assert(step.text =~= seq!['\n', '\n'] + rule_line('=') + mars_header_text(
        mars_header_of(b, offset, is_sending),
    ).push('\n') + tds_header_text(tds_header_of(b, offset + 16)).push('\n') + rule_line('=')
        + shown(s.print_content, w) + end_lines());
}

/// A chunk that carries a MARS header of a control type (SYN 1, ACK 2, FIN
/// 3) and a TDS header behind it, with nothing captured, is written as a
/// control packet: the MARS header line alone between the rules, then the
/// dump and the closing lines, without a flush.
pub proof fn lemma_mars_control_with_tds_written(
    s: TracerView,
    is_sending: bool,
    b: Seq<u8>,
    offset: int,
    length: int,
)
    requires
        s.capture is None,
        length >= 24,
        0 <= offset,
        offset + length <= b.len(),
        b[offset] == 0x53,
        1 <= b[offset + 1] <= 3,
        packet_type_of(b[offset + 16]) != NTPacketType::Unknown,
    ensures
        ({
            let step = spec_process_at(s, is_sending, b, offset, length);
            let w = b.subrange(offset, offset + length);
            let mh = mars_header_of(b, offset, is_sending);
            &&& step.text == seq!['\n', '\n'] + rule_line('=') + mars_header_text(mh).push('\n')
                + rule_line('=') + shown(s.print_content, w) + end_lines()
            &&& !step.flush
            &&& step.state == (TracerView {
                mars_enabled: true,
                byte_counter: if s.print_content {
                    length as nat
                } else {
                    0
                },
                ..s
            })
        }),
{
    let w = b.subrange(offset, offset + length);
    assert(window(b, offset, length) == w);
    let step = spec_process_at(s, is_sending, b, offset, length);
    assert(step.text =~= seq!['\n', '\n'] + rule_line('=') + mars_header_text(
        mars_header_of(b, offset, is_sending),
    ).push('\n') + rule_line('=') + shown(s.print_content, w) + end_lines());
}

/// While MARS is off, a chunk that starts with a TDS header of a known type
/// is written as a TDS packet: an empty line, a rule, the TDS header line, a
/// rule, the dump, the closing lines; the log is flushed and the byte counter
/// counts the dumped bytes.
pub proof fn lemma_tds_chunk_written(
    s: TracerView,
    is_sending: bool,
    b: Seq<u8>,
    offset: int,
    length: int,
)
    requires
        !s.mars_enabled,
        length >= 8,
        0 <= offset,
        offset + length <= b.len(),
        packet_type_of(b[offset]) != NTPacketType::Unknown,
    ensures
        ({
            let step = spec_process_at(s, is_sending, b, offset, length);
            let w = b.subrange(offset, offset + length);
            &&& step.text == seq!['\n'] + rule_line('=') + tds_header_text(
                tds_header_of(b, offset),
            ).push('\n') + rule_line('=') + shown(s.print_content, w) + end_lines()
            &&& step.flush
            &&& step.state == (TracerView {
                byte_counter: if s.print_content {
                    length as nat
                } else {
                    0
                },
                ..s
            })
        }),
{
    let w = b.subrange(offset, offset + length);
    assert(window(b, offset, length) == w);
    let step = spec_process_at(s, is_sending, b, offset, length);
    assert(step.text =~= seq!['\n'] + rule_line('=') + tds_header_text(tds_header_of(b, offset)).push(
        '\n',
    ) + rule_line('=') + shown(s.print_content, w) + end_lines());
}

/// A chunk too short for any header (fewer than 8 bytes) is reported as
/// partial data: the exception line, then (where content is printed) the
/// dump and the closing lines; nothing else changes but the byte counter.
pub proof fn lemma_short_chunk_reported(
    s: TracerView,
    is_sending: bool,
    b: Seq<u8>,
    offset: int,
    length: int,
)
    requires
        0 <= length < 8,
        0 <= offset,
        offset + length <= b.len(),
    ensures
        ({
            let step = spec_process_at(s, is_sending, b, offset, length);
            let w = b.subrange(offset, offset + length);
            &&& step.text == "Exception: partial data with no TDS/MARS header.\n"@ + (
            if s.print_content {
                dump(w) + end_lines()
            } else {
                Seq::empty()
            })
            &&& !step.flush
            &&& step.state == (TracerView {
                byte_counter: if s.print_content {
                    length as nat
                } else {
                    0
                },
                ..s
            })
        }),
{
    reveal_strlit("Exception: partial data with no TDS/MARS header.\n");
    reveal_strlit("Exception: partial data with no TDS/MARS header.");
    let w = b.subrange(offset, offset + length);
    assert(window(b, offset, length) =~= w);
    assert(line(no_header_message()) =~= "Exception: partial data with no TDS/MARS header.\n"@);
    let step = spec_process_at(s, is_sending, b, offset, length);
    if s.print_content {
        assert(step.text =~= "Exception: partial data with no TDS/MARS header.\n"@ + (dump(w)
            + end_lines()));
    } else {
        assert(step.text =~= "Exception: partial data with no TDS/MARS header.\n"@);
    }
}

/// While MARS is on and nothing is captured, a chunk with a TDS header and no
/// MARS header writes only the error line and changes nothing.
pub proof fn lemma_orphan_tds_reported(
    s: TracerView,
    is_sending: bool,
    b: Seq<u8>,
    offset: int,
    length: int,
)
    requires
        s.mars_enabled,
        s.capture is None,
        length >= 8,
        0 <= offset,
        offset + 8 <= b.len(),
        packet_type_of(b[offset]) != NTPacketType::Unknown,
    ensures
        spec_process_at(s, is_sending, b, offset, length) == (Step {
            state: s,
            text: "Error: MARS is enabled, but TDS header arrived without partial MARS header.\n"@,
            flush: false,
        }),
{
    reveal_strlit(
        "Error: MARS is enabled, but TDS header arrived without partial MARS header.\n",
    );
    reveal_strlit("Error: MARS is enabled, but TDS header arrived without partial MARS header.");
    assert(line(orphan_tds_message())
        =~= "Error: MARS is enabled, but TDS header arrived without partial MARS header.\n"@);
}

/// A MARS data header (type byte 8) that arrives without a TDS header is
/// held back and written nothing for; the next chunk, starting with a TDS
/// header of a known type, completes it: one data packet is written with the
/// held MARS header line and the new TDS header line, over the bytes of both
/// chunks, the log is flushed and nothing stays captured.
pub proof fn lemma_split_mars_data_written(
    s: TracerView,
    is_sending1: bool,
    w1: Seq<u8>,
    is_sending2: bool,
    w2: Seq<u8>,
)
    requires
        s.capture is None,
        w1.len() >= 16,
        w1[0] == 0x53,
        w1[1] == 0x08,
        w1.len() < 24 || packet_type_of(w1[16]) == NTPacketType::Unknown,
        w2.len() >= 8,
        packet_type_of(w2[0]) != NTPacketType::Unknown,
    ensures
        ({
            let first = spec_process(s, is_sending1, w1);
            let second = spec_process(first.state, is_sending2, w2);
            let mh = mars_header_of(w1, 0, is_sending1);
            let th = tds_header_of(w2, 0);
            &&& first.text == Seq::<char>::empty()
            &&& !first.flush
            &&& first.state.mars_enabled
            &&& second.text == seq!['\n', '\n'] + rule_line('=') + mars_header_text(mh).push('\n')
                + tds_header_text(th).push('\n') + rule_line('=') + shown(
                s.print_content,
                w1 + w2,
            ) + end_lines()
            &&& second.flush
            &&& second.state == (TracerView {
                mars_enabled: true,
                capture: None,
                byte_counter: if s.print_content {
                    (w1.len() + w2.len()) as nat
                } else {
                    0
                },
                ..s
            })
        }),
{
    assert(window(w1, 0, w1.len() as int) =~= w1);
    assert(window(w2, 0, w2.len() as int) =~= w2);
    let first = spec_process(s, is_sending1, w1);
    let second = spec_process(first.state, is_sending2, w2);
    assert(first.state.capture == Some((mars_header_of(w1, 0, is_sending1), w1)));
    assert(second.text =~= seq!['\n', '\n'] + rule_line('=') + mars_header_text(
        mars_header_of(w1, 0, is_sending1),
    ).push('\n') + tds_header_text(tds_header_of(w2, 0)).push('\n') + rule_line('=') + shown(
        s.print_content,
        w1 + w2,
    ) + end_lines());
}

/// The 32-bit value that names the log file, from the clock reading in
/// nanoseconds and the process id: their bitwise xor, plus 12345, wrapping,
/// then cut to its low 32 bits.
pub fn mix_clock_and_pid(now_nanos: u128, pid: u128) -> (r: u32)
    ensures
        r as int == ((now_nanos ^ pid) as int + 12345) % 0x1_0000_0000,
{
    let x: u128 = now_nanos ^ pid;
    let y: u128 = x.wrapping_add(12345);
    let r: u32 = y as u32;
    assert(r as int == y as int % 0x1_0000_0000) by (bit_vector)
        requires
            r == y as u32,
    ;
    assert(y as int == (x as int + 12345) % 0x1_0000_0000_0000_0000_0000_0000_0000_0000int);
    assert((x as int + 12345) % 0x1_0000_0000_0000_0000_0000_0000_0000_0000int % 0x1_0000_0000 == (
    x as int + 12345) % 0x1_0000_0000) by (nonlinear_arith);
    r
}

/// The stem of the log file name: the value in eight upper-case hex digits.
pub fn uuid_like_random_string(value: u32) -> (r: Option<String>)
    ensures
        r matches Some(s) && s@ == hex_upper(value as nat, 8),
{
    let mut s = String::new();
    push_hex(&mut s, value as u64, 8, true);
    Some(s)
}

/// Appends a rule of `RULE_WIDTH` characters `c` and a line break.
fn push_rule_line(s: &mut String, c: char)
    ensures
        final(s)@ == old(s)@ + line(rule(c, 80)),
{
    push_rule(s, c, RULE_WIDTH);
    push_empty_line(s);
    assert(s@ =~= old(s)@ + line(rule(c, 80)));
}

} // verus!
