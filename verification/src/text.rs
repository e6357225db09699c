//! Text rendering: numbers in decimal and hexadecimal, header lines, rules
//! and the hex dump of packet bytes.
use vstd::prelude::*;
use crate::headers::{NTMarsHeader, NTMarsMessageType, NTPacketStatusFlags, NTPacketType, NTTDSHeader};

verus! {

/// The hex digit for `d` (below 16), in upper or lower case.
pub open spec fn hex_digit(d: int, upper: bool) -> char {
    if d < 10 {
        (48 + d) as char
    } else if upper {
        (55 + d) as char
    } else {
        (87 + d) as char
    }
}

/// The hexadecimal digits of `n`, without leading zeros ("0" for zero).
pub open spec fn hex_raw(n: nat, upper: bool) -> Seq<char>
    decreases n,
{
    if n < 16 {
        seq![hex_digit(n as int, upper)]
    } else {
        hex_raw(n / 16, upper).push(hex_digit((n % 16) as int, upper))
    }
}

/// The decimal digits of `n`, without leading zeros ("0" for zero).
pub open spec fn dec(n: nat) -> Seq<char>
    decreases n,
{
    if n < 10 {
        seq![(48 + n) as char]
    } else {
        dec(n / 10).push((48 + n % 10) as char)
    }
}

/// `s` with zeros in front up to `width` characters.
pub open spec fn zero_pad(s: Seq<char>, width: nat) -> Seq<char> {
    if s.len() < width {
        Seq::new((width - s.len()) as nat, |i: int| '0') + s
    } else {
        s
    }
}

/// `n` in upper-case hexadecimal with at least `width` digits, as `{:0wX}`
/// writes it.
pub open spec fn hex_upper(n: nat, width: nat) -> Seq<char> {
    zero_pad(hex_raw(n, true), width)
}

/// `n` characters `c`.
pub open spec fn rule(c: char, n: nat) -> Seq<char> {
    Seq::new(n, |i: int| c)
}

/// `s` followed by a line break.
pub open spec fn line(s: Seq<char>) -> Seq<char> {
    s.push('\n')
}

/// A status byte as `{:#04x}` writes it: `0x` and two lower-case digits.
pub open spec fn status_text(b: u8) -> Seq<char> {
    "0x"@ + zero_pad(hex_raw(b as nat, false), 2)
}

/// The name of a packet type, as `{:?}` writes it.
pub open spec fn packet_type_name(t: NTPacketType) -> Seq<char> {
    match t {
        NTPacketType::Unknown => "Unknown"@,
        NTPacketType::SqlBatch => "SqlBatch"@,
        NTPacketType::RpcRequest => "RpcRequest"@,
        NTPacketType::TabularResult => "TabularResult"@,
        NTPacketType::Attention => "Attention"@,
        NTPacketType::BulkLoad => "BulkLoad"@,
        NTPacketType::FedAuthToken => "FedAuthToken"@,
        NTPacketType::TransactionManager => "TransactionManager"@,
        NTPacketType::Login7 => "Login7"@,
        NTPacketType::SSPI => "SSPI"@,
        NTPacketType::PreLogin => "PreLogin"@,
    }
}

/// The name of a MARS message type, as `{:?}` writes it.
pub open spec fn mars_type_name(t: NTMarsMessageType) -> Seq<char> {
    match t {
        NTMarsMessageType::SYN => "SYN"@,
        NTMarsMessageType::ACK => "ACK"@,
        NTMarsMessageType::FIN => "FIN"@,
        NTMarsMessageType::DATA => "DATA"@,
        NTMarsMessageType::Unknown => "Unknown"@,
    }
}

/// The one-line rendering of a TDS header.
pub open spec fn tds_header_text(h: NTTDSHeader) -> Seq<char> {
    "# Type:"@ + packet_type_name(h.packet_type) + ", Status:"@ + status_text(h.status.0)
        + ", Length:"@ + dec(h.length as nat) + ", PId:"@ + dec(h.pid as nat)
}

/// The one-line rendering of a MARS header; the labels of the sequence
/// number and the watermark follow the direction.
pub open spec fn mars_header_text(h: NTMarsHeader) -> Seq<char> {
    if !h.sending {
        "# [MARS-In] SMID:"@ + dec(h.smid as nat) + ", Type:"@ + mars_type_name(h.msg_type)
            + ", Sid:"@ + dec(h.session_id as nat) + ", Length:"@ + dec(h.length as nat)
            + ", Recv-SN:"@ + dec(h.sequence_number as nat) + ", SendWaterMark:"@ + dec(
            h.highwater as nat,
        )
    } else {
        "# [MARS-Out] SMID:"@ + dec(h.smid as nat) + ", Type:"@ + mars_type_name(h.msg_type)
            + ", Sid:"@ + dec(h.session_id as nat) + ", Length:"@ + dec(h.length as nat)
            + ", Send-SN:"@ + dec(h.sequence_number as nat) + ", RecvWaterMark:"@ + dec(
            h.highwater as nat,
        )
    }
}

/// The text that the hex dump writes for the byte `x` at position `i`: a
/// row of sixteen bytes starts with a line break (but the first), the
/// position in hex and three tabs.
pub open spec fn dump_piece(i: nat, x: u8) -> Seq<char> {
    if i % 16 == 0 {
        (if i > 0 {
            seq!['\n']
        } else {
            Seq::<char>::empty()
        }) + hex_upper(i, 2) + "\t\t\t "@ + hex_upper(x as nat, 2) + " "@
    } else {
        hex_upper(x as nat, 2) + " "@
    }
}

/// The hex dump of `bytes`, positions counted from zero.
pub open spec fn dump(bytes: Seq<u8>) -> Seq<char>
    decreases bytes.len(),
{
    if bytes.len() == 0 {
        Seq::empty()
    } else {
        dump(bytes.drop_last()) + dump_piece((bytes.len() - 1) as nat, bytes.last())
    }
}

/// The value of a hex digit in either case, or of a decimal digit.
pub open spec fn digit_value(c: char) -> int {
    if '0' <= c && c <= '9' {
        c as int - 48
    } else if 'A' <= c && c <= 'F' {
        c as int - 55
    } else if 'a' <= c && c <= 'f' {
        c as int - 87
    } else {
        0
    }
}

/// The number that the digits `s` write in base `base`.
pub open spec fn digits_value(s: Seq<char>, base: int) -> int
    decreases s.len(),
{
    if s.len() == 0 {
        0
    } else {
        digits_value(s.drop_last(), base) * base + digit_value(s.last())
    }
}

/// Leading zeros do not change the value of a digit string.
proof fn lemma_leading_zeros(k: nat, s: Seq<char>, base: int)
    ensures
        digits_value(Seq::new(k, |i: int| '0') + s, base) == digits_value(s, base),
    decreases s.len(), k,
{
    if s.len() == 0 {
        if k > 0 {
            assert((Seq::new(k, |i: int| '0') + s).drop_last() =~= Seq::new(
                (k - 1) as nat,
                |i: int| '0',
            ) + s);
            lemma_leading_zeros((k - 1) as nat, s, base);
        } else {
            assert(Seq::new(k, |i: int| '0') + s =~= s);
        }
    } else {
        assert((Seq::new(k, |i: int| '0') + s).drop_last() =~= Seq::new(k, |i: int| '0')
            + s.drop_last());
        lemma_leading_zeros(k, s.drop_last(), base);
    }
}

proof fn lemma_hex_digit_value(d: int, upper: bool)
    requires
        0 <= d < 16,
    ensures
        digit_value(hex_digit(d, upper)) == d,
{
    if d < 10 {
        assert(((48 + d) as char) as int == 48 + d);
    } else if upper {
        assert(((55 + d) as char) as int == 55 + d);
    } else {
        assert(((87 + d) as char) as int == 87 + d);
    }
}

/// Reading back the hex digits that `{:x}` or `{:X}` writes, with any
/// zero padding, gives the number that was written.
pub proof fn lemma_hex_roundtrip(n: nat, width: nat, upper: bool)
    ensures
        digits_value(zero_pad(hex_raw(n, upper), width), 16) == n,
        hex_raw(n, upper).len() >= 1,
        zero_pad(hex_raw(n, upper), width).len() >= width,
    decreases n,
{
    lemma_hex_digit_value((n % 16) as int, upper);
    if n >= 16 {
        lemma_hex_roundtrip(n / 16, 0, upper);
        assert(hex_raw(n, upper).drop_last() =~= hex_raw(n / 16, upper));
        assert((n / 16) * 16 + n % 16 == n);
    } else {
        assert(hex_raw(n, upper).drop_last() =~= Seq::<char>::empty());
    }
    assert(hex_raw(n, upper).last() == hex_digit((n % 16) as int, upper));
    assert(digits_value(hex_raw(n, upper), 16) == digits_value(hex_raw(n, upper).drop_last(), 16)
        * 16 + (n % 16));
    assert(digits_value(hex_raw(n, upper), 16) == n);
    let raw = hex_raw(n, upper);
    if raw.len() < width {
        lemma_leading_zeros((width - raw.len()) as nat, raw, 16);
    }
}

/// A byte is written in the dump as exactly two hex digits, which read
/// back as the byte.
pub proof fn lemma_byte_hex_roundtrip(x: u8)
    ensures
        hex_upper(x as nat, 2).len() == 2,
        digits_value(hex_upper(x as nat, 2), 16) == x,
{
    lemma_hex_roundtrip(x as nat, 2, true);
    if x >= 16 {
        assert(hex_raw(x as nat / 16, true).len() == 1);
    }
}

/// Reading back the decimal digits that `{}` writes gives the number.
pub proof fn lemma_dec_roundtrip(n: nat)
    ensures
        digits_value(dec(n), 10) == n,
    decreases n,
{
    let d = n % 10;
    assert(((48 + d) as char) as int == 48 + d);
    if n >= 10 {
        lemma_dec_roundtrip(n / 10);
        assert(dec(n).drop_last() =~= dec(n / 10));
        assert((n / 10) * 10 + n % 10 == n);
    } else {
        assert(dec(n).drop_last() =~= Seq::<char>::empty());
    }
    assert(dec(n).last() == (48 + d) as char);
    assert(digit_value((48 + d) as char) == d);
    assert(digits_value(dec(n), 10) == digits_value(dec(n).drop_last(), 10) * 10 + d);
}

/// The log line of a TDS header starts with the `{:?}` name of the
/// header's own packet type, then gives its status, length and packet id.
pub proof fn lemma_tds_header_text_names_type(h: NTTDSHeader)
    ensures
        ({
            let rest = status_text(h.status.0) + ", Length:"@ + dec(h.length as nat) + ", PId:"@
                + dec(h.pid as nat);
            &&& h.packet_type == NTPacketType::Unknown ==> tds_header_text(h)
                == "# Type:Unknown, Status:"@ + rest
            &&& h.packet_type == NTPacketType::SqlBatch ==> tds_header_text(h)
                == "# Type:SqlBatch, Status:"@ + rest
            &&& h.packet_type == NTPacketType::RpcRequest ==> tds_header_text(h)
                == "# Type:RpcRequest, Status:"@ + rest
            &&& h.packet_type == NTPacketType::TabularResult ==> tds_header_text(h)
                == "# Type:TabularResult, Status:"@ + rest
            &&& h.packet_type == NTPacketType::Attention ==> tds_header_text(h)
                == "# Type:Attention, Status:"@ + rest
            &&& h.packet_type == NTPacketType::BulkLoad ==> tds_header_text(h)
                == "# Type:BulkLoad, Status:"@ + rest
            &&& h.packet_type == NTPacketType::FedAuthToken ==> tds_header_text(h)
                == "# Type:FedAuthToken, Status:"@ + rest
            &&& h.packet_type == NTPacketType::TransactionManager ==> tds_header_text(h)
                == "# Type:TransactionManager, Status:"@ + rest
            &&& h.packet_type == NTPacketType::Login7 ==> tds_header_text(h)
                == "# Type:Login7, Status:"@ + rest
            &&& h.packet_type == NTPacketType::SSPI ==> tds_header_text(h)
                == "# Type:SSPI, Status:"@ + rest
            &&& h.packet_type == NTPacketType::PreLogin ==> tds_header_text(h)
                == "# Type:PreLogin, Status:"@ + rest
        }),
{
    reveal_strlit("# Type:");
    reveal_strlit(", Status:");
    let rest = status_text(h.status.0) + ", Length:"@ + dec(h.length as nat) + ", PId:"@
        + dec(h.pid as nat);
    match h.packet_type {
        NTPacketType::Unknown => {
            reveal_strlit("# Type:Unknown, Status:");
            reveal_strlit("Unknown");
            assert("# Type:"@ + "Unknown"@ + ", Status:"@ =~= "# Type:Unknown, Status:"@);
        },
        NTPacketType::SqlBatch => {
            reveal_strlit("# Type:SqlBatch, Status:");
            reveal_strlit("SqlBatch");
            assert("# Type:"@ + "SqlBatch"@ + ", Status:"@ =~= "# Type:SqlBatch, Status:"@);
        },
        NTPacketType::RpcRequest => {
            reveal_strlit("# Type:RpcRequest, Status:");
            reveal_strlit("RpcRequest");
            assert("# Type:"@ + "RpcRequest"@ + ", Status:"@ =~= "# Type:RpcRequest, Status:"@);
        },
        NTPacketType::TabularResult => {
            reveal_strlit("# Type:TabularResult, Status:");
            reveal_strlit("TabularResult");
            assert("# Type:"@ + "TabularResult"@ + ", Status:"@ =~= "# Type:TabularResult, Status:"@);
        },
        NTPacketType::Attention => {
            reveal_strlit("# Type:Attention, Status:");
            reveal_strlit("Attention");
            assert("# Type:"@ + "Attention"@ + ", Status:"@ =~= "# Type:Attention, Status:"@);
        },
        NTPacketType::BulkLoad => {
            reveal_strlit("# Type:BulkLoad, Status:");
            reveal_strlit("BulkLoad");
            assert("# Type:"@ + "BulkLoad"@ + ", Status:"@ =~= "# Type:BulkLoad, Status:"@);
        },
        NTPacketType::FedAuthToken => {
            reveal_strlit("# Type:FedAuthToken, Status:");
            reveal_strlit("FedAuthToken");
            assert("# Type:"@ + "FedAuthToken"@ + ", Status:"@ =~= "# Type:FedAuthToken, Status:"@);
        },
        NTPacketType::TransactionManager => {
            reveal_strlit("# Type:TransactionManager, Status:");
            reveal_strlit("TransactionManager");
            assert("# Type:"@ + "TransactionManager"@ + ", Status:"@ =~= "# Type:TransactionManager, Status:"@);
        },
        NTPacketType::Login7 => {
            reveal_strlit("# Type:Login7, Status:");
            reveal_strlit("Login7");
            assert("# Type:"@ + "Login7"@ + ", Status:"@ =~= "# Type:Login7, Status:"@);
        },
        NTPacketType::SSPI => {
            reveal_strlit("# Type:SSPI, Status:");
            reveal_strlit("SSPI");
            assert("# Type:"@ + "SSPI"@ + ", Status:"@ =~= "# Type:SSPI, Status:"@);
        },
        NTPacketType::PreLogin => {
            reveal_strlit("# Type:PreLogin, Status:");
            reveal_strlit("PreLogin");
            assert("# Type:"@ + "PreLogin"@ + ", Status:"@ =~= "# Type:PreLogin, Status:"@);
        },
    }
    assert(tds_header_text(h) =~= ("# Type:"@ + packet_type_name(h.packet_type) + ", Status:"@)
        + rest);
}

/// The log line of a MARS header is labelled by the header's direction and
/// names the header's own message type, then gives its session id, length,
/// sequence number and watermark, the last two labelled by the direction.
pub proof fn lemma_mars_header_text_names_type(h: NTMarsHeader)
    ensures
        ({
            let head = if h.sending {
                "# [MARS-Out] SMID:"@
            } else {
                "# [MARS-In] SMID:"@
            };
            let tail = dec(h.session_id as nat) + ", Length:"@ + dec(h.length as nat) + (if h.sending {
                ", Send-SN:"@
            } else {
                ", Recv-SN:"@
            }) + dec(h.sequence_number as nat) + (if h.sending {
                ", RecvWaterMark:"@
            } else {
                ", SendWaterMark:"@
            }) + dec(h.highwater as nat);
            &&& h.msg_type == NTMarsMessageType::SYN ==> mars_header_text(h) == head + dec(
                h.smid as nat,
            ) + ", Type:SYN, Sid:"@ + tail
            &&& h.msg_type == NTMarsMessageType::ACK ==> mars_header_text(h) == head + dec(
                h.smid as nat,
            ) + ", Type:ACK, Sid:"@ + tail
            &&& h.msg_type == NTMarsMessageType::FIN ==> mars_header_text(h) == head + dec(
                h.smid as nat,
            ) + ", Type:FIN, Sid:"@ + tail
            &&& h.msg_type == NTMarsMessageType::DATA ==> mars_header_text(h) == head + dec(
                h.smid as nat,
            ) + ", Type:DATA, Sid:"@ + tail
            &&& h.msg_type == NTMarsMessageType::Unknown ==> mars_header_text(h) == head + dec(
                h.smid as nat,
            ) + ", Type:Unknown, Sid:"@ + tail
        }),
{
    reveal_strlit(", Type:");
    reveal_strlit(", Sid:");
    let head = if h.sending {
        "# [MARS-Out] SMID:"@
    } else {
        "# [MARS-In] SMID:"@
    };
    let tail = dec(h.session_id as nat) + ", Length:"@ + dec(h.length as nat) + (if h.sending {
        ", Send-SN:"@
    } else {
        ", Recv-SN:"@
    }) + dec(h.sequence_number as nat) + (if h.sending {
        ", RecvWaterMark:"@
    } else {
        ", SendWaterMark:"@
    }) + dec(h.highwater as nat);
    let ty = ", Type:"@ + mars_type_name(h.msg_type) + ", Sid:"@;
    assert(mars_header_text(h) =~= head + dec(h.smid as nat) + ty + tail);
    match h.msg_type {
        NTMarsMessageType::SYN => {
            reveal_strlit(", Type:SYN, Sid:");
            reveal_strlit("SYN");
            assert(ty =~= ", Type:SYN, Sid:"@);
        },
        NTMarsMessageType::ACK => {
            reveal_strlit(", Type:ACK, Sid:");
            reveal_strlit("ACK");
            assert(ty =~= ", Type:ACK, Sid:"@);
        },
        NTMarsMessageType::FIN => {
            reveal_strlit(", Type:FIN, Sid:");
            reveal_strlit("FIN");
            assert(ty =~= ", Type:FIN, Sid:"@);
        },
        NTMarsMessageType::DATA => {
            reveal_strlit(", Type:DATA, Sid:");
            reveal_strlit("DATA");
            assert(ty =~= ", Type:DATA, Sid:"@);
        },
        NTMarsMessageType::Unknown => {
            reveal_strlit(", Type:Unknown, Sid:");
            reveal_strlit("Unknown");
            assert(ty =~= ", Type:Unknown, Sid:"@);
        },
    }
}

/// A status byte is written as `0x` and two lower-case hex digits that read
/// back as the byte.
pub proof fn lemma_status_text(b: u8)
    ensures
        status_text(b).len() == 4,
        status_text(b)[0] == '0',
        status_text(b)[1] == 'x',
        digits_value(status_text(b).subrange(2, 4), 16) == b,
        forall|i: int|
            2 <= i < 4 ==> ('0' <= #[trigger] status_text(b)[i] <= '9' || 'a' <= status_text(b)[i]
                <= 'f'),
{
    reveal_strlit("0x");
    lemma_hex_roundtrip(b as nat, 2, false);
    let raw = hex_raw(b as nat, false);
    if b >= 16 {
        assert(hex_raw(b as nat / 16, false).len() == 1);
        assert(raw =~= seq![hex_digit((b / 16) as int, false), hex_digit((b % 16) as int, false)]);
    } else {
        assert(raw =~= seq![hex_digit(b as int, false)]);
    }
    let padded = zero_pad(raw, 2);
    assert(status_text(b).subrange(2, 4) =~= padded);
    assert(((48 + (b / 16)) as char) as int == 48 + b / 16);
    assert(((87 + (b / 16)) as char) as int == 87 + b / 16);
    assert(((48 + (b % 16)) as char) as int == 48 + b % 16);
    assert(((87 + (b % 16)) as char) as int == 87 + b % 16);
}

/// In the hex dump, each byte is written as two upper-case hex digits that
/// read back as the byte, followed by a space; a byte at a position that is
/// a multiple of 16 starts a row: a line break (but for the first row), the
/// position in hex (at least two digits, reading back as the position) and
/// three tabs and a space before the byte.
pub proof fn lemma_dump_piece(i: nat, x: u8)
    ensures
        ({
            let p = dump_piece(i, x);
            let k = p.len() as int;
            &&& k >= 3
            &&& p[k - 1] == ' '
            &&& p.subrange(k - 3, k - 1).len() == 2
            &&& digits_value(p.subrange(k - 3, k - 1), 16) == x
            &&& i % 16 != 0 ==> k == 3
            &&& i % 16 == 0 ==> {
                let start: int = if i > 0 {
                    1
                } else {
                    0
                };
                &&& (i > 0 ==> p[0] == '\n')
                &&& k >= start + 9
                &&& p.subrange(k - 7, k - 3) == seq!['\t', '\t', '\t', ' ']
                &&& digits_value(p.subrange(start, k - 7), 16) == i
            }
        }),
{
    reveal_strlit(" ");
    reveal_strlit("\t\t\t ");
    lemma_byte_hex_roundtrip(x);
    lemma_hex_roundtrip(i, 2, true);
    let p = dump_piece(i, x);
    let hx = hex_upper(x as nat, 2);
    let k = p.len() as int;
    if i % 16 == 0 {
        let lead: Seq<char> = if i > 0 {
            seq!['\n']
        } else {
            Seq::<char>::empty()
        };
        let hi = hex_upper(i, 2);
        assert(p =~= lead + hi + seq!['\t', '\t', '\t', ' '] + hx + seq![' ']);
        assert(p.subrange(k - 3, k - 1) =~= hx);
        assert(p.subrange(k - 7, k - 3) =~= seq!['\t', '\t', '\t', ' ']);
        assert(p.subrange(lead.len() as int, k - 7) =~= hi);
    } else {
        assert(p =~= hx + seq![' ']);
        assert(p.subrange(k - 3, k - 1) =~= hx);
    }
}

/// The hex dump of a sequence of bytes is the dump of all but the last byte
/// followed by the text for the last byte at its position; an empty
/// sequence gives no text.
pub proof fn lemma_dump_append(bytes: Seq<u8>, x: u8)
    ensures
        dump(Seq::<u8>::empty()) == Seq::<char>::empty(),
        dump(bytes.push(x)) == dump(bytes) + dump_piece(bytes.len(), x),
{
    assert(bytes.push(x).drop_last() =~= bytes);
}

/// `String::push`: appends one character at the end of the string.
#[verifier::external_body]
fn push_char(s: &mut String, c: char)
    ensures
        final(s)@ == old(s)@.push(c),
{
    s.push(c);
}

fn hex_digit_char(d: u8, upper: bool) -> (c: char)
    requires
        d < 16,
    ensures
        c == hex_digit(d as int, upper),
{
    if d < 10 {
        (48u8 + d) as char
    } else if upper {
        (55u8 + d) as char
    } else {
        (87u8 + d) as char
    }
}

fn push_hex_raw(s: &mut String, n: u64, upper: bool)
    ensures
        final(s)@ == old(s)@ + hex_raw(n as nat, upper),
    decreases n,
{
    if n >= 16 {
        push_hex_raw(s, n / 16, upper);
    }
    push_char(s, hex_digit_char((n % 16) as u8, upper));
}

fn hex_raw_len(n: u64) -> (len: u64)
    ensures
        len == hex_raw(n as nat, true).len(),
        len == hex_raw(n as nat, false).len(),
        len <= n + 1,
    decreases n,
{
    if n < 16 {
        1
    } else {
        1 + hex_raw_len(n / 16)
    }
}

/// Appends `n` in hexadecimal with at least `width` digits.
pub fn push_hex(s: &mut String, n: u64, width: usize, upper: bool)
    ensures
        final(s)@ == old(s)@ + zero_pad(hex_raw(n as nat, upper), width as nat),
{
    let len = hex_raw_len(n);
    if len < width as u64 {
        let ghost before = s@;
        let mut i: u64 = len;
        while i < width as u64
            invariant
                len <= i <= width,
                s@ == before + Seq::new((i - len) as nat, |j: int| '0'),
            decreases width - i,
        {
            push_char(s, '0');
            i = i + 1;
            assert(s@ =~= before + Seq::new((i - len) as nat, |j: int| '0'));
        }
        push_hex_raw(s, n, upper);
        assert(s@ =~= before + zero_pad(hex_raw(n as nat, upper), width as nat));
    } else {
        push_hex_raw(s, n, upper);
    }
}

/// Appends `n` in decimal.
pub fn push_dec(s: &mut String, n: u64)
    ensures
        final(s)@ == old(s)@ + dec(n as nat),
    decreases n,
{
    if n >= 10 {
        push_dec(s, n / 10);
    }
    push_char(s, (48u8 + (n % 10) as u8) as char);
}

/// Appends `n` times the character `c`.
pub fn push_rule(s: &mut String, c: char, n: usize)
    ensures
        final(s)@ == old(s)@ + rule(c, n as nat),
{
    let ghost before = s@;
    let mut i: usize = 0;
    while i < n
        invariant
            i <= n,
            s@ == before + rule(c, i as nat),
        decreases n - i,
    {
        push_char(s, c);
        i = i + 1;
        assert(s@ =~= before + rule(c, i as nat));
    }
}

/// Appends a line break (an empty line).
pub fn push_empty_line(s: &mut String)
    ensures
        final(s)@ == old(s)@ + line(Seq::empty()),
{
    push_char(s, '\n');
    assert(s@ =~= old(s)@ + line(Seq::empty()));
}

/// Appends `text` and a line break.
pub fn push_line(s: &mut String, text: &str)
    ensures
        final(s)@ == old(s)@ + line(text@),
{
    s.append(text);
    push_char(s, '\n');
    assert(s@ =~= old(s)@ + line(text@));
}

/// Appends the hex dump text for the byte `x` at position `i`.
pub fn push_dump_piece(s: &mut String, i: usize, x: u8)
    ensures
        final(s)@ == old(s)@ + dump_piece(i as nat, x),
{
    let ghost before = s@;
    if i % 16 == 0 {
        if i > 0 {
            push_char(s, '\n');
        }
        let ghost lead = s@;
        push_hex(s, i as u64, 2, true);
        s.append("\t\t\t ");
        push_hex(s, x as u64, 2, true);
        s.append(" ");
        assert(lead == before + (if i > 0 {
            seq!['\n']
        } else {
            Seq::<char>::empty()
        }));
        assert(s@ =~= before + dump_piece(i as nat, x));
    } else {
        push_hex(s, x as u64, 2, true);
        s.append(" ");
        assert(s@ =~= before + dump_piece(i as nat, x));
    }
}

pub(crate) fn push_packet_type_name(s: &mut String, t: NTPacketType)
    ensures
        final(s)@ == old(s)@ + packet_type_name(t),
{
    match t {
        NTPacketType::Unknown => s.append("Unknown"),
        NTPacketType::SqlBatch => s.append("SqlBatch"),
        NTPacketType::RpcRequest => s.append("RpcRequest"),
        NTPacketType::TabularResult => s.append("TabularResult"),
        NTPacketType::Attention => s.append("Attention"),
        NTPacketType::BulkLoad => s.append("BulkLoad"),
        NTPacketType::FedAuthToken => s.append("FedAuthToken"),
        NTPacketType::TransactionManager => s.append("TransactionManager"),
        NTPacketType::Login7 => s.append("Login7"),
        NTPacketType::SSPI => s.append("SSPI"),
        NTPacketType::PreLogin => s.append("PreLogin"),
    }
}

fn push_mars_type_name(s: &mut String, t: NTMarsMessageType)
    ensures
        final(s)@ == old(s)@ + mars_type_name(t),
{
    match t {
        NTMarsMessageType::SYN => s.append("SYN"),
        NTMarsMessageType::ACK => s.append("ACK"),
        NTMarsMessageType::FIN => s.append("FIN"),
        NTMarsMessageType::DATA => s.append("DATA"),
        NTMarsMessageType::Unknown => s.append("Unknown"),
    }
}

impl NTPacketStatusFlags {
    /// The flags as `0x` and two lower-case hex digits.
    pub fn to_string(&self) -> (r: String)
        ensures
            r@ == status_text(self.0),
    {
        let mut s = String::new();
        s.append("0x");
        push_hex(&mut s, self.0 as u64, 2, false);
        assert(s@ =~= status_text(self.0));
        s
    }
}

impl NTTDSHeader {
    /// The header on one line: type, status, length and packet id.
    pub fn to_string(&self) -> (r: String)
        ensures
            r@ == tds_header_text(*self),
    {
        let mut s = String::new();
        s.append("# Type:");
        push_packet_type_name(&mut s, self.packet_type);
        s.append(", Status:");
        let status = self.status.to_string();
        s.append(status.as_str());
        s.append(", Length:");
        push_dec(&mut s, self.length as u64);
        s.append(", PId:");
        push_dec(&mut s, self.pid as u64);
        assert(s@ =~= tds_header_text(*self));
        s
    }
}

impl NTMarsHeader {
    /// The header on one line, labelled by its direction.
    pub fn to_string(&self) -> (r: String)
        ensures
            r@ == mars_header_text(*self),
    {
        let mut s = String::new();
        if !self.sending {
            s.append("# [MARS-In] SMID:");
        } else {
            s.append("# [MARS-Out] SMID:");
        }
        push_dec(&mut s, self.smid as u64);
        s.append(", Type:");
        push_mars_type_name(&mut s, self.msg_type);
        s.append(", Sid:");
        push_dec(&mut s, self.session_id as u64);
        s.append(", Length:");
        push_dec(&mut s, self.length as u64);
        if !self.sending {
            s.append(", Recv-SN:");
        } else {
            s.append(", Send-SN:");
        }
        push_dec(&mut s, self.sequence_number as u64);
        if !self.sending {
            s.append(", SendWaterMark:");
        } else {
            s.append(", RecvWaterMark:");
        }
        push_dec(&mut s, self.highwater as u64);
        assert(s@ =~= mars_header_text(*self));
        s
    }
}

} // verus!
