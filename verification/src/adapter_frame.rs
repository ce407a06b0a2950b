//! The binary frame in which adapter messages travel.
//!
//! Layout, little-endian: the magic `ELCX`, a kind byte, the id (8 bytes),
//! the JSON length and the binary length (4 bytes each), then the JSON
//! bytes and the binary bytes.
use crate::adapter_protocol::{
    copy_diagnostics, copy_response_message, same_response, saturate_u32, saturating_u32,
    AdapterLine, AdapterRequestId, AdapterResponse, AdapterResponseMessage,
    GetViewportFrameResponse,
};
use crate::text::{concat2, decimal, u64_to_text};
use vstd::prelude::*;

verus! {

/// The length of a frame header.
pub const FRAME_HEADER_LEN: usize = 21;

/// The magic bytes that open a frame: `ELCX`.
pub open spec fn frame_magic() -> Seq<u8> {
    seq![0x45u8, 0x4cu8, 0x43u8, 0x58u8]
}

#[derive(Debug, Clone, Copy, PartialEq, Eq, Structural)]
pub enum FrameKind {
    Request,
    Response,
    Event,
}

/// The byte that stands for a frame kind.
pub open spec fn kind_code(k: FrameKind) -> u8 {
    match k {
        FrameKind::Request => 1,
        FrameKind::Response => 2,
        FrameKind::Event => 3,
    }
}

/// The kind a byte stands for, if any.
pub open spec fn kind_of_code(b: u8) -> Option<FrameKind> {
    if b == 1 {
        Some(FrameKind::Request)
    } else if b == 2 {
        Some(FrameKind::Response)
    } else if b == 3 {
        Some(FrameKind::Event)
    } else {
        None
    }
}

pub open spec fn frame_kind_name(k: FrameKind) -> Seq<char> {
    match k {
        FrameKind::Request => "Request"@,
        FrameKind::Response => "Response"@,
        FrameKind::Event => "Event"@,
    }
}

impl FrameKind {
    pub fn from_u8(value: u8) -> (r: Result<Self, FrameError>)
        ensures
            kind_of_code(value) matches Some(k) ==> r == Ok::<Self, FrameError>(k),
            kind_of_code(value) is None ==> r == Err::<Self, FrameError>(
                FrameError::UnknownKind(value),
            ),
    {
        if value == 1 {
            Ok(FrameKind::Request)
        } else if value == 2 {
            Ok(FrameKind::Response)
        } else if value == 3 {
            Ok(FrameKind::Event)
        } else {
            Err(FrameError::UnknownKind(value))
        }
    }

    pub fn code(self) -> (r: u8)
        ensures
            r == kind_code(self),
    {
        match self {
            FrameKind::Request => 1,
            FrameKind::Response => 2,
            FrameKind::Event => 3,
        }
    }
}

#[derive(Debug, Clone, PartialEq, Eq)]
pub enum FrameError {
    Io(String),
    InvalidMagic([u8; 4]),
    UnknownKind(u8),
    UnexpectedEof,
    InvalidJson(String),
    BinaryLengthMismatch { expected: u32, actual: usize },
    UnexpectedFrameKind { expected: FrameKind, actual: FrameKind },
}

/// A lower-case hexadecimal digit.
pub open spec fn hex_digit(d: int) -> char {
    if d < 10 {
        (('0' as int) + d) as char
    } else {
        (('a' as int) + d - 10) as char
    }
}

/// A byte as two hexadecimal digits.
pub open spec fn hex_byte(b: u8) -> Seq<char> {
    seq![hex_digit((b / 16) as int), hex_digit((b % 16) as int)]
}

/// Four bytes as a bracketed, comma-separated list of hexadecimal pairs.
pub open spec fn hex_list(m: Seq<u8>) -> Seq<char> {
    "["@ + hex_byte(m[0]) + ", "@ + hex_byte(m[1]) + ", "@ + hex_byte(m[2]) + ", "@ + hex_byte(m[3])
        + "]"@
}

pub open spec fn frame_error_text(e: FrameError) -> Seq<char> {
    match e {
        FrameError::Io(m) => "adapter frame I/O error: "@ + m@,
        FrameError::InvalidMagic(m) => "invalid adapter frame magic: "@ + hex_list(m@),
        FrameError::UnknownKind(k) => "unknown adapter frame kind: "@ + decimal(k as nat),
        FrameError::UnexpectedEof => "unexpected end of adapter frame stream"@,
        FrameError::InvalidJson(m) => "invalid adapter frame JSON: "@ + m@,
        FrameError::BinaryLengthMismatch { expected, actual } => "adapter binary length mismatch: expected "@
            + decimal(expected as nat) + ", got "@ + decimal(actual as nat),
        FrameError::UnexpectedFrameKind { expected, actual } => "unexpected adapter frame kind: expected "@
            + frame_kind_name(expected) + ", got "@ + frame_kind_name(actual),
    }
}

fn hex_digit_char(d: u8) -> (r: char)
    requires
        d < 16,
    ensures
        r == hex_digit(d as int),
{
    if d < 10 {
        ((48 + d) as char)
    } else {
        ((97 + d - 10) as char)
    }
}

fn push_hex_byte(out: &mut String, b: u8)
    ensures
        final(out)@ == old(out)@ + hex_byte(b),
{
    crate::text::push_char(out, hex_digit_char(b / 16));
    crate::text::push_char(out, hex_digit_char(b % 16));
    assert(final(out)@ =~= old(out)@ + hex_byte(b)) by {
        assert(hex_byte(b) =~= seq![hex_digit((b / 16) as int), hex_digit((b % 16) as int)]);
    }
}

fn kind_name(k: FrameKind) -> (r: &'static str)
    ensures
        r@ == frame_kind_name(k),
{
    match k {
        FrameKind::Request => "Request",
        FrameKind::Response => "Response",
        FrameKind::Event => "Event",
    }
}

impl FrameError {
    pub fn message(&self) -> (r: String)
        ensures
            r@ == frame_error_text(*self),
    {
        match self {
            FrameError::Io(m) => concat2("adapter frame I/O error: ", m.as_str()),
            FrameError::InvalidMagic(m) => {
                let mut out = String::from_str("invalid adapter frame magic: [");
                push_hex_byte(&mut out, m[0]);
                out.append(", ");
                push_hex_byte(&mut out, m[1]);
                out.append(", ");
                push_hex_byte(&mut out, m[2]);
                out.append(", ");
                push_hex_byte(&mut out, m[3]);
                out.append("]");
                proof {
                    reveal_strlit("invalid adapter frame magic: [");
                    reveal_strlit("invalid adapter frame magic: ");
                    reveal_strlit("[");
                    assert(out@ =~= frame_error_text(*self));
                }
                out
            },
            FrameError::UnknownKind(k) => {
                let d = u64_to_text(*k as u64);
                concat2("unknown adapter frame kind: ", d.as_str())
            },
            FrameError::UnexpectedEof => String::from_str("unexpected end of adapter frame stream"),
            FrameError::InvalidJson(m) => concat2("invalid adapter frame JSON: ", m.as_str()),
            FrameError::BinaryLengthMismatch { expected, actual } => {
                let e = u64_to_text(*expected as u64);
                let a = u64_to_text(*actual as u64);
                let head = concat2("adapter binary length mismatch: expected ", e.as_str());
                let head = concat2(head.as_str(), ", got ");
                concat2(head.as_str(), a.as_str())
            },
            FrameError::UnexpectedFrameKind { expected, actual } => {
                let head = concat2("unexpected adapter frame kind: expected ", kind_name(*expected));
                let head = concat2(head.as_str(), ", got ");
                concat2(head.as_str(), kind_name(*actual))
            },
        }
    }
}

/// One frame: its kind, id, JSON bytes and binary bytes.
#[derive(Debug, Clone, PartialEq, Eq)]
pub struct AdapterFrame {
    pub kind: FrameKind,
    pub id: u64,
    pub json: Vec<u8>,
    pub binary: Vec<u8>,
}

/// The eight little-endian bytes of `v`.
pub open spec fn le_bytes_u64(v: u64) -> Seq<u8> {
    seq![
        v as u8,
        (v >> 8u64) as u8,
        (v >> 16u64) as u8,
        (v >> 24u64) as u8,
        (v >> 32u64) as u8,
        (v >> 40u64) as u8,
        (v >> 48u64) as u8,
        (v >> 56u64) as u8,
    ]
}

/// The four little-endian bytes of `v`.
pub open spec fn le_bytes_u32(v: u32) -> Seq<u8> {
    seq![v as u8, (v >> 8u32) as u8, (v >> 16u32) as u8, (v >> 24u32) as u8]
}

pub open spec fn u64_from_le(b0: u8, b1: u8, b2: u8, b3: u8, b4: u8, b5: u8, b6: u8, b7: u8) -> u64 {
    (b0 as u64) | ((b1 as u64) << 8u64) | ((b2 as u64) << 16u64) | ((b3 as u64) << 24u64) | ((
    b4 as u64) << 32u64) | ((b5 as u64) << 40u64) | ((b6 as u64) << 48u64) | ((b7 as u64)
        << 56u64)
}

pub open spec fn u32_from_le(b0: u8, b1: u8, b2: u8, b3: u8) -> u32 {
    (b0 as u32) | ((b1 as u32) << 8u32) | ((b2 as u32) << 16u32) | ((b3 as u32) << 24u32)
}

/// The `u64` stored little-endian at position `i` of `b`.
pub open spec fn le_u64_at(b: Seq<u8>, i: int) -> u64 {
    u64_from_le(b[i], b[i + 1], b[i + 2], b[i + 3], b[i + 4], b[i + 5], b[i + 6], b[i + 7])
}

/// The `u32` stored little-endian at position `i` of `b`.
pub open spec fn le_u32_at(b: Seq<u8>, i: int) -> u32 {
    u32_from_le(b[i], b[i + 1], b[i + 2], b[i + 3])
}

proof fn lemma_u64_le_round_trip(v: u64)
    ensures
        u64_from_le(
            v as u8,
            (v >> 8u64) as u8,
            (v >> 16u64) as u8,
            (v >> 24u64) as u8,
            (v >> 32u64) as u8,
            (v >> 40u64) as u8,
            (v >> 48u64) as u8,
            (v >> 56u64) as u8,
        ) == v,
{
    assert(((v as u8) as u64) | ((((v >> 8u64) as u8) as u64) << 8u64) | ((((v >> 16u64) as u8) as u64)
        << 16u64) | ((((v >> 24u64) as u8) as u64) << 24u64) | ((((v >> 32u64) as u8) as u64)
        << 32u64) | ((((v >> 40u64) as u8) as u64) << 40u64) | ((((v >> 48u64) as u8) as u64)
        << 48u64) | ((((v >> 56u64) as u8) as u64) << 56u64) == v) by (bit_vector);
}

proof fn lemma_u32_le_round_trip(v: u32)
    ensures
        u32_from_le(v as u8, (v >> 8u32) as u8, (v >> 16u32) as u8, (v >> 24u32) as u8) == v,
{
    assert(((v as u8) as u32) | ((((v >> 8u32) as u8) as u32) << 8u32) | ((((v >> 16u32) as u8) as u32)
        << 16u32) | ((((v >> 24u32) as u8) as u32) << 24u32) == v) by (bit_vector);
}

/// The bytes of a frame: header, JSON, binary. A length beyond `u32`
/// is declared as `u32::MAX`.
pub open spec fn encoded_frame(kind: FrameKind, id: u64, json: Seq<u8>, binary: Seq<u8>) -> Seq<u8> {
    frame_magic() + seq![kind_code(kind)] + le_bytes_u64(id) + le_bytes_u32(
        saturate_u32(json.len() as int),
    ) + le_bytes_u32(saturate_u32(binary.len() as int)) + json + binary
}

/// The header fields of a frame.
#[derive(Debug, Clone, Copy, PartialEq, Eq, Structural)]
pub struct FrameHeader {
    pub kind: FrameKind,
    pub id: u64,
    pub json_len: u32,
    pub binary_len: u32,
}

/// What the first bytes of a stream say of a frame: refused when there are
/// fewer than a header's bytes, the magic is wrong or the kind unknown.
pub open spec fn header_result(b: Seq<u8>) -> Result<FrameHeader, FrameError> {
    if b.len() < 21 {
        Err(FrameError::UnexpectedEof)
    } else if b.take(4) != frame_magic() {
        Err(FrameError::InvalidMagic([b[0], b[1], b[2], b[3]]))
    } else {
        match kind_of_code(b[4]) {
            None => Err(FrameError::UnknownKind(b[4])),
            Some(kind) => Ok(
                FrameHeader {
                    kind,
                    id: le_u64_at(b, 5),
                    json_len: le_u32_at(b, 13),
                    binary_len: le_u32_at(b, 17),
                },
            ),
        }
    }
}

/// The frame at the start of `b` and the number of bytes it takes.
pub open spec fn decode_result(b: Seq<u8>) -> Result<(FrameHeader, int), FrameError> {
    match header_result(b) {
        Err(e) => Err(e),
        Ok(h) => {
            let total = 21 + h.json_len + h.binary_len;
            if total > usize::MAX || b.len() < total {
                Err(FrameError::UnexpectedEof)
            } else {
                Ok((h, total))
            }
        },
    }
}

/// Reads the header at the start of `bytes`.
pub fn parse_frame_header(bytes: &[u8]) -> (r: Result<FrameHeader, FrameError>)
    ensures
        match header_result(bytes@) {
            Ok(h) => r == Ok::<FrameHeader, FrameError>(h),
            Err(FrameError::InvalidMagic(_)) => r matches Err(FrameError::InvalidMagic(m)) && m@
                == bytes@.take(4),
            Err(e) => r == Err::<FrameHeader, FrameError>(e),
        },
{
    if bytes.len() < FRAME_HEADER_LEN {
        return Err(FrameError::UnexpectedEof);
    }
    if !(bytes[0] == 0x45 && bytes[1] == 0x4c && bytes[2] == 0x43 && bytes[3] == 0x58) {
        let magic: [u8; 4] = [bytes[0], bytes[1], bytes[2], bytes[3]];
        proof {
            assert(bytes@.take(4) != frame_magic()) by {
                if bytes@.take(4) == frame_magic() {
                    assert(bytes@.take(4)[0] == 0x45u8);
                    assert(bytes@.take(4)[1] == 0x4cu8);
                    assert(bytes@.take(4)[2] == 0x43u8);
                    assert(bytes@.take(4)[3] == 0x58u8);
                }
            }
            assert(magic@ =~= bytes@.take(4));
        }
        return Err(FrameError::InvalidMagic(magic));
    }
    assert(bytes@.take(4) =~= frame_magic());
    let kind = match FrameKind::from_u8(bytes[4]) {
        Ok(k) => k,
        Err(e) => {
            return Err(e);
        },
    };
    let id: u64 = (bytes[5] as u64) | ((bytes[6] as u64) << 8u64) | ((bytes[7] as u64) << 16u64)
        | ((bytes[8] as u64) << 24u64) | ((bytes[9] as u64) << 32u64) | ((bytes[10] as u64)
        << 40u64) | ((bytes[11] as u64) << 48u64) | ((bytes[12] as u64) << 56u64);
    let json_len: u32 = (bytes[13] as u32) | ((bytes[14] as u32) << 8u32) | ((bytes[15] as u32)
        << 16u32) | ((bytes[16] as u32) << 24u32);
    let binary_len: u32 = (bytes[17] as u32) | ((bytes[18] as u32) << 8u32) | ((bytes[19] as u32)
        << 16u32) | ((bytes[20] as u32) << 24u32);
    Ok(FrameHeader { kind, id, json_len, binary_len })
}

fn push_le_u64(out: &mut Vec<u8>, v: u64)
    ensures
        final(out)@ == old(out)@ + le_bytes_u64(v),
{
    out.push(v as u8);
    out.push((v >> 8u64) as u8);
    out.push((v >> 16u64) as u8);
    out.push((v >> 24u64) as u8);
    out.push((v >> 32u64) as u8);
    out.push((v >> 40u64) as u8);
    out.push((v >> 48u64) as u8);
    out.push((v >> 56u64) as u8);
    assert(final(out)@ =~= old(out)@ + le_bytes_u64(v));
}

fn push_le_u32(out: &mut Vec<u8>, v: u32)
    ensures
        final(out)@ == old(out)@ + le_bytes_u32(v),
{
    out.push(v as u8);
    out.push((v >> 8u32) as u8);
    out.push((v >> 16u32) as u8);
    out.push((v >> 24u32) as u8);
    assert(final(out)@ =~= old(out)@ + le_bytes_u32(v));
}

fn append_bytes(out: &mut Vec<u8>, bytes: &[u8])
    ensures
        final(out)@ == old(out)@ + bytes@,
{
    let mut i: usize = 0;
    while i < bytes.len()
        invariant
            i <= bytes@.len(),
            out@ == old(out)@ + bytes@.take(i as int),
        decreases bytes@.len() - i,
    {
        out.push(bytes[i]);
        assert(bytes@.take(i + 1) =~= bytes@.take(i as int).push(bytes@[i as int]));
        assert(out@ =~= old(out)@ + bytes@.take(i + 1));
        i = i + 1;
    }
    assert(bytes@.take(bytes@.len() as int) =~= bytes@);
}

fn copy_range(bytes: &[u8], start: usize, end: usize) -> (r: Vec<u8>)
    requires
        start <= end <= bytes@.len(),
    ensures
        r@ == bytes@.subrange(start as int, end as int),
{
    let mut out: Vec<u8> = Vec::new();
    let mut i = start;
    while i < end
        invariant
            start <= i <= end,
            end <= bytes@.len(),
            out@ == bytes@.subrange(start as int, i as int),
        decreases end - i,
    {
        out.push(bytes[i]);
        assert(out@ =~= bytes@.subrange(start as int, i + 1));
        i = i + 1;
    }
    out
}

fn copy_all(bytes: &[u8]) -> (r: Vec<u8>)
    ensures
        r@ == bytes@,
{
    let r = copy_range(bytes, 0, bytes.len());
    assert(bytes@.subrange(0, bytes@.len() as int) =~= bytes@);
    r
}

impl AdapterFrame {
    /// The frame's bytes.
    pub fn encode(&self) -> (r: Vec<u8>)
        ensures
            r@ == encoded_frame(self.kind, self.id, self.json@, self.binary@),
    {
        let json_len = saturating_u32(self.json.len());
        let binary_len = saturating_u32(self.binary.len());
        let mut bytes: Vec<u8> = Vec::new();
        bytes.push(0x45);
        bytes.push(0x4c);
        bytes.push(0x43);
        bytes.push(0x58);
        bytes.push(self.kind.code());
        assert(bytes@ =~= frame_magic() + seq![kind_code(self.kind)]);
        push_le_u64(&mut bytes, self.id);
        push_le_u32(&mut bytes, json_len);
        push_le_u32(&mut bytes, binary_len);
        append_bytes(&mut bytes, self.json.as_slice());
        append_bytes(&mut bytes, self.binary.as_slice());
        bytes
    }

    /// The frame at the start of `bytes`, with the number of bytes it
    /// takes: refused when the header is refused, or when the bytes end
    /// before the lengths it declares.
    pub fn decode(bytes: &[u8]) -> (r: Result<(Self, usize), FrameError>)
        ensures
            match decode_result(bytes@) {
                Ok((h, total)) => r matches Ok((f, n)) && n == total && f.kind == h.kind && f.id
                    == h.id && f.json@ == bytes@.subrange(21, 21 + h.json_len) && f.binary@
                    == bytes@.subrange(21 + h.json_len, total),
                Err(FrameError::InvalidMagic(_)) => r matches Err(FrameError::InvalidMagic(m))
                    && m@ == bytes@.take(4),
                Err(e) => r == Err::<(Self, usize), FrameError>(e),
            },
    {
        let header = match parse_frame_header(bytes) {
            Ok(h) => h,
            Err(e) => {
                return Err(e);
            },
        };
        let json_len = header.json_len as usize;
        let binary_len = header.binary_len as usize;
        let total = match FRAME_HEADER_LEN.checked_add(json_len) {
            Some(t) => match t.checked_add(binary_len) {
                Some(t) => t,
                None => {
                    return Err(FrameError::UnexpectedEof);
                },
            },
            None => {
                return Err(FrameError::UnexpectedEof);
            },
        };
        if bytes.len() < total {
            return Err(FrameError::UnexpectedEof);
        }
        let json_start = FRAME_HEADER_LEN;
        let bin_start = json_start + json_len;
        let json = copy_range(bytes, json_start, bin_start);
        let binary = copy_range(bytes, bin_start, total);
        Ok((AdapterFrame { kind: header.kind, id: header.id, json, binary }, total))
    }

    /// A frame from a header and the bytes read after it.
    pub fn from_parts(header: FrameHeader, json: Vec<u8>, binary: Vec<u8>) -> (r: Self)
        ensures
            r.kind == header.kind,
            r.id == header.id,
            r.json@ == json@,
            r.binary@ == binary@,
    {
        AdapterFrame { kind: header.kind, id: header.id, json, binary }
    }
}

/// Decoding a frame's bytes gives the frame back, whatever follows them,
/// as long as its parts fit the lengths a header can declare.
pub proof fn law_frame_round_trip(
    kind: FrameKind,
    id: u64,
    json: Seq<u8>,
    binary: Seq<u8>,
    rest: Seq<u8>,
)
    requires
        json.len() <= u32::MAX,
        binary.len() <= u32::MAX,
        21 + json.len() + binary.len() <= usize::MAX,
    ensures
        ({
            let b = encoded_frame(kind, id, json, binary) + rest;
            let total = 21 + json.len() + binary.len();
            &&& decode_result(b) == Ok::<(FrameHeader, int), FrameError>(
                (
                    FrameHeader {
                        kind,
                        id,
                        json_len: json.len() as u32,
                        binary_len: binary.len() as u32,
                    },
                    total as int,
                ),
            )
            &&& b.subrange(21, 21 + json.len() as int) == json
            &&& b.subrange(21 + json.len() as int, total as int) == binary
        }),
{
    let jl = json.len() as u32;
    let bl = binary.len() as u32;
    let head = frame_magic() + seq![kind_code(kind)] + le_bytes_u64(id) + le_bytes_u32(jl)
        + le_bytes_u32(bl);
    assert(saturate_u32(json.len() as int) == jl);
    assert(saturate_u32(binary.len() as int) == bl);
    let b = encoded_frame(kind, id, json, binary) + rest;
    assert(head.len() == 21);
    assert(b =~= head + json + binary + rest);
    assert(b.take(4) =~= frame_magic());
    assert(b[4] == kind_code(kind));
    lemma_u64_le_round_trip(id);
    lemma_u32_le_round_trip(jl);
    lemma_u32_le_round_trip(bl);
    assert(b[5] == id as u8);
    assert(b[6] == (id >> 8u64) as u8);
    assert(b[7] == (id >> 16u64) as u8);
    assert(b[8] == (id >> 24u64) as u8);
    assert(b[9] == (id >> 32u64) as u8);
    assert(b[10] == (id >> 40u64) as u8);
    assert(b[11] == (id >> 48u64) as u8);
    assert(b[12] == (id >> 56u64) as u8);
    assert(le_u64_at(b, 5) == id);
    assert(b[13] == jl as u8);
    assert(b[14] == (jl >> 8u32) as u8);
    assert(b[15] == (jl >> 16u32) as u8);
    assert(b[16] == (jl >> 24u32) as u8);
    assert(le_u32_at(b, 13) == jl);
    assert(b[17] == bl as u8);
    assert(b[18] == (bl >> 8u32) as u8);
    assert(b[19] == (bl >> 16u32) as u8);
    assert(b[20] == (bl >> 24u32) as u8);
    assert(le_u32_at(b, 17) == bl);
    match kind {
        FrameKind::Request => {},
        FrameKind::Response => {},
        FrameKind::Event => {},
    }
    assert(b.subrange(21, 21 + json.len() as int) =~= json);
    assert(b.subrange(21 + json.len() as int, 21 + json.len() as int + binary.len() as int)
        =~= binary);
}

/// The JSON of a request frame; any other kind is refused.
pub fn request_frame_json(frame: &AdapterFrame) -> (r: Result<&[u8], FrameError>)
    ensures
        frame.kind == FrameKind::Request ==> (r matches Ok(j) && j@ == frame.json@),
        frame.kind != FrameKind::Request ==> r == Err::<&[u8], FrameError>(
            FrameError::UnexpectedFrameKind { expected: FrameKind::Request, actual: frame.kind },
        ),
{
    match frame.kind {
        FrameKind::Request => Ok(frame.json.as_slice()),
        _ => Err(
            FrameError::UnexpectedFrameKind { expected: FrameKind::Request, actual: frame.kind },
        ),
    }
}

/// Checks that a frame comes from an adapter: a response or an event.
pub fn check_adapter_frame(frame: &AdapterFrame) -> (r: Result<(), FrameError>)
    ensures
        frame.kind != FrameKind::Request ==> r is Ok,
        frame.kind == FrameKind::Request ==> r == Err::<(), FrameError>(
            FrameError::UnexpectedFrameKind {
                expected: FrameKind::Response,
                actual: FrameKind::Request,
            },
        ),
{
    match frame.kind {
        FrameKind::Request => Err(
            FrameError::UnexpectedFrameKind {
                expected: FrameKind::Response,
                actual: FrameKind::Request,
            },
        ),
        _ => Ok(()),
    }
}

/// The frame of a request whose JSON is `json`.
pub fn request_frame(request_id: AdapterRequestId, json: Vec<u8>) -> (r: AdapterFrame)
    ensures
        r.kind == FrameKind::Request,
        r.id == request_id.0,
        r.json@ == json@,
        r.binary@.len() == 0,
{
    AdapterFrame { kind: FrameKind::Request, id: request_id.0, json, binary: Vec::new() }
}

/// The frame of an event whose JSON is `json`.
pub fn event_frame_from_json(json: Vec<u8>) -> (r: AdapterFrame)
    ensures
        r.kind == FrameKind::Event,
        r.id == 0,
        r.json@ == json@,
        r.binary@.len() == 0,
{
    AdapterFrame { kind: FrameKind::Event, id: 0, json, binary: Vec::new() }
}

/// The frame of a response whose JSON is `json` and whose pixels, if any,
/// are `binary`.
pub fn response_frame_from_json(request_id: AdapterRequestId, json: Vec<u8>, binary: Vec<u8>) -> (r: AdapterFrame)
    ensures
        r.kind == FrameKind::Response,
        r.id == request_id.0,
        r.json@ == json@,
        r.binary@ == binary@,
{
    AdapterFrame { kind: FrameKind::Response, id: request_id.0, json, binary }
}

/// Moves the pixels of a viewport frame response out, declaring their
/// count in `byte_len`; any other message gives no bytes and is left as
/// it is.
pub fn take_viewport_pixels(message: &mut AdapterResponseMessage) -> (r: Vec<u8>)
    ensures
        match *old(message) {
            AdapterResponseMessage::GetViewportFrame(resp) => {
                &&& r@ == resp.pixels@
                &&& *final(message) matches AdapterResponseMessage::GetViewportFrame(now)
                &&& now.pixels@.len() == 0
                &&& now.byte_len == saturate_u32(resp.pixels@.len() as int)
                &&& now.viewport_id == resp.viewport_id
                &&& now.width == resp.width
                &&& now.height == resp.height
                &&& now.format == resp.format
                &&& now.diagnostics == resp.diagnostics
                &&& now.status == resp.status
            },
            _ => r@.len() == 0 && *final(message) == *old(message),
        },
{
    match message {
        AdapterResponseMessage::GetViewportFrame(response) => {
            let mut pixels: Vec<u8> = Vec::new();
            std::mem::swap(&mut pixels, &mut response.pixels);
            response.byte_len = saturating_u32(pixels.len());
            pixels
        },
        _ => Vec::new(),
    }
}

/// Puts the binary part of a frame into a viewport frame response as its
/// pixels; refused when it is not as long as the response declares.
pub fn attach_viewport_pixels(response: &mut GetViewportFrameResponse, binary: &[u8]) -> (r: Result<(), FrameError>)
    ensures
        old(response).byte_len as int != binary@.len() ==> r == Err::<(), FrameError>(
            FrameError::BinaryLengthMismatch {
                expected: old(response).byte_len,
                actual: binary@.len() as usize,
            },
        ) && *final(response) == *old(response),
        old(response).byte_len as int == binary@.len() ==> r is Ok && final(response).pixels@
            == binary@ && final(response).byte_len == old(response).byte_len
            && final(response).viewport_id == old(response).viewport_id && final(response).width
            == old(response).width && final(response).height == old(response).height && final(
            response).format == old(response).format && final(response).diagnostics == old(
            response).diagnostics && final(response).status == old(response).status,
{
    if response.byte_len as usize != binary.len() {
        return Err(
            FrameError::BinaryLengthMismatch { expected: response.byte_len, actual: binary.len() },
        );
    }
    response.pixels = copy_all(binary);
    Ok(())
}

/// A response line carrying `v` with `pixels` as its pixels.
pub open spec fn line_with_pixels(
    line: AdapterLine,
    request_id: AdapterRequestId,
    v: GetViewportFrameResponse,
    pixels: Seq<u8>,
) -> bool {
    &&& line matches AdapterLine::Response(now)
    &&& now.request_id == request_id
    &&& now.message matches AdapterResponseMessage::GetViewportFrame(w)
    &&& w.pixels@ == pixels
    &&& w.byte_len == v.byte_len
    &&& w.viewport_id == v.viewport_id
    &&& w.width == v.width
    &&& w.height == v.height
    &&& w.format == v.format
    &&& w.diagnostics == v.diagnostics
    &&& w.status == v.status
}

/// After a line is read from a frame, a viewport frame response takes its
/// pixels from the frame's binary part; other lines are left as they are.
pub fn attach_line_pixels(line: &mut AdapterLine, binary: &[u8]) -> (r: Result<(), FrameError>)
    ensures
        match *old(line) {
            AdapterLine::Response(resp) => match resp.message {
                AdapterResponseMessage::GetViewportFrame(v) => {
                    &&& v.byte_len as int != binary@.len() ==> r == Err::<(), FrameError>(
                        FrameError::BinaryLengthMismatch {
                            expected: v.byte_len,
                            actual: binary@.len() as usize,
                        },
                    )
                    &&& v.byte_len as int == binary@.len() ==> r is Ok && line_with_pixels(
                        *final(line),
                        resp.request_id,
                        v,
                        binary@,
                    )
                },
                _ => r is Ok && *final(line) == *old(line),
            },
            _ => r is Ok && *final(line) == *old(line),
        },
{
    match line {
        AdapterLine::Response(response) => match &mut response.message {
            AdapterResponseMessage::GetViewportFrame(v) => attach_viewport_pixels(v, binary),
            _ => Ok(()),
        },
        _ => Ok(()),
    }
}

/// A response ready for framing: the response without its pixels, and the
/// pixel bytes that travel in the binary part.
pub fn split_response_pixels(response: &AdapterResponse) -> (r: (AdapterResponse, Vec<u8>))
    ensures
        r.0.request_id == response.request_id,
        match response.message {
            AdapterResponseMessage::GetViewportFrame(resp) => {
                &&& r.1@ == resp.pixels@
                &&& r.0.message matches AdapterResponseMessage::GetViewportFrame(now)
                &&& now.pixels@.len() == 0
                &&& now.byte_len == saturate_u32(resp.pixels@.len() as int)
                &&& now.viewport_id == resp.viewport_id
                &&& now.width == resp.width
                &&& now.height == resp.height
                &&& now.format == resp.format
                &&& now.status == resp.status
                &&& now.diagnostics@ == resp.diagnostics@
            },
            _ => r.1@.len() == 0 && same_response(r.0.message, response.message),
        },
{
    match &response.message {
        AdapterResponseMessage::GetViewportFrame(v) => {
            let mut message = AdapterResponseMessage::GetViewportFrame(
                GetViewportFrameResponse {
                    viewport_id: v.viewport_id,
                    width: v.width,
                    height: v.height,
                    format: v.format,
                    byte_len: v.byte_len,
                    pixels: copy_all(v.pixels.as_slice()),
                    diagnostics: copy_diagnostics(&v.diagnostics),
                    status: v.status,
                },
            );
            let pixels = take_viewport_pixels(&mut message);
            (AdapterResponse { request_id: response.request_id, message }, pixels)
        },
        other => (
            AdapterResponse { request_id: response.request_id, message: copy_response_message(other) },
            Vec::new(),
        ),
    }
}

/// Where filling a frame header from a stream stands after one read.
#[derive(Debug, Clone, Copy, PartialEq, Eq, Structural)]
pub enum HeaderFill {
    /// This many bytes are in; read on.
    Partial(usize),
    /// The header is complete.
    Complete,
    /// The stream ended before the header began: there is no further frame.
    EndOfStream,
}

/// Takes one read of `count` bytes into a header of `len` bytes of which
/// `filled` are already in: a stream that ends before the first byte holds
/// no further frame, one that ends inside the header is cut short, and
/// otherwise the bytes count towards the header.
pub fn header_fill_step(filled: usize, len: usize, count: usize) -> (r: Result<HeaderFill, FrameError>)
    requires
        filled < len,
        count <= len - filled,
    ensures
        count == 0 && filled == 0 ==> r == Ok::<HeaderFill, FrameError>(HeaderFill::EndOfStream),
        count == 0 && filled > 0 ==> r == Err::<HeaderFill, FrameError>(FrameError::UnexpectedEof),
        count > 0 && filled + count == len ==> r == Ok::<HeaderFill, FrameError>(HeaderFill::Complete),
        count > 0 && filled + count < len ==> r == Ok::<HeaderFill, FrameError>(
            HeaderFill::Partial((filled + count) as usize),
        ),
{
    if count == 0 {
        if filled == 0 {
            Ok(HeaderFill::EndOfStream)
        } else {
            Err(FrameError::UnexpectedEof)
        }
    } else if filled + count == len {
        Ok(HeaderFill::Complete)
    } else {
        Ok(HeaderFill::Partial(filled + count))
    }
}

} // verus!
