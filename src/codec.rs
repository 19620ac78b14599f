use vstd::prelude::*;
use bincode::Options;
use crate::opcode::{DecodeError, Opcode, wire_of, is_known_wire, opcode_of};

verus! {

/// Number of bytes of a frame header.
pub const HEADER_LEN: usize = 9;

/// Version byte of requests; responses set the high bit as well.
pub const VERSION_REQUEST: u8 = 0x04;
pub const VERSION_RESPONSE: u8 = 0x84;

/// Flag bits.
pub const FLAG_COMPRESSION: u8 = 0x01;
pub const FLAG_TRACING: u8 = 0x02;
pub const FLAG_CUSTOM_PAYLOAD: u8 = 0x04;
pub const FLAG_WARNING: u8 = 0x08;

/// The fixed-size header that precedes every frame body.
#[derive(Debug, Clone, Copy, PartialEq, Eq, Structural)]
pub struct Header {
    pub version: u8,
    pub flags: u8,
    pub stream: i16,
    pub opcode: Opcode,
    pub length: u32,
}

/// One protocol message: a header and its opaque body.
#[derive(Debug, Clone)]
pub struct Frame {
    pub header: Header,
    pub body: Vec<u8>,
}

/// The versions this engine speaks: the request and the response form.
pub open spec fn is_supported_version(v: u8) -> bool {
    v == VERSION_REQUEST || v == VERSION_RESPONSE
}

/// A header that encodes and decodes back to itself.
pub open spec fn header_valid(h: Header) -> bool {
    is_supported_version(h.version)
}

/// Two bytes, most significant first.
pub open spec fn be16(x: u16) -> Seq<u8> {
    seq![(x / 0x100) as u8, (x % 0x100) as u8]
}

/// Four bytes, most significant first.
pub open spec fn be32(x: u32) -> Seq<u8> {
    seq![
        (x / 0x1000000) as u8,
        ((x / 0x10000) % 0x100) as u8,
        ((x / 0x100) % 0x100) as u8,
        (x % 0x100) as u8,
    ]
}

/// The integer that two bytes spell, most significant first.
pub open spec fn read_be16(b: Seq<u8>, i: int) -> u16 {
    (b[i] as int * 0x100 + b[i + 1] as int) as u16
}

/// The integer that four bytes spell, most significant first.
pub open spec fn read_be32(b: Seq<u8>, i: int) -> u32 {
    (b[i] as int * 0x1000000 + b[i + 1] as int * 0x10000 + b[i + 2] as int * 0x100 + b[
        i + 3
    ] as int) as u32
}

/// The two's-complement bits of a signed 16-bit integer.
pub open spec fn i16_bits(x: i16) -> u16 {
    (if x < 0 { x + 0x10000 } else { x as int }) as u16
}

/// The signed 16-bit integer whose two's-complement bits are `x`.
pub open spec fn i16_of_bits(x: u16) -> i16 {
    (if x >= 0x8000 { x - 0x10000 } else { x as int }) as i16
}

/// The raw header fields, in wire order.
pub open spec fn fields_bytes(f: (u8, u8, i16, u8, u32)) -> Seq<u8> {
    seq![f.0, f.1] + be16(i16_bits(f.2)) + seq![f.3] + be32(f.4)
}

/// The raw header fields that the first nine bytes spell.
pub open spec fn fields_of(b: Seq<u8>) -> (u8, u8, i16, u8, u32) {
    (b[0], b[1], i16_of_bits(read_be16(b, 2)), b[4], read_be32(b, 5))
}

/// The nine bytes of a header.
pub open spec fn header_bytes(h: Header) -> Seq<u8> {
    fields_bytes((h.version, h.flags, h.stream, wire_of(h.opcode), h.length))
}

/// What decoding yields for a byte sequence.
pub open spec fn decode_spec(b: Seq<u8>) -> Result<Header, DecodeError> {
    if b.len() < 9 {
        Err(DecodeError::Truncated)
    } else if !is_supported_version(b[0]) {
        Err(DecodeError::UnsupportedVersion(b[0]))
    } else {
        match opcode_of(b[4]) {
            Some(op) => Ok(
                Header {
                    version: b[0],
                    flags: b[1],
                    stream: i16_of_bits(read_be16(b, 2)),
                    opcode: op,
                    length: read_be32(b, 5),
                },
            ),
            None => Err(DecodeError::UnknownOpcode(b[4])),
        }
    }
}

/// Relies on bincode's serializer with fixed-width integers in big-endian
/// order: a tuple is written field by field, each integer as its
/// two's-complement bytes, most significant first, with no framing. Writing
/// into a `Vec` does not fail.
#[verifier::external_body]
fn bincode_write_fields(f: (u8, u8, i16, u8, u32)) -> (r: Option<Vec<u8>>)
    ensures
        r is Some,
        r.unwrap()@ == fields_bytes(f),
{
    bincode::DefaultOptions::new().with_fixint_encoding().with_big_endian().serialize(&f).ok()
}

/// Relies on bincode's deserializer with fixed-width integers in big-endian
/// order, trailing bytes allowed: the tuple is read field by field from the
/// first nine bytes.
#[verifier::external_body]
fn bincode_read_fields(b: &[u8]) -> (r: Option<(u8, u8, i16, u8, u32)>)
    ensures
        b@.len() >= 9 ==> r == Some(fields_of(b@)),
{
    bincode::DefaultOptions::new().with_fixint_encoding().with_big_endian().allow_trailing_bytes()
        .deserialize(b).ok()
}

/// The nine header bytes of `h`.
pub fn encode_header(h: &Header) -> (r: Vec<u8>)
    ensures
        r@ == header_bytes(*h),
        r@.len() == 9,
{
    let f = (h.version, h.flags, h.stream, h.opcode.to_wire(), h.length);
    match bincode_write_fields(f) {
        Some(v) => v,
        None => Vec::new(),
    }
}

/// Decodes the header that starts `b`; bytes past the ninth are not read.
pub fn decode_header(b: &[u8]) -> (r: Result<Header, DecodeError>)
    ensures
        r == decode_spec(b@),
{
    if b.len() < HEADER_LEN {
        return Err(DecodeError::Truncated);
    }
    let (version, flags, stream, op, length) = match bincode_read_fields(b) {
        Some(f) => f,
        None => return Err(DecodeError::Truncated),
    };
    if version != VERSION_REQUEST && version != VERSION_RESPONSE {
        return Err(DecodeError::UnsupportedVersion(version));
    }
    match Opcode::from_wire(op) {
        Ok(opcode) => Ok(Header { version, flags, stream, opcode, length }),
        Err(e) => Err(e),
    }
}

/// The whole frame as written on the wire: header, then body.
pub fn encode_frame(f: &Frame) -> (r: Vec<u8>)
    ensures
        r@ == header_bytes(f.header) + f.body@,
{
    let mut out = encode_header(&f.header);
    let mut i: usize = 0;
    while i < f.body.len()
        invariant
            i <= f.body@.len(),
            out@ == header_bytes(f.header) + f.body@.subrange(0, i as int),
        decreases f.body@.len() - i,
    {
        out.push(f.body[i]);
        proof {
            assert(f.body@.subrange(0, i + 1) == f.body@.subrange(0, i as int).push(f.body@[i as int]));
        }
        i = i + 1;
    }
    proof {
        assert(f.body@.subrange(0, f.body@.len() as int) == f.body@);
    }
    out
}

/// Decoding the encoding of a valid header gives the header back.
pub proof fn lemma_header_round_trip(h: Header)
    requires
        header_valid(h),
    ensures
        decode_spec(header_bytes(h)) == Ok::<Header, DecodeError>(h),
{
    let b = header_bytes(h);
    let s = i16_bits(h.stream);
    assert(b[2] == (s / 0x100) as u8 && b[3] == (s % 0x100) as u8);
    assert(read_be16(b, 2) == s);
    assert(i16_of_bits(s) == h.stream);
    let l = h.length;
    assert(read_be32(b, 5) == l);
    crate::opcode::lemma_opcode_round_trip(h.opcode);
}

} // verus!
