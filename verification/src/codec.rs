//! The fixed 12-byte wire header and its codec.
//!
//! Every request and every response starts with exactly [`HEADER_SIZE`]
//! bytes: a reserved byte, a control byte, then format tag and big-endian
//! length for each of the two content blocks that follow the header.

use vstd::prelude::*;

verus! {

/// Number of bytes in every request and response header.
pub const HEADER_SIZE: usize = 12;

/// Header structure representing the protocol header.
///
/// The header contains information about the request or response, including
/// a reserved byte, control/status indicators, content formats, and content
/// lengths.
#[derive(Clone, Copy, Debug, PartialEq, Eq, Structural)]
pub struct Header {
    /// Reserved field that must be set to 0. Reserved for future use.
    pub reserved: u8,
    /// Control field: the requested action for requests (10 = parse
    /// template) or the status for responses (0 = success, 1 = error).
    pub control: u8,
    /// Format tag of the first content block (10 = JSON, 20 = file path,
    /// 30 = plaintext, 40 = binary).
    pub content_format_1: u8,
    /// Byte length of the first content block, big-endian on the wire.
    pub content_length_1: u32,
    /// Format tag of the second content block (same tag space as the first).
    pub content_format_2: u8,
    /// Byte length of the second content block, big-endian on the wire.
    /// May be zero.
    pub content_length_2: u32,
}

/// The most significant byte of `x` in big-endian order.
pub open spec fn be_byte_0(x: u32) -> u8 {
    ((x >> 24) & 0xff) as u8
}

/// The second byte of `x` in big-endian order.
pub open spec fn be_byte_1(x: u32) -> u8 {
    ((x >> 16) & 0xff) as u8
}

/// The third byte of `x` in big-endian order.
pub open spec fn be_byte_2(x: u32) -> u8 {
    ((x >> 8) & 0xff) as u8
}

/// The least significant byte of `x` in big-endian order.
pub open spec fn be_byte_3(x: u32) -> u8 {
    (x & 0xff) as u8
}

/// The `u32` whose big-endian bytes are `b0 b1 b2 b3`.
pub open spec fn u32_of_be(b0: u8, b1: u8, b2: u8, b3: u8) -> u32 {
    ((b0 as u32) << 24) | ((b1 as u32) << 16) | ((b2 as u32) << 8) | (b3 as u32)
}

/// The 12 bytes that encode `h` in the fixed layout.
pub open spec fn spec_header_bytes(h: Header) -> Seq<u8> {
    seq![
        h.reserved,
        h.control,
        h.content_format_1,
        be_byte_0(h.content_length_1),
        be_byte_1(h.content_length_1),
        be_byte_2(h.content_length_1),
        be_byte_3(h.content_length_1),
        h.content_format_2,
        be_byte_0(h.content_length_2),
        be_byte_1(h.content_length_2),
        be_byte_2(h.content_length_2),
        be_byte_3(h.content_length_2),
    ]
}

/// The header read from the first 12 bytes of `b` in the fixed layout.
pub open spec fn spec_header_of(b: Seq<u8>) -> Header
    recommends
        b.len() >= HEADER_SIZE,
{
    Header {
        reserved: b[0],
        control: b[1],
        content_format_1: b[2],
        content_length_1: u32_of_be(b[3], b[4], b[5], b[6]),
        content_format_2: b[7],
        content_length_2: u32_of_be(b[8], b[9], b[10], b[11]),
    }
}

/// Recombining the four big-endian bytes of a `u32` gives it back.
pub proof fn lemma_u32_be_roundtrip(x: u32)
    ensures
        u32_of_be(be_byte_0(x), be_byte_1(x), be_byte_2(x), be_byte_3(x)) == x,
{
    assert(((((x >> 24) & 0xff) as u8 as u32) << 24) | ((((x >> 16) & 0xff) as u8 as u32) << 16)
        | ((((x >> 8) & 0xff) as u8 as u32) << 8) | ((x & 0xff) as u8 as u32) == x)
        by (bit_vector);
}

/// Each big-endian byte of the `u32` built from four bytes is the byte
/// it was built from.
pub proof fn lemma_be_bytes_of_u32(b0: u8, b1: u8, b2: u8, b3: u8)
    ensures
        be_byte_0(u32_of_be(b0, b1, b2, b3)) == b0,
        be_byte_1(u32_of_be(b0, b1, b2, b3)) == b1,
        be_byte_2(u32_of_be(b0, b1, b2, b3)) == b2,
        be_byte_3(u32_of_be(b0, b1, b2, b3)) == b3,
{
    assert((((((b0 as u32) << 24) | ((b1 as u32) << 16) | ((b2 as u32) << 8) | (b3 as u32)) >> 24)
        & 0xff) as u8 == b0) by (bit_vector);
    assert((((((b0 as u32) << 24) | ((b1 as u32) << 16) | ((b2 as u32) << 8) | (b3 as u32)) >> 16)
        & 0xff) as u8 == b1) by (bit_vector);
    assert((((((b0 as u32) << 24) | ((b1 as u32) << 16) | ((b2 as u32) << 8) | (b3 as u32)) >> 8)
        & 0xff) as u8 == b2) by (bit_vector);
    assert(((((b0 as u32) << 24) | ((b1 as u32) << 16) | ((b2 as u32) << 8) | (b3 as u32)) & 0xff)
        as u8 == b3) by (bit_vector);
}

/// Decoding the encoding of any header gives that header back: the codec
/// loses no field.
pub proof fn lemma_header_decode_encode(h: Header)
    ensures
        spec_header_of(spec_header_bytes(h)) == h,
{
    lemma_u32_be_roundtrip(h.content_length_1);
    lemma_u32_be_roundtrip(h.content_length_2);
}

/// Re-encoding the header decoded from any 12-byte buffer reproduces the
/// buffer exactly.
pub proof fn lemma_header_encode_decode(b: Seq<u8>)
    requires
        b.len() == HEADER_SIZE,
    ensures
        spec_header_bytes(spec_header_of(b)) == b,
{
    lemma_be_bytes_of_u32(b[3], b[4], b[5], b[6]);
    lemma_be_bytes_of_u32(b[8], b[9], b[10], b[11]);
    assert(spec_header_bytes(spec_header_of(b)) =~= b);
}

/// A framed message is self-describing: the header read back from the
/// front of the frame is the header it was framed with, and the two
/// content blocks follow back to back at the offsets and lengths its
/// length fields declare.
pub proof fn lemma_frame_roundtrip(h: Header, b1: Seq<u8>, b2: Seq<u8>)
    requires
        b1.len() == h.content_length_1,
        b2.len() == h.content_length_2,
    ensures
        ({
            let frame = spec_header_bytes(h) + b1 + b2;
            &&& frame.len() == HEADER_SIZE + b1.len() + b2.len()
            &&& spec_header_of(frame) == h
            &&& frame.subrange(HEADER_SIZE as int, HEADER_SIZE + b1.len()) == b1
            &&& frame.subrange(HEADER_SIZE + b1.len(), frame.len() as int) == b2
        }),
{
    let frame = spec_header_bytes(h) + b1 + b2;
    assert forall|i: int| 0 <= i < HEADER_SIZE implies frame[i] == spec_header_bytes(h)[i] by {}
    assert(spec_header_of(frame) == spec_header_of(spec_header_bytes(h)));
    lemma_header_decode_encode(h);
    assert(frame.subrange(HEADER_SIZE as int, HEADER_SIZE + b1.len()) =~= b1);
    assert(frame.subrange(HEADER_SIZE + b1.len(), frame.len() as int) =~= b2);
}

impl Header {
    /// Decodes a header from the first 12 bytes of `bytes`; fails exactly
    /// when fewer than 12 bytes are given. Field values are not validated
    /// here: that is the connection handler's job.
    pub fn from_bytes(bytes: &[u8]) -> (r: Option<Self>)
        ensures
            r is Some <==> bytes@.len() >= HEADER_SIZE,
            r is Some ==> r->0 == spec_header_of(bytes@),
    {
        if bytes.len() < HEADER_SIZE {
            return None;
        }
        Some(Header {
            reserved: bytes[0],
            control: bytes[1],
            content_format_1: bytes[2],
            content_length_1: ((bytes[3] as u32) << 24) | ((bytes[4] as u32) << 16)
                | ((bytes[5] as u32) << 8) | (bytes[6] as u32),
            content_format_2: bytes[7],
            content_length_2: ((bytes[8] as u32) << 24) | ((bytes[9] as u32) << 16)
                | ((bytes[10] as u32) << 8) | (bytes[11] as u32),
        })
    }

    /// Encodes the header into its fixed 12-byte layout. Any header value
    /// is encodable; no field is validated at encode time.
    pub fn to_bytes(&self) -> (r: [u8; HEADER_SIZE])
        ensures
            r@ == spec_header_bytes(*self),
    {
        let r: [u8; HEADER_SIZE] = [
            self.reserved,
            self.control,
            self.content_format_1,
            ((self.content_length_1 >> 24) & 0xff) as u8,
            ((self.content_length_1 >> 16) & 0xff) as u8,
            ((self.content_length_1 >> 8) & 0xff) as u8,
            (self.content_length_1 & 0xff) as u8,
            self.content_format_2,
            ((self.content_length_2 >> 24) & 0xff) as u8,
            ((self.content_length_2 >> 16) & 0xff) as u8,
            ((self.content_length_2 >> 8) & 0xff) as u8,
            (self.content_length_2 & 0xff) as u8,
        ];
        proof {
            assert(r@ =~= spec_header_bytes(*self));
        }
        r
    }
}

} // verus!
