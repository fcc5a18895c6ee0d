//! A sensor packet: a big-endian `u32` version, a big-endian `u32` payload
//! length and the payload itself.
//!
//! ```text
//! version  bytes 0..4
//! length   bytes 4..8
//! data     bytes 8..8+length (cut short at the end of the buffer)
//! ```

use vstd::prelude::*;

verus! {

/// The number of header bytes in front of the payload.
pub const HEADER_LEN: usize = 8;

/// The value of four bytes read as a big-endian unsigned integer.
pub open spec fn be_u32_value(b: Seq<u8>) -> int
    recommends
        b.len() >= 4,
{
    b[0] as int * 0x100_0000 + b[1] as int * 0x1_0000 + b[2] as int * 0x100 + b[3] as int
}

/// The four big-endian bytes of `v`.
pub open spec fn be_u32_bytes(v: u32) -> Seq<u8> {
    seq![(v >> 24) as u8, ((v >> 16) & 0xff) as u8, ((v >> 8) & 0xff) as u8, (v & 0xff) as u8]
}

/// The version field of a packet.
pub open spec fn packet_version(raw: Seq<u8>) -> int {
    be_u32_value(raw)
}

/// The length field of a packet.
pub open spec fn packet_length(raw: Seq<u8>) -> int {
    be_u32_value(raw.subrange(4, 8))
}

/// Where the payload ends: the declared end, or the end of the buffer if that comes first.
pub open spec fn packet_data_end(raw: Seq<u8>) -> int {
    if HEADER_LEN + packet_length(raw) <= raw.len() {
        HEADER_LEN + packet_length(raw)
    } else {
        raw.len() as int
    }
}

/// The payload of a packet.
pub open spec fn packet_data(raw: Seq<u8>) -> Seq<u8> {
    raw.subrange(HEADER_LEN as int, packet_data_end(raw))
}

/// The bytes of a packet with the given version and payload.
pub open spec fn encode_packet(version: u32, data: Seq<u8>) -> Seq<u8>
    recommends
        data.len() <= u32::MAX,
{
    be_u32_bytes(version) + be_u32_bytes(data.len() as u32) + data
}

/// Reads the first four bytes of `data` as a big-endian `u32`.
pub fn read_u32(data: &[u8]) -> (r: u32)
    requires
        data@.len() >= 4,
    ensures
        r as int == be_u32_value(data@),
{
    let b0 = data[0] as u32;
    let b1 = data[1] as u32;
    let b2 = data[2] as u32;
    let b3 = data[3] as u32;
    assert(b0 << 24u32 == b0 * 0x100_0000 && b1 << 16u32 == b1 * 0x1_0000 && b2 << 8u32 == b2 * 0x100
        && b3 << 0u32 == b3) by (bit_vector)
        requires
            b0 < 256 && b1 < 256 && b2 < 256 && b3 < 256,
    ;
    (b0 << 24u32) + (b1 << 16u32) + (b2 << 8u32) + (b3 << 0u32)
}

/// A view of a received packet that reads its fields in place.
pub struct MyPacketReader<'a> {
    raw: &'a [u8],
}

impl<'a> MyPacketReader<'a> {
    /// The bytes the reader looks at.
    pub closed spec fn bytes(&self) -> Seq<u8> {
        self.raw@
    }

    /// A reader is only made over a buffer that holds a whole header.
    #[verifier::type_invariant]
    spec fn inv(&self) -> bool {
        self.raw@.len() >= HEADER_LEN
    }

    /// Makes a reader over `raw`; `None` when `raw` is shorter than the header.
    pub fn new(raw: &'a [u8]) -> (r: Option<MyPacketReader<'a>>)
        ensures
            r is Some <==> raw@.len() >= HEADER_LEN,
            r matches Some(p) ==> p.bytes() == raw@,
    {
        if raw.len() < HEADER_LEN {
            None
        } else {
            Some(MyPacketReader { raw: raw })
        }
    }

    /// The version field.
    pub fn get_version(&self) -> (r: u32)
        ensures
            self.bytes().len() >= HEADER_LEN,
            r as int == packet_version(self.bytes()),
    {
        proof {
            use_type_invariant(self);
        }
        read_u32(self.raw)
    }

    /// The payload: the bytes after the header, as many as the length field
    /// says, or all of them when the buffer ends first.
    pub fn get_data(&self) -> (r: &'a [u8])
        ensures
            self.bytes().len() >= HEADER_LEN,
            r@ == packet_data(self.bytes()),
    {
        proof {
            use_type_invariant(self);
        }
        let length = read_u32(&self.raw[4..8]);
        let avail = self.raw.len() - HEADER_LEN;
        let end = if (length as u64) <= (avail as u64) {
            HEADER_LEN + length as usize
        } else {
            self.raw.len()
        };
        &self.raw[HEADER_LEN..end]
    }
}

/// Four big-endian bytes read back give the value they were made from.
pub proof fn lemma_be_u32_roundtrip(v: u32)
    ensures
        be_u32_bytes(v).len() == 4,
        be_u32_value(be_u32_bytes(v)) == v,
{
    let b0 = (v >> 24) as u8;
    let b1 = ((v >> 16) & 0xff) as u8;
    let b2 = ((v >> 8) & 0xff) as u8;
    let b3 = (v & 0xff) as u8;
    assert(b0 as int * 0x100_0000 + b1 as int * 0x1_0000 + b2 as int * 0x100 + b3 as int == v)
        by (bit_vector)
        requires
            b0 == (v >> 24) as u8,
            b1 == ((v >> 16) & 0xff) as u8,
            b2 == ((v >> 8) & 0xff) as u8,
            b3 == (v & 0xff) as u8,
    ;
}

/// A packet written with a version and a payload, followed by any further
/// bytes, reads back as that version and that payload.
pub proof fn lemma_packet_roundtrip(version: u32, data: Seq<u8>, trailing: Seq<u8>)
    requires
        data.len() <= u32::MAX,
    ensures
        ({
            let raw = encode_packet(version, data) + trailing;
            &&& raw.len() >= HEADER_LEN
            &&& packet_version(raw) == version
            &&& packet_length(raw) == data.len()
            &&& packet_data(raw) == data
        }),
{
    lemma_be_u32_roundtrip(version);
    lemma_be_u32_roundtrip(data.len() as u32);
    let raw = encode_packet(version, data) + trailing;
    let h1 = be_u32_bytes(version);
    let h2 = be_u32_bytes(data.len() as u32);
    assert(raw.subrange(4, 8) =~= h2);
    assert(raw.subrange(0, 4) =~= h1);
    assert(be_u32_value(raw) == be_u32_value(h1));
    assert(raw.subrange(8, 8 + data.len() as int) =~= data);
}

} // verus!
