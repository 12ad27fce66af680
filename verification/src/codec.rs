//! The fixed-layout header record and its byte codec.
//!
//! Wire layout, 40 bytes total, all multi-byte integers little-endian:
//! `ty` at offset 0 (2 bytes), `flags` at 2 (2 bytes), `src` at 4
//! (16 raw bytes), `dst` at 20 (16 raw bytes), `len` at 36 (4 bytes).

use vstd::prelude::*;
use crate::cap::Cap;
use crate::cap::lemma_cap_len;
use crate::cap::lemma_cap_eq_bytes;

verus! {

broadcast use vstd::array::group_array_axioms, lemma_cap_len;

/// Number of bytes an encoded header occupies, independent of field values.
pub const HEADER_LEN: usize = 40;

/// IPC header: the fixed-size prefix of a message buffer, followed by
/// `len` payload bytes whose layout depends on the message type.
///
/// `ty` carries a raw discriminant; the codec preserves it faithfully even
/// when it names no registered message kind, and semantic validation is a
/// dispatch-layer concern. `flags` is reserved bit space with no assigned
/// meaning and must round-trip unchanged. `len` counts the payload bytes
/// that follow the header in the same buffer, the header itself excluded.
#[derive(Copy, Clone, Debug, PartialEq, Eq)]
#[verifier::ext_equal]
pub struct IpcHeader {
    pub ty: u16,
    pub flags: u16,
    pub src: Cap,
    pub dst: Cap,
    pub len: u32,
}

/// The two little-endian bytes of a 16-bit integer.
pub open spec fn spec_u16_le(x: u16) -> Seq<u8> {
    seq![(x as int % 256) as u8, (x as int / 256) as u8]
}

/// The 16-bit integer denoted by two little-endian bytes.
pub open spec fn spec_le_u16(s: Seq<u8>) -> u16
    recommends
        s.len() == 2,
{
    (s[0] + 256 * s[1]) as u16
}

/// The four little-endian bytes of a 32-bit integer.
pub open spec fn spec_u32_le(x: u32) -> Seq<u8> {
    seq![
        (x as int % 256) as u8,
        (x as int / 256 % 256) as u8,
        (x as int / 65536 % 256) as u8,
        (x as int / 16777216) as u8,
    ]
}

/// The 32-bit integer denoted by four little-endian bytes.
pub open spec fn spec_le_u32(s: Seq<u8>) -> u32
    recommends
        s.len() == 4,
{
    (s[0] + 256 * s[1] + 65536 * s[2] + 16777216 * s[3]) as u32
}

/// The 40-byte wire image of a header.
pub open spec fn spec_encode(h: IpcHeader) -> Seq<u8> {
    spec_u16_le(h.ty) + spec_u16_le(h.flags) + h.src@ + h.dst@ + spec_u32_le(h.len)
}

/// Holds when `h` is the header denoted by the first 40 bytes of `s`.
/// Bytes past offset 40 play no part.
pub open spec fn spec_decodes_to(s: Seq<u8>, h: IpcHeader) -> bool
    recommends
        s.len() >= 40,
{
    &&& h.ty == spec_le_u16(s.subrange(0, 2))
    &&& h.flags == spec_le_u16(s.subrange(2, 4))
    &&& h.src@ == s.subrange(4, 20)
    &&& h.dst@ == s.subrange(20, 36)
    &&& h.len == spec_le_u32(s.subrange(36, 40))
}

/// An encoded header is exactly 40 bytes, whatever its field values.
pub proof fn lemma_encode_len(h: IpcHeader)
    ensures
        spec_encode(h).len() == 40,
{
}

/// Serialize a header to its 40-byte little-endian wire image.
///
/// Pure and total: a well-formed in-memory header always encodes, into a
/// fixed-size stack buffer, with no allocation.
pub fn serialize_header(h: &IpcHeader) -> (out: [u8; 40])
    ensures
        out@ == spec_encode(*h),
{
    let mut out: [u8; 40] = [0u8; 40];
    out[0] = (h.ty % 256) as u8;
    out[1] = (h.ty / 256) as u8;
    out[2] = (h.flags % 256) as u8;
    out[3] = (h.flags / 256) as u8;
    let src = h.src.bytes();
    let mut i: usize = 0;
    while i < 16
        invariant
            i <= 16,
            out@.len() == 40,
            src@ == h.src@,
            out@[0] == spec_encode(*h)[0],
            out@[1] == spec_encode(*h)[1],
            out@[2] == spec_encode(*h)[2],
            out@[3] == spec_encode(*h)[3],
            forall|j: int| 0 <= j < i ==> out@[4 + j] == h.src@[j],
        decreases 16 - i,
    {
        out[4 + i] = src[i];
        i = i + 1;
    }
    let dst = h.dst.bytes();
    let mut i: usize = 0;
    while i < 16
        invariant
            i <= 16,
            out@.len() == 40,
            dst@ == h.dst@,
            forall|j: int| 0 <= j < 4 ==> out@[j] == spec_encode(*h)[j],
            forall|j: int| 0 <= j < 16 ==> out@[4 + j] == h.src@[j],
            forall|j: int| 0 <= j < i ==> out@[20 + j] == h.dst@[j],
        decreases 16 - i,
    {
        out[20 + i] = dst[i];
        i = i + 1;
    }
    out[36] = (h.len % 256) as u8;
    out[37] = (h.len / 256 % 256) as u8;
    out[38] = (h.len / 65536 % 256) as u8;
    out[39] = (h.len / 16777216) as u8;
    proof {
        assert(out@ =~= spec_encode(*h));
    }
    out
}

/// Parse a header from the first 40 bytes of a buffer.
///
/// Succeeds exactly when the buffer holds at least 40 bytes; a shorter
/// buffer reports insufficient data as `None`, never a panic, and nothing
/// past the provided bytes is read. Trailing bytes beyond offset 40 are
/// payload for the caller and are neither inspected nor consumed. Any `ty`
/// value parses, registered in [`crate::msg::MsgType`] or not: tag legality
/// is for the dispatcher, not the codec.
pub fn parse_header(buf: &[u8]) -> (r: Option<IpcHeader>)
    ensures
        r is Some <==> buf@.len() >= 40,
        r matches Some(h) ==> spec_decodes_to(buf@, h),
{
    if buf.len() < HEADER_LEN {
        return None;
    }
    let ty: u16 = buf[0] as u16 + 256 * (buf[1] as u16);
    let flags: u16 = buf[2] as u16 + 256 * (buf[3] as u16);
    let mut src: [u8; 16] = [0u8; 16];
    let mut i: usize = 0;
    while i < 16
        invariant
            i <= 16,
            buf@.len() >= 40,
            forall|j: int| 0 <= j < i ==> src@[j] == buf@[4 + j],
        decreases 16 - i,
    {
        src[i] = buf[4 + i];
        i = i + 1;
    }
    let mut dst: [u8; 16] = [0u8; 16];
    let mut i: usize = 0;
    while i < 16
        invariant
            i <= 16,
            buf@.len() >= 40,
            forall|j: int| 0 <= j < i ==> dst@[j] == buf@[20 + j],
        decreases 16 - i,
    {
        dst[i] = buf[20 + i];
        i = i + 1;
    }
    let len: u32 = buf[36] as u32 + 256 * (buf[37] as u32) + 65536 * (buf[38] as u32)
        + 16777216 * (buf[39] as u32);
    let h = IpcHeader { ty, flags, src: Cap::new(src), dst: Cap::new(dst), len };
    proof {
        assert(h.src@ =~= buf@.subrange(4, 20));
        assert(h.dst@ =~= buf@.subrange(20, 36));
    }
    Some(h)
}

/// Round-trip: the wire image of a header decodes back to that header and
/// to no other, over the full range of every field.
pub proof fn lemma_encode_decode_roundtrip(h: IpcHeader)
    ensures
        spec_decodes_to(spec_encode(h), h),
        forall|h2: IpcHeader| spec_decodes_to(spec_encode(h), h2) ==> h2 == h,
{
    broadcast use lemma_cap_eq_bytes;

    let s = spec_encode(h);
    assert(s.subrange(0, 2) =~= spec_u16_le(h.ty));
    assert(s.subrange(2, 4) =~= spec_u16_le(h.flags));
    assert(s.subrange(4, 20) =~= h.src@);
    assert(s.subrange(20, 36) =~= h.dst@);
    assert(s.subrange(36, 40) =~= spec_u32_le(h.len));
    assert(spec_le_u16(spec_u16_le(h.ty)) == h.ty);
    assert(spec_le_u16(spec_u16_le(h.flags)) == h.flags);
    assert(spec_le_u32(spec_u32_le(h.len)) == h.len);
    assert forall|h2: IpcHeader| spec_decodes_to(spec_encode(h), h2) implies h2 == h by {
        assert(h2 =~= h);
    }
}

/// Trailing-byte independence: a buffer of 40 bytes or more decodes to
/// exactly the headers its first 40 bytes decode to.
pub proof fn lemma_trailing_bytes_ignored(s: Seq<u8>, h: IpcHeader)
    requires
        s.len() >= 40,
    ensures
        spec_decodes_to(s, h) <==> spec_decodes_to(s.subrange(0, 40), h),
{
    let p = s.subrange(0, 40);
    assert(p.subrange(0, 2) =~= s.subrange(0, 2));
    assert(p.subrange(2, 4) =~= s.subrange(2, 4));
    assert(p.subrange(4, 20) =~= s.subrange(4, 20));
    assert(p.subrange(20, 36) =~= s.subrange(20, 36));
    assert(p.subrange(36, 40) =~= s.subrange(36, 40));
}

/// Encode determinism: equal headers have equal wire images. Together with
/// [`serialize_header`]'s contract, two encodings of the same header value
/// are byte-identical.
pub proof fn lemma_encode_deterministic(h1: IpcHeader, h2: IpcHeader)
    requires
        h1 == h2,
    ensures
        spec_encode(h1) == spec_encode(h2),
{
}

} // verus!
