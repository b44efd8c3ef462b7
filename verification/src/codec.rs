use vstd::prelude::*;

verus! {

/// The four 32-bit lanes of the uniform record, in buffer order: the bit
/// patterns of `mouse_pos.x`, `mouse_pos.y`, `seed.x`, `seed.y`. The GPU
/// side reads each lane as a 32-bit float; this library frames and checks
/// the bytes, and leaves the numeric reading of a lane to the GPU boundary.
#[derive(Clone, Copy, Debug, PartialEq, Eq)]
pub struct UniformLanes {
    pub mouse_pos_x: u32,
    pub mouse_pos_y: u32,
    pub seed_x: u32,
    pub seed_y: u32,
}

/// The four little-endian bytes of one lane, least significant first.
pub open spec fn lane_bytes(w: u32) -> Seq<u8> {
    seq![
        (w & 0xff) as u8,
        ((w >> 8) & 0xff) as u8,
        ((w >> 16) & 0xff) as u8,
        ((w >> 24) & 0xff) as u8,
    ]
}

/// The 16-byte buffer image of a uniform record: the lanes in field order
/// `[mouse_pos.x, mouse_pos.y, seed.x, seed.y]`, each little-endian.
pub open spec fn encoded(u: UniformLanes) -> Seq<u8> {
    lane_bytes(u.mouse_pos_x) + lane_bytes(u.mouse_pos_y) + lane_bytes(u.seed_x) + lane_bytes(
        u.seed_y,
    )
}

/// The lane whose little-endian bytes are `b0, b1, b2, b3`.
pub open spec fn lane_of_bytes(b0: u8, b1: u8, b2: u8, b3: u8) -> u32 {
    (b0 as u32) | ((b1 as u32) << 8) | ((b2 as u32) << 16) | ((b3 as u32) << 24)
}

/// The uniform record read back from a buffer image, or nothing if the
/// image does not have exactly 16 bytes.
pub open spec fn decoded(bytes: Seq<u8>) -> Option<UniformLanes> {
    if bytes.len() == 16 {
        Some(
            UniformLanes {
                mouse_pos_x: lane_of_bytes(bytes[0], bytes[1], bytes[2], bytes[3]),
                mouse_pos_y: lane_of_bytes(bytes[4], bytes[5], bytes[6], bytes[7]),
                seed_x: lane_of_bytes(bytes[8], bytes[9], bytes[10], bytes[11]),
                seed_y: lane_of_bytes(bytes[12], bytes[13], bytes[14], bytes[15]),
            },
        )
    } else {
        None
    }
}

/// Appends the four little-endian bytes of one lane.
fn push_lane(out: &mut Vec<u8>, w: u32)
    ensures
        final(out)@ == old(out)@ + lane_bytes(w),
{
    out.push((w & 0xff) as u8);
    out.push(((w >> 8) & 0xff) as u8);
    out.push(((w >> 16) & 0xff) as u8);
    out.push(((w >> 24) & 0xff) as u8);
    assert(out@ =~= old(out)@ + lane_bytes(w));
}

/// Serialises a uniform record into the 16 bytes that the GPU buffer
/// holds, in field order `[mouse_pos.x, mouse_pos.y, seed.x, seed.y]`.
pub fn encode_lanes(u: &UniformLanes) -> (r: Vec<u8>)
    ensures
        r@ == encoded(*u),
        r@.len() == 16,
{
    let mut out: Vec<u8> = Vec::new();
    push_lane(&mut out, u.mouse_pos_x);
    push_lane(&mut out, u.mouse_pos_y);
    push_lane(&mut out, u.seed_x);
    push_lane(&mut out, u.seed_y);
    assert(out@ =~= encoded(*u));
    out
}

/// Reads one lane from its four little-endian bytes.
fn read_lane(b0: u8, b1: u8, b2: u8, b3: u8) -> (w: u32)
    ensures
        w == lane_of_bytes(b0, b1, b2, b3),
{
    (b0 as u32) | ((b1 as u32) << 8) | ((b2 as u32) << 16) | ((b3 as u32) << 24)
}

/// Reads a uniform record back from a captured buffer image. Returns the
/// record exactly when the image has the 16 bytes the layout prescribes,
/// and nothing on any other length.
pub fn decode_lanes(bytes: &[u8]) -> (r: Option<UniformLanes>)
    ensures
        r == decoded(bytes@),
        r is Some <==> bytes@.len() == 16,
{
    if bytes.len() != 16 {
        None
    } else {
        Some(
            UniformLanes {
                mouse_pos_x: read_lane(bytes[0], bytes[1], bytes[2], bytes[3]),
                mouse_pos_y: read_lane(bytes[4], bytes[5], bytes[6], bytes[7]),
                seed_x: read_lane(bytes[8], bytes[9], bytes[10], bytes[11]),
                seed_y: read_lane(bytes[12], bytes[13], bytes[14], bytes[15]),
            },
        )
    }
}

/// Splitting a lane into little-endian bytes and reassembling them gives
/// the lane back.
proof fn lemma_lane_roundtrip(w: u32)
    ensures
        lane_of_bytes(lane_bytes(w)[0], lane_bytes(w)[1], lane_bytes(w)[2], lane_bytes(w)[3]) == w,
{
    assert(((w & 0xff) as u8 as u32) | ((((w >> 8) & 0xff) as u8 as u32) << 8) | ((((w >> 16)
        & 0xff) as u8 as u32) << 16) | ((((w >> 24) & 0xff) as u8 as u32) << 24) == w)
        by (bit_vector);
}

/// Reassembling a lane from four bytes and splitting it again gives the
/// same four bytes back.
proof fn lemma_bytes_roundtrip(b0: u8, b1: u8, b2: u8, b3: u8)
    ensures
        lane_bytes(lane_of_bytes(b0, b1, b2, b3)) == seq![b0, b1, b2, b3],
{
    let w = lane_of_bytes(b0, b1, b2, b3);
    assert((((b0 as u32) | ((b1 as u32) << 8) | ((b2 as u32) << 16) | ((b3 as u32) << 24)) & 0xff)
        as u8 == b0) by (bit_vector);
    assert(((((b0 as u32) | ((b1 as u32) << 8) | ((b2 as u32) << 16) | ((b3 as u32) << 24)) >> 8)
        & 0xff) as u8 == b1) by (bit_vector);
    assert(((((b0 as u32) | ((b1 as u32) << 8) | ((b2 as u32) << 16) | ((b3 as u32) << 24)) >> 16)
        & 0xff) as u8 == b2) by (bit_vector);
    assert(((((b0 as u32) | ((b1 as u32) << 8) | ((b2 as u32) << 16) | ((b3 as u32) << 24)) >> 24)
        & 0xff) as u8 == b3) by (bit_vector);
    assert(lane_bytes(w) =~= seq![b0, b1, b2, b3]);
}

/// Writing a uniform record to the buffer and reading the bytes back
/// recovers the identical record: the 16-byte image is faithful.
pub proof fn lemma_encode_decode_roundtrip(u: UniformLanes)
    ensures
        decoded(encoded(u)) == Some(u),
{
    lemma_lane_roundtrip(u.mouse_pos_x);
    lemma_lane_roundtrip(u.mouse_pos_y);
    lemma_lane_roundtrip(u.seed_x);
    lemma_lane_roundtrip(u.seed_y);
}

/// Every 16-byte buffer image is the encoding of the record read from it:
/// reading back and rewriting reproduces the identical 16 bytes.
pub proof fn lemma_decode_encode_roundtrip(bytes: Seq<u8>)
    requires
        bytes.len() == 16,
    ensures
        encoded(decoded(bytes).unwrap()) == bytes,
{
    lemma_bytes_roundtrip(bytes[0], bytes[1], bytes[2], bytes[3]);
    lemma_bytes_roundtrip(bytes[4], bytes[5], bytes[6], bytes[7]);
    lemma_bytes_roundtrip(bytes[8], bytes[9], bytes[10], bytes[11]);
    lemma_bytes_roundtrip(bytes[12], bytes[13], bytes[14], bytes[15]);
    assert(encoded(decoded(bytes).unwrap()) =~= bytes);
}

} // verus!
