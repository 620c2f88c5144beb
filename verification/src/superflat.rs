//! Flat-world chunk packets: a fixed header followed by one block id per
//! voxel, layer by layer from the bottom.

pub use crate::heightmap::CHUNK_SIZE;
use vstd::arithmetic::div_mod::lemma_fundamental_div_mod_converse;
use vstd::prelude::*;

verus! {

/// Bytes before the voxel payload: two chunk coordinates, the height, the
/// width of a block id and the payload length.
pub const HEADER_LEN: usize = 15;

/// Bytes that one block id takes in the payload.
pub const BYTES_PER_BLOCK: u8 = 1;

/// Voxels in one horizontal layer of a chunk.
pub const LAYER_SIZE: usize = 256;

/// The blocks a flat world is made of. The position of a variant in this
/// list is its id on the wire.
#[derive(Clone, Copy, Debug, PartialEq, Eq, Structural)]
pub enum BlockId {
    Air,
    Bedrock,
    Dirt,
    Grass,
}

impl BlockId {
    /// The id of a block on the wire.
    pub open spec fn code_spec(self) -> u8 {
        match self {
            BlockId::Air => 0,
            BlockId::Bedrock => 1,
            BlockId::Dirt => 2,
            BlockId::Grass => 3,
        }
    }

    /// Returns the id of the block on the wire.
    pub fn code(self) -> (c: u8)
        ensures
            c == self.code_spec(),
    {
        match self {
            BlockId::Air => 0,
            BlockId::Bedrock => 1,
            BlockId::Dirt => 2,
            BlockId::Grass => 3,
        }
    }
}

/// The block that fills layer `y` of a flat world: bedrock at the bottom,
/// two layers of dirt, one of grass, air above.
pub open spec fn layer_block_spec(y: int) -> BlockId {
    if y == 0 {
        BlockId::Bedrock
    } else if 1 <= y <= 2 {
        BlockId::Dirt
    } else if y == 3 {
        BlockId::Grass
    } else {
        BlockId::Air
    }
}

/// Returns the block that fills layer `y`.
pub fn layer_block(y: usize) -> (b: BlockId)
    ensures
        b == layer_block_spec(y as int),
{
    if y == 0 {
        BlockId::Bedrock
    } else if y <= 2 {
        BlockId::Dirt
    } else if y == 3 {
        BlockId::Grass
    } else {
        BlockId::Air
    }
}

/// Position in the payload of the voxel at `(x, y, z)`: layers follow each
/// other from the bottom, rows inside a layer run along `z`, voxels inside a
/// row along `x`.
pub open spec fn linear_index_spec(x: int, y: int, z: int) -> int {
    y * LAYER_SIZE + z * CHUNK_SIZE + x
}

/// Computes the position in the payload of the voxel at `(x, y, z)`.
pub fn linear_index(x: usize, y: usize, z: usize) -> (i: usize)
    requires
        linear_index_spec(x as int, y as int, z as int) <= usize::MAX,
    ensures
        i == linear_index_spec(x as int, y as int, z as int),
{
    y * CHUNK_SIZE * CHUNK_SIZE + z * CHUNK_SIZE + x
}

/// A signed 32-bit value as the unsigned word with the same bits.
pub open spec fn twos_complement(v: i32) -> u32 {
    if v >= 0 {
        v as u32
    } else {
        (v + 0x1_0000_0000) as u32
    }
}

/// The four bytes of `w`, least significant first.
pub open spec fn le_bytes_u32(w: u32) -> Seq<u8> {
    seq![
        (w % 256) as u8,
        (w / 0x100 % 256) as u8,
        (w / 0x1_0000 % 256) as u8,
        (w / 0x100_0000) as u8,
    ]
}

/// The two bytes of `w`, least significant first.
pub open spec fn le_bytes_u16(w: u16) -> Seq<u8> {
    seq![(w % 256) as u8, (w / 0x100) as u8]
}

/// The voxel payload of a flat chunk of `height` layers.
pub open spec fn superflat_payload(height: u16) -> Seq<u8> {
    Seq::new(
        (height * LAYER_SIZE) as nat,
        |i: int| layer_block_spec(i / (LAYER_SIZE as int)).code_spec(),
    )
}

/// The header of the packet for chunk `(chunk_x, chunk_z)`.
pub open spec fn superflat_header(chunk_x: i32, chunk_z: i32, height: u16) -> Seq<u8> {
    le_bytes_u32(twos_complement(chunk_x)) + le_bytes_u32(twos_complement(chunk_z))
        + le_bytes_u16(height) + seq![BYTES_PER_BLOCK] + le_bytes_u32(
        (height * LAYER_SIZE) as u32,
    )
}

/// The whole packet: header, then payload.
pub open spec fn superflat_packet(chunk_x: i32, chunk_z: i32, height: u16) -> Seq<u8> {
    superflat_header(chunk_x, chunk_z, height) + superflat_payload(height)
}

/// Appends the four bytes of `w`, least significant first.
fn push_u32(out: &mut Vec<u8>, w: u32)
    ensures
        final(out)@ == old(out)@ + le_bytes_u32(w),
{
    out.push((w % 256) as u8);
    out.push((w / 0x100 % 256) as u8);
    out.push((w / 0x1_0000 % 256) as u8);
    out.push((w / 0x100_0000) as u8);
    assert(final(out)@ =~= old(out)@ + le_bytes_u32(w));
}

/// Appends the two bytes of `w`, least significant first.
fn push_u16(out: &mut Vec<u8>, w: u16)
    ensures
        final(out)@ == old(out)@ + le_bytes_u16(w),
{
    out.push((w % 256) as u8);
    out.push((w / 0x100) as u8);
    assert(final(out)@ =~= old(out)@ + le_bytes_u16(w));
}

/// Returns the unsigned word with the bits of `v`.
fn unsigned_bits(v: i32) -> (w: u32)
    ensures
        w == twos_complement(v),
{
    if v >= 0 {
        v as u32
    } else {
        (v as i64 + 0x1_0000_0000) as u32
    }
}

/// Encodes the packet of a flat chunk of `height` layers at
/// `(chunk_x, chunk_z)`.
pub fn generate_superflat_chunk_packet(chunk_x: i32, chunk_z: i32, height: u16) -> (packet: Vec<u8>)
    ensures
        packet@ == superflat_packet(chunk_x, chunk_z, height),
        packet@.len() == HEADER_LEN + height * LAYER_SIZE,
{
    let layers: usize = height as usize;
    let voxel_count: u32 = LAYER_SIZE as u32 * height as u32;
    let mut payload: Vec<u8> = vec![BlockId::Air.code(); voxel_count as usize];
    assert(forall|i: int| 0 <= i < payload@.len() ==> payload@[i] == 0u8);
    for y in 0..layers
        invariant
            layers == height,
            payload@.len() == height * LAYER_SIZE,
            forall|i: int|
                0 <= i < y * LAYER_SIZE ==> #[trigger] payload@[i] == layer_block_spec(
                    i / (LAYER_SIZE as int),
                ).code_spec(),
            forall|i: int| y * LAYER_SIZE <= i < payload@.len() ==> #[trigger] payload@[i] == 0u8,
    {
        let id: u8 = layer_block(y).code();
        for z in 0..CHUNK_SIZE
            invariant
                y < layers,
                layers == height,
                id == layer_block_spec(y as int).code_spec(),
                payload@.len() == height * LAYER_SIZE,
                forall|i: int|
                    0 <= i < y * LAYER_SIZE ==> #[trigger] payload@[i] == layer_block_spec(
                        i / (LAYER_SIZE as int),
                    ).code_spec(),
                forall|i: int|
                    y * LAYER_SIZE <= i < y * LAYER_SIZE + z * CHUNK_SIZE ==> #[trigger] payload@[i]
                        == id,
                forall|i: int|
                    (y + 1) * LAYER_SIZE <= i < payload@.len() ==> #[trigger] payload@[i] == 0u8,
        {
            for x in 0..CHUNK_SIZE
                invariant
                    y < layers,
                    z < CHUNK_SIZE,
                    layers == height,
                    id == layer_block_spec(y as int).code_spec(),
                    payload@.len() == height * LAYER_SIZE,
                    forall|i: int|
                        0 <= i < y * LAYER_SIZE ==> #[trigger] payload@[i] == layer_block_spec(
                            i / (LAYER_SIZE as int),
                        ).code_spec(),
                    forall|i: int|
                        y * LAYER_SIZE <= i < y * LAYER_SIZE + z * CHUNK_SIZE + x
                            ==> #[trigger] payload@[i] == id,
                    forall|i: int|
                        (y + 1) * LAYER_SIZE <= i < payload@.len() ==> #[trigger] payload@[i]
                            == 0u8,
            {
                let idx = linear_index(x, y, z);
                payload[idx] = id;
            }
        }
        assert forall|i: int| 0 <= i < (y + 1) * LAYER_SIZE implies #[trigger] payload@[i]
            == layer_block_spec(i / (LAYER_SIZE as int)).code_spec() by {
            if i >= y * LAYER_SIZE {
                assert(i / (LAYER_SIZE as int) == y);
            }
        }
    }
    assert(payload@ =~= superflat_payload(height));

    let payload_len: u32 = payload.len() as u32;
    let mut out: Vec<u8> = Vec::with_capacity(HEADER_LEN + payload.len());
    push_u32(&mut out, unsigned_bits(chunk_x));
    push_u32(&mut out, unsigned_bits(chunk_z));
    push_u16(&mut out, height);
    out.push(BYTES_PER_BLOCK);
    push_u32(&mut out, payload_len);
    assert(out@ =~= superflat_header(chunk_x, chunk_z, height));
    out.extend_from_slice(payload.as_slice());
    assert(out@ =~= superflat_packet(chunk_x, chunk_z, height));
    out
}

/// Chunks along one side of the square of chunks within `radius` of a
/// centre; none where the radius is negative.
pub open spec fn view_side(radius: i32) -> int {
    if radius < 0 {
        0
    } else {
        2 * radius + 1
    }
}

/// The longest side of a square whose number of chunks still fits a length:
/// the integer square root of the largest length, which has 32 or 64 bits.
pub open spec fn max_view_side() -> int {
    if usize::MAX <= 0xFFFF_FFFF {
        0xFFFF
    } else {
        0xFFFF_FFFF
    }
}

/// The `k`-th packet of the square around `(center_cx, center_cz)`: rows run
/// from the lowest `z` up, and inside a row the chunks run from the lowest
/// `x` up.
pub open spec fn view_packet(
    center_cx: i32,
    center_cz: i32,
    radius: i32,
    height: u16,
    k: int,
) -> Seq<u8> {
    superflat_packet(
        (center_cx - radius + k % view_side(radius)) as i32,
        (center_cz - radius + k / view_side(radius)) as i32,
        height,
    )
}

/// Encodes the packets of every chunk within `radius` of the centre, row by
/// row. A negative radius gives no packet.
///
/// The chunk coordinates of the whole square must be 32-bit values, and the
/// number of packets must fit a length: where a length has 32 bits, the
/// radius is at most 32767.
pub fn generate_view_radius_packets(
    center_cx: i32,
    center_cz: i32,
    radius: i32,
    height: u16,
) -> (packets: Vec<Vec<u8>>)
    requires
        radius > i32::MIN,
        radius >= 0 ==> i32::MIN <= center_cx - radius && center_cx + radius <= i32::MAX,
        radius >= 0 ==> i32::MIN <= center_cz - radius && center_cz + radius <= i32::MAX,
        view_side(radius) <= max_view_side(),
    ensures
        packets@.len() == view_side(radius) * view_side(radius),
        forall|k: int|
            0 <= k < packets@.len() ==> (#[trigger] packets@[k])@ == view_packet(
                center_cx,
                center_cz,
                radius,
                height,
                k,
            ),
{
    let mut out: Vec<Vec<u8>> = Vec::new();
    if radius < 0 {
        return out;
    }
    let ghost side: int = view_side(radius);
    let r: i64 = radius as i64;
    let mut dz: i64 = -r;
    assert((dz + r) * side == 0) by (nonlinear_arith)
        requires
            dz + r == 0,
    ;
    while dz <= r
        invariant
            r == radius,
            radius >= 0,
            side == 2 * r + 1,
            side == view_side(radius),
            -r <= dz <= r + 1,
            i32::MIN <= center_cx - radius && center_cx + radius <= i32::MAX,
            i32::MIN <= center_cz - radius && center_cz + radius <= i32::MAX,
            out@.len() == (dz + r) * side,
            forall|k: int|
                0 <= k < out@.len() ==> (#[trigger] out@[k])@ == view_packet(
                    center_cx,
                    center_cz,
                    radius,
                    height,
                    k,
                ),
        decreases r + 1 - dz,
    {
        let mut dx: i64 = -r;
        while dx <= r
            invariant
                r == radius,
                radius >= 0,
                side == 2 * r + 1,
                side == view_side(radius),
                -r <= dz <= r,
                -r <= dx <= r + 1,
                i32::MIN <= center_cx - radius && center_cx + radius <= i32::MAX,
                i32::MIN <= center_cz - radius && center_cz + radius <= i32::MAX,
                out@.len() == (dz + r) * side + (dx + r),
                forall|k: int|
                    0 <= k < out@.len() ==> (#[trigger] out@[k])@ == view_packet(
                        center_cx,
                        center_cz,
                        radius,
                        height,
                        k,
                    ),
            decreases r + 1 - dx,
        {
            let cx: i32 = (center_cx as i64 + dx) as i32;
            let cz: i32 = (center_cz as i64 + dz) as i32;
            let packet = generate_superflat_chunk_packet(cx, cz, height);
            proof {
                lemma_fundamental_div_mod_converse(out@.len() as int, side, dz + r, dx + r);
            }
            out.push(packet);
            dx += 1;
        }
        assert((dz + r) * side + (r + 1 + r) == (dz + 1 + r) * side) by (nonlinear_arith)
            requires
                side == 2 * r + 1,
        ;
        dz += 1;
    }
    assert((r + 1 + r) * side == side * side) by (nonlinear_arith)
        requires
            side == 2 * r + 1,
    ;
    out
}

/// The bytes of a word spell it in base 256, least significant digit first.
pub proof fn lemma_le_bytes_u32_value(w: u32)
    ensures
        le_bytes_u32(w).len() == 4,
        le_bytes_u32(w)[0] + 0x100 * le_bytes_u32(w)[1] + 0x1_0000 * le_bytes_u32(w)[2]
            + 0x100_0000 * le_bytes_u32(w)[3] == w,
{
}

/// The bytes of a short word spell it in base 256, least significant digit
/// first.
pub proof fn lemma_le_bytes_u16_value(w: u16)
    ensures
        le_bytes_u16(w).len() == 2,
        le_bytes_u16(w)[0] + 0x100 * le_bytes_u16(w)[1] == w,
{
}

/// A packet names its chunk: two packets with the same bytes were encoded
/// for the same chunk coordinates and the same height.
pub proof fn lemma_packet_identifies_chunk(
    first_x: i32,
    first_z: i32,
    first_height: u16,
    second_x: i32,
    second_z: i32,
    second_height: u16,
)
    requires
        superflat_packet(first_x, first_z, first_height) == superflat_packet(
            second_x,
            second_z,
            second_height,
        ),
    ensures
        first_x == second_x,
        first_z == second_z,
        first_height == second_height,
{
    let a = superflat_packet(first_x, first_z, first_height);
    let b = superflat_packet(second_x, second_z, second_height);
    let ha = superflat_header(first_x, first_z, first_height);
    let hb = superflat_header(second_x, second_z, second_height);
    assert(ha.len() == HEADER_LEN && hb.len() == HEADER_LEN);
    assert forall|i: int| 0 <= i < HEADER_LEN implies ha[i] == hb[i] by {
        assert(a[i] == ha[i]);
        assert(b[i] == hb[i]);
    }
    let ax = le_bytes_u32(twos_complement(first_x));
    let bx = le_bytes_u32(twos_complement(second_x));
    let az = le_bytes_u32(twos_complement(first_z));
    let bz = le_bytes_u32(twos_complement(second_z));
    let ah = le_bytes_u16(first_height);
    let bh = le_bytes_u16(second_height);
    assert forall|i: int| 0 <= i < 4 implies ax[i] == bx[i] && az[i] == bz[i] by {
        assert(ha[i] == ax[i] && hb[i] == bx[i]);
        assert(ha[i + 4] == az[i] && hb[i + 4] == bz[i]);
    }
    assert forall|i: int| 0 <= i < 2 implies ah[i] == bh[i] by {
        assert(ha[i + 8] == ah[i] && hb[i + 8] == bh[i]);
    }
    lemma_le_bytes_u32_value(twos_complement(first_x));
    lemma_le_bytes_u32_value(twos_complement(second_x));
    lemma_le_bytes_u32_value(twos_complement(first_z));
    lemma_le_bytes_u32_value(twos_complement(second_z));
    lemma_le_bytes_u16_value(first_height);
    lemma_le_bytes_u16_value(second_height);
}

} // verus!
