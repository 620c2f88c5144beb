//! Height tiles: one elevation per column of a 16 x 16 chunk.
//!
//! A column's elevation is composed from the four terrain signals sampled at
//! the column. This module decides which columns a chunk covers, which field
//! each signal is sampled from, where each elevation lands in the tile, and
//! keeps every elevation inside the valid vertical range. Sampling a field
//! and weighing the four samples into a level are supplied by the caller, and
//! the tile is specified for whatever they compute.

use crate::signal::Signal;
use vstd::prelude::*;
use vstd::wrapping::i32_specs::signed_crop;

verus! {

/// Columns along each horizontal axis of a chunk.
pub const CHUNK_SIZE: usize = 16;

/// Lowest elevation a column can have.
pub const MIN_Y: i32 = -64;

/// Highest elevation a column can have.
pub const MAX_Y: i32 = 320;

/// Elevation of an undisplaced column.
pub const SEA_LEVEL: i32 = 63;

/// A tile of elevations, indexed `[local x][local z]`.
pub type HeightTile = [[i32; CHUNK_SIZE]; CHUNK_SIZE];

/// An unbounded level brought into the valid vertical range.
pub open spec fn clamp_height_spec(level: i64) -> i32 {
    if level < MIN_Y {
        MIN_Y
    } else if level > MAX_Y {
        MAX_Y
    } else {
        level as i32
    }
}

/// Brings `level` into `[MIN_Y, MAX_Y]`; a level already inside is kept.
pub fn clamp_height(level: i64) -> (h: i32)
    ensures
        h == clamp_height_spec(level),
        MIN_Y <= h <= MAX_Y,
        MIN_Y <= level <= MAX_Y ==> h == level,
{
    if level < MIN_Y as i64 {
        MIN_Y
    } else if level > MAX_Y as i64 {
        MAX_Y
    } else {
        level as i32
    }
}

/// World coordinate of the column at offset `local` inside chunk `chunk`:
/// `chunk * 16 + local`, wrapped into the 32-bit signed range.
pub open spec fn world_coord(chunk: i32, local: int) -> i32 {
    signed_crop(chunk * CHUNK_SIZE + local)
}

/// Computes the world coordinate of a column from its chunk coordinate and
/// its offset inside the chunk. Chunks at the edge of the 32-bit range wrap
/// around instead of failing.
pub fn world_column(chunk: i32, local: usize) -> (w: i32)
    requires
        local < CHUNK_SIZE,
    ensures
        w == world_coord(chunk, local as int),
        i32::MIN <= chunk * CHUNK_SIZE + local <= i32::MAX ==> w == chunk * CHUNK_SIZE + local,
{
    chunk.wrapping_mul(CHUNK_SIZE as i32).wrapping_add(local as i32)
}

/// Chunks do not overlap: among the chunks whose columns need no wrapping,
/// two columns share a world coordinate only where they are the same column
/// of the same chunk.
pub proof fn lemma_columns_do_not_overlap(
    first_chunk: i32,
    first_local: int,
    second_chunk: i32,
    second_local: int,
)
    requires
        0 <= first_local < CHUNK_SIZE,
        0 <= second_local < CHUNK_SIZE,
        -0x800_0000 <= first_chunk < 0x800_0000,
        -0x800_0000 <= second_chunk < 0x800_0000,
        world_coord(first_chunk, first_local) == world_coord(second_chunk, second_local),
    ensures
        first_chunk == second_chunk,
        first_local == second_local,
{
    assert(world_coord(first_chunk, first_local) == first_chunk * CHUNK_SIZE + first_local);
    assert(world_coord(second_chunk, second_local) == second_chunk * CHUNK_SIZE + second_local);
}

/// `cont`, `mnt`, `det` and `eros` are samples of the four signals at world
/// column `(x, z)` in a world of seed `seed`: each is a value that `sample`
/// may return for its signal, asked with the seed of that signal's field.
pub open spec fn is_column_sample<V, S: Fn(Signal, u64, i32, i32) -> V>(
    sample: S,
    seed: u64,
    x: i32,
    z: i32,
    cont: V,
    mnt: V,
    det: V,
    eros: V,
) -> bool {
    &&& sample.ensures(
        (Signal::Continentalness, Signal::Continentalness.seed_spec(seed), x, z),
        cont,
    )
    &&& sample.ensures(
        (Signal::Mountainousness, Signal::Mountainousness.seed_spec(seed), x, z),
        mnt,
    )
    &&& sample.ensures((Signal::Detail, Signal::Detail.seed_spec(seed), x, z), det)
    &&& sample.ensures((Signal::Erosion, Signal::Erosion.seed_spec(seed), x, z), eros)
}

/// `h` is an elevation of world column `(x, z)`: the clamped level that
/// `combine` may return for four samples of the column.
pub open spec fn is_column_height<
    V,
    S: Fn(Signal, u64, i32, i32) -> V,
    C: Fn(V, V, V, V) -> i64,
>(sample: S, combine: C, seed: u64, x: i32, z: i32, h: i32) -> bool {
    exists|cont: V, mnt: V, det: V, eros: V, level: i64|
        is_column_sample(sample, seed, x, z, cont, mnt, det, eros) && #[trigger] combine.ensures(
            (cont, mnt, det, eros),
            level,
        ) && h == clamp_height_spec(level)
}

/// `tile` is a height tile of chunk `(cx, cz)`: at `[lx][lz]` it holds an
/// elevation of the world column at those offsets inside the chunk.
pub open spec fn is_height_chunk<
    V,
    S: Fn(Signal, u64, i32, i32) -> V,
    C: Fn(V, V, V, V) -> i64,
>(sample: S, combine: C, seed: u64, cx: i32, cz: i32, tile: HeightTile) -> bool {
    forall|lx: int, lz: int|
        0 <= lx < CHUNK_SIZE && 0 <= lz < CHUNK_SIZE ==> is_column_height(
            sample,
            combine,
            seed,
            world_coord(cx, lx),
            world_coord(cz, lz),
            #[trigger] tile[lx][lz],
        )
}

/// `sample` can be asked for each of the four signals at world column
/// `(x, z)`.
pub open spec fn can_sample_column<V, S: Fn(Signal, u64, i32, i32) -> V>(
    sample: S,
    seed: u64,
    x: i32,
    z: i32,
) -> bool {
    &&& sample.requires((Signal::Continentalness, Signal::Continentalness.seed_spec(seed), x, z))
    &&& sample.requires((Signal::Mountainousness, Signal::Mountainousness.seed_spec(seed), x, z))
    &&& sample.requires((Signal::Detail, Signal::Detail.seed_spec(seed), x, z))
    &&& sample.requires((Signal::Erosion, Signal::Erosion.seed_spec(seed), x, z))
}

/// `sample` can be asked at every column of chunk `(cx, cz)`, and `combine`
/// accepts whatever four samples of a column it returns.
pub open spec fn can_generate<V, S: Fn(Signal, u64, i32, i32) -> V, C: Fn(V, V, V, V) -> i64>(
    sample: S,
    combine: C,
    seed: u64,
    cx: i32,
    cz: i32,
) -> bool {
    &&& forall|lx: int, lz: int|
        0 <= lx < CHUNK_SIZE && 0 <= lz < CHUNK_SIZE ==> can_sample_column(
            sample,
            seed,
            #[trigger] world_coord(cx, lx),
            #[trigger] world_coord(cz, lz),
        )
    &&& forall|lx: int, lz: int, cont: V, mnt: V, det: V, eros: V|
        0 <= lx < CHUNK_SIZE && 0 <= lz < CHUNK_SIZE && #[trigger] is_column_sample(
            sample,
            seed,
            world_coord(cx, lx),
            world_coord(cz, lz),
            cont,
            mnt,
            det,
            eros,
        ) ==> combine.requires((cont, mnt, det, eros))
}

/// Builds the height tile of chunk `(cx, cz)` in a world of seed `seed`.
///
/// For each of the 256 columns of the chunk, `sample(signal, field_seed, x,
/// z)` is asked for continentalness, mountainousness, detail and erosion, in
/// this order, at the column's world coordinates, each with the seed of its
/// own field. `combine` weighs the four samples into the column's level,
/// rounded to an integer and not yet bounded. The tile holds that level
/// clamped to `[MIN_Y, MAX_Y]`, at `[local x][local z]`.
pub fn generate_height_chunk<V, S: Fn(Signal, u64, i32, i32) -> V, C: Fn(V, V, V, V) -> i64>(
    seed: u64,
    cx: i32,
    cz: i32,
    sample: S,
    combine: C,
) -> (tile: HeightTile)
    requires
        can_generate(sample, combine, seed, cx, cz),
    ensures
        is_height_chunk(sample, combine, seed, cx, cz, tile),
        forall|lx: int, lz: int|
            0 <= lx < CHUNK_SIZE && 0 <= lz < CHUNK_SIZE ==> MIN_Y <= #[trigger] tile[lx][lz]
                <= MAX_Y,
{
    let mut out: HeightTile = [[SEA_LEVEL; CHUNK_SIZE]; CHUNK_SIZE];
    for lz in 0..CHUNK_SIZE
        invariant
            can_generate(sample, combine, seed, cx, cz),
            forall|x: int, z: int|
                0 <= x < CHUNK_SIZE && 0 <= z < lz ==> is_column_height(
                    sample,
                    combine,
                    seed,
                    world_coord(cx, x),
                    world_coord(cz, z),
                    #[trigger] out[x][z],
                ),
    {
        for lx in 0..CHUNK_SIZE
            invariant
                lz < CHUNK_SIZE,
                can_generate(sample, combine, seed, cx, cz),
                forall|x: int, z: int|
                    0 <= x < CHUNK_SIZE && 0 <= z < lz ==> is_column_height(
                        sample,
                        combine,
                        seed,
                        world_coord(cx, x),
                        world_coord(cz, z),
                        #[trigger] out[x][z],
                    ),
                forall|x: int|
                    0 <= x < lx ==> is_column_height(
                        sample,
                        combine,
                        seed,
                        world_coord(cx, x),
                        world_coord(cz, lz as int),
                        #[trigger] out[x][lz as int],
                    ),
        {
            let xw = world_column(cx, lx);
            let zw = world_column(cz, lz);
            let cont = sample(Signal::Continentalness, Signal::Continentalness.seed(seed), xw, zw);
            let mnt = sample(Signal::Mountainousness, Signal::Mountainousness.seed(seed), xw, zw);
            let det = sample(Signal::Detail, Signal::Detail.seed(seed), xw, zw);
            let eros = sample(Signal::Erosion, Signal::Erosion.seed(seed), xw, zw);
            assert(is_column_sample(sample, seed, xw, zw, cont, mnt, det, eros));
            let level = combine(cont, mnt, det, eros);
            out[lx][lz] = clamp_height(level);
        }
    }
    out
}

/// Determinism: where a sample is a function of the signal, the seed and the
/// column, and a level a function of the four samples, a chunk has exactly
/// one height tile, so two generations with the same arguments agree on
/// every column.
pub proof fn lemma_height_chunk_deterministic<
    V,
    S: Fn(Signal, u64, i32, i32) -> V,
    C: Fn(V, V, V, V) -> i64,
>(sample: S, combine: C, seed: u64, cx: i32, cz: i32, first: HeightTile, second: HeightTile)
    requires
        forall|signal: Signal, field: u64, x: i32, z: i32, u: V, v: V|
            sample.ensures((signal, field, x, z), u) && sample.ensures((signal, field, x, z), v)
                ==> u == v,
        forall|a: V, b: V, c: V, d: V, u: i64, v: i64|
            combine.ensures((a, b, c, d), u) && combine.ensures((a, b, c, d), v) ==> u == v,
        is_height_chunk(sample, combine, seed, cx, cz, first),
        is_height_chunk(sample, combine, seed, cx, cz, second),
    ensures
        forall|lx: int, lz: int|
            0 <= lx < CHUNK_SIZE && 0 <= lz < CHUNK_SIZE ==> first[lx][lz] == second[lx][lz],
{
    assert forall|lx: int, lz: int|
        0 <= lx < CHUNK_SIZE && 0 <= lz < CHUNK_SIZE implies first[lx][lz] == second[lx][lz] by {
        let x = world_coord(cx, lx);
        let z = world_coord(cz, lz);
        assert(is_column_height(sample, combine, seed, x, z, first[lx][lz]));
        assert(is_column_height(sample, combine, seed, x, z, second[lx][lz]));
    }
}

} // verus!
