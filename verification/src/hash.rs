//! Lattice hash: an integer grid point and a seed are mixed into a 64-bit
//! state from which the gradient at that point is drawn.

use vstd::arithmetic::div_mod::{lemma_mul_mod_noop_left, lemma_mul_mod_noop_right, lemma_small_mod};
use vstd::prelude::*;

verus! {

/// Multiplier applied to the first lattice coordinate.
pub const X_MULTIPLIER: u64 = 0x9E3779B97F4A7C15;

/// Multiplier applied to the second lattice coordinate.
pub const Y_MULTIPLIER: u64 = 0xC2B2AE3D27D4EB4F;

/// First multiplier of the avalanche stage.
pub const MIX_FIRST: u64 = 0xFF51AFD7ED558CCD;

/// Second multiplier of the avalanche stage.
pub const MIX_SECOND: u64 = 0xC4CEB9FE1A85EC53;

/// The product of two words modulo 2^64.
pub open spec fn mul64(a: u64, b: u64) -> u64 {
    ((a as nat * b as nat) % 0x1_0000_0000_0000_0000nat) as u64
}

/// A lattice coordinate as a 64-bit word: itself where it is not negative,
/// and 2^64 more than itself where it is (two's complement).
pub open spec fn lattice_word(i: i32) -> u64 {
    if i >= 0 {
        i as u64
    } else {
        (i + 0x1_0000_0000_0000_0000) as u64
    }
}

/// Returns the 64-bit word of a lattice coordinate.
fn to_word(i: i32) -> (w: u64)
    ensures
        w == lattice_word(i),
{
    let w = i as u64;
    assert(i >= 0 ==> w == i) by (bit_vector)
        requires
            w == i as u64,
    ;
    assert(i < 0 ==> w == i + 0x1_0000_0000_0000_0000) by (bit_vector)
        requires
            w == i as u64,
    ;
    w
}

/// Folds the upper 31 bits of a word onto its lower bits.
pub open spec fn fold(h: u64) -> u64 {
    h ^ (h >> 33)
}

/// The avalanche stage: fold, multiply, fold, multiply, fold.
pub open spec fn avalanche(h: u64) -> u64 {
    fold(mul64(fold(mul64(fold(h), MIX_FIRST)), MIX_SECOND))
}

/// The seed combined with both coordinates, before the avalanche stage.
pub open spec fn premix(ix: i32, iy: i32, seed: u64) -> u64 {
    seed ^ mul64(lattice_word(ix), X_MULTIPLIER) ^ mul64(lattice_word(iy), Y_MULTIPLIER)
}

/// The hash of lattice point `(ix, iy)` under `seed`.
pub open spec fn hash2_spec(ix: i32, iy: i32, seed: u64) -> u64 {
    avalanche(premix(ix, iy, seed))
}

/// Hashes lattice point `(ix, iy)` under `seed`. Total: every coordinate pair
/// and every seed has a hash, and multiplication wraps.
pub fn hash2(ix: i32, iy: i32, seed: u64) -> (h: u64)
    ensures
        h == hash2_spec(ix, iy, seed),
{
    let mut h: u64 = seed ^ to_word(ix).wrapping_mul(X_MULTIPLIER) ^ to_word(iy).wrapping_mul(
        Y_MULTIPLIER,
    );
    h ^= h >> 33;
    h = h.wrapping_mul(MIX_FIRST);
    h ^= h >> 33;
    h = h.wrapping_mul(MIX_SECOND);
    h ^= h >> 33;
    h
}

/// The lattice coordinate after `i`; the last one is followed by the first.
pub open spec fn next_lattice(i: i32) -> i32 {
    if i == i32::MAX {
        i32::MIN
    } else {
        (i + 1) as i32
    }
}

/// Hashes the four corners of the lattice cell whose lowest corner is
/// `(xi, yi)`, in the order `(0, 0)`, `(1, 0)`, `(0, 1)`, `(1, 1)` of their
/// offsets from it. A cell on the last coordinate of an axis has its far
/// corners on the first.
pub fn corner_hashes(xi: i32, yi: i32, seed: u64) -> (h: [u64; 4])
    ensures
        h[0] == hash2_spec(xi, yi, seed),
        h[1] == hash2_spec(next_lattice(xi), yi, seed),
        h[2] == hash2_spec(xi, next_lattice(yi), seed),
        h[3] == hash2_spec(next_lattice(xi), next_lattice(yi), seed),
{
    let xn: i32 = xi.wrapping_add(1);
    let yn: i32 = yi.wrapping_add(1);
    [hash2(xi, yi, seed), hash2(xn, yi, seed), hash2(xi, yn, seed), hash2(xn, yn, seed)]
}

/// Folding twice gives the word back: the shift moves the upper bits clear
/// of themselves.
proof fn lemma_fold_involution(h: u64)
    ensures
        fold(fold(h)) == h,
{
    assert((h ^ (h >> 33)) ^ ((h ^ (h >> 33)) >> 33) == h) by (bit_vector);
}

/// Multiplying by `c` is undone by multiplying by `inverse`, where the
/// product of the two is 1 modulo 2^64.
proof fn lemma_mul64_undone(h: u64, c: u64, inverse: u64)
    requires
        (c as int * inverse as int) % 0x1_0000_0000_0000_0000 == 1,
    ensures
        mul64(mul64(h, c), inverse) == h,
{
    let m = 0x1_0000_0000_0000_0000int;
    let hc = h as int * c as int;
    let ci = c as int * inverse as int;
    lemma_mul_mod_noop_left(hc, inverse as int, m);
    assert(hc * inverse as int == h as int * ci) by (nonlinear_arith)
        requires
            hc == h as int * c as int,
            ci == c as int * inverse as int,
    ;
    lemma_mul_mod_noop_right(h as int, ci, m);
    lemma_small_mod(h as nat, m as nat);
}

/// The avalanche stage loses nothing: two words with the same image are
/// the same word.
pub proof fn lemma_avalanche_injective(a: u64, b: u64)
    requires
        avalanche(a) == avalanche(b),
    ensures
        a == b,
{
    let a1 = mul64(fold(a), MIX_FIRST);
    let b1 = mul64(fold(b), MIX_FIRST);
    let a2 = mul64(fold(a1), MIX_SECOND);
    let b2 = mul64(fold(b1), MIX_SECOND);
    lemma_fold_involution(a2);
    lemma_fold_involution(b2);
    assert(a2 == b2);
    lemma_mul64_undone(fold(a1), MIX_SECOND, 0x9CB4B2F8129337DB);
    lemma_mul64_undone(fold(b1), MIX_SECOND, 0x9CB4B2F8129337DB);
    assert(fold(a1) == fold(b1));
    lemma_fold_involution(a1);
    lemma_fold_involution(b1);
    assert(a1 == b1);
    lemma_mul64_undone(fold(a), MIX_FIRST, 0x4F74430C22A54005);
    lemma_mul64_undone(fold(b), MIX_FIRST, 0x4F74430C22A54005);
    assert(fold(a) == fold(b));
    lemma_fold_involution(a);
    lemma_fold_involution(b);
}

/// At every lattice point the hash tells seeds apart: two seeds that give
/// a point the same hash are the same seed.
pub proof fn lemma_hash_injective_in_seed(ix: i32, iy: i32, first: u64, second: u64)
    requires
        hash2_spec(ix, iy, first) == hash2_spec(ix, iy, second),
    ensures
        first == second,
{
    lemma_avalanche_injective(premix(ix, iy, first), premix(ix, iy, second));
    let kx = mul64(lattice_word(ix), X_MULTIPLIER);
    let ky = mul64(lattice_word(iy), Y_MULTIPLIER);
    assert(first == second) by (bit_vector)
        requires
            first ^ kx ^ ky == second ^ kx ^ ky,
    ;
}

} // verus!
