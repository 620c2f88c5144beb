//! Terrain signals: the independent noise fields that are combined into an
//! elevation. Each field is drawn from the world seed by a salt of its own,
//! so adding a signal never touches the hash.

use crate::hash::{hash2_spec, lemma_hash_injective_in_seed};
use vstd::prelude::*;

verus! {

/// A noise field of the terrain.
#[derive(Clone, Copy, Debug, PartialEq, Eq, Structural)]
pub enum Signal {
    /// Large-scale bias between land and sea.
    Continentalness,
    /// Sharpness of peaks; reshaped into ridges before it is used.
    Mountainousness,
    /// Fine-grain roughness.
    Detail,
    /// Carving of valleys; subtracted from the elevation.
    Erosion,
}

impl Signal {
    /// The constant that sets this signal's field apart from the others.
    pub open spec fn salt_spec(self) -> u64 {
        match self {
            Signal::Continentalness => 0xC0DEC0DE,
            Signal::Mountainousness => 0xBEEF1234,
            Signal::Detail => 0xDE7ACAFE,
            Signal::Erosion => 0xE20DFACE,
        }
    }

    /// World columns per lattice cell of the signal's first octave.
    pub open spec fn scale_spec(self) -> u32 {
        match self {
            Signal::Continentalness => 1500,
            Signal::Mountainousness => 400,
            Signal::Detail => 48,
            Signal::Erosion => 1200,
        }
    }

    /// Octaves summed for this signal.
    pub open spec fn octaves_spec(self) -> u32 {
        match self {
            Signal::Continentalness => 6,
            Signal::Mountainousness => 6,
            Signal::Detail => 5,
            Signal::Erosion => 5,
        }
    }

    /// The seed of this signal's field in a world of seed `base`.
    pub open spec fn seed_spec(self, base: u64) -> u64 {
        base ^ self.salt_spec()
    }

    /// Returns the signal's salt.
    pub fn salt(self) -> (s: u64)
        ensures
            s == self.salt_spec(),
    {
        match self {
            Signal::Continentalness => 0xC0DEC0DE,
            Signal::Mountainousness => 0xBEEF1234,
            Signal::Detail => 0xDE7ACAFE,
            Signal::Erosion => 0xE20DFACE,
        }
    }

    /// Returns the signal's scale. It is never zero, so a noise generator
    /// can always be built from it.
    pub fn scale(self) -> (s: u32)
        ensures
            s == self.scale_spec(),
            s > 0,
    {
        match self {
            Signal::Continentalness => 1500,
            Signal::Mountainousness => 400,
            Signal::Detail => 48,
            Signal::Erosion => 1200,
        }
    }

    /// Returns the number of octaves of the signal, at least one.
    pub fn octaves(self) -> (n: u32)
        ensures
            n == self.octaves_spec(),
            n >= 1,
    {
        match self {
            Signal::Continentalness => 6,
            Signal::Mountainousness => 6,
            Signal::Detail => 5,
            Signal::Erosion => 5,
        }
    }

    /// Derives the seed of this signal's field from the world seed.
    pub fn seed(self, base: u64) -> (s: u64)
        ensures
            s == self.seed_spec(base),
    {
        base ^ self.salt()
    }
}

/// Two different signals never share a field: whatever the world seed, their
/// derived seeds differ.
pub proof fn lemma_signal_seeds_differ(a: Signal, b: Signal, base: u64)
    requires
        a != b,
    ensures
        a.seed_spec(base) != b.seed_spec(base),
{
    let sa = a.salt_spec();
    let sb = b.salt_spec();
    assert(sa != sb);
    assert(base ^ sa != base ^ sb) by (bit_vector)
        requires
            sa != sb,
    ;
}

/// Deriving a signal's seed only relabels the world seeds: the world seed
/// is recovered by salting once more, so two worlds never share a field.
pub proof fn lemma_signal_seed_reversible(s: Signal, base: u64)
    ensures
        s.seed_spec(s.seed_spec(base)) == base,
{
    let salt = s.salt_spec();
    assert((base ^ salt) ^ salt == base) by (bit_vector);
}

/// The fields of two different signals differ at every lattice point: in a
/// world of any seed, no point has the same hash under both.
pub proof fn lemma_signal_hashes_differ(a: Signal, b: Signal, base: u64, ix: i32, iy: i32)
    requires
        a != b,
    ensures
        hash2_spec(ix, iy, a.seed_spec(base)) != hash2_spec(ix, iy, b.seed_spec(base)),
{
    lemma_signal_seeds_differ(a, b, base);
    if hash2_spec(ix, iy, a.seed_spec(base)) == hash2_spec(ix, iy, b.seed_spec(base)) {
        lemma_hash_injective_in_seed(ix, iy, a.seed_spec(base), b.seed_spec(base));
    }
}

} // verus!
