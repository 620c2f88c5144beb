//! Verified core of a block-world terrain generator: the lattice hash that
//! seeds every gradient, the height-tile compositor, and the flat-world
//! chunk packet encoder.

pub mod hash;
pub mod heightmap;
pub mod superflat;
pub mod signal;
pub mod level;
pub mod player;
