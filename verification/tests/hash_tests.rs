use worldgen::hash::{corner_hashes, hash2};
use worldgen::signal::Signal;

#[test]
fn hash_of_origin_with_zero_seed_is_zero() {
    assert_eq!(hash2(0, 0, 0), 0);
}

#[test]
fn hash_known_values() {
    assert_eq!(hash2(1, 2, 42), 0x567a_fb53_1fe0_bdc4);
    assert_eq!(hash2(-1, -1, 7), 0x5925_37f1_d05e_ea29);
    assert_eq!(hash2(0, 0, 1), 0xb456_bcfc_34c2_cb2c);
    assert_eq!(hash2(i32::MAX, i32::MIN, u64::MAX), 0x8957_21ce_ef97_ad07);
}

#[test]
fn hash_is_deterministic() {
    for &(x, y, s) in &[(0, 0, 0u64), (12, -7, 42), (i32::MIN, i32::MAX, u64::MAX)] {
        assert_eq!(hash2(x, y, s), hash2(x, y, s));
    }
}

#[test]
fn hash_tells_seeds_apart() {
    for x in -3..=3 {
        for y in -3..=3 {
            assert_ne!(hash2(x, y, 42), hash2(x, y, 43));
        }
    }
}

#[test]
fn hash_tells_neighbours_apart() {
    assert_ne!(hash2(0, 0, 42), hash2(1, 0, 42));
    assert_ne!(hash2(0, 0, 42), hash2(0, 1, 42));
    assert_ne!(hash2(1, 0, 42), hash2(0, 1, 42));
}

#[test]
fn corner_hashes_match_the_four_corners() {
    let h = corner_hashes(3, -4, 99);
    assert_eq!(h[0], hash2(3, -4, 99));
    assert_eq!(h[1], hash2(4, -4, 99));
    assert_eq!(h[2], hash2(3, -3, 99));
    assert_eq!(h[3], hash2(4, -3, 99));
}

#[test]
fn corner_hashes_wrap_at_the_last_cell() {
    let h = corner_hashes(i32::MAX, 5, 9);
    assert_eq!(h[0], 0x1f5b_0727_7e83_51b1);
    assert_eq!(h[1], 0x72a9_b4ac_571b_2d57);
    assert_eq!(h[1], hash2(i32::MIN, 5, 9));
    assert_eq!(h[3], hash2(i32::MIN, 6, 9));
    let v = corner_hashes(5, i32::MAX, 9);
    assert_eq!(v[2], hash2(5, i32::MIN, 9));
    assert_eq!(v[3], hash2(6, i32::MIN, 9));
}

#[test]
fn signal_salts() {
    assert_eq!(Signal::Continentalness.salt(), 0xC0DE_C0DE);
    assert_eq!(Signal::Mountainousness.salt(), 0xBEEF_1234);
    assert_eq!(Signal::Detail.salt(), 0xDE7A_CAFE);
    assert_eq!(Signal::Erosion.salt(), 0xE20D_FACE);
}

#[test]
fn signal_scales_and_octaves() {
    assert_eq!(Signal::Continentalness.scale(), 1500);
    assert_eq!(Signal::Mountainousness.scale(), 400);
    assert_eq!(Signal::Detail.scale(), 48);
    assert_eq!(Signal::Erosion.scale(), 1200);
    assert_eq!(Signal::Continentalness.octaves(), 6);
    assert_eq!(Signal::Mountainousness.octaves(), 6);
    assert_eq!(Signal::Detail.octaves(), 5);
    assert_eq!(Signal::Erosion.octaves(), 5);
}

#[test]
fn signal_seed_is_the_salted_world_seed() {
    assert_eq!(Signal::Continentalness.seed(0), 0xC0DE_C0DE);
    assert_eq!(Signal::Continentalness.seed(42), 42 ^ 0xC0DE_C0DE);
    assert_eq!(Signal::Continentalness.seed(42), 3_235_823_860);
    assert_eq!(Signal::Erosion.seed(u64::MAX), u64::MAX ^ 0xE20D_FACE);
    assert_eq!(Signal::Detail.seed(Signal::Detail.seed(1234)), 1234);
}

#[test]
fn signals_have_fields_of_their_own() {
    let all = [
        Signal::Continentalness,
        Signal::Mountainousness,
        Signal::Detail,
        Signal::Erosion,
    ];
    for (i, a) in all.iter().enumerate() {
        for b in all.iter().skip(i + 1) {
            assert_ne!(a.seed(42), b.seed(42));
            assert_ne!(hash2(3, 4, a.seed(42)), hash2(3, 4, b.seed(42)));
        }
    }
    assert_eq!(hash2(3, 4, Signal::Continentalness.seed(42)), 0x41eb_3a97_0304_3e12);
}
