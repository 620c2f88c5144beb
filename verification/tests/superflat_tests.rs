use worldgen::superflat::{
    generate_superflat_chunk_packet, generate_view_radius_packets, layer_block, linear_index,
    BlockId, BYTES_PER_BLOCK, CHUNK_SIZE, HEADER_LEN, LAYER_SIZE,
};

#[test]
fn payload_size_ok() {
    let h = 64u16;
    let pkt = generate_superflat_chunk_packet(0, 0, h);
    let header = 15usize;
    let payload = pkt.len() - header;
    assert_eq!(payload, 16 * 16 * h as usize);
}

#[test]
fn layers_ok() {
    let h = 8u16;
    let pkt = generate_superflat_chunk_packet(0, 0, h);
    let header = 15usize;
    let data = &pkt[header..];

    // y=0 -> bedrock
    for z in 0..CHUNK_SIZE {
        for x in 0..CHUNK_SIZE {
            let idx = z * CHUNK_SIZE + x;
            assert_eq!(data[idx], BlockId::Bedrock as u8);
        }
    }

    // y=1..=2 -> dirt
    for y in 1..=2 {
        for z in 0..CHUNK_SIZE {
            for x in 0..CHUNK_SIZE {
                let idx = y * CHUNK_SIZE * CHUNK_SIZE + z * CHUNK_SIZE + x;
                assert_eq!(data[idx], BlockId::Dirt as u8);
            }
        }
    }

    // y=3 -> grass
    for z in 0..CHUNK_SIZE {
        for x in 0..CHUNK_SIZE {
            let idx = 3 * CHUNK_SIZE * CHUNK_SIZE + z * CHUNK_SIZE + x;
            assert_eq!(data[idx], BlockId::Grass as u8);
        }
    }

    // y>=4 -> air
    for y in 4..h as usize {
        for z in 0..CHUNK_SIZE {
            for x in 0..CHUNK_SIZE {
                let idx = y * CHUNK_SIZE * CHUNK_SIZE + z * CHUNK_SIZE + x;
                assert_eq!(data[idx], BlockId::Air as u8);
            }
        }
    }
}

#[test]
fn block_codes_follow_declaration_order() {
    assert_eq!(BlockId::Air.code(), 0);
    assert_eq!(BlockId::Bedrock.code(), 1);
    assert_eq!(BlockId::Dirt.code(), 2);
    assert_eq!(BlockId::Grass.code(), 3);
    assert_eq!(BlockId::Grass.code(), BlockId::Grass as u8);
}

#[test]
fn layer_blocks_by_height() {
    assert_eq!(layer_block(0), BlockId::Bedrock);
    assert_eq!(layer_block(1), BlockId::Dirt);
    assert_eq!(layer_block(2), BlockId::Dirt);
    assert_eq!(layer_block(3), BlockId::Grass);
    assert_eq!(layer_block(4), BlockId::Air);
    assert_eq!(layer_block(65_534), BlockId::Air);
}

#[test]
fn linear_index_orders_layers_rows_voxels() {
    assert_eq!(linear_index(0, 0, 0), 0);
    assert_eq!(linear_index(1, 0, 0), 1);
    assert_eq!(linear_index(0, 0, 1), 16);
    assert_eq!(linear_index(0, 1, 0), 256);
    assert_eq!(linear_index(15, 3, 15), 3 * 256 + 15 * 16 + 15);
    assert_eq!(linear_index(5, 65_534, 7), 65_534 * 256 + 7 * 16 + 5);
}

#[test]
fn header_bytes_are_little_endian() {
    let pkt = generate_superflat_chunk_packet(1, -1, 8);
    assert_eq!(
        &pkt[..HEADER_LEN],
        &[1, 0, 0, 0, 0xff, 0xff, 0xff, 0xff, 8, 0, 1, 0, 8, 0, 0]
    );
    assert_eq!(pkt[10], BYTES_PER_BLOCK);
}

#[test]
fn header_matches_std_encoding() {
    let (cx, cz, h) = (0x1234_5678i32, i32::MIN, 0x0102u16);
    let pkt = generate_superflat_chunk_packet(cx, cz, h);
    assert_eq!(&pkt[0..4], &cx.to_le_bytes());
    assert_eq!(&pkt[4..8], &cz.to_le_bytes());
    assert_eq!(&pkt[8..10], &h.to_le_bytes());
    assert_eq!(pkt[10], 1);
    assert_eq!(&pkt[11..15], &(h as u32 * 256).to_le_bytes());
    assert_eq!(pkt.len(), HEADER_LEN + h as usize * LAYER_SIZE);
}

#[test]
fn extreme_coordinates_encode() {
    let pkt = generate_superflat_chunk_packet(i32::MAX, -2, 1);
    assert_eq!(&pkt[0..4], &[0xff, 0xff, 0xff, 0x7f]);
    assert_eq!(&pkt[4..8], &[0xfe, 0xff, 0xff, 0xff]);
}

#[test]
fn zero_height_is_header_only() {
    let pkt = generate_superflat_chunk_packet(3, 4, 0);
    assert_eq!(pkt, vec![3, 0, 0, 0, 4, 0, 0, 0, 0, 0, 1, 0, 0, 0, 0]);
}

#[test]
fn short_chunks_stop_below_grass() {
    let pkt = generate_superflat_chunk_packet(0, 0, 2);
    let data = &pkt[HEADER_LEN..];
    assert_eq!(data.len(), 512);
    assert!(data[..256].iter().all(|&b| b == 1));
    assert!(data[256..].iter().all(|&b| b == 2));
}

#[test]
fn tallest_chunk_has_full_payload() {
    let pkt = generate_superflat_chunk_packet(0, 0, u16::MAX);
    assert_eq!(pkt.len(), 15 + 65_535 * 256);
    assert_eq!(&pkt[11..15], &(65_535u32 * 256).to_le_bytes());
    assert_eq!(pkt[15], 1);
    assert_eq!(pkt[15 + 3 * 256], 3);
    assert_eq!(pkt[pkt.len() - 1], 0);
}

#[test]
fn packet_is_reproducible() {
    assert_eq!(
        generate_superflat_chunk_packet(7, -9, 5),
        generate_superflat_chunk_packet(7, -9, 5)
    );
}

#[test]
fn view_radius_counts() {
    assert_eq!(generate_view_radius_packets(0, 0, 0, 4).len(), 1);
    assert_eq!(generate_view_radius_packets(0, 0, 1, 4).len(), 9);
    assert_eq!(generate_view_radius_packets(5, -5, 2, 1).len(), 25);
}

#[test]
fn view_radius_negative_is_empty() {
    assert!(generate_view_radius_packets(0, 0, -1, 4).is_empty());
    assert!(generate_view_radius_packets(10, 10, -300, 4).is_empty());
}

#[test]
fn view_radius_runs_row_by_row() {
    let (cx, cz, r, h) = (10, -20, 1, 2u16);
    let packets = generate_view_radius_packets(cx, cz, r, h);
    let mut k = 0;
    for dz in -r..=r {
        for dx in -r..=r {
            assert_eq!(packets[k], generate_superflat_chunk_packet(cx + dx, cz + dz, h));
            k += 1;
        }
    }
    assert_eq!(k, packets.len());
    assert_eq!(&packets[0][0..4], &9i32.to_le_bytes());
    assert_eq!(&packets[0][4..8], &(-21i32).to_le_bytes());
    assert_eq!(&packets[1][0..4], &10i32.to_le_bytes());
    assert_eq!(&packets[1][4..8], &(-21i32).to_le_bytes());
    assert_eq!(&packets[3][0..4], &9i32.to_le_bytes());
    assert_eq!(&packets[3][4..8], &(-20i32).to_le_bytes());
}

#[test]
fn view_radius_at_the_edge_of_the_world() {
    let packets = generate_view_radius_packets(i32::MAX - 1, i32::MIN + 1, 1, 0);
    assert_eq!(packets.len(), 9);
    assert_eq!(&packets[8][0..4], &i32::MAX.to_le_bytes());
    assert_eq!(&packets[8][4..8], &(i32::MIN + 2).to_le_bytes());
    assert_eq!(&packets[0][0..4], &(i32::MAX - 2).to_le_bytes());
    assert_eq!(&packets[0][4..8], &i32::MIN.to_le_bytes());
}

#[test]
fn packets_of_different_chunks_differ() {
    let base = generate_superflat_chunk_packet(1, 2, 3);
    assert_ne!(base, generate_superflat_chunk_packet(2, 2, 3));
    assert_ne!(base, generate_superflat_chunk_packet(1, 3, 3));
    assert_ne!(base, generate_superflat_chunk_packet(1, 2, 4));
    assert_ne!(base, generate_superflat_chunk_packet(-1, 2, 3));
    assert_ne!(base, generate_superflat_chunk_packet(2, 1, 3));
}
