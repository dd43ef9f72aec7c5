use minerust::chunk::{CHUNK_DEPTH, CHUNK_HEIGHT, CHUNK_WIDTH};
use minerust::coords::{BlockPos, ChunkPos, LocalBlockPos};

#[test]
fn test_block_to_chunk_and_local_roundtrip() {
    let block_pos = BlockPos::new(35, 64, -18);
    let (chunk_pos, local_pos) = block_pos.to_chunk_and_local();

    assert_eq!(chunk_pos.0.x, 35 / 16);
    assert_eq!(chunk_pos.0.y, (-18_i32).div_euclid(16));
    assert_eq!(local_pos.x, 3);
    assert_eq!(local_pos.y, 64);
    assert_eq!(local_pos.z, (-18_i32).rem_euclid(16) as u8);

    let reconstructed = local_pos.to_world(chunk_pos);
    assert_eq!(reconstructed, block_pos);
}

#[test]
fn test_local_index_bijection() {
    for index in [0, 15, 256, 1024, CHUNK_WIDTH * CHUNK_HEIGHT * CHUNK_DEPTH - 1] {
        let local = LocalBlockPos::from_index(index);
        assert_eq!(local.to_index(), index);
    }
}

#[test]
fn block_coord_roundtrip_on_negative_edges() {
    for (x, y, z) in [(-1, 0, -16), (-17, 127, 15), (1_000_000, 5, -1_000_000), (0, 1, 16)] {
        let block_pos = BlockPos::new(x, y, z);
        let (chunk_pos, local_pos) = block_pos.to_chunk_and_local();
        assert!((local_pos.x as usize) < CHUNK_WIDTH);
        assert!((local_pos.z as usize) < CHUNK_DEPTH);
        assert_eq!(local_pos.to_world(chunk_pos), block_pos);
    }
    let (c, l) = BlockPos::new(-1, 0, 0).to_chunk_and_local();
    assert_eq!(c, ChunkPos::new(-1, 0));
    assert_eq!(l.x, 15);
}

#[test]
fn chunk_pos_world_min_and_distance() {
    let c = ChunkPos::new(-2, 3);
    assert_eq!(c.world_min(), BlockPos::new(-32, 0, 48));
    assert_eq!(c.distance_sq(ChunkPos::new(1, -1)), 9 + 16);
    assert_eq!(c.x(), -2);
    assert_eq!(c.z(), 3);
}

#[test]
fn local_index_layout() {
    let p = LocalBlockPos::new(1, 2, 3);
    assert_eq!(p.to_index(), 1 + 3 * 16 + 2 * 256);
    assert_eq!(LocalBlockPos::from_index(p.to_index()), p);
}
