use minerust::block::BlockType;
use minerust::chunk::{Chunk, CHUNK_BLOCKS, CHUNK_DEPTH, CHUNK_WIDTH};
use minerust::coords::LocalBlockPos;
use minerust::error::WorldError;

#[test]
fn test_chunk_new_is_air() {
    let chunk = Chunk::new();
    assert_eq!(chunk.max_y, 0);
    assert_eq!(chunk.get_fast(0, 0, 0), BlockType::Air);
    assert_eq!(chunk.get_local(LocalBlockPos::new(15, 64, 15)), BlockType::Air);
}

#[test]
fn test_chunk_get_set_local() {
    let mut chunk = Chunk::new();
    let pos = LocalBlockPos::new(3, 42, 7);
    chunk.set_local(pos, BlockType::Stone);
    assert_eq!(chunk.get_local(pos), BlockType::Stone);
    assert_eq!(chunk.max_y, 42);
}

#[test]
fn test_chunk_serialization_roundtrip() {
    let mut chunk = Chunk::new();
    chunk.set_local(LocalBlockPos::new(0, 0, 0), BlockType::Bedrock);
    chunk.set_local(LocalBlockPos::new(5, 50, 5), BlockType::GoldOre);
    let bytes = chunk.to_bytes();
    assert_eq!(bytes.len(), CHUNK_BLOCKS);

    let loaded = Chunk::from_bytes(&bytes).expect("roundtrip should succeed");
    assert_eq!(loaded.get_local(LocalBlockPos::new(0, 0, 0)), BlockType::Bedrock);
    assert_eq!(loaded.get_local(LocalBlockPos::new(5, 50, 5)), BlockType::GoldOre);
    assert_eq!(loaded.max_y, 50);
}

#[test]
fn test_chunk_compression_ratio_and_roundtrip() {
    let mut chunk = Chunk::new();
    for x in 0..CHUNK_WIDTH {
        for z in 0..CHUNK_DEPTH {
            chunk.set_local(LocalBlockPos::new(x as u8, 0, z as u8), BlockType::Bedrock);
            for y in 1..=40 {
                chunk.set_local(LocalBlockPos::new(x as u8, y, z as u8), BlockType::Stone);
            }
            chunk.set_local(LocalBlockPos::new(x as u8, 41, z as u8), BlockType::Grass);
        }
    }

    let compressed = chunk.to_compressed_bytes();
    assert!(
        compressed.len() < 1000,
        "Expected high compression ratio on voxel data, got {} bytes",
        compressed.len()
    );

    let loaded = Chunk::from_compressed_bytes(&compressed).expect("decompression should succeed");
    assert_eq!(loaded.max_y, 41);
    assert_eq!(loaded.get_local(LocalBlockPos::new(7, 41, 7)), BlockType::Grass);
    assert_eq!(loaded.get_local(LocalBlockPos::new(7, 20, 7)), BlockType::Stone);
}

#[test]
fn test_chunk_deserialization_corruption_error() {
    let corrupted_bytes = vec![0_u8; 100];
    let result = Chunk::from_bytes(&corrupted_bytes);
    assert!(matches!(result, Err(WorldError::Corruption(_))));
}

#[test]
fn chunk_wrong_length_error_names_the_length() {
    let result = Chunk::from_bytes(&[1u8, 2, 3]);
    match result {
        Err(WorldError::Corruption(msg)) => {
            assert_eq!(msg, "Invalid chunk byte length: expected 32768, got 3")
        }
        _ => panic!("expected a corruption error"),
    }
}

#[test]
fn chunk_unknown_block_bytes_read_as_air() {
    let mut bytes = vec![0u8; CHUNK_BLOCKS];
    bytes[0] = 3;
    bytes[1] = 200;
    let chunk = Chunk::from_bytes(&bytes).unwrap();
    assert_eq!(chunk.get_fast(0, 0, 0), BlockType::Stone);
    assert_eq!(chunk.get_fast(1, 0, 0), BlockType::Air);
    assert_eq!(chunk.max_y, 0);
}

#[test]
fn chunk_compressed_roundtrip_keeps_every_block() {
    let mut chunk = Chunk::new();
    chunk.set(1, 2, 3, BlockType::Glass);
    chunk.set(15, 127, 15, BlockType::Ice);
    let stored = chunk.to_compressed_bytes();
    // The stored form is not the raw bytes, so a wrapper that handed its input back would
    // be read as a wrong-length raw chunk.
    assert_ne!(stored.len(), CHUNK_BLOCKS);
    let loaded = Chunk::from_compressed_bytes(&stored).unwrap();
    assert_eq!(loaded.blocks, chunk.blocks);
    assert_eq!(loaded.max_y, 127);
}

#[test]
fn chunk_raw_bytes_are_accepted_by_compressed_reader() {
    let mut chunk = Chunk::new();
    chunk.set(4, 9, 4, BlockType::Sand);
    let raw = chunk.to_bytes();
    let loaded = Chunk::from_compressed_bytes(&raw).unwrap();
    assert_eq!(loaded.get(4, 9, 4), BlockType::Sand);
}

#[test]
fn chunk_garbage_fails_decompression() {
    let result = Chunk::from_compressed_bytes(&[4, 0, 0, 0, 0xff]);
    match result {
        Err(WorldError::Corruption(msg)) => assert!(msg.starts_with("LZ4 decompression failed: ")),
        _ => panic!("expected a corruption error"),
    }
}

#[test]
fn chunk_out_of_bounds_access_is_air_and_ignored() {
    let mut chunk = Chunk::new();
    chunk.set(-1, 5, 0, BlockType::Stone);
    chunk.set(0, 128, 0, BlockType::Stone);
    assert_eq!(chunk.get(-1, 5, 0), BlockType::Air);
    assert_eq!(chunk.get(0, 128, 0), BlockType::Air);
    assert_eq!(chunk.max_y, 0);
    assert!(!Chunk::in_bounds(16, 0, 0));
    assert!(Chunk::in_bounds(15, 127, 15));
    assert_eq!(Chunk::index(1, 2, 3), 1 + 3 * 16 + 2 * 256);
}
