use minerust::block::BlockType;
use minerust::terrain::{
    generate_chunk_from_terrain, in_cave_zone, pseudo_hash_3d, BiomeType, ColumnTerrain,
};

fn flat(biome: BiomeType, height: i32) -> Vec<ColumnTerrain> {
    vec![ColumnTerrain { biome, height, is_river: false }; 256]
}

#[test]
fn ocean_fills_with_water_up_to_sea_level() {
    let chunk = generate_chunk_from_terrain(0, 0, 7, &flat(BiomeType::FrozenOcean, 40), &vec![false; 32768]);
    assert_eq!(chunk.get(3, 0, 3), BlockType::Bedrock);
    let top = chunk.get(3, 40, 3);
    assert!(top == BlockType::Sand || top == BlockType::Gravel);
    assert_eq!(chunk.get(3, 39, 3), BlockType::Dirt);
    assert_eq!(chunk.get(3, 41, 3), BlockType::Water);
    assert_eq!(chunk.get(3, 63, 3), BlockType::Water);
    assert_eq!(chunk.get(3, 64, 3), BlockType::Ice);
    assert_eq!(chunk.get(3, 65, 3), BlockType::Air);
    assert_eq!(chunk.max_y, 64);
}

#[test]
fn plains_layers_and_caves() {
    let mut caves = vec![false; 32768];
    // A cave cell inside the zone and one above it.
    caves[5 + 5 * 16 + 10 * 256] = true;
    caves[5 + 5 * 16 + 76 * 256] = true;
    let chunk = generate_chunk_from_terrain(1, -1, 99, &flat(BiomeType::Plains, 80), &caves);
    assert_eq!(chunk.get(0, 80, 0), BlockType::Grass);
    assert_eq!(chunk.get(0, 77, 0), BlockType::Dirt);
    assert_eq!(chunk.get(5, 10, 5), BlockType::Air);
    assert_ne!(chunk.get(5, 76, 5), BlockType::Air);
    assert!(in_cave_zone(10, 80));
    assert!(!in_cave_zone(76, 80));
    assert!(!in_cave_zone(3, 80));
    assert!(chunk.max_y >= 80);
}

#[test]
fn bedrock_second_layer_follows_the_hash() {
    let chunk = generate_chunk_from_terrain(0, 0, 5, &flat(BiomeType::Desert, 70), &vec![false; 32768]);
    for x in 0..16 {
        for z in 0..16 {
            let expect = if pseudo_hash_3d(x, 1, z, 5) % 2 == 0 { BlockType::Bedrock } else { BlockType::Stone };
            let got = chunk.get(x, 1, z);
            if expect == BlockType::Bedrock {
                assert_eq!(got, BlockType::Bedrock);
            } else {
                assert_ne!(got, BlockType::Bedrock);
            }
            assert_eq!(chunk.get(x, 0, z), BlockType::Bedrock);
            assert_eq!(chunk.get(x, 70, z), BlockType::Sand);
            assert_eq!(chunk.get(x, 64, z), BlockType::Sandstone);
        }
    }
}

#[test]
fn forest_grows_trees_on_grass() {
    let chunk = generate_chunk_from_terrain(3, 4, 1234, &flat(BiomeType::Forest, 90), &vec![false; 32768]);
    let mut trunks = 0;
    for x in 2..14 {
        for z in 2..14 {
            if chunk.get(x, 91, z) == BlockType::Wood {
                trunks += 1;
                assert_eq!(chunk.get(x, 90, z), BlockType::Grass);
                assert_eq!(chunk.get(x, 94, z), BlockType::Wood);
                assert_ne!(chunk.get(x, 96, z), BlockType::Air);
            }
        }
    }
    let wx0 = 3 * 16;
    let wz0 = 4 * 16;
    let mut expected = 0;
    for x in 2..14 {
        for z in 2..14 {
            if pseudo_hash_3d(wx0 + x, 90, wz0 + z, 1234) % 16 == 0 {
                expected += 1;
            }
        }
    }
    assert_eq!(trunks, expected);
    assert!(chunk.max_y >= 90);
}

#[test]
fn rivers_and_low_land_grow_nothing() {
    let mut cols = flat(BiomeType::Forest, 90);
    for c in cols.iter_mut() {
        c.is_river = true;
    }
    let chunk = generate_chunk_from_terrain(0, 0, 1, &cols, &vec![false; 32768]);
    assert_eq!(chunk.max_y, 90);
}
