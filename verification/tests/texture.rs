use minerust::block::{BlockFace, BlockType};
use minerust::texture::{
    block_texture, texel_color, texture_array_pixels, TextureId, LAYER_COUNT, TILE_SIZE,
};

fn pixel(data: &[u8], layer: usize, x: usize, y: usize) -> [u8; 4] {
    let i = (layer * TILE_SIZE * TILE_SIZE + y * TILE_SIZE + x) * 4;
    [data[i], data[i + 1], data[i + 2], data[i + 3]]
}

#[test]
fn texture_array_has_every_layer() {
    let data = texture_array_pixels();
    assert_eq!(data.len(), LAYER_COUNT * TILE_SIZE * TILE_SIZE * 4);
    // Sandstone top has a darker rim.
    let l = TextureId::SandstoneTop.layer_index();
    assert_eq!(pixel(&data, l, 0, 5), [185, 170, 120, 255]);
    assert_eq!(pixel(&data, l, 5, 5), [216, 204, 152, 255]);
    // Water ripples.
    let w = TextureId::Water.layer_index();
    assert_eq!(pixel(&data, w, 0, 0), [65, 135, 240, 225]);
    assert_eq!(pixel(&data, w, 1, 0), [42, 100, 215, 225]);
    // Glass border and glare.
    let g = TextureId::Glass.layer_index();
    assert_eq!(g, 24);
    assert_eq!(pixel(&data, g, 15, 7), [245, 250, 255, 180]);
    assert_eq!(pixel(&data, g, 6, 4), [255, 255, 255, 160]);
    assert_eq!(pixel(&data, g, 5, 9), [210, 235, 255, 45]);
}

#[test]
fn ore_tiles_have_flecks_with_dark_edges() {
    let data = texture_array_pixels();
    let c = TextureId::CoalOre.layer_index();
    assert_eq!(pixel(&data, c, 3, 4), [25, 25, 25, 255]);
    assert_eq!(pixel(&data, c, 4, 4), [25, 25, 25, 255]);
    assert_eq!(pixel(&data, c, 5, 4), [45, 45, 45, 255]);
    assert_eq!(pixel(&data, c, 14, 3), [45, 45, 45, 255]);
    let d = TextureId::DiamondOre.layer_index();
    assert_eq!(pixel(&data, d, 12, 8), [45, 185, 195, 255]);
    assert_eq!(texel_color(TextureId::DiamondOre, 10, 9), (75, 230, 235, 255));
}

#[test]
fn hashed_shades_match_the_mixing_formula() {
    for (x, y) in [(0u64, 0u64), (3, 7), (15, 15)] {
        let h = (x * 374761393 + y * 668265263 + 4 * 31) ^ (x * 127 + y * 311);
        let expected = match h % 10 {
            0..=2 => (105, 105, 105, 255),
            3..=7 => (125, 125, 125, 255),
            _ => (145, 145, 145, 255),
        };
        assert_eq!(texel_color(TextureId::Stone, x, y), expected);
    }
}

#[test]
fn wood_top_rings() {
    assert_eq!(texel_color(TextureId::WoodTop, 8, 8), (175, 138, 92, 255));
    assert_eq!(texel_color(TextureId::WoodTop, 9, 8), (140, 105, 65, 255));
    assert_eq!(texel_color(TextureId::WoodTop, 12, 8), (140, 105, 65, 255));
    assert_eq!(texel_color(TextureId::WoodTop, 0, 8), (82, 58, 33, 255));
}

#[test]
fn block_faces_pick_textures() {
    assert_eq!(block_texture(BlockType::Grass, BlockFace::Top), TextureId::GrassTop);
    assert_eq!(block_texture(BlockType::Grass, BlockFace::Bottom), TextureId::Dirt);
    assert_eq!(block_texture(BlockType::Grass, BlockFace::East), TextureId::GrassSide);
    assert_eq!(block_texture(BlockType::Wood, BlockFace::Bottom), TextureId::WoodTop);
    assert_eq!(block_texture(BlockType::Snow, BlockFace::North), TextureId::SnowSide);
    assert_eq!(block_texture(BlockType::Air, BlockFace::Top), TextureId::Dirt);
    assert_eq!(block_texture(BlockType::Cactus, BlockFace::Top), TextureId::CactusTop);
    for l in 0..LAYER_COUNT {
        assert_eq!(TextureId::from_layer(l).layer_index(), l);
    }
}

#[test]
fn layers_lead_back_to_their_textures() {
    for l in 0..LAYER_COUNT {
        assert_eq!(TextureId::from_layer(l).layer_index(), l);
    }
    assert_eq!(TextureId::from_layer(TextureId::Ice.layer_index()), TextureId::Ice);
}
