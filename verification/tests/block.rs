use minerust::block::BlockType;
use minerust::saves::seed_of_last_world_text;
use minerust::text::{decimal_i64, decimal_u64};

#[test]
fn block_codes_roundtrip() {
    for v in 0u8..21 {
        assert_eq!(BlockType::from_u8(v).to_u8(), v);
    }
    assert_eq!(BlockType::from_u8(21), BlockType::Air);
    assert_eq!(BlockType::from_u8(255), BlockType::Air);
    assert_eq!(BlockType::Glass.to_u8(), 20);
}

#[test]
fn block_classes() {
    assert!(!BlockType::Air.is_solid());
    assert!(!BlockType::Water.is_solid());
    assert!(BlockType::Stone.is_solid());
    assert!(BlockType::Water.is_water());
    assert!(BlockType::Glass.is_transparent());
    assert!(BlockType::Air.is_transparent());
    assert!(!BlockType::Dirt.is_transparent());
    assert!(BlockType::Dirt.is_opaque());
    assert!(!BlockType::Leaves.is_opaque() || !BlockType::Leaves.is_transparent());
    assert_eq!(BlockType::Grass.drop_item(), Some(BlockType::Dirt));
    assert_eq!(BlockType::Stone.drop_item(), Some(BlockType::Cobblestone));
    assert_eq!(BlockType::Bedrock.drop_item(), None);
    assert_eq!(BlockType::default(), BlockType::Air);
}

#[test]
fn decimal_text_and_parsing() {
    assert_eq!(decimal_u64(0), "0");
    assert_eq!(decimal_u64(18446744073709551615), "18446744073709551615");
    assert_eq!(decimal_i64(-256), "-256");
    assert_eq!(decimal_i64(i64::MIN), "-9223372036854775808");
    assert_eq!(seed_of_last_world_text("+12"), Some(12));
    assert_eq!(seed_of_last_world_text("-1"), None);
    assert_eq!(seed_of_last_world_text("\t 77 \n"), Some(77));
}
