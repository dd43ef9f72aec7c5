use minerust::coords::IVec2;
use minerust::saves::{
    chunk_file, latest_saved_world, seed_of_last_world_text, seed_of_world_dir, world_dir_of_seed,
};
use minerust::world::{WorldGrid, WorldSeed};

#[test]
fn save_paths_follow_the_seed() {
    let world = WorldGrid::new(WorldSeed(42));
    assert_eq!(world.world_dir(), "saves/world_42");
    assert_eq!(world.player_save_path(), "saves/world_42/player.json");
    assert_eq!(world.chunk_save_dir(), "saves/world_42/chunks");
    assert_eq!(world_dir_of_seed(0), "saves/world_0");
    assert_eq!(chunk_file(IVec2::new(-3, 17)), "chunk_-3_17.bin");
}

#[test]
fn world_dir_names_read_back() {
    assert_eq!(seed_of_world_dir("world_133742"), Some(133742));
    assert_eq!(seed_of_world_dir("world_+7"), Some(7));
    assert_eq!(seed_of_world_dir("world_"), None);
    assert_eq!(seed_of_world_dir("world_x1"), None);
    assert_eq!(seed_of_world_dir("worlds_1"), None);
    assert_eq!(seed_of_world_dir("world_18446744073709551616"), None);
    let dir = world_dir_of_seed(18446744073709551615);
    assert_eq!(seed_of_world_dir(dir.strip_prefix("saves/").unwrap()), Some(18446744073709551615));
}

#[test]
fn last_world_text_is_trimmed() {
    assert_eq!(seed_of_last_world_text("  12345\n"), Some(12345));
    assert_eq!(seed_of_last_world_text(""), None);
    assert_eq!(seed_of_last_world_text("12 3"), None);
}

#[test]
fn latest_world_is_the_newest_directory() {
    let entries = vec![
        ("world_5".to_string(), 100u128),
        ("notes".to_string(), 900),
        ("world_9".to_string(), 300),
        ("world_11".to_string(), 300),
        ("world_2".to_string(), 50),
    ];
    assert_eq!(latest_saved_world(&entries), Some(9));
    assert_eq!(latest_saved_world(&vec![("other".to_string(), 1)]), None);
    assert_eq!(latest_saved_world(&Vec::new()), None);
}
