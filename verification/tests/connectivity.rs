use minerust::block::BlockType;
use minerust::chunk::Chunk;
use minerust::mesher::connectivity::{compute_section_connectivity, SectionFace};

fn all_faces() -> [SectionFace; 6] {
    SectionFace::ALL
}

fn stone_section() -> Chunk {
    let mut chunk = Chunk::new();
    for y in 0..16 {
        for z in 0..16 {
            for x in 0..16 {
                chunk.set_fast(x, y, z, BlockType::Stone);
            }
        }
    }
    chunk
}

#[test]
fn test_section_connectivity_empty_air() {
    let chunk = Chunk::new();
    let conn = compute_section_connectivity(&chunk, 0);
    assert!(conn.is_empty);
    assert!(!conn.is_solid);
    for f1 in all_faces() {
        for f2 in all_faces() {
            assert!(conn.can_see(f1, f2));
        }
    }
}

#[test]
fn test_section_connectivity_solid_stone() {
    let chunk = stone_section();
    let conn = compute_section_connectivity(&chunk, 0);
    assert!(conn.is_solid);
    assert!(!conn.is_empty);
    for f1 in all_faces() {
        for f2 in all_faces() {
            assert!(!conn.can_see(f1, f2));
        }
    }
}

#[test]
fn test_section_connectivity_tunnel_west_to_east() {
    let mut chunk = stone_section();
    for x in 0..16 {
        chunk.set_fast(x, 8, 8, BlockType::Air);
    }

    let conn = compute_section_connectivity(&chunk, 0);
    assert!(!conn.is_solid);
    assert!(!conn.is_empty);

    assert!(conn.can_see(SectionFace::West, SectionFace::East));
    assert!(conn.can_see(SectionFace::East, SectionFace::West));

    assert!(!conn.can_see(SectionFace::Up, SectionFace::Down));
    assert!(!conn.can_see(SectionFace::West, SectionFace::Up));
    assert!(!conn.can_see(SectionFace::West, SectionFace::North));
}

#[test]
fn test_section_connectivity_sealed_interior_cave() {
    let mut chunk = stone_section();
    for y in 5..10 {
        for z in 5..10 {
            for x in 5..10 {
                chunk.set_fast(x, y, z, BlockType::Air);
            }
        }
    }

    let conn = compute_section_connectivity(&chunk, 0);
    assert!(!conn.is_solid);
    assert!(!conn.is_empty);

    for f1 in all_faces() {
        for f2 in all_faces() {
            assert!(!conn.can_see(f1, f2));
        }
    }
}

#[test]
fn connectivity_vertical_shaft_reaches_up() {
    let mut chunk = stone_section();
    for y in 0..16 {
        chunk.set_fast(3, y, 3, BlockType::Air);
    }
    let conn = compute_section_connectivity(&chunk, 0);
    assert!(conn.can_see(SectionFace::Down, SectionFace::Up));
    assert!(conn.reaches_up());
    assert!(!conn.can_see(SectionFace::Down, SectionFace::East));
}

#[test]
fn connectivity_upper_section_of_stone_column_is_open_air() {
    let chunk = stone_section();
    let conn = compute_section_connectivity(&chunk, 1);
    assert!(conn.is_empty);
    assert!(conn.can_see(SectionFace::North, SectionFace::South));
}

#[test]
fn section_face_opposites_are_involutive() {
    for f in all_faces() {
        assert_eq!(f.opposite().opposite(), f);
        let (x, y, z) = f.normal();
        let (ox, oy, oz) = f.opposite().normal();
        assert_eq!((x + ox, y + oy, z + oz), (0, 0, 0));
    }
}
