use voxelworld::block::BlockType;
use voxelworld::store::{decode_chunk, encode_chunk};
use voxelworld::terrain::generate_chunk;
use voxelworld::world::{split_world_coord, World};

#[test]
fn coordinate_mapping_over_range() {
    for wx in -100i32..=100 {
        let (chunk, local) = split_world_coord(wx);
        assert_eq!(chunk, (f64::from(wx) / 16.0).floor() as i32);
        assert!(local < 16);
        assert_eq!(i64::from(chunk) * 16 + local as i64, i64::from(wx));
    }
    assert_eq!(split_world_coord(-1), (-1, 15));
    assert_eq!(split_world_coord(0), (0, 0));
    assert_eq!(split_world_coord(16), (1, 0));
    assert_eq!(split_world_coord(-16), (-1, 0));
    assert_eq!(split_world_coord(-17), (-2, 15));
}

#[test]
fn new_world_keeps_given_seed() {
    let w = World::new(Some(42));
    assert_eq!(w.seed(), 42);
    assert!(!w.has_dirty_chunks());
    assert!(w.get_loaded_chunks().is_empty());
}

#[test]
fn get_chunk_generates_once_and_marks_dirty() {
    let mut w = World::new(Some(42));
    let blocks = w.get_chunk(0, 0).blocks.clone();
    assert!(w.has_dirty_chunks());
    assert!(w.is_chunk_loaded(0, 0));
    assert_eq!(w.get_loaded_chunks(), vec![(0, 0)]);
    // a second lookup returns the cached chunk without loading another
    let again = w.get_chunk(0, 0).blocks.clone();
    assert_eq!(w.get_loaded_chunks(), vec![(0, 0)]);
    assert_eq!(blocks, again);
    // and it is the generated content
    assert_eq!(blocks, generate_chunk(42, 0, 0).blocks);
}

#[test]
fn out_of_height_reads_are_air_and_load_nothing() {
    let mut w = World::new(Some(42));
    assert_eq!(w.get_block_at(5, -1, 5), BlockType::Air);
    assert_eq!(w.get_block_at(5, 256, 5), BlockType::Air);
    assert_eq!(w.get_block_at(5, i32::MIN, 5), BlockType::Air);
    assert!(w.get_loaded_chunks().is_empty());
    assert!(!w.has_dirty_chunks());
}

#[test]
fn out_of_height_writes_are_noops() {
    let mut w = World::new(Some(42));
    assert_eq!(w.set_block_at(5, -1, 5, BlockType::Stone), None);
    assert_eq!(w.set_block_at(5, 256, 5, BlockType::Stone), None);
    assert!(w.get_loaded_chunks().is_empty());
    assert!(!w.has_dirty_chunks());
}

#[test]
fn writing_same_value_never_dirties() {
    let mut w = World::new(Some(42));
    let current = w.get_block_at(3, 40, 3);
    let drained = w.take_dirty();
    assert_eq!(drained, vec![(0, 0)]);
    assert!(!w.has_dirty_chunks());
    // writing the value already present must not re-dirty the chunk
    assert_eq!(w.set_block_at(3, 40, 3, current), None);
    assert!(!w.has_dirty_chunks());
}

#[test]
fn writing_new_value_always_dirties() {
    let mut w = World::new(Some(42));
    let current = w.get_block_at(3, 40, 3);
    w.take_dirty();
    let new_value = if current == BlockType::Obsidian {
        BlockType::Glass
    } else {
        BlockType::Obsidian
    };
    assert_eq!(w.set_block_at(3, 40, 3, new_value), Some((0, 0)));
    assert!(w.has_dirty_chunks());
    assert_eq!(w.get_block_at(3, 40, 3), new_value);
}

#[test]
fn edits_map_to_owning_chunk() {
    let mut w = World::new(Some(42));
    assert_eq!(w.set_block_at(-1, 200, -1, BlockType::Obsidian), Some((-1, -1)));
    assert_eq!(w.get_block_at(-1, 200, -1), BlockType::Obsidian);
    assert_eq!(w.get_block_at(0, 200, 0), generate_chunk(42, 0, 0).get_block(0, 200, 0));
}

#[test]
fn persistence_pass_drains_and_retries() {
    let mut w = World::new(Some(42));
    w.get_chunk(0, 0);
    let to_save = w.take_dirty();
    assert_eq!(to_save, vec![(0, 0)]);
    assert!(!w.has_dirty_chunks());
    let bytes = w.encoded_chunk(0, 0).expect("resident chunk must encode");
    assert_eq!(bytes.len(), 131072);
    // a chunk never loaded has nothing to encode
    assert!(w.encoded_chunk(9, 9).is_none());
    // a failed write re-marks the coordinate for the next pass
    w.mark_dirty(0, 0);
    assert!(w.has_dirty_chunks());
    assert_eq!(w.take_dirty(), vec![(0, 0)]);
}

#[test]
fn generated_then_saved_then_loaded_matches() {
    // what a host writes for a generated chunk reads back identically
    let mut w = World::new(Some(42));
    w.get_chunk(2, -3);
    let bytes = w.encoded_chunk(2, -3).unwrap();
    let loaded = decode_chunk(2, -3, &bytes).unwrap();
    assert_eq!(loaded.blocks, generate_chunk(42, 2, -3).blocks);
}

#[test]
fn inserted_loaded_chunk_is_used_and_clean() {
    // a host that finds a chunk file inserts it before asking for the chunk
    let mut edited = generate_chunk(42, 0, 0);
    edited.set_block(8, 70, 8, BlockType::Obsidian);
    let bytes = encode_chunk(&edited);
    let mut w = World::new(Some(42));
    let from_disk = decode_chunk(0, 0, &bytes).unwrap();
    w.insert_loaded_chunk(from_disk);
    assert!(w.is_chunk_loaded(0, 0));
    assert!(!w.has_dirty_chunks());
    assert_eq!(w.get_block_at(8, 70, 8), BlockType::Obsidian);
    assert!(!w.has_dirty_chunks());
}

#[test]
fn insert_does_not_replace_resident_chunk() {
    let mut w = World::new(Some(42));
    w.set_block_at(8, 70, 8, BlockType::Obsidian);
    let other = generate_chunk(1, 0, 0);
    w.insert_loaded_chunk(other);
    assert_eq!(w.get_block_at(8, 70, 8), BlockType::Obsidian);
    assert_eq!(w.get_loaded_chunks(), vec![(0, 0)]);
}
