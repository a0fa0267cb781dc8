use voxelworld::block::BlockType;
use voxelworld::chunk::Chunk;
use voxelworld::mesh::{
    build_chunk_mesh, texture_key_for, AtlasUV, BlockFace, TextureKey, UvTable,
};

fn plain_table() -> UvTable {
    let mut t = UvTable::new(AtlasUV { u_min: 0, v_min: 0, u_max: 16, v_max: 16 });
    t.insert(TextureKey::Stone, AtlasUV { u_min: 100, v_min: 200, u_max: 116, v_max: 216 });
    t
}

#[test]
fn empty_chunk_yields_empty_mesh() {
    let c = Chunk::new(0, 0);
    let (vertices, indices) = build_chunk_mesh(&c, &plain_table());
    assert!(vertices.is_empty());
    assert!(indices.is_empty());
}

#[test]
fn isolated_voxel_emits_six_faces() {
    let mut c = Chunk::new(0, 0);
    c.set_block(8, 8, 8, BlockType::Stone);
    let (vertices, indices) = build_chunk_mesh(&c, &plain_table());
    assert_eq!(vertices.len(), 24);
    assert_eq!(indices.len(), 36);
    // every corner belongs to the unit cube at world (8, 8, 8)
    for v in &vertices {
        assert!(v.px == 8 || v.px == 9);
        assert!(v.py == 8 || v.py == 9);
        assert!(v.pz == 8 || v.pz == 9);
        assert_eq!((v.red, v.green, v.blue), (50, 50, 50));
    }
    // the index list references each face's four vertices in two triangles
    for f in 0..6u32 {
        let b = 4 * f;
        assert_eq!(&indices[(6 * f) as usize..(6 * f + 6) as usize], &[
            b,
            b + 1,
            b + 2,
            b,
            b + 2,
            b + 3,
        ]);
    }
}

#[test]
fn enclosed_voxel_emits_no_faces() {
    // a solid voxel surrounded on all six sides: only the surrounding plus
    // shape contributes faces, five per neighbor
    let mut c = Chunk::new(0, 0);
    c.set_block(8, 8, 8, BlockType::Stone);
    c.set_block(8, 9, 8, BlockType::Stone);
    c.set_block(8, 7, 8, BlockType::Stone);
    c.set_block(8, 8, 9, BlockType::Stone);
    c.set_block(8, 8, 7, BlockType::Stone);
    c.set_block(9, 8, 8, BlockType::Stone);
    c.set_block(7, 8, 8, BlockType::Stone);
    let (vertices, indices) = build_chunk_mesh(&c, &plain_table());
    // 6 neighbors with 5 visible faces each; the enclosed voxel adds none
    assert_eq!(vertices.len(), 6 * 5 * 4);
    assert_eq!(indices.len(), 6 * 5 * 6);
}

#[test]
fn chunk_boundary_faces_are_visible() {
    // a voxel in the chunk corner: no cross-chunk lookup, so all six faces
    // are emitted even though a neighboring chunk might cover three
    let mut c = Chunk::new(0, 0);
    c.set_block(0, 0, 0, BlockType::Bedrock);
    let (vertices, indices) = build_chunk_mesh(&c, &plain_table());
    assert_eq!(vertices.len(), 24);
    assert_eq!(indices.len(), 36);
}

#[test]
fn water_is_not_meshed() {
    let mut c = Chunk::new(0, 0);
    c.set_block(8, 8, 8, BlockType::Water);
    let (vertices, indices) = build_chunk_mesh(&c, &plain_table());
    assert!(vertices.is_empty());
    assert!(indices.is_empty());
}

#[test]
fn positions_are_world_space() {
    let mut c = Chunk::new(-1, 2);
    c.set_block(0, 10, 0, BlockType::Stone);
    let (vertices, _) = build_chunk_mesh(&c, &plain_table());
    for v in &vertices {
        assert!(v.px == -16 || v.px == -15);
        assert!(v.py == 10 || v.py == 11);
        assert!(v.pz == 32 || v.pz == 33);
    }
}

#[test]
fn top_face_geometry() {
    // one voxel with only the top face visible
    let mut c = Chunk::new(0, 0);
    for y in 0..12 {
        for x in 0..16 {
            for z in 0..16 {
                c.set_block(x, y, z, BlockType::Stone);
            }
        }
    }
    let (vertices, _) = build_chunk_mesh(&c, &plain_table());
    // faces come out four vertices at a time; exactly one face is the top
    // of the voxel at (1, 11, 1)
    let tops: Vec<_> = vertices
        .chunks(4)
        .filter(|q| {
            q.iter().all(|v| v.ny == 1 && v.px >= 1 && v.px <= 2 && v.pz >= 1 && v.pz <= 2)
        })
        .collect();
    assert_eq!(tops.len(), 1);
    for v in tops[0] {
        assert_eq!(v.py, 12);
        assert_eq!((v.nx, v.ny, v.nz), (0, 1, 0));
        // stone has its own atlas rectangle
        assert!(v.u == 100 || v.u == 116);
        assert!(v.v == 200 || v.v == 216);
    }
}

#[test]
fn uv_table_lookup_and_fallback() {
    let t = plain_table();
    let stone = t.uv(TextureKey::Stone);
    assert_eq!((stone.u_min, stone.v_min, stone.u_max, stone.v_max), (100, 200, 116, 216));
    let missing = t.uv(TextureKey::Water);
    assert_eq!((missing.u_min, missing.v_min, missing.u_max, missing.v_max), (0, 0, 16, 16));
}

#[test]
fn texture_keys_per_face() {
    assert_eq!(texture_key_for(BlockType::GrassBlock, BlockFace::Top), TextureKey::GrassTop);
    assert_eq!(texture_key_for(BlockType::GrassBlock, BlockFace::Bottom), TextureKey::Dirt);
    assert_eq!(texture_key_for(BlockType::GrassBlock, BlockFace::East), TextureKey::GrassSide);
    assert_eq!(texture_key_for(BlockType::Water, BlockFace::Top), TextureKey::Water);
    assert_eq!(texture_key_for(BlockType::Furnace, BlockFace::Top), TextureKey::Stone);
    assert_eq!(
        texture_key_for(BlockType::DeepslateDiamondOre, BlockFace::North),
        TextureKey::DeepslateDiamondOre,
    );
}
