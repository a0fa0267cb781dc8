use voxelworld::block::BlockType;
use voxelworld::terrain::{column_height, generate_chunk};

#[test]
fn generation_is_deterministic() {
    let a = generate_chunk(42, 0, 0);
    let b = generate_chunk(42, 0, 0);
    assert_eq!(a.blocks, b.blocks);
    let c = generate_chunk(42, -3, 7);
    let d = generate_chunk(42, -3, 7);
    assert_eq!(c.blocks, d.blocks);
}

#[test]
fn different_seeds_differ() {
    let a = generate_chunk(1, 0, 0);
    let b = generate_chunk(2, 0, 0);
    assert_ne!(a.blocks, b.blocks);
}

#[test]
fn bedrock_everywhere_at_bottom() {
    for &(cx, cz) in &[(0, 0), (-1, -1), (100, -200)] {
        let c = generate_chunk(42, cx, cz);
        for x in 0..16 {
            for z in 0..16 {
                assert_eq!(c.get_block(x, 0, z), BlockType::Bedrock);
            }
        }
    }
}

#[test]
fn heights_within_world_for_seed_42() {
    for x in 0..16i64 {
        for z in 0..16i64 {
            let h = column_height(42, x, z);
            assert!(h >= 1 && h <= 255, "column ({}, {}) height {}", x, z, h);
        }
    }
}

#[test]
fn origin_block_is_bedrock_for_seed_42() {
    let c = generate_chunk(42, 0, 0);
    assert_eq!(c.get_block(0, 0, 0), BlockType::Bedrock);
}

#[test]
fn columns_follow_layer_rule() {
    let c = generate_chunk(42, 0, 0);
    for x in 0..16usize {
        for z in 0..16usize {
            let h = column_height(42, x as i64, z as i64);
            // above the column and above sea level there is only air
            let above = h.max(63);
            for y in above..256 {
                assert_eq!(c.get_block(x, y, z), BlockType::Air);
            }
            // between the column top and sea level there is only water
            for y in h..63 {
                assert_eq!(c.get_block(x, y, z), BlockType::Water);
            }
            // everything below the column top is some solid block
            for y in 0..h {
                assert!(c.get_block(x, y, z).is_solid());
            }
        }
    }
}

#[test]
fn surface_block_follows_height_band() {
    let ores = [
        BlockType::CoalOre,
        BlockType::DeepslateCoalOre,
        BlockType::IronOre,
        BlockType::DeepslateIronOre,
        BlockType::GoldOre,
        BlockType::DeepslateGoldOre,
        BlockType::DiamondOre,
        BlockType::DeepslateDiamondOre,
    ];
    for &(seed, cx, cz) in &[(42u32, 0i32, 0i32), (7, -5, 11)] {
        let c = generate_chunk(seed, cx, cz);
        for x in 0..16usize {
            for z in 0..16usize {
                let h = column_height(
                    seed,
                    i64::from(cx) * 16 + x as i64,
                    i64::from(cz) * 16 + z as i64,
                );
                if h <= 1 {
                    continue;  // a one-block column is all bedrock
                }
                let surface = c.get_block(x, h - 1, z);
                if ores.contains(&surface) {
                    continue;  // an ore band may overwrite the surface
                }
                let expected = if h > 90 {
                    BlockType::Stone
                } else if h < 65 {
                    BlockType::Sand
                } else {
                    BlockType::GrassBlock
                };
                assert_eq!(surface, expected, "column ({}, {}) height {}", x, z, h);
            }
        }
    }
}

#[test]
fn ores_only_replace_below_surface() {
    let ores = [
        BlockType::CoalOre,
        BlockType::DeepslateCoalOre,
        BlockType::IronOre,
        BlockType::DeepslateIronOre,
        BlockType::GoldOre,
        BlockType::DeepslateGoldOre,
        BlockType::DiamondOre,
        BlockType::DeepslateDiamondOre,
    ];
    let c = generate_chunk(7, 3, -8);
    for x in 0..16usize {
        for z in 0..16usize {
            let h = column_height(7, 3 * 16 + x as i64, -8 * 16 + z as i64);
            for y in 0..256usize {
                let b = c.get_block(x, y, z);
                if ores.contains(&b) {
                    assert!(y >= 1 && y < h, "ore above surface at y {} (h {})", y, h);
                }
            }
        }
    }
}
