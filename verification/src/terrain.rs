//! Procedural terrain generation: a pure function from seed and chunk
//! coordinates to chunk contents.
//!
//! Each column gets a height from layered fractal noise (a base elevation
//! band raised by hills and cut by valleys), is filled bottom to top by a
//! fixed layer rule (bedrock, stone, soil, surface, water, air), and then
//! receives ore by nested 3D-noise thresholds. Every value derives from
//! `(seed, world coordinates)` alone, so generation is reproducible bit for
//! bit.

use vstd::prelude::*;

use crate::block::BlockType;
use crate::chunk::{
    flat_index, idx_x, idx_y, idx_z, lemma_flat_unflat, lemma_unflat, local_in_bounds, Chunk,
    CHUNK_SIZE, WORLD_HEIGHT,
};
use crate::noise::{noise3, octave_noise, spec_octave_noise, spec_value_noise3};

verus! {

/// World (block-space) coordinate of a local column coordinate.
pub open spec fn spec_world_coord(chunk_coord: int, local: int) -> int {
    chunk_coord * 16 + local
}

/// Terrain height of a column, in `[1, 255]`: a base elevation band of
/// 40..119 from six octaves of noise, plus up to 19 of hill, minus up to 14
/// of valley, clamped.
pub open spec fn spec_height(seed: u32, wx: int, wz: int) -> int {
    let base = spec_octave_noise(seed, 1, wx, wz, 200, 1, 2, 6);
    let hill = spec_octave_noise(seed, 16, wx, wz, 50, 7, 10, 3);
    let valley = spec_octave_noise(seed, 32, wx, wz, 100, 4, 5, 2);
    let raw = 40 + base * 80 / 65536 + hill * 20 / 65536 - valley * 15 / 65536;
    if raw < 1 {
        1
    } else if raw > 255 {
        255
    } else {
        raw
    }
}

/// The surface block of a column, chosen by height band: bare stone on
/// mountain peaks, sand on beaches, grass in between.
pub open spec fn spec_surface_block(h: int) -> BlockType {
    if h > 90 {
        BlockType::Stone
    } else if h < 65 {
        BlockType::Sand
    } else {
        BlockType::GrassBlock
    }
}

/// The layer rule of a column with height `h`, before ore placement:
/// bedrock at the bottom, deep stone (deepslate below depth 16), a soil
/// band, the surface block, water up to sea level 63, air above.
pub open spec fn spec_base_block(h: int, y: int) -> BlockType {
    if y == 0 {
        BlockType::Bedrock
    } else if y + 3 < h {
        if y < 16 {
            BlockType::Deepslate
        } else {
            BlockType::Stone
        }
    } else if y + 1 < h {
        BlockType::Dirt
    } else if y < h {
        spec_surface_block(h)
    } else if y < 63 {
        BlockType::Water
    } else {
        BlockType::Air
    }
}

/// The 3D noise sample that decides ore placement at a world position.
pub open spec fn spec_ore_noise(seed: u32, wx: int, y: int, wz: int) -> int {
    spec_value_noise3(seed, 48, wx, y, wz, 10)
}

/// The ore (if any) placed at a world position, by nested thresholds of one
/// 3D noise sample: mutually exclusive bands in order of decreasing rarity,
/// each tighter band paired with a narrower depth window, and each ore in a
/// shallow and a deep (deepslate) variant split at depth 16.
pub open spec fn spec_ore_block(seed: u32, wx: int, y: int, wz: int) -> Option<BlockType> {
    let v = spec_ore_noise(seed, wx, y, wz);
    if v > 52428 && 0 < y && y < 128 {
        Some(
            if y < 16 {
                BlockType::DeepslateCoalOre
            } else {
                BlockType::CoalOre
            },
        )
    } else if v > 55705 && 0 < y && y < 64 {
        Some(
            if y < 16 {
                BlockType::DeepslateIronOre
            } else {
                BlockType::IronOre
            },
        )
    } else if v > 57344 && 0 < y && y < 32 {
        Some(
            if y < 16 {
                BlockType::DeepslateGoldOre
            } else {
                BlockType::GoldOre
            },
        )
    } else if v > 58982 && 1 < y && y < 20 {
        Some(
            if y < 16 {
                BlockType::DeepslateDiamondOre
            } else {
                BlockType::DiamondOre
            },
        )
    } else {
        None
    }
}

/// The block generation places at local coordinates of chunk `(cx, cz)`:
/// the layer rule, overwritten by ore wherever the ore pass reaches (between
/// the bedrock and the column's height) and an ore band fires.
pub open spec fn spec_gen_block(seed: u32, cx: int, cz: int, x: int, y: int, z: int) -> BlockType {
    let wx = spec_world_coord(cx, x);
    let wz = spec_world_coord(cz, z);
    let h = spec_height(seed, wx, wz);
    if 1 <= y && y < h && y < 255 {
        match spec_ore_block(seed, wx, y, wz) {
            Some(ore) => ore,
            None => spec_base_block(h, y),
        }
    } else {
        spec_base_block(h, y)
    }
}

/// The full voxel contents generation gives chunk `(cx, cz)`.
pub open spec fn spec_generate(seed: u32, cx: int, cz: int) -> Seq<BlockType> {
    Seq::new(65536, |i: int| spec_gen_block(seed, cx, cz, idx_x(i), idx_y(i), idx_z(i)))
}

/// Column height from the layered noise fields; always within `[1, 255]`.
pub fn column_height(seed: u32, wx: i64, wz: i64) -> (h: usize)
    requires
        -0x100000000000000 <= wx <= 0x100000000000000,
        -0x100000000000000 <= wz <= 0x100000000000000,
    ensures
        h == spec_height(seed, wx as int, wz as int),
        1 <= h <= 255,
{
    let base = octave_noise(seed, 1, wx, wz, 200, 1, 2, 6);
    let hill = octave_noise(seed, 16, wx, wz, 50, 7, 10, 3);
    let valley = octave_noise(seed, 32, wx, wz, 100, 4, 5, 2);
    let raw: i64 = 40 + (base * 80 / 65536) as i64 + (hill * 20 / 65536) as i64 - (valley * 15
        / 65536) as i64;
    let h: i64 = if raw < 1 {
        1
    } else if raw > 255 {
        255
    } else {
        raw
    };
    h as usize
}

/// Lay down one column's layer rule (no ore yet). Touches nothing outside
/// the column.
fn fill_base_column(c: &mut Chunk, x: usize, z: usize, h: usize)
    requires
        old(c).wf(),
        x < 16,
        z < 16,
        1 <= h <= 255,
    ensures
        final(c).wf(),
        final(c).x == old(c).x,
        final(c).z == old(c).z,
        forall|ya: int|
            0 <= ya < 256 ==> final(c)@[flat_index(x as int, ya, z as int)] == spec_base_block(
                h as int,
                ya,
            ),
        forall|i: int|
            0 <= i < 65536 && !(idx_x(i) == x as int && idx_z(i) == z as int) ==> final(c)@[i]
                == old(c)@[i],
{
    let mut y: usize = 0;
    while y < WORLD_HEIGHT
        invariant
            c.wf(),
            c.x == old(c).x,
            c.z == old(c).z,
            x < 16,
            z < 16,
            1 <= h <= 255,
            y <= 256,
            forall|ya: int|
                0 <= ya < y ==> c@[flat_index(x as int, ya, z as int)] == spec_base_block(
                    h as int,
                    ya,
                ),
            forall|i: int|
                0 <= i < 65536 && !(idx_x(i) == x as int && idx_z(i) == z as int) ==> c@[i] == old(
                    c,
                )@[i],
        decreases 256 - y,
    {
        let block = if y == 0 {
            BlockType::Bedrock
        } else if y + 3 < h {
            if y < 16 {
                BlockType::Deepslate
            } else {
                BlockType::Stone
            }
        } else if y + 1 < h {
            BlockType::Dirt
        } else if y < h {
            if h > 90 {
                BlockType::Stone
            } else if h < 65 {
                BlockType::Sand
            } else {
                BlockType::GrassBlock
            }
        } else if y < 63 {
            BlockType::Water
        } else {
            BlockType::Air
        };
        proof {
            lemma_flat_unflat(x as int, y as int, z as int);
        }
        c.set_block(x, y, z, block);
        y = y + 1;
    }
}

/// Overwrite a column's solid body with ore wherever an ore band fires,
/// for depths from 1 up to the column height. Touches nothing outside the
/// column.
pub fn generate_ores(c: &mut Chunk, x: usize, z: usize, surface_height: usize, seed: u32)
    requires
        old(c).wf(),
        x < 16,
        z < 16,
        surface_height <= 255,
    ensures
        final(c).wf(),
        final(c).x == old(c).x,
        final(c).z == old(c).z,
        forall|ya: int|
            0 <= ya < 256 ==> final(c)@[flat_index(x as int, ya, z as int)] == (
            if 1 <= ya && ya < surface_height as int {
                match spec_ore_block(
                    seed,
                    spec_world_coord(old(c).x as int, x as int),
                    ya,
                    spec_world_coord(old(c).z as int, z as int),
                ) {
                    Some(ore) => ore,
                    None => old(c)@[flat_index(x as int, ya, z as int)],
                }
            } else {
                old(c)@[flat_index(x as int, ya, z as int)]
            }),
        forall|i: int|
            0 <= i < 65536 && !(idx_x(i) == x as int && idx_z(i) == z as int) ==> final(c)@[i]
                == old(c)@[i],
{
    let wx: i64 = (c.x as i64) * (CHUNK_SIZE as i64) + x as i64;
    let wz: i64 = (c.z as i64) * (CHUNK_SIZE as i64) + z as i64;
    let ghost wxs = spec_world_coord(old(c).x as int, x as int);
    let ghost wzs = spec_world_coord(old(c).z as int, z as int);
    let mut y: usize = 1;
    while y < surface_height
        invariant
            c.wf(),
            c.x == old(c).x,
            c.z == old(c).z,
            x < 16,
            z < 16,
            surface_height <= 255,
            1 <= y <= 256,
            surface_height >= 1 ==> y <= surface_height,
            wx == wxs,
            wz == wzs,
            -0x100000000000000 <= wx <= 0x100000000000000,
            -0x100000000000000 <= wz <= 0x100000000000000,
            forall|ya: int|
                0 <= ya < 256 ==> c@[flat_index(x as int, ya, z as int)] == (
                if 1 <= ya && ya < y as int && ya < surface_height as int {
                    match spec_ore_block(seed, wxs, ya, wzs) {
                        Some(ore) => ore,
                        None => old(c)@[flat_index(x as int, ya, z as int)],
                    }
                } else {
                    old(c)@[flat_index(x as int, ya, z as int)]
                }),
            forall|i: int|
                0 <= i < 65536 && !(idx_x(i) == x as int && idx_z(i) == z as int) ==> c@[i] == old(
                    c,
                )@[i],
        decreases 256 - y,
    {
        let v = noise3(seed, 48, wx, y as i64, wz, 10);
        proof {
            lemma_flat_unflat(x as int, y as int, z as int);
        }
        if v > 52428 && y < 128 {
            let ore = if y < 16 {
                BlockType::DeepslateCoalOre
            } else {
                BlockType::CoalOre
            };
            c.set_block(x, y, z, ore);
        } else if v > 55705 && y < 64 {
            let ore = if y < 16 {
                BlockType::DeepslateIronOre
            } else {
                BlockType::IronOre
            };
            c.set_block(x, y, z, ore);
        } else if v > 57344 && y < 32 {
            let ore = if y < 16 {
                BlockType::DeepslateGoldOre
            } else {
                BlockType::GoldOre
            };
            c.set_block(x, y, z, ore);
        } else if v > 58982 && y > 1 && y < 20 {
            let ore = if y < 16 {
                BlockType::DeepslateDiamondOre
            } else {
                BlockType::DiamondOre
            };
            c.set_block(x, y, z, ore);
        }
        y = y + 1;
    }
}

/// Whether a whole column of the chunk already holds exactly what
/// generation prescribes.
pub open spec fn col_generated(c: Chunk, seed: u32, cx: int, cz: int, x: int, z: int) -> bool {
    forall|ya: int|
        0 <= ya < 256 ==> c@[flat_index(x, ya, z)] == spec_gen_block(seed, cx, cz, x, ya, z)
}

spec fn col_air(c: Chunk, x: int, z: int) -> bool {
    forall|ya: int| 0 <= ya < 256 ==> c@[flat_index(x, ya, z)] == BlockType::Air
}

/// Generate the chunk at `(cx, cz)`: a pure function of the seed and the
/// chunk coordinates.
pub fn generate_chunk(seed: u32, cx: i32, cz: i32) -> (c: Chunk)
    ensures
        c.wf(),
        c.x == cx,
        c.z == cz,
        c@ == spec_generate(seed, cx as int, cz as int),
        forall|x: int, y: int, z: int|
            local_in_bounds(x, y, z) ==> c.block_at(x, y, z) == spec_gen_block(
                seed,
                cx as int,
                cz as int,
                x,
                y,
                z,
            ),
{
    let mut c = Chunk::new(cx, cz);
    proof {
        assert forall|xa: int, za: int| 0 <= xa < 16 && 0 <= za < 16 implies col_air(c, xa, za) by {
            assert forall|ya: int| 0 <= ya < 256 implies c@[flat_index(xa, ya, za)]
                == BlockType::Air by {
                crate::chunk::lemma_flat_index_bounds(xa, ya, za);
            }
        }
    }
    let mut x: usize = 0;
    while x < CHUNK_SIZE
        invariant
            c.wf(),
            c.x == cx,
            c.z == cz,
            x <= 16,
            forall|xa: int, za: int|
                0 <= xa < 16 && 0 <= za < 16 && xa < x as int ==> col_generated(
                    c,
                    seed,
                    cx as int,
                    cz as int,
                    xa,
                    za,
                ),
            forall|xa: int, za: int|
                0 <= xa < 16 && 0 <= za < 16 && xa >= x as int ==> col_air(c, xa, za),
        decreases 16 - x,
    {
        let mut z: usize = 0;
        while z < CHUNK_SIZE
            invariant
                c.wf(),
                c.x == cx,
                c.z == cz,
                x < 16,
                z <= 16,
                forall|xa: int, za: int|
                    0 <= xa < 16 && 0 <= za < 16 && (xa < x as int || (xa == x as int && za
                        < z as int)) ==> col_generated(c, seed, cx as int, cz as int, xa, za),
                forall|xa: int, za: int|
                    0 <= xa < 16 && 0 <= za < 16 && (xa > x as int || (xa == x as int && za
                        >= z as int)) ==> col_air(c, xa, za),
            decreases 16 - z,
        {
            let wx: i64 = (cx as i64) * (CHUNK_SIZE as i64) + x as i64;
            let wz: i64 = (cz as i64) * (CHUNK_SIZE as i64) + z as i64;
            let h = column_height(seed, wx, wz);
            let ghost c_before = c;
            fill_base_column(&mut c, x, z, h);
            let ghost c_mid = c;
            generate_ores(&mut c, x, z, h, seed);
            proof {
                assert(wx == spec_world_coord(cx as int, x as int) && wz == spec_world_coord(
                    cz as int,
                    z as int,
                ));
                assert forall|ya: int| 0 <= ya < 256 implies c@[flat_index(x as int, ya, z as int)]
                    == spec_gen_block(seed, cx as int, cz as int, x as int, ya, z as int) by {
                    assert(c_mid@[flat_index(x as int, ya, z as int)] == spec_base_block(
                        h as int,
                        ya,
                    ));
                }
                assert forall|xa: int, za: int|
                    0 <= xa < 16 && 0 <= za < 16 && !(xa == x as int && za == z as int) && (xa
                        < x as int || (xa == x as int && za < z as int)) implies col_generated(
                    c,
                    seed,
                    cx as int,
                    cz as int,
                    xa,
                    za,
                ) by {
                    assert(col_generated(c_before, seed, cx as int, cz as int, xa, za));
                    assert forall|ya: int| 0 <= ya < 256 implies c@[flat_index(xa, ya, za)]
                        == spec_gen_block(seed, cx as int, cz as int, xa, ya, za) by {
                        crate::chunk::lemma_flat_index_bounds(xa, ya, za);
                        lemma_flat_unflat(xa, ya, za);
                        assert(c_mid@[flat_index(xa, ya, za)] == c_before@[flat_index(
                            xa,
                            ya,
                            za,
                        )]);
                        assert(c_before@[flat_index(xa, ya, za)] == spec_gen_block(
                            seed,
                            cx as int,
                            cz as int,
                            xa,
                            ya,
                            za,
                        ));
                    }
                }
                assert forall|xa: int, za: int|
                    0 <= xa < 16 && 0 <= za < 16 && !(xa == x as int && za == z as int) && (xa
                        > x as int || (xa == x as int && za > z as int)) implies col_air(
                    c,
                    xa,
                    za,
                ) by {
                    assert(col_air(c_before, xa, za));
                    assert forall|ya: int| 0 <= ya < 256 implies c@[flat_index(xa, ya, za)]
                        == BlockType::Air by {
                        crate::chunk::lemma_flat_index_bounds(xa, ya, za);
                        lemma_flat_unflat(xa, ya, za);
                        assert(c_mid@[flat_index(xa, ya, za)] == c_before@[flat_index(
                            xa,
                            ya,
                            za,
                        )]);
                        assert(c_before@[flat_index(xa, ya, za)] == BlockType::Air);
                    }
                }
            }
            z = z + 1;
        }
        x = x + 1;
    }
    proof {
        let cxi = cx as int;
        let czi = cz as int;
        assert forall|i: int| 0 <= i < 65536 implies c@[i] == spec_generate(seed, cxi, czi)[i] by {
            lemma_unflat(i);
            assert(col_generated(c, seed, cxi, czi, idx_x(i), idx_z(i)));
            assert(c@[flat_index(idx_x(i), idx_y(i), idx_z(i))] == spec_gen_block(
                seed,
                cxi,
                czi,
                idx_x(i),
                idx_y(i),
                idx_z(i),
            ));
        }
        assert(c@ =~= spec_generate(seed, cxi, czi));
        assert forall|x: int, y: int, z: int| local_in_bounds(x, y, z) implies c.block_at(x, y, z)
            == spec_gen_block(seed, cxi, czi, x, y, z) by {
            crate::chunk::lemma_flat_index_bounds(x, y, z);
            lemma_flat_unflat(x, y, z);
            assert(col_generated(c, seed, cxi, czi, x, z));
            assert(c@[flat_index(x, y, z)] == spec_gen_block(seed, cxi, czi, x, y, z));
        }
    }
    c
}

/// Generation is deterministic: two chunks generated from the same seed and
/// chunk coordinates hold bit-identical voxel contents.
pub proof fn lemma_generate_deterministic(c1: Chunk, c2: Chunk, seed: u32, cx: i32, cz: i32)
    requires
        c1@ == spec_generate(seed, cx as int, cz as int),
        c2@ == spec_generate(seed, cx as int, cz as int),
    ensures
        c1@ == c2@,
{
}

/// Every generated column has bedrock at its bottom.
pub proof fn lemma_bedrock_at_bottom(seed: u32, cx: i32, cz: i32, x: int, z: int)
    requires
        0 <= x < 16,
        0 <= z < 16,
    ensures
        spec_generate(seed, cx as int, cz as int)[flat_index(x, 0, z)] == BlockType::Bedrock,
{
    crate::chunk::lemma_flat_index_bounds(x, 0, z);
    lemma_flat_unflat(x, 0, z);
}

/// Every generated column's height lies within `[1, 255]`.
pub proof fn lemma_height_in_range(seed: u32, wx: int, wz: int)
    ensures
        1 <= spec_height(seed, wx, wz) <= 255,
{
}

} // verus!
