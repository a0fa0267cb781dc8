//! Dense fixed-size voxel container addressed by local coordinates.
//!
//! Out-of-range reads yield air and out-of-range writes are no-ops; callers
//! never see a panic for a bad coordinate.

use vstd::prelude::*;

use vstd::arithmetic::div_mod::{
    lemma_div_denominator, lemma_div_is_ordered, lemma_fundamental_div_mod,
    lemma_fundamental_div_mod_converse,
};

use crate::block::BlockType;

verus! {

/// Width and depth of a chunk, in voxels.
pub const CHUNK_SIZE: usize = 16;

/// Height of the world (and of every chunk), in voxels.
pub const WORLD_HEIGHT: usize = 256;

/// Number of voxels in one chunk.
pub const CHUNK_VOLUME: usize = 65536;

/// Flat storage index of local coordinates: row-major by x, then y, then z.
pub open spec fn flat_index(x: int, y: int, z: int) -> int {
    x + y * 16 + z * 4096
}

pub open spec fn local_in_bounds(x: int, y: int, z: int) -> bool {
    0 <= x < 16 && 0 <= y < 256 && 0 <= z < 16
}

/// A fixed-size column of voxels at chunk coordinates (x, z).
#[derive(Clone, Debug)]
pub struct Chunk {
    pub x: i32,
    pub z: i32,
    pub blocks: Vec<BlockType>,
}

impl View for Chunk {
    type V = Seq<BlockType>;

    open spec fn view(&self) -> Seq<BlockType> {
        self.blocks@
    }
}

/// In-bounds coordinates flatten to positions of the block vector.
pub proof fn lemma_flat_index_bounds(x: int, y: int, z: int)
    requires
        local_in_bounds(x, y, z),
    ensures
        0 <= flat_index(x, y, z) < 65536,
{
}

/// Local x coordinate of a flat storage index.
pub open spec fn idx_x(i: int) -> int {
    i % 16
}

/// Local y coordinate of a flat storage index.
pub open spec fn idx_y(i: int) -> int {
    (i / 16) % 256
}

/// Local z coordinate of a flat storage index.
pub open spec fn idx_z(i: int) -> int {
    i / 4096
}

/// Every flat index below the volume decomposes into in-bounds coordinates,
/// and re-flattening them gives the index back.
pub proof fn lemma_unflat(i: int)
    requires
        0 <= i < 65536,
    ensures
        local_in_bounds(idx_x(i), idx_y(i), idx_z(i)),
        flat_index(idx_x(i), idx_y(i), idx_z(i)) == i,
{
    lemma_fundamental_div_mod(i, 16);
    lemma_fundamental_div_mod(i / 16, 256);
    lemma_div_denominator(i, 16, 256);
    lemma_div_is_ordered(i, 65535, 4096);
}

/// Flattening in-bounds coordinates and reading them back is the identity.
pub proof fn lemma_flat_unflat(x: int, y: int, z: int)
    requires
        local_in_bounds(x, y, z),
    ensures
        idx_x(flat_index(x, y, z)) == x,
        idx_y(flat_index(x, y, z)) == y,
        idx_z(flat_index(x, y, z)) == z,
{
    let f = flat_index(x, y, z);
    lemma_fundamental_div_mod_converse(f, 16, y + 256 * z, x);
    lemma_fundamental_div_mod_converse(f / 16, 256, z, y);
    lemma_fundamental_div_mod_converse(f, 4096, z, x + 16 * y);
}

impl Chunk {
    /// The container always holds exactly one block per voxel.
    pub open spec fn wf(self) -> bool {
        self@.len() == 65536
    }

    /// The block seen at local coordinates: the stored block in bounds, air
    /// outside.
    pub open spec fn block_at(self, x: int, y: int, z: int) -> BlockType {
        if local_in_bounds(x, y, z) {
            self@[flat_index(x, y, z)]
        } else {
            BlockType::Air
        }
    }

    /// A chunk at the given chunk coordinates, filled with air.
    pub fn new(x: i32, z: i32) -> (c: Chunk)
        ensures
            c.wf(),
            c.x == x,
            c.z == z,
            forall|i: int| 0 <= i < 65536 ==> c@[i] == BlockType::Air,
    {
        let mut blocks: Vec<BlockType> = Vec::new();
        let mut i: usize = 0;
        while i < CHUNK_VOLUME
            invariant
                i <= 65536,
                blocks@.len() == i,
                forall|j: int| 0 <= j < i ==> blocks@[j] == BlockType::Air,
            decreases 65536 - i,
        {
            blocks.push(BlockType::Air);
            i = i + 1;
        }
        Chunk { x, z, blocks }
    }

    /// Bounds-checked read; out-of-range coordinates yield air.
    pub fn get_block(&self, x: usize, y: usize, z: usize) -> (r: BlockType)
        requires
            self.wf(),
        ensures
            r == self.block_at(x as int, y as int, z as int),
    {
        if x >= CHUNK_SIZE || y >= WORLD_HEIGHT || z >= CHUNK_SIZE {
            return BlockType::Air;
        }
        self.blocks[x + y * CHUNK_SIZE + z * CHUNK_SIZE * WORLD_HEIGHT]
    }

    /// Bounds-checked write; out-of-range coordinates leave the chunk as it
    /// was.
    pub fn set_block(&mut self, x: usize, y: usize, z: usize, block: BlockType)
        requires
            old(self).wf(),
        ensures
            final(self).wf(),
            final(self).x == old(self).x,
            final(self).z == old(self).z,
            local_in_bounds(x as int, y as int, z as int) ==> final(self)@ == old(self)@.update(
                flat_index(x as int, y as int, z as int),
                block,
            ),
            !local_in_bounds(x as int, y as int, z as int) ==> final(self)@ == old(self)@,
    {
        if x >= CHUNK_SIZE || y >= WORLD_HEIGHT || z >= CHUNK_SIZE {
            return ;
        }
        self.blocks[x + y * CHUNK_SIZE + z * CHUNK_SIZE * WORLD_HEIGHT] = block;
    }
}

} // verus!
