//! The chunk cache and coordinator: world-to-chunk coordinate mapping, lazy
//! generate-on-demand residency, block reads and edits, and dirty tracking
//! for persistence.
//!
//! Storage itself lives with the caller: a host loads chunk files with
//! [`crate::store::decode_chunk`] and hands them in through
//! [`World::insert_loaded_chunk`] before asking for a chunk, drains the
//! dirty set with [`World::take_dirty`], fetches bytes to write with
//! [`World::encoded_chunk`], and re-marks a coordinate with
//! [`World::mark_dirty`] when a write fails, so no edit is ever silently
//! dropped.

use vstd::prelude::*;

use vstd::arithmetic::div_mod::{lemma_fundamental_div_mod, lemma_fundamental_div_mod_converse};

use crate::block::BlockType;
use crate::chunk::{flat_index, Chunk};
use crate::store::{encode_chunk, spec_encode_chunk};
use crate::terrain::{generate_chunk, spec_generate};

verus! {

/// Chunk coordinate owning a world coordinate: floor division by the chunk
/// width, so negative coordinates map to negative chunks.
pub open spec fn spec_chunk_coord(w: int) -> int {
    w / 16
}

/// Local coordinate of a world coordinate inside its chunk: the Euclidean
/// remainder, always in `[0, 16)`.
pub open spec fn spec_local_coord(w: int) -> int {
    w % 16
}

/// Map a world coordinate to its chunk coordinate and local coordinate.
pub fn split_world_coord(coord: i32) -> (r: (i32, usize))
    ensures
        r.0 == spec_chunk_coord(coord as int),
        r.1 == spec_local_coord(coord as int),
        0 <= r.1 < 16,
        r.0 * 16 + r.1 == coord,
{
    let c = coord as i64;
    let (q, rem): (i64, i64) = if c >= 0 {
        (c / 16, c % 16)
    } else {
        let p = -c;
        let qp = p / 16;
        let rp = p % 16;
        if rp == 0 {
            (-qp, 0)
        } else {
            (-qp - 1, 16 - rp)
        }
    };
    proof {
        if c >= 0 {
            lemma_fundamental_div_mod(c as int, 16);
        } else {
            lemma_fundamental_div_mod(-(c as int), 16);
        }
        lemma_fundamental_div_mod_converse(coord as int, 16, q as int, rem as int);
    }
    (q as i32, rem as usize)
}

/// The coordinate mapping is a bijection onto (chunk, local) pairs: the
/// chunk is the floor of `w / 16`, the local coordinate is the always
/// non-negative remainder, and together they recover `w`.
pub proof fn lemma_coordinate_mapping(w: int)
    ensures
        0 <= spec_local_coord(w) < 16,
        spec_chunk_coord(w) * 16 + spec_local_coord(w) == w,
        spec_chunk_coord(w) * 16 <= w < spec_chunk_coord(w) * 16 + 16,
{
    lemma_fundamental_div_mod(w, 16);
}

/// The world: resident chunks keyed by chunk coordinate (in load order), the
/// fixed generation seed, and the dirty coordinates awaiting persistence.
pub struct World {
    pub seed: u32,
    pub coords: Vec<(i32, i32)>,
    pub chunks: Vec<Chunk>,
    pub dirty: Vec<(i32, i32)>,
}

impl World {
    /// Cache well-formedness: one chunk per listed coordinate, each chunk
    /// well-formed and keyed by its own coordinates, no coordinate resident
    /// or dirty twice.
    pub open spec fn wf(self) -> bool {
        &&& self.coords@.len() == self.chunks@.len()
        &&& forall|i: int|
            0 <= i < self.chunks@.len() ==> {
                &&& (#[trigger] self.chunks@[i]).wf()
                &&& self.chunks@[i].x == self.coords@[i].0
                &&& self.chunks@[i].z == self.coords@[i].1
            }
        &&& forall|i: int, j: int| #![trigger self.coords@[i], self.coords@[j]]
            0 <= i < j < self.coords@.len() ==> self.coords@[i] != self.coords@[j]
        &&& forall|i: int, j: int| #![trigger self.dirty@[i], self.dirty@[j]]
            0 <= i < j < self.dirty@.len() ==> self.dirty@[i] != self.dirty@[j]
    }

    /// Whether the chunk at `(cx, cz)` is resident.
    pub open spec fn resident(self, cx: i32, cz: i32) -> bool {
        exists|i: int| 0 <= i < self.coords@.len() && self.coords@[i] == (cx, cz)
    }

    /// Position of a resident chunk in the cache.
    pub open spec fn index_of(self, cx: i32, cz: i32) -> int {
        choose|i: int| 0 <= i < self.coords@.len() && self.coords@[i] == (cx, cz)
    }

    /// The resident chunk at `(cx, cz)`.
    pub open spec fn chunk_at(self, cx: i32, cz: i32) -> Chunk {
        self.chunks@[self.index_of(cx, cz)]
    }

    /// Whether `(cx, cz)` awaits persistence.
    pub open spec fn is_dirty(self, cx: i32, cz: i32) -> bool {
        exists|i: int| 0 <= i < self.dirty@.len() && self.dirty@[i] == (cx, cz)
    }

    /// The contents a chunk lookup yields: the resident chunk's, else what
    /// generation would produce.
    pub open spec fn spec_chunk_contents(self, cx: i32, cz: i32) -> Seq<BlockType> {
        if self.resident(cx, cz) {
            self.chunk_at(cx, cz)@
        } else {
            spec_generate(self.seed, cx as int, cz as int)
        }
    }

    /// The dirty set after marking `(cx, cz)`: unchanged when already
    /// marked, else extended by it.
    pub open spec fn dirty_after_mark(self, cx: i32, cz: i32) -> Seq<(i32, i32)> {
        if self.is_dirty(cx, cz) {
            self.dirty@
        } else {
            self.dirty@.push((cx, cz))
        }
    }

    /// The relation between a world and itself after a chunk lookup settled
    /// residency of `(cx, cz)`: a cache hit changes nothing; a miss appends
    /// the freshly generated chunk and marks it dirty, touching nothing
    /// else.
    pub open spec fn lookup_post(pre: World, post: World, cx: i32, cz: i32) -> bool {
        &&& post.wf()
        &&& post.seed == pre.seed
        &&& post.resident(cx, cz)
        &&& post.chunk_at(cx, cz)@ == pre.spec_chunk_contents(cx, cz)
        &&& post.chunk_at(cx, cz).x == cx && post.chunk_at(cx, cz).z == cz
        &&& (pre.resident(cx, cz) ==> post == pre)
        &&& (!pre.resident(cx, cz) ==> {
            &&& post.coords@ == pre.coords@.push((cx, cz))
            &&& post.chunks@.len() == pre.chunks@.len() + 1
            &&& post.chunks@.drop_last() == pre.chunks@
            &&& post.dirty@ == pre.dirty_after_mark(cx, cz)
            &&& post.is_dirty(cx, cz)
        })
    }

    /// Any cache position holding `(cx, cz)` is the position `chunk_at`
    /// reads: residency positions are unique.
    pub proof fn lemma_index_unique(self, cx: i32, cz: i32, i: int)
        requires
            self.wf(),
            0 <= i < self.coords@.len(),
            self.coords@[i] == (cx, cz),
        ensures
            self.resident(cx, cz),
            self.index_of(cx, cz) == i,
            self.chunk_at(cx, cz) == self.chunks@[i],
    {
        assert(self.resident(cx, cz));
        let j = self.index_of(cx, cz);
        assert(0 <= j < self.coords@.len() && self.coords@[j] == (cx, cz));
        if i < j {
            assert(self.coords@[i] != self.coords@[j]);
        } else if j < i {
            assert(self.coords@[j] != self.coords@[i]);
        }
    }

    /// A world with no resident chunks and nothing dirty. The seed is fixed
    /// here for the world's lifetime: the given one, or a randomly drawn one
    /// when the caller has none (no stored metadata and no request).
    pub fn new(seed: Option<u32>) -> (w: World)
        ensures
            w.wf(),
            seed matches Some(s) ==> w.seed == s,
            w.coords@.len() == 0,
            w.chunks@.len() == 0,
            w.dirty@.len() == 0,
    {
        let s = match seed {
            Some(s) => s,
            None => random_seed(),
        };
        World { seed: s, coords: Vec::new(), chunks: Vec::new(), dirty: Vec::new() }
    }

    /// The world's fixed generation seed.
    pub fn seed(&self) -> (r: u32)
        ensures
            r == self.seed,
    {
        self.seed
    }

    /// Cache position of `(cx, cz)`, if resident.
    fn find_chunk(&self, cx: i32, cz: i32) -> (r: Option<usize>)
        requires
            self.wf(),
        ensures
            match r {
                Some(i) => i < self.coords@.len() && self.coords@[i as int] == (cx, cz),
                None => !self.resident(cx, cz),
            },
    {
        let mut i: usize = 0;
        while i < self.coords.len()
            invariant
                self.wf(),
                i <= self.coords@.len(),
                forall|j: int| 0 <= j < i ==> self.coords@[j] != (cx, cz),
            decreases self.coords@.len() - i,
        {
            let (a, b) = self.coords[i];
            if a == cx && b == cz {
                return Some(i);
            }
            i = i + 1;
        }
        None
    }

    /// Whether the chunk at `(cx, cz)` is resident.
    pub fn is_chunk_loaded(&self, chunk_x: i32, chunk_z: i32) -> (r: bool)
        requires
            self.wf(),
        ensures
            r == self.resident(chunk_x, chunk_z),
    {
        match self.find_chunk(chunk_x, chunk_z) {
            Some(i) => {
                proof {
                    self.lemma_index_unique(chunk_x, chunk_z, i as int);
                }
                true
            },
            None => false,
        }
    }

    /// The coordinates of all resident chunks, in load order.
    pub fn get_loaded_chunks(&self) -> (r: Vec<(i32, i32)>)
        requires
            self.wf(),
        ensures
            r@ == self.coords@,
    {
        let mut out: Vec<(i32, i32)> = Vec::new();
        let mut i: usize = 0;
        while i < self.coords.len()
            invariant
                self.wf(),
                i <= self.coords@.len(),
                out@ == self.coords@.take(i as int),
            decreases self.coords@.len() - i,
        {
            let (a, b) = self.coords[i];
            out.push((a, b));
            proof {
                assert(out@ =~= self.coords@.take(i + 1));
            }
            i = i + 1;
        }
        proof {
            assert(self.coords@.take(self.coords@.len() as int) =~= self.coords@);
        }
        out
    }

    /// Whether any chunk awaits persistence.
    pub fn has_dirty_chunks(&self) -> (r: bool)
        ensures
            r == (self.dirty@.len() > 0),
    {
        self.dirty.len() > 0
    }

    /// Mark `(cx, cz)` as awaiting persistence; marking twice keeps one
    /// entry.
    pub fn mark_dirty(&mut self, cx: i32, cz: i32)
        requires
            old(self).wf(),
        ensures
            final(self).wf(),
            final(self).seed == old(self).seed,
            final(self).coords@ == old(self).coords@,
            final(self).chunks@ == old(self).chunks@,
            final(self).dirty@ == old(self).dirty_after_mark(cx, cz),
            final(self).is_dirty(cx, cz),
    {
        let mut i: usize = 0;
        while i < self.dirty.len()
            invariant
                old(self).wf(),
                self == old(self),
                i <= self.dirty@.len(),
                forall|j: int| 0 <= j < i ==> self.dirty@[j] != (cx, cz),
            decreases self.dirty@.len() - i,
        {
            let (a, b) = self.dirty[i];
            if a == cx && b == cz {
                proof {
                    assert(self.is_dirty(cx, cz));
                }
                return ;
            }
            i = i + 1;
        }
        proof {
            assert(!self.is_dirty(cx, cz));
        }
        self.dirty.push((cx, cz));
        proof {
            assert(self.is_dirty(cx, cz)) by {
                assert(self.dirty@[self.dirty@.len() - 1] == (cx, cz));
            }
        }
    }

    /// Hand a chunk loaded from storage to the cache, clean. A coordinate
    /// already resident keeps its cached chunk: the cache, not storage, is
    /// authoritative once loaded.
    pub fn insert_loaded_chunk(&mut self, c: Chunk)
        requires
            old(self).wf(),
            c.wf(),
        ensures
            final(self).wf(),
            final(self).seed == old(self).seed,
            final(self).dirty@ == old(self).dirty@,
            final(self).resident(c.x, c.z),
            old(self).resident(c.x, c.z) ==> *final(self) == *old(self),
            !old(self).resident(c.x, c.z) ==> {
                &&& final(self).coords@ == old(self).coords@.push((c.x, c.z))
                &&& final(self).chunks@ == old(self).chunks@.push(c)
                &&& final(self).chunk_at(c.x, c.z) == c
            },
    {
        match self.find_chunk(c.x, c.z) {
            Some(i) => {
                proof {
                    self.lemma_index_unique(c.x, c.z, i as int);
                }
            },
            None => {
                let cx = c.x;
                let cz = c.z;
                self.coords.push((cx, cz));
                self.chunks.push(c);
                proof {
                    let n = self.coords@.len() - 1;
                    assert(self.coords@[n] == (cx, cz));
                    assert forall|i: int, j: int| #![trigger self.coords@[i], self.coords@[j]]
                        0 <= i < j < self.coords@.len() implies self.coords@[i]
                        != self.coords@[j] by {
                        if j < n {
                            assert(old(self).coords@[i] != old(self).coords@[j]);
                        } else {
                            assert(self.coords@[i] == old(self).coords@[i]);
                            assert(old(self).coords@[i] != (cx, cz));
                        }
                    }
                    self.lemma_index_unique(cx, cz, n);
                }
            },
        }
    }

    /// Settle residency of `(cx, cz)`: return its cache position, generating
    /// the chunk (and marking it dirty, so it is eventually persisted) when
    /// it is not resident.
    fn ensure_chunk(&mut self, cx: i32, cz: i32) -> (i: usize)
        requires
            old(self).wf(),
        ensures
            World::lookup_post(*old(self), *final(self), cx, cz),
            i < final(self).chunks@.len(),
            final(self).coords@[i as int] == (cx, cz),
            final(self).index_of(cx, cz) == i,
    {
        match self.find_chunk(cx, cz) {
            Some(i) => {
                proof {
                    self.lemma_index_unique(cx, cz, i as int);
                }
                i
            },
            None => {
                let c = generate_chunk(self.seed, cx, cz);
                let i = self.chunks.len();
                self.coords.push((cx, cz));
                self.chunks.push(c);
                proof {
                    let n = self.coords@.len() - 1;
                    assert forall|a: int, b: int| #![trigger self.coords@[a], self.coords@[b]]
                        0 <= a < b < self.coords@.len() implies self.coords@[a]
                        != self.coords@[b] by {
                        if b < n {
                            assert(old(self).coords@[a] != old(self).coords@[b]);
                        } else {
                            assert(self.coords@[a] == old(self).coords@[a]);
                            assert(old(self).coords@[a] != (cx, cz));
                        }
                    }
                    self.lemma_index_unique(cx, cz, n);
                    assert(self.chunks@.drop_last() =~= old(self).chunks@);
                }
                self.mark_dirty(cx, cz);
                proof {
                    self.lemma_index_unique(cx, cz, i as int);
                    assert(self.chunks@.drop_last() =~= old(self).chunks@);
                }
                i
            },
        }
    }

    /// The chunk at `(cx, cz)`: the cached one when resident, else freshly
    /// generated, cached, and marked dirty. Repeated calls for one
    /// coordinate return the same cached chunk without regenerating.
    pub fn get_chunk(&mut self, chunk_x: i32, chunk_z: i32) -> (c: &Chunk)
        requires
            old(self).wf(),
        ensures
            World::lookup_post(*old(self), *final(self), chunk_x, chunk_z),
            *c == final(self).chunk_at(chunk_x, chunk_z),
            c@ == old(self).spec_chunk_contents(chunk_x, chunk_z),
    {
        let i = self.ensure_chunk(chunk_x, chunk_z);
        &self.chunks[i]
    }

    /// The block at world coordinates. A height outside `[0, 256)` is air,
    /// and the probe touches nothing; otherwise the owning chunk is looked
    /// up (generating on a miss) and read.
    pub fn get_block_at(&mut self, world_x: i32, world_y: i32, world_z: i32) -> (r: BlockType)
        requires
            old(self).wf(),
        ensures
            !(0 <= world_y < 256) ==> *final(self) == *old(self) && r == BlockType::Air,
            0 <= world_y < 256 ==> {
                let ccx = spec_chunk_coord(world_x as int) as i32;
                let ccz = spec_chunk_coord(world_z as int) as i32;
                &&& World::lookup_post(*old(self), *final(self), ccx, ccz)
                &&& r == old(self).spec_chunk_contents(ccx, ccz)[flat_index(
                    spec_local_coord(world_x as int),
                    world_y as int,
                    spec_local_coord(world_z as int),
                )]
            },
    {
        if world_y < 0 || world_y >= 256 {
            return BlockType::Air;
        }
        let (chunk_x, local_x) = split_world_coord(world_x);
        let (chunk_z, local_z) = split_world_coord(world_z);
        let i = self.ensure_chunk(chunk_x, chunk_z);
        self.chunks[i].get_block(local_x, world_y as usize, local_z)
    }

    /// Write a block at world coordinates and report the chunk coordinate
    /// whose geometry the edit invalidates. A height outside `[0, 256)` is a
    /// no-op. Writing the value already present changes nothing and marks
    /// nothing dirty; writing a different value updates the chunk, marks it
    /// dirty, and returns its coordinate.
    pub fn set_block_at(&mut self, world_x: i32, world_y: i32, world_z: i32, block: BlockType) -> (r:
        Option<(i32, i32)>)
        requires
            old(self).wf(),
        ensures
            final(self).wf(),
            final(self).seed == old(self).seed,
            !(0 <= world_y < 256) ==> *final(self) == *old(self) && r is None,
            0 <= world_y < 256 ==> {
                let ccx = spec_chunk_coord(world_x as int) as i32;
                let ccz = spec_chunk_coord(world_z as int) as i32;
                let fi = flat_index(
                    spec_local_coord(world_x as int),
                    world_y as int,
                    spec_local_coord(world_z as int),
                );
                let cur = old(self).spec_chunk_contents(ccx, ccz)[fi];
                &&& (cur == block ==> r is None && World::lookup_post(
                    *old(self),
                    *final(self),
                    ccx,
                    ccz,
                ))
                &&& (cur != block ==> {
                    &&& r == Some((ccx, ccz))
                    &&& final(self).resident(ccx, ccz)
                    &&& final(self).chunk_at(ccx, ccz)@ == old(self).spec_chunk_contents(
                        ccx,
                        ccz,
                    ).update(fi, block)
                    &&& final(self).is_dirty(ccx, ccz)
                    &&& (old(self).resident(ccx, ccz) ==> {
                        &&& final(self).coords@ == old(self).coords@
                        &&& final(self).dirty@ == old(self).dirty_after_mark(ccx, ccz)
                        &&& forall|j: int|
                            0 <= j < old(self).chunks@.len() && j != old(self).index_of(ccx, ccz)
                                ==> final(self).chunks@[j] == old(self).chunks@[j]
                    })
                    &&& (!old(self).resident(ccx, ccz) ==> {
                        &&& final(self).coords@ == old(self).coords@.push((ccx, ccz))
                        &&& final(self).chunks@.drop_last() == old(self).chunks@
                        &&& final(self).dirty@ == old(self).dirty_after_mark(ccx, ccz)
                    })
                })
            },
    {
        if world_y < 0 || world_y >= 256 {
            return None;
        }
        let (chunk_x, local_x) = split_world_coord(world_x);
        let (chunk_z, local_z) = split_world_coord(world_z);
        let i = self.ensure_chunk(chunk_x, chunk_z);
        let ghost mid = *self;
        let current = self.chunks[i].get_block(local_x, world_y as usize, local_z);
        if current == block {
            return None;
        }
        let c = &mut self.chunks[i];
        c.set_block(local_x, world_y as usize, local_z, block);
        proof {
            assert forall|a: int, b: int| #![trigger self.coords@[a], self.coords@[b]]
                0 <= a < b < self.coords@.len() implies self.coords@[a] != self.coords@[b] by {
            }
            self.lemma_index_unique(chunk_x, chunk_z, i as int);
            if !old(self).resident(chunk_x, chunk_z) {
                assert(self.chunks@.drop_last() =~= old(self).chunks@);
            }
        }
        self.mark_dirty(chunk_x, chunk_z);
        proof {
            self.lemma_index_unique(chunk_x, chunk_z, i as int);
            if !old(self).resident(chunk_x, chunk_z) {
                assert(self.chunks@.drop_last() =~= old(self).chunks@);
                assert(mid.dirty@ == old(self).dirty_after_mark(chunk_x, chunk_z));
                assert(mid.is_dirty(chunk_x, chunk_z));
                assert(self.dirty@ == mid.dirty_after_mark(chunk_x, chunk_z));
            }
        }
        Some((chunk_x, chunk_z))
    }

    /// Atomically drain the dirty set for a persistence pass: the caller
    /// writes each drained coordinate's chunk and re-marks those that fail.
    pub fn take_dirty(&mut self) -> (r: Vec<(i32, i32)>)
        requires
            old(self).wf(),
        ensures
            final(self).wf(),
            final(self).seed == old(self).seed,
            final(self).coords@ == old(self).coords@,
            final(self).chunks@ == old(self).chunks@,
            final(self).dirty@.len() == 0,
            r@ == old(self).dirty@,
    {
        let mut out: Vec<(i32, i32)> = Vec::new();
        std::mem::swap(&mut out, &mut self.dirty);
        out
    }

    /// The storage encoding of the resident chunk at `(cx, cz)`, if any:
    /// what a persistence pass writes to the chunk's file.
    pub fn encoded_chunk(&self, cx: i32, cz: i32) -> (r: Option<Vec<u8>>)
        requires
            self.wf(),
        ensures
            match r {
                Some(bytes) => self.resident(cx, cz) && bytes@ == spec_encode_chunk(
                    self.chunk_at(cx, cz)@,
                ),
                None => !self.resident(cx, cz),
            },
    {
        match self.find_chunk(cx, cz) {
            Some(i) => {
                proof {
                    self.lemma_index_unique(cx, cz, i as int);
                }
                Some(encode_chunk(&self.chunks[i]))
            },
            None => None,
        }
    }
}

/// Relies on rand::random for drawing a fresh world seed; nothing is
/// promised of the value.
#[verifier::external_body]
fn random_seed() -> u32 {
    rand::random::<u32>()
}

} // verus!
