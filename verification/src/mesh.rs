//! Face-culling mesh extraction: a chunk plus a texture-atlas UV table in,
//! a flat vertex and index list out.
//!
//! For every solid voxel, each of the six axis-aligned faces is emitted
//! exactly when its neighbor is outside the chunk bounds (no cross-chunk
//! lookup is made, a deliberate simplification) or not solid. A visible face
//! contributes 4 vertices and 6 indices (two triangles with consistent
//! winding). A chunk with nothing visible yields empty outputs: nothing to
//! draw, not an error.
//!
//! Geometry is integer-valued: positions are voxel corners in world space,
//! normals are unit axis vectors, colors are the catalog tints in hundredths,
//! and texture coordinates are whatever integer units the caller's atlas
//! table carries (the caller insets its rectangles by half a texel when it
//! builds the atlas).

use vstd::prelude::*;

use crate::block::{spec_color, spec_is_solid, BlockType};
use crate::chunk::{idx_x, idx_y, idx_z, lemma_flat_unflat, Chunk, CHUNK_SIZE, WORLD_HEIGHT};

verus! {

/// One of the six axis-aligned cube faces.
#[derive(Clone, Copy, Debug, PartialEq, Eq, Structural)]
pub enum BlockFace {
    Top,
    Bottom,
    North,
    South,
    East,
    West,
}

/// Keys of the texture atlas; `texture_key_for` maps every block and face to
/// one of these.
#[derive(Clone, Copy, Debug, PartialEq, Eq, Structural)]
pub enum TextureKey {
    GrassTop,
    GrassSide,
    Dirt,
    Stone,
    Deepslate,
    Bedrock,
    Sand,
    Cobblestone,
    OakPlanks,
    OakLog,
    OakLeaves,
    Glass,
    CoalOre,
    IronOre,
    GoldOre,
    DiamondOre,
    DeepslateCoalOre,
    DeepslateIronOre,
    DeepslateGoldOre,
    DeepslateDiamondOre,
    Water,
}

/// A texture-atlas rectangle, in the caller's integer atlas units.
#[derive(Clone, Copy, Debug, PartialEq, Eq, Structural)]
pub struct AtlasUV {
    pub u_min: u32,
    pub v_min: u32,
    pub u_max: u32,
    pub v_max: u32,
}

/// One mesh vertex: integer world-space corner position, unit normal, tint
/// in hundredths, atlas coordinates.
#[derive(Clone, Copy, Debug, PartialEq, Eq, Structural)]
pub struct MeshVertex {
    pub px: i64,
    pub py: i64,
    pub pz: i64,
    pub nx: i8,
    pub ny: i8,
    pub nz: i8,
    pub red: u8,
    pub green: u8,
    pub blue: u8,
    pub u: u32,
    pub v: u32,
}

/// The atlas key for a block's face: grass distinguishes its top, bottom and
/// sides; most blocks share one texture over all faces; anything without a
/// texture of its own falls back to stone.
pub open spec fn spec_texture_key(block: BlockType, face: BlockFace) -> TextureKey {
    match block {
        BlockType::GrassBlock => match face {
            BlockFace::Top => TextureKey::GrassTop,
            BlockFace::Bottom => TextureKey::Dirt,
            _ => TextureKey::GrassSide,
        },
        BlockType::Dirt | BlockType::CoarseDirt | BlockType::RootedDirt | BlockType::Podzol
            => TextureKey::Dirt,
        BlockType::Stone | BlockType::Granite | BlockType::Diorite | BlockType::Andesite
            => TextureKey::Stone,
        BlockType::Deepslate | BlockType::Calcite | BlockType::Tuff => TextureKey::Deepslate,
        BlockType::Bedrock => TextureKey::Bedrock,
        BlockType::Sand | BlockType::RedSand => TextureKey::Sand,
        BlockType::Cobblestone | BlockType::MossyCobblestone | BlockType::StoneBricks
        | BlockType::SmoothStone | BlockType::Sandstone | BlockType::RedSandstone
        | BlockType::Bricks => TextureKey::Cobblestone,
        BlockType::OakPlanks | BlockType::SprucePlanks | BlockType::BirchPlanks
            => TextureKey::OakPlanks,
        BlockType::OakLog | BlockType::SpruceLog | BlockType::BirchLog | BlockType::JungleLog
        | BlockType::AcaciaLog | BlockType::DarkOakLog => TextureKey::OakLog,
        BlockType::OakLeaves => TextureKey::OakLeaves,
        BlockType::Glass | BlockType::WhiteStainedGlass => TextureKey::Glass,
        BlockType::Water => TextureKey::Water,
        BlockType::CoalOre => TextureKey::CoalOre,
        BlockType::IronOre => TextureKey::IronOre,
        BlockType::GoldOre => TextureKey::GoldOre,
        BlockType::DiamondOre => TextureKey::DiamondOre,
        BlockType::DeepslateCoalOre => TextureKey::DeepslateCoalOre,
        BlockType::DeepslateIronOre => TextureKey::DeepslateIronOre,
        BlockType::DeepslateGoldOre => TextureKey::DeepslateGoldOre,
        BlockType::DeepslateDiamondOre => TextureKey::DeepslateDiamondOre,
        _ => TextureKey::Stone,
    }
}

/// The atlas key for a block's face.
pub fn texture_key_for(block: BlockType, face: BlockFace) -> (r: TextureKey)
    ensures
        r == spec_texture_key(block, face),
{
    match block {
        BlockType::GrassBlock => match face {
            BlockFace::Top => TextureKey::GrassTop,
            BlockFace::Bottom => TextureKey::Dirt,
            _ => TextureKey::GrassSide,
        },
        BlockType::Dirt | BlockType::CoarseDirt | BlockType::RootedDirt | BlockType::Podzol
            => TextureKey::Dirt,
        BlockType::Stone | BlockType::Granite | BlockType::Diorite | BlockType::Andesite
            => TextureKey::Stone,
        BlockType::Deepslate | BlockType::Calcite | BlockType::Tuff => TextureKey::Deepslate,
        BlockType::Bedrock => TextureKey::Bedrock,
        BlockType::Sand | BlockType::RedSand => TextureKey::Sand,
        BlockType::Cobblestone | BlockType::MossyCobblestone | BlockType::StoneBricks
        | BlockType::SmoothStone | BlockType::Sandstone | BlockType::RedSandstone
        | BlockType::Bricks => TextureKey::Cobblestone,
        BlockType::OakPlanks | BlockType::SprucePlanks | BlockType::BirchPlanks
            => TextureKey::OakPlanks,
        BlockType::OakLog | BlockType::SpruceLog | BlockType::BirchLog | BlockType::JungleLog
        | BlockType::AcaciaLog | BlockType::DarkOakLog => TextureKey::OakLog,
        BlockType::OakLeaves => TextureKey::OakLeaves,
        BlockType::Glass | BlockType::WhiteStainedGlass => TextureKey::Glass,
        BlockType::Water => TextureKey::Water,
        BlockType::CoalOre => TextureKey::CoalOre,
        BlockType::IronOre => TextureKey::IronOre,
        BlockType::GoldOre => TextureKey::GoldOre,
        BlockType::DiamondOre => TextureKey::DiamondOre,
        BlockType::DeepslateCoalOre => TextureKey::DeepslateCoalOre,
        BlockType::DeepslateIronOre => TextureKey::DeepslateIronOre,
        BlockType::DeepslateGoldOre => TextureKey::DeepslateGoldOre,
        BlockType::DeepslateDiamondOre => TextureKey::DeepslateDiamondOre,
        _ => TextureKey::Stone,
    }
}

/// First rectangle stored under a key, if any.
pub open spec fn spec_lookup(s: Seq<(TextureKey, AtlasUV)>, key: TextureKey) -> Option<AtlasUV>
    decreases s.len(),
{
    if s.len() == 0 {
        None
    } else if s[0].0 == key {
        Some(s[0].1)
    } else {
        spec_lookup(s.subrange(1, s.len() as int), key)
    }
}

/// The UV resolver the mesher consumes: rectangles per texture key, with a
/// fallback for keys the atlas lacks. The rendering layer fills it in from
/// its atlas.
pub struct UvTable {
    pub entries: Vec<(TextureKey, AtlasUV)>,
    pub fallback: AtlasUV,
}

impl UvTable {
    /// The rectangle the table resolves a key to.
    pub open spec fn spec_uv(self, key: TextureKey) -> AtlasUV {
        match spec_lookup(self.entries@, key) {
            Some(r) => r,
            None => self.fallback,
        }
    }

    /// An empty table resolving everything to `fallback`.
    pub fn new(fallback: AtlasUV) -> (t: UvTable)
        ensures
            t.entries@.len() == 0,
            t.fallback == fallback,
    {
        UvTable { entries: Vec::new(), fallback }
    }

    /// Add a rectangle for a key; earlier entries for the same key win.
    pub fn insert(&mut self, key: TextureKey, rect: AtlasUV)
        ensures
            final(self).entries@ == old(self).entries@.push((key, rect)),
            final(self).fallback == old(self).fallback,
    {
        self.entries.push((key, rect));
    }

    /// Resolve a key to its rectangle, or to the fallback.
    pub fn uv(&self, key: TextureKey) -> (r: AtlasUV)
        ensures
            r == self.spec_uv(key),
    {
        proof {
            assert(self.entries@.subrange(0, self.entries@.len() as int) =~= self.entries@);
        }
        let mut i: usize = 0;
        while i < self.entries.len()
            invariant
                i <= self.entries@.len(),
                spec_lookup(self.entries@, key) == spec_lookup(
                    self.entries@.subrange(i as int, self.entries@.len() as int),
                    key,
                ),
            decreases self.entries@.len() - i,
        {
            let (k, r) = self.entries[i];
            proof {
                let rest = self.entries@.subrange(i as int, self.entries@.len() as int);
                assert(rest[0] == self.entries@[i as int]);
                assert(rest.subrange(1, rest.len() as int) =~= self.entries@.subrange(
                    i as int + 1,
                    self.entries@.len() as int,
                ));
            }
            if k == key {
                return r;
            }
            i = i + 1;
        }
        proof {
            assert(self.entries@.subrange(
                self.entries@.len() as int,
                self.entries@.len() as int,
            ) =~= Seq::<(TextureKey, AtlasUV)>::empty());
        }
        self.fallback
    }
}

/// The four unit-cube corner offsets of a face, in emission order.
pub open spec fn spec_face_corners(face: BlockFace) -> Seq<(int, int, int)> {
    match face {
        BlockFace::Top => seq![(0, 1, 0), (0, 1, 1), (1, 1, 1), (1, 1, 0)],
        BlockFace::Bottom => seq![(0, 0, 0), (1, 0, 0), (1, 0, 1), (0, 0, 1)],
        BlockFace::North => seq![(0, 0, 1), (1, 0, 1), (1, 1, 1), (0, 1, 1)],
        BlockFace::South => seq![(0, 0, 0), (0, 1, 0), (1, 1, 0), (1, 0, 0)],
        BlockFace::East => seq![(1, 0, 0), (1, 1, 0), (1, 1, 1), (1, 0, 1)],
        BlockFace::West => seq![(0, 0, 0), (0, 0, 1), (0, 1, 1), (0, 1, 0)],
    }
}

/// The four atlas corners of a face, ordered to match the position corners.
pub open spec fn spec_face_uvs(face: BlockFace, r: AtlasUV) -> Seq<(u32, u32)> {
    match face {
        BlockFace::Top => seq![
            (r.u_min, r.v_max),
            (r.u_min, r.v_min),
            (r.u_max, r.v_min),
            (r.u_max, r.v_max),
        ],
        BlockFace::Bottom => seq![
            (r.u_min, r.v_min),
            (r.u_max, r.v_min),
            (r.u_max, r.v_max),
            (r.u_min, r.v_max),
        ],
        BlockFace::North => seq![
            (r.u_min, r.v_max),
            (r.u_max, r.v_max),
            (r.u_max, r.v_min),
            (r.u_min, r.v_min),
        ],
        BlockFace::South => seq![
            (r.u_max, r.v_max),
            (r.u_max, r.v_min),
            (r.u_min, r.v_min),
            (r.u_min, r.v_max),
        ],
        BlockFace::East => seq![
            (r.u_max, r.v_max),
            (r.u_max, r.v_min),
            (r.u_min, r.v_min),
            (r.u_min, r.v_max),
        ],
        BlockFace::West => seq![
            (r.u_min, r.v_max),
            (r.u_max, r.v_max),
            (r.u_max, r.v_min),
            (r.u_min, r.v_min),
        ],
    }
}

/// The outward unit normal of a face.
pub open spec fn spec_face_normal(face: BlockFace) -> (int, int, int) {
    match face {
        BlockFace::Top => (0, 1, 0),
        BlockFace::Bottom => (0, -1, 0),
        BlockFace::North => (0, 0, 1),
        BlockFace::South => (0, 0, -1),
        BlockFace::East => (1, 0, 0),
        BlockFace::West => (-1, 0, 0),
    }
}

/// The four vertices a face of the voxel at local `(x, y, z)` of chunk
/// `(cx, cz)` emits.
pub open spec fn spec_face_vertices(
    cx: int,
    cz: int,
    block: BlockType,
    x: int,
    y: int,
    z: int,
    face: BlockFace,
    uvt: UvTable,
) -> Seq<MeshVertex> {
    let rect = uvt.spec_uv(spec_texture_key(block, face));
    let col = spec_color(block);
    let n = spec_face_normal(face);
    Seq::new(
        4,
        |k: int|
            {
                let o = spec_face_corners(face)[k];
                let t = spec_face_uvs(face, rect)[k];
                MeshVertex {
                    px: (cx * 16 + x + o.0) as i64,
                    py: (y + o.1) as i64,
                    pz: (cz * 16 + z + o.2) as i64,
                    nx: n.0 as i8,
                    ny: n.1 as i8,
                    nz: n.2 as i8,
                    red: col.r,
                    green: col.g,
                    blue: col.b,
                    u: t.0,
                    v: t.1,
                }
            },
    )
}

/// Whether a face of the voxel at local `(x, y, z)` is visible: its neighbor
/// is outside the chunk on that axis, or not solid.
pub open spec fn spec_face_visible(c: Chunk, x: int, y: int, z: int, face: BlockFace) -> bool {
    match face {
        BlockFace::Top => y + 1 >= 256 || !spec_is_solid(c.block_at(x, y + 1, z)),
        BlockFace::Bottom => y == 0 || !spec_is_solid(c.block_at(x, y - 1, z)),
        BlockFace::North => z + 1 >= 16 || !spec_is_solid(c.block_at(x, y, z + 1)),
        BlockFace::South => z == 0 || !spec_is_solid(c.block_at(x, y, z - 1)),
        BlockFace::East => x + 1 >= 16 || !spec_is_solid(c.block_at(x + 1, y, z)),
        BlockFace::West => x == 0 || !spec_is_solid(c.block_at(x - 1, y, z)),
    }
}

/// The singleton face list of one face when visible, else empty.
pub open spec fn face_if_visible(c: Chunk, x: int, y: int, z: int, face: BlockFace) -> Seq<
    (int, int, int, BlockFace),
> {
    if spec_face_visible(c, x, y, z, face) {
        seq![(x, y, z, face)]
    } else {
        Seq::empty()
    }
}

/// The faces the voxel at local `(x, y, z)` emits, in emission order: none
/// for a non-solid block, else its visible faces.
pub open spec fn spec_voxel_faces(c: Chunk, x: int, y: int, z: int) -> Seq<
    (int, int, int, BlockFace),
> {
    if !spec_is_solid(c.block_at(x, y, z)) {
        Seq::empty()
    } else {
        face_if_visible(c, x, y, z, BlockFace::Top) + face_if_visible(c, x, y, z, BlockFace::Bottom)
            + face_if_visible(c, x, y, z, BlockFace::North) + face_if_visible(
            c,
            x,
            y,
            z,
            BlockFace::South,
        ) + face_if_visible(c, x, y, z, BlockFace::East) + face_if_visible(
            c,
            x,
            y,
            z,
            BlockFace::West,
        )
    }
}

/// The faces of the first `t` voxels in traversal order (x outermost, then
/// y, then z).
pub open spec fn spec_faces_upto(c: Chunk, t: nat) -> Seq<(int, int, int, BlockFace)>
    decreases t,
{
    if t == 0 {
        Seq::empty()
    } else {
        spec_faces_upto(c, (t - 1) as nat) + spec_voxel_faces(
            c,
            idx_z(t - 1),
            idx_y(t - 1),
            idx_x(t - 1),
        )
    }
}

/// Every face the chunk emits, in emission order.
pub open spec fn spec_mesh_faces(c: Chunk) -> Seq<(int, int, int, BlockFace)> {
    spec_faces_upto(c, 65536)
}

/// The vertex list of a face list.
pub open spec fn spec_vertices_for(c: Chunk, uvt: UvTable, faces: Seq<(int, int, int, BlockFace)>)
    -> Seq<MeshVertex>
    decreases faces.len(),
{
    if faces.len() == 0 {
        Seq::empty()
    } else {
        let f = faces.last();
        spec_vertices_for(c, uvt, faces.drop_last()) + spec_face_vertices(
            c.x as int,
            c.z as int,
            c.block_at(f.0, f.1, f.2),
            f.0,
            f.1,
            f.2,
            f.3,
            uvt,
        )
    }
}

/// The index list of `n` faces: two triangles per face with consistent
/// winding.
pub open spec fn spec_indices_for(n: nat) -> Seq<u32>
    decreases n,
{
    if n == 0 {
        Seq::empty()
    } else {
        let b = 4 * (n - 1);
        spec_indices_for((n - 1) as nat) + seq![
            b as u32,
            (b + 1) as u32,
            (b + 2) as u32,
            b as u32,
            (b + 2) as u32,
            (b + 3) as u32,
        ]
    }
}

proof fn lemma_vertices_for_concat(
    c: Chunk,
    uvt: UvTable,
    f1: Seq<(int, int, int, BlockFace)>,
    f2: Seq<(int, int, int, BlockFace)>,
)
    ensures
        spec_vertices_for(c, uvt, f1 + f2) == spec_vertices_for(c, uvt, f1) + spec_vertices_for(
            c,
            uvt,
            f2,
        ),
    decreases f2.len(),
{
    if f2.len() == 0 {
        assert(f1 + f2 =~= f1);
        assert(spec_vertices_for(c, uvt, f1) + spec_vertices_for(c, uvt, f2)
            =~= spec_vertices_for(c, uvt, f1));
    } else {
        lemma_vertices_for_concat(c, uvt, f1, f2.drop_last());
        assert((f1 + f2).drop_last() =~= f1 + f2.drop_last());
        assert((f1 + f2).last() == f2.last());
        assert(spec_vertices_for(c, uvt, f1) + spec_vertices_for(c, uvt, f2)
            =~= spec_vertices_for(c, uvt, f1) + spec_vertices_for(c, uvt, f2.drop_last())
            + spec_face_vertices(
            c.x as int,
            c.z as int,
            c.block_at(f2.last().0, f2.last().1, f2.last().2),
            f2.last().0,
            f2.last().1,
            f2.last().2,
            f2.last().3,
            uvt,
        ));
    }
}

proof fn lemma_vertices_for_len(c: Chunk, uvt: UvTable, faces: Seq<(int, int, int, BlockFace)>)
    ensures
        spec_vertices_for(c, uvt, faces).len() == 4 * faces.len(),
    decreases faces.len(),
{
    if faces.len() > 0 {
        lemma_vertices_for_len(c, uvt, faces.drop_last());
    }
}

proof fn lemma_faces_upto_len(c: Chunk, t: nat)
    ensures
        spec_faces_upto(c, t).len() <= 6 * t,
    decreases t,
{
    if t > 0 {
        lemma_faces_upto_len(c, (t - 1) as nat);
    }
}

proof fn lemma_indices_for_len(n: nat)
    ensures
        spec_indices_for(n).len() == 6 * n,
    decreases n,
{
    if n > 0 {
        lemma_indices_for_len((n - 1) as nat);
    }
}

/// Append one face's 4 vertices and 6 indices.
#[verifier::rlimit(50)]
fn emit_face(
    cx: i32,
    cz: i32,
    block: BlockType,
    x: usize,
    y: usize,
    z: usize,
    face: BlockFace,
    uvs: &UvTable,
    vertices: &mut Vec<MeshVertex>,
    indices: &mut Vec<u32>,
)
    requires
        x < 16,
        y < 256,
        z < 16,
        old(vertices)@.len() + 4 <= 0xFFFFFFFF,
    ensures
        final(vertices)@ == old(vertices)@ + spec_face_vertices(
            cx as int,
            cz as int,
            block,
            x as int,
            y as int,
            z as int,
            face,
            *uvs,
        ),
        final(indices)@ == old(indices)@ + ({
            let b = old(vertices)@.len();
            seq![
                b as u32,
                (b + 1) as u32,
                (b + 2) as u32,
                b as u32,
                (b + 2) as u32,
                (b + 3) as u32,
            ]
        }),
{
    let rect = uvs.uv(texture_key_for(block, face));
    let col = block.get_color();
    let (c0, c1, c2, c3): ((i64, i64, i64), (i64, i64, i64), (i64, i64, i64), (i64, i64, i64)) =
        match face {
        BlockFace::Top => ((0, 1, 0), (0, 1, 1), (1, 1, 1), (1, 1, 0)),
        BlockFace::Bottom => ((0, 0, 0), (1, 0, 0), (1, 0, 1), (0, 0, 1)),
        BlockFace::North => ((0, 0, 1), (1, 0, 1), (1, 1, 1), (0, 1, 1)),
        BlockFace::South => ((0, 0, 0), (0, 1, 0), (1, 1, 0), (1, 0, 0)),
        BlockFace::East => ((1, 0, 0), (1, 1, 0), (1, 1, 1), (1, 0, 1)),
        BlockFace::West => ((0, 0, 0), (0, 0, 1), (0, 1, 1), (0, 1, 0)),
    };
    let (t0, t1, t2, t3): ((u32, u32), (u32, u32), (u32, u32), (u32, u32)) = match face {
        BlockFace::Top => (
            (rect.u_min, rect.v_max),
            (rect.u_min, rect.v_min),
            (rect.u_max, rect.v_min),
            (rect.u_max, rect.v_max),
        ),
        BlockFace::Bottom => (
            (rect.u_min, rect.v_min),
            (rect.u_max, rect.v_min),
            (rect.u_max, rect.v_max),
            (rect.u_min, rect.v_max),
        ),
        BlockFace::North => (
            (rect.u_min, rect.v_max),
            (rect.u_max, rect.v_max),
            (rect.u_max, rect.v_min),
            (rect.u_min, rect.v_min),
        ),
        BlockFace::South => (
            (rect.u_max, rect.v_max),
            (rect.u_max, rect.v_min),
            (rect.u_min, rect.v_min),
            (rect.u_min, rect.v_max),
        ),
        BlockFace::East => (
            (rect.u_max, rect.v_max),
            (rect.u_max, rect.v_min),
            (rect.u_min, rect.v_min),
            (rect.u_min, rect.v_max),
        ),
        BlockFace::West => (
            (rect.u_min, rect.v_max),
            (rect.u_max, rect.v_max),
            (rect.u_max, rect.v_min),
            (rect.u_min, rect.v_min),
        ),
    };
    let (nx, ny, nz): (i8, i8, i8) = match face {
        BlockFace::Top => (0, 1, 0),
        BlockFace::Bottom => (0, -1, 0),
        BlockFace::North => (0, 0, 1),
        BlockFace::South => (0, 0, -1),
        BlockFace::East => (1, 0, 0),
        BlockFace::West => (-1, 0, 0),
    };
    let bx: i64 = (cx as i64) * 16 + (x as i64);
    let by: i64 = y as i64;
    let bz: i64 = (cz as i64) * 16 + (z as i64);
    let start = vertices.len() as u32;
    vertices.push(
        MeshVertex {
            px: bx + c0.0,
            py: by + c0.1,
            pz: bz + c0.2,
            nx,
            ny,
            nz,
            red: col.r,
            green: col.g,
            blue: col.b,
            u: t0.0,
            v: t0.1,
        },
    );
    vertices.push(
        MeshVertex {
            px: bx + c1.0,
            py: by + c1.1,
            pz: bz + c1.2,
            nx,
            ny,
            nz,
            red: col.r,
            green: col.g,
            blue: col.b,
            u: t1.0,
            v: t1.1,
        },
    );
    vertices.push(
        MeshVertex {
            px: bx + c2.0,
            py: by + c2.1,
            pz: bz + c2.2,
            nx,
            ny,
            nz,
            red: col.r,
            green: col.g,
            blue: col.b,
            u: t2.0,
            v: t2.1,
        },
    );
    vertices.push(
        MeshVertex {
            px: bx + c3.0,
            py: by + c3.1,
            pz: bz + c3.2,
            nx,
            ny,
            nz,
            red: col.r,
            green: col.g,
            blue: col.b,
            u: t3.0,
            v: t3.1,
        },
    );
    indices.push(start);
    indices.push(start + 1);
    indices.push(start + 2);
    indices.push(start);
    indices.push(start + 2);
    indices.push(start + 3);
    proof {
        assert(vertices@ =~= old(vertices)@ + spec_face_vertices(
            cx as int,
            cz as int,
            block,
            x as int,
            y as int,
            z as int,
            face,
            *uvs,
        ));
        assert(indices@ =~= old(indices)@ + ({
            let b = old(vertices)@.len();
            seq![
                b as u32,
                (b + 1) as u32,
                (b + 2) as u32,
                b as u32,
                (b + 2) as u32,
                (b + 3) as u32,
            ]
        }));
    }
}

/// Emit every visible face of one solid voxel, in face order.
#[verifier::rlimit(100)]
fn emit_voxel(
    chunk: &Chunk,
    block: BlockType,
    x: usize,
    y: usize,
    z: usize,
    uvs: &UvTable,
    vertices: &mut Vec<MeshVertex>,
    indices: &mut Vec<u32>,
    Ghost(done0): Ghost<Seq<(int, int, int, BlockFace)>>,
)
    requires
        chunk.wf(),
        x < 16,
        y < 256,
        z < 16,
        block == chunk.block_at(x as int, y as int, z as int),
        spec_is_solid(block),
        old(vertices)@ == spec_vertices_for(*chunk, *uvs, done0),
        old(indices)@ == spec_indices_for(done0.len()),
        done0.len() <= 400000,
    ensures
        final(vertices)@ == spec_vertices_for(
            *chunk,
            *uvs,
            done0 + spec_voxel_faces(*chunk, x as int, y as int, z as int),
        ),
        final(indices)@ == spec_indices_for(
            (done0 + spec_voxel_faces(*chunk, x as int, y as int, z as int)).len(),
        ),
        spec_voxel_faces(*chunk, x as int, y as int, z as int).len() <= 6,
{
    proof {
        lemma_vertices_for_len(*chunk, *uvs, done0);
    }
    let vis_top = y + 1 >= WORLD_HEIGHT || !chunk.get_block(x, y + 1, z).is_solid();
    if vis_top {
        emit_face(chunk.x, chunk.z, block, x, y, z, BlockFace::Top, uvs, vertices, indices);
    }
    proof {
        lemma_emit_step(*chunk, *uvs, done0, face_if_visible(*chunk, x as int, y as int, z as int,
            BlockFace::Top), block, x as int, y as int, z as int);
    }
    let ghost done = done0 + face_if_visible(*chunk, x as int, y as int, z as int, BlockFace::Top);
    let vis_bottom = y == 0 || !chunk.get_block(x, y - 1, z).is_solid();
    if vis_bottom {
        emit_face(chunk.x, chunk.z, block, x, y, z, BlockFace::Bottom, uvs, vertices, indices);
    }
    proof {
        lemma_emit_step(*chunk, *uvs, done, face_if_visible(*chunk, x as int, y as int, z as int,
            BlockFace::Bottom), block, x as int, y as int, z as int);
    }
    let ghost done = done + face_if_visible(*chunk, x as int, y as int, z as int,
        BlockFace::Bottom);
    let vis_north = z + 1 >= CHUNK_SIZE || !chunk.get_block(x, y, z + 1).is_solid();
    if vis_north {
        emit_face(chunk.x, chunk.z, block, x, y, z, BlockFace::North, uvs, vertices, indices);
    }
    proof {
        lemma_emit_step(*chunk, *uvs, done, face_if_visible(*chunk, x as int, y as int, z as int,
            BlockFace::North), block, x as int, y as int, z as int);
    }
    let ghost done = done + face_if_visible(*chunk, x as int, y as int, z as int, BlockFace::North);
    let vis_south = z == 0 || !chunk.get_block(x, y, z - 1).is_solid();
    if vis_south {
        emit_face(chunk.x, chunk.z, block, x, y, z, BlockFace::South, uvs, vertices, indices);
    }
    proof {
        lemma_emit_step(*chunk, *uvs, done, face_if_visible(*chunk, x as int, y as int, z as int,
            BlockFace::South), block, x as int, y as int, z as int);
    }
    let ghost done = done + face_if_visible(*chunk, x as int, y as int, z as int, BlockFace::South);
    let vis_east = x + 1 >= CHUNK_SIZE || !chunk.get_block(x + 1, y, z).is_solid();
    if vis_east {
        emit_face(chunk.x, chunk.z, block, x, y, z, BlockFace::East, uvs, vertices, indices);
    }
    proof {
        lemma_emit_step(*chunk, *uvs, done, face_if_visible(*chunk, x as int, y as int, z as int,
            BlockFace::East), block, x as int, y as int, z as int);
    }
    let ghost done = done + face_if_visible(*chunk, x as int, y as int, z as int, BlockFace::East);
    let vis_west = x == 0 || !chunk.get_block(x - 1, y, z).is_solid();
    if vis_west {
        emit_face(chunk.x, chunk.z, block, x, y, z, BlockFace::West, uvs, vertices, indices);
    }
    proof {
        lemma_emit_step(*chunk, *uvs, done, face_if_visible(*chunk, x as int, y as int, z as int,
            BlockFace::West), block, x as int, y as int, z as int);
    }
    let ghost done = done + face_if_visible(*chunk, x as int, y as int, z as int, BlockFace::West);
    proof {
        assert(done =~= done0 + spec_voxel_faces(*chunk, x as int, y as int, z as int));
    }
}

/// Build the render mesh of a chunk: for each solid voxel, emit each face
/// whose neighbor is outside the chunk or not solid, 4 vertices and 6
/// indices per face, in a fixed traversal order.
pub fn build_chunk_mesh(chunk: &Chunk, uvs: &UvTable) -> (r: (Vec<MeshVertex>, Vec<u32>))
    requires
        chunk.wf(),
    ensures
        r.0@ == spec_vertices_for(*chunk, *uvs, spec_mesh_faces(*chunk)),
        r.1@ == spec_indices_for(spec_mesh_faces(*chunk).len()),
        r.0@.len() == 4 * spec_mesh_faces(*chunk).len(),
        r.1@.len() == 6 * spec_mesh_faces(*chunk).len(),
{
    let mut vertices: Vec<MeshVertex> = Vec::new();
    let mut indices: Vec<u32> = Vec::new();
    let mut x: usize = 0;
    while x < CHUNK_SIZE
        invariant
            chunk.wf(),
            x <= 16,
            vertices@ == spec_vertices_for(
                *chunk,
                *uvs,
                spec_faces_upto(*chunk, (x * 4096) as nat),
            ),
            indices@ == spec_indices_for(spec_faces_upto(*chunk, (x * 4096) as nat).len()),
        decreases 16 - x,
    {
        let mut y: usize = 0;
        while y < WORLD_HEIGHT
            invariant
                chunk.wf(),
                x < 16,
                y <= 256,
                vertices@ == spec_vertices_for(
                    *chunk,
                    *uvs,
                    spec_faces_upto(*chunk, (x * 4096 + y * 16) as nat),
                ),
                indices@ == spec_indices_for(
                    spec_faces_upto(*chunk, (x * 4096 + y * 16) as nat).len(),
                ),
            decreases 256 - y,
        {
            let mut z: usize = 0;
            while z < CHUNK_SIZE
                invariant
                    chunk.wf(),
                    x < 16,
                    y < 256,
                    z <= 16,
                    vertices@ == spec_vertices_for(
                        *chunk,
                        *uvs,
                        spec_faces_upto(*chunk, (x * 4096 + y * 16 + z) as nat),
                    ),
                    indices@ == spec_indices_for(
                        spec_faces_upto(*chunk, (x * 4096 + y * 16 + z) as nat).len(),
                    ),
                decreases 16 - z,
            {
                let ghost t = (x * 4096 + y * 16 + z) as nat;
                let ghost base_faces = spec_faces_upto(*chunk, t);
                proof {
                    lemma_faces_upto_len(*chunk, t);
                    lemma_flat_unflat(z as int, y as int, x as int);
                    assert(spec_faces_upto(*chunk, t + 1) == base_faces + spec_voxel_faces(
                        *chunk,
                        x as int,
                        y as int,
                        z as int,
                    ));
                }
                let block = chunk.get_block(x, y, z);
                if block.is_solid() {
                    emit_voxel(chunk, block, x, y, z, uvs, &mut vertices, &mut indices,
                        Ghost(base_faces));
                } else {
                    proof {
                        assert(spec_voxel_faces(*chunk, x as int, y as int, z as int)
                            =~= Seq::<(int, int, int, BlockFace)>::empty());
                        assert(spec_faces_upto(*chunk, t + 1) =~= base_faces);
                    }
                }
                z = z + 1;
            }
            y = y + 1;
        }
        x = x + 1;
    }
    proof {
        assert(spec_mesh_faces(*chunk) == spec_faces_upto(*chunk, 65536));
        lemma_vertices_for_len(*chunk, *uvs, spec_mesh_faces(*chunk));
        lemma_indices_for_len(spec_mesh_faces(*chunk).len() as nat);
    }
    (vertices, indices)
}

/// After emitting the faces `done` and then the (zero or one) faces of
/// `step`, the vertex and index lists match `done + step`. The invariants of
/// the emission loop are maintained one conditional emission at a time.
proof fn lemma_emit_step(
    c: Chunk,
    uvt: UvTable,
    done: Seq<(int, int, int, BlockFace)>,
    step: Seq<(int, int, int, BlockFace)>,
    block: BlockType,
    x: int,
    y: int,
    z: int,
)
    requires
        step.len() <= 1,
        step.len() == 1 ==> step[0] == (x, y, z, step[0].3) && c.block_at(x, y, z) == block,
    ensures
        spec_vertices_for(c, uvt, done + step) == spec_vertices_for(c, uvt, done) + (
        if step.len() == 1 {
            spec_face_vertices(c.x as int, c.z as int, block, x, y, z, step[0].3, uvt)
        } else {
            Seq::<MeshVertex>::empty()
        }),
        spec_indices_for((done + step).len()) == spec_indices_for(done.len()) + (
        if step.len() == 1 {
            let b = 4 * done.len();
            seq![
                b as u32,
                (b + 1) as u32,
                (b + 2) as u32,
                b as u32,
                (b + 2) as u32,
                (b + 3) as u32,
            ]
        } else {
            Seq::<u32>::empty()
        }),
        (done + step).len() == done.len() + step.len(),
        spec_vertices_for(c, uvt, done).len() == 4 * done.len(),
        spec_vertices_for(c, uvt, done + step).len() == 4 * (done.len() + step.len()),
{
    lemma_vertices_for_concat(c, uvt, done, step);
    lemma_vertices_for_len(c, uvt, done);
    lemma_vertices_for_len(c, uvt, done + step);
    if step.len() == 1 {
        assert(step.drop_last() =~= Seq::<(int, int, int, BlockFace)>::empty());
        assert(spec_vertices_for(c, uvt, step) =~= spec_face_vertices(
            c.x as int,
            c.z as int,
            block,
            x,
            y,
            z,
            step[0].3,
            uvt,
        ));
    } else {
        assert(done + step =~= done);
        assert(spec_vertices_for(c, uvt, step) =~= Seq::<MeshVertex>::empty());
    }
}

/// A solid voxel completely enclosed by solid in-chunk neighbors emits no
/// faces at all.
pub proof fn lemma_enclosed_voxel_emits_nothing(c: Chunk, x: int, y: int, z: int)
    requires
        0 < x < 15,
        0 < y < 255,
        0 < z < 15,
        spec_is_solid(c.block_at(x, y, z)),
        spec_is_solid(c.block_at(x, y + 1, z)),
        spec_is_solid(c.block_at(x, y - 1, z)),
        spec_is_solid(c.block_at(x, y, z + 1)),
        spec_is_solid(c.block_at(x, y, z - 1)),
        spec_is_solid(c.block_at(x + 1, y, z)),
        spec_is_solid(c.block_at(x - 1, y, z)),
    ensures
        spec_voxel_faces(c, x, y, z).len() == 0,
{
    assert(spec_voxel_faces(c, x, y, z) =~= Seq::<(int, int, int, BlockFace)>::empty());
}

/// A solid voxel whose six in-chunk neighbors are all non-solid emits all
/// six faces.
pub proof fn lemma_isolated_voxel_emits_six(c: Chunk, x: int, y: int, z: int)
    requires
        spec_is_solid(c.block_at(x, y, z)),
        !spec_is_solid(c.block_at(x, y + 1, z)),
        !spec_is_solid(c.block_at(x, y - 1, z)),
        !spec_is_solid(c.block_at(x, y, z + 1)),
        !spec_is_solid(c.block_at(x, y, z - 1)),
        !spec_is_solid(c.block_at(x + 1, y, z)),
        !spec_is_solid(c.block_at(x - 1, y, z)),
    ensures
        spec_voxel_faces(c, x, y, z).len() == 6,
{
}

} // verus!
