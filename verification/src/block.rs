//! The block catalog: a closed set of block kinds with purely tag-derived
//! properties, and a stable integer encoding used by persisted chunk data.

use vstd::prelude::*;

verus! {

/// One block kind. The set is closed; every property below is a pure
/// function of the tag.
#[derive(Clone, Copy, Debug, PartialEq, Eq, Structural)]
pub enum BlockType {
    Air,
    CaveAir,
    VoidAir,
    GrassBlock,
    Dirt,
    CoarseDirt,
    Podzol,
    Mycelium,
    RootedDirt,
    Mud,
    Clay,
    Sand,
    RedSand,
    Gravel,
    Stone,
    Granite,
    Diorite,
    Andesite,
    Deepslate,
    Calcite,
    Tuff,
    DripstoneBlock,
    CoalOre,
    DeepslateCoalOre,
    IronOre,
    DeepslateIronOre,
    CopperOre,
    DeepslateCopperOre,
    GoldOre,
    DeepslateGoldOre,
    RedstoneOre,
    DeepslateRedstoneOre,
    EmeraldOre,
    DeepslateEmeraldOre,
    LapisOre,
    DeepslateLapisOre,
    DiamondOre,
    DeepslateDiamondOre,
    Cobblestone,
    MossyCobblestone,
    StoneBricks,
    SmoothStone,
    Sandstone,
    RedSandstone,
    Bricks,
    OakLog,
    SpruceLog,
    BirchLog,
    JungleLog,
    AcaciaLog,
    DarkOakLog,
    OakLeaves,
    OakPlanks,
    SprucePlanks,
    BirchPlanks,
    Glass,
    WhiteStainedGlass,
    Netherrack,
    NetherBricks,
    SoulSand,
    Obsidian,
    Bedrock,
    Water,
    Lava,
    CraftingTable,
    Furnace,
    Chest,
}

/// The stable numeric id under which a block kind is persisted. Ids are
/// permanently fixed: chunk files written earlier stay valid.
pub open spec fn spec_block_id(b: BlockType) -> u16 {
    match b {
        BlockType::Air => 0,
        BlockType::CaveAir => 1,
        BlockType::VoidAir => 2,
        BlockType::GrassBlock => 3,
        BlockType::Dirt => 4,
        BlockType::CoarseDirt => 5,
        BlockType::Podzol => 6,
        BlockType::Mycelium => 7,
        BlockType::RootedDirt => 8,
        BlockType::Mud => 9,
        BlockType::Clay => 10,
        BlockType::Sand => 11,
        BlockType::RedSand => 12,
        BlockType::Gravel => 13,
        BlockType::Stone => 14,
        BlockType::Granite => 15,
        BlockType::Diorite => 16,
        BlockType::Andesite => 17,
        BlockType::Deepslate => 18,
        BlockType::Calcite => 19,
        BlockType::Tuff => 20,
        BlockType::DripstoneBlock => 21,
        BlockType::CoalOre => 81,
        BlockType::DeepslateCoalOre => 82,
        BlockType::IronOre => 83,
        BlockType::DeepslateIronOre => 84,
        BlockType::CopperOre => 85,
        BlockType::DeepslateCopperOre => 86,
        BlockType::GoldOre => 87,
        BlockType::DeepslateGoldOre => 88,
        BlockType::RedstoneOre => 89,
        BlockType::DeepslateRedstoneOre => 90,
        BlockType::EmeraldOre => 91,
        BlockType::DeepslateEmeraldOre => 92,
        BlockType::LapisOre => 93,
        BlockType::DeepslateLapisOre => 94,
        BlockType::DiamondOre => 95,
        BlockType::DeepslateDiamondOre => 96,
        BlockType::Cobblestone => 100,
        BlockType::MossyCobblestone => 101,
        BlockType::StoneBricks => 102,
        BlockType::SmoothStone => 106,
        BlockType::Sandstone => 109,
        BlockType::RedSandstone => 112,
        BlockType::Bricks => 115,
        BlockType::OakLog => 118,
        BlockType::SpruceLog => 119,
        BlockType::BirchLog => 120,
        BlockType::JungleLog => 121,
        BlockType::AcaciaLog => 122,
        BlockType::DarkOakLog => 123,
        BlockType::OakLeaves => 126,
        BlockType::OakPlanks => 134,
        BlockType::SprucePlanks => 135,
        BlockType::BirchPlanks => 136,
        BlockType::Glass => 182,
        BlockType::WhiteStainedGlass => 183,
        BlockType::Netherrack => 216,
        BlockType::NetherBricks => 217,
        BlockType::SoulSand => 222,
        BlockType::Obsidian => 235,
        BlockType::Bedrock => 236,
        BlockType::Water => 237,
        BlockType::Lava => 238,
        BlockType::CraftingTable => 239,
        BlockType::Furnace => 240,
        BlockType::Chest => 241,
    }
}

/// The block kind persisted under a numeric id; every id outside the known
/// set decodes to air, never to an error.
pub open spec fn spec_from_id(id: u16) -> BlockType {
    match id {
        0u16 => BlockType::Air,
        1u16 => BlockType::CaveAir,
        2u16 => BlockType::VoidAir,
        3u16 => BlockType::GrassBlock,
        4u16 => BlockType::Dirt,
        5u16 => BlockType::CoarseDirt,
        6u16 => BlockType::Podzol,
        7u16 => BlockType::Mycelium,
        8u16 => BlockType::RootedDirt,
        9u16 => BlockType::Mud,
        10u16 => BlockType::Clay,
        11u16 => BlockType::Sand,
        12u16 => BlockType::RedSand,
        13u16 => BlockType::Gravel,
        14u16 => BlockType::Stone,
        15u16 => BlockType::Granite,
        16u16 => BlockType::Diorite,
        17u16 => BlockType::Andesite,
        18u16 => BlockType::Deepslate,
        19u16 => BlockType::Calcite,
        20u16 => BlockType::Tuff,
        21u16 => BlockType::DripstoneBlock,
        81u16 => BlockType::CoalOre,
        82u16 => BlockType::DeepslateCoalOre,
        83u16 => BlockType::IronOre,
        84u16 => BlockType::DeepslateIronOre,
        85u16 => BlockType::CopperOre,
        86u16 => BlockType::DeepslateCopperOre,
        87u16 => BlockType::GoldOre,
        88u16 => BlockType::DeepslateGoldOre,
        89u16 => BlockType::RedstoneOre,
        90u16 => BlockType::DeepslateRedstoneOre,
        91u16 => BlockType::EmeraldOre,
        92u16 => BlockType::DeepslateEmeraldOre,
        93u16 => BlockType::LapisOre,
        94u16 => BlockType::DeepslateLapisOre,
        95u16 => BlockType::DiamondOre,
        96u16 => BlockType::DeepslateDiamondOre,
        100u16 => BlockType::Cobblestone,
        101u16 => BlockType::MossyCobblestone,
        102u16 => BlockType::StoneBricks,
        106u16 => BlockType::SmoothStone,
        109u16 => BlockType::Sandstone,
        112u16 => BlockType::RedSandstone,
        115u16 => BlockType::Bricks,
        118u16 => BlockType::OakLog,
        119u16 => BlockType::SpruceLog,
        120u16 => BlockType::BirchLog,
        121u16 => BlockType::JungleLog,
        122u16 => BlockType::AcaciaLog,
        123u16 => BlockType::DarkOakLog,
        126u16 => BlockType::OakLeaves,
        134u16 => BlockType::OakPlanks,
        135u16 => BlockType::SprucePlanks,
        136u16 => BlockType::BirchPlanks,
        182u16 => BlockType::Glass,
        183u16 => BlockType::WhiteStainedGlass,
        216u16 => BlockType::Netherrack,
        217u16 => BlockType::NetherBricks,
        222u16 => BlockType::SoulSand,
        235u16 => BlockType::Obsidian,
        236u16 => BlockType::Bedrock,
        237u16 => BlockType::Water,
        238u16 => BlockType::Lava,
        239u16 => BlockType::CraftingTable,
        240u16 => BlockType::Furnace,
        241u16 => BlockType::Chest,
        _ => BlockType::Air,
    }
}

pub open spec fn spec_is_transparent(b: BlockType) -> bool {
    b == BlockType::Air || b == BlockType::CaveAir || b == BlockType::VoidAir
        || b == BlockType::Glass || b == BlockType::WhiteStainedGlass || b == BlockType::Water
        || b == BlockType::Lava || b == BlockType::OakLeaves
}

pub open spec fn spec_is_solid(b: BlockType) -> bool {
    !(b == BlockType::Air || b == BlockType::CaveAir || b == BlockType::VoidAir
        || b == BlockType::Water)
}

pub open spec fn spec_is_liquid(b: BlockType) -> bool {
    b == BlockType::Water || b == BlockType::Lava
}

/// Base tint of a block, as red/green/blue in hundredths: 100 stands for
/// full intensity. Renderers divide by 100 for their own color scale.
#[derive(Clone, Copy, Debug, PartialEq, Eq, Structural)]
pub struct Rgb {
    pub r: u8,
    pub g: u8,
    pub b: u8,
}

pub open spec fn spec_color(b: BlockType) -> Rgb {
    match b {
        BlockType::Air | BlockType::CaveAir | BlockType::VoidAir => Rgb { r: 0, g: 0, b: 0 },
        BlockType::GrassBlock => Rgb { r: 35, g: 65, b: 25 },
        BlockType::Dirt | BlockType::CoarseDirt => Rgb { r: 55, g: 35, b: 20 },
        BlockType::Sand => Rgb { r: 90, g: 85, b: 60 },
        BlockType::RedSand => Rgb { r: 80, g: 50, b: 30 },
        BlockType::Stone => Rgb { r: 50, g: 50, b: 50 },
        BlockType::Granite => Rgb { r: 60, g: 40, b: 35 },
        BlockType::Diorite => Rgb { r: 85, g: 85, b: 85 },
        BlockType::Andesite => Rgb { r: 55, g: 55, b: 55 },
        BlockType::Deepslate => Rgb { r: 30, g: 30, b: 35 },
        BlockType::CoalOre => Rgb { r: 40, g: 40, b: 40 },
        BlockType::IronOre => Rgb { r: 65, g: 60, b: 55 },
        BlockType::GoldOre => Rgb { r: 90, g: 80, b: 30 },
        BlockType::DiamondOre => Rgb { r: 40, g: 70, b: 80 },
        BlockType::EmeraldOre => Rgb { r: 30, g: 80, b: 40 },
        BlockType::Cobblestone => Rgb { r: 45, g: 45, b: 45 },
        BlockType::StoneBricks => Rgb { r: 50, g: 50, b: 50 },
        BlockType::Sandstone => Rgb { r: 85, g: 80, b: 60 },
        BlockType::RedSandstone => Rgb { r: 75, g: 45, b: 30 },
        BlockType::Bricks => Rgb { r: 60, g: 30, b: 20 },
        BlockType::OakLog => Rgb { r: 40, g: 30, b: 20 },
        BlockType::SpruceLog => Rgb { r: 30, g: 25, b: 20 },
        BlockType::BirchLog => Rgb { r: 85, g: 85, b: 80 },
        BlockType::OakPlanks => Rgb { r: 65, g: 50, b: 30 },
        BlockType::SprucePlanks => Rgb { r: 45, g: 35, b: 25 },
        BlockType::BirchPlanks => Rgb { r: 75, g: 70, b: 55 },
        BlockType::OakLeaves => Rgb { r: 20, g: 60, b: 20 },
        BlockType::Glass => Rgb { r: 85, g: 95, b: 100 },
        BlockType::WhiteStainedGlass => Rgb { r: 95, g: 95, b: 100 },
        BlockType::Netherrack => Rgb { r: 60, g: 25, b: 25 },
        BlockType::NetherBricks => Rgb { r: 30, g: 15, b: 20 },
        BlockType::SoulSand => Rgb { r: 35, g: 30, b: 25 },
        BlockType::Obsidian => Rgb { r: 5, g: 5, b: 15 },
        BlockType::Bedrock => Rgb { r: 20, g: 20, b: 20 },
        BlockType::Water => Rgb { r: 10, g: 30, b: 80 },
        BlockType::Lava => Rgb { r: 90, g: 40, b: 10 },
        BlockType::CraftingTable => Rgb { r: 60, g: 45, b: 30 },
        BlockType::Furnace => Rgb { r: 40, g: 40, b: 40 },
        BlockType::Chest => Rgb { r: 55, g: 40, b: 25 },
        _ => Rgb { r: 70, g: 70, b: 70 },
    }
}

/// Mining time cost of a block, in tenths: 15 stands for one and a half
/// units. The negative sentinel -10 marks an unbreakable block.
pub open spec fn spec_hardness(b: BlockType) -> i16 {
    match b {
        BlockType::Air | BlockType::CaveAir | BlockType::VoidAir => 0,
        BlockType::Bedrock => -10i16,
        BlockType::GrassBlock => 6,
        BlockType::Dirt | BlockType::CoarseDirt | BlockType::Podzol => 5,
        BlockType::Sand | BlockType::RedSand => 5,
        BlockType::Gravel => 6,
        BlockType::Stone => 15,
        BlockType::Granite | BlockType::Diorite | BlockType::Andesite => 15,
        BlockType::Deepslate => 30,
        BlockType::CoalOre | BlockType::IronOre | BlockType::GoldOre => 30,
        BlockType::DiamondOre | BlockType::EmeraldOre => 30,
        BlockType::Cobblestone | BlockType::MossyCobblestone => 20,
        BlockType::StoneBricks => 15,
        BlockType::Sandstone | BlockType::RedSandstone => 8,
        BlockType::Bricks => 20,
        BlockType::OakLog | BlockType::SpruceLog | BlockType::BirchLog
        | BlockType::JungleLog | BlockType::AcaciaLog | BlockType::DarkOakLog => 20,
        BlockType::OakPlanks | BlockType::SprucePlanks | BlockType::BirchPlanks => 20,
        BlockType::OakLeaves => 2,
        BlockType::Glass | BlockType::WhiteStainedGlass => 3,
        BlockType::Netherrack => 4,
        BlockType::NetherBricks => 20,
        BlockType::SoulSand => 5,
        BlockType::Obsidian => 500,
        BlockType::CraftingTable => 25,
        BlockType::Furnace => 35,
        BlockType::Chest => 25,
        _ => 10,
    }
}

impl BlockType {
    /// Stable numeric id for persistence; inverse of `from_id` on every
    /// member of the catalog.
    pub fn id(self) -> (r: u16)
        ensures
            r == spec_block_id(self),
    {
        match self {
            BlockType::Air => 0,
            BlockType::CaveAir => 1,
            BlockType::VoidAir => 2,
            BlockType::GrassBlock => 3,
            BlockType::Dirt => 4,
            BlockType::CoarseDirt => 5,
            BlockType::Podzol => 6,
            BlockType::Mycelium => 7,
            BlockType::RootedDirt => 8,
            BlockType::Mud => 9,
            BlockType::Clay => 10,
            BlockType::Sand => 11,
            BlockType::RedSand => 12,
            BlockType::Gravel => 13,
            BlockType::Stone => 14,
            BlockType::Granite => 15,
            BlockType::Diorite => 16,
            BlockType::Andesite => 17,
            BlockType::Deepslate => 18,
            BlockType::Calcite => 19,
            BlockType::Tuff => 20,
            BlockType::DripstoneBlock => 21,
            BlockType::CoalOre => 81,
            BlockType::DeepslateCoalOre => 82,
            BlockType::IronOre => 83,
            BlockType::DeepslateIronOre => 84,
            BlockType::CopperOre => 85,
            BlockType::DeepslateCopperOre => 86,
            BlockType::GoldOre => 87,
            BlockType::DeepslateGoldOre => 88,
            BlockType::RedstoneOre => 89,
            BlockType::DeepslateRedstoneOre => 90,
            BlockType::EmeraldOre => 91,
            BlockType::DeepslateEmeraldOre => 92,
            BlockType::LapisOre => 93,
            BlockType::DeepslateLapisOre => 94,
            BlockType::DiamondOre => 95,
            BlockType::DeepslateDiamondOre => 96,
            BlockType::Cobblestone => 100,
            BlockType::MossyCobblestone => 101,
            BlockType::StoneBricks => 102,
            BlockType::SmoothStone => 106,
            BlockType::Sandstone => 109,
            BlockType::RedSandstone => 112,
            BlockType::Bricks => 115,
            BlockType::OakLog => 118,
            BlockType::SpruceLog => 119,
            BlockType::BirchLog => 120,
            BlockType::JungleLog => 121,
            BlockType::AcaciaLog => 122,
            BlockType::DarkOakLog => 123,
            BlockType::OakLeaves => 126,
            BlockType::OakPlanks => 134,
            BlockType::SprucePlanks => 135,
            BlockType::BirchPlanks => 136,
            BlockType::Glass => 182,
            BlockType::WhiteStainedGlass => 183,
            BlockType::Netherrack => 216,
            BlockType::NetherBricks => 217,
            BlockType::SoulSand => 222,
            BlockType::Obsidian => 235,
            BlockType::Bedrock => 236,
            BlockType::Water => 237,
            BlockType::Lava => 238,
            BlockType::CraftingTable => 239,
            BlockType::Furnace => 240,
            BlockType::Chest => 241,
        }
    }

    /// Construct a block kind from its numeric id. Unknown ids map to air.
    pub fn from_id(id: u16) -> (r: BlockType)
        ensures
            r == spec_from_id(id),
    {
        match id {
            0 => BlockType::Air,
            1 => BlockType::CaveAir,
            2 => BlockType::VoidAir,
            3 => BlockType::GrassBlock,
            4 => BlockType::Dirt,
            5 => BlockType::CoarseDirt,
            6 => BlockType::Podzol,
            7 => BlockType::Mycelium,
            8 => BlockType::RootedDirt,
            9 => BlockType::Mud,
            10 => BlockType::Clay,
            11 => BlockType::Sand,
            12 => BlockType::RedSand,
            13 => BlockType::Gravel,
            14 => BlockType::Stone,
            15 => BlockType::Granite,
            16 => BlockType::Diorite,
            17 => BlockType::Andesite,
            18 => BlockType::Deepslate,
            19 => BlockType::Calcite,
            20 => BlockType::Tuff,
            21 => BlockType::DripstoneBlock,
            81 => BlockType::CoalOre,
            82 => BlockType::DeepslateCoalOre,
            83 => BlockType::IronOre,
            84 => BlockType::DeepslateIronOre,
            85 => BlockType::CopperOre,
            86 => BlockType::DeepslateCopperOre,
            87 => BlockType::GoldOre,
            88 => BlockType::DeepslateGoldOre,
            89 => BlockType::RedstoneOre,
            90 => BlockType::DeepslateRedstoneOre,
            91 => BlockType::EmeraldOre,
            92 => BlockType::DeepslateEmeraldOre,
            93 => BlockType::LapisOre,
            94 => BlockType::DeepslateLapisOre,
            95 => BlockType::DiamondOre,
            96 => BlockType::DeepslateDiamondOre,
            100 => BlockType::Cobblestone,
            101 => BlockType::MossyCobblestone,
            102 => BlockType::StoneBricks,
            106 => BlockType::SmoothStone,
            109 => BlockType::Sandstone,
            112 => BlockType::RedSandstone,
            115 => BlockType::Bricks,
            118 => BlockType::OakLog,
            119 => BlockType::SpruceLog,
            120 => BlockType::BirchLog,
            121 => BlockType::JungleLog,
            122 => BlockType::AcaciaLog,
            123 => BlockType::DarkOakLog,
            126 => BlockType::OakLeaves,
            134 => BlockType::OakPlanks,
            135 => BlockType::SprucePlanks,
            136 => BlockType::BirchPlanks,
            182 => BlockType::Glass,
            183 => BlockType::WhiteStainedGlass,
            216 => BlockType::Netherrack,
            217 => BlockType::NetherBricks,
            222 => BlockType::SoulSand,
            235 => BlockType::Obsidian,
            236 => BlockType::Bedrock,
            237 => BlockType::Water,
            238 => BlockType::Lava,
            239 => BlockType::CraftingTable,
            240 => BlockType::Furnace,
            241 => BlockType::Chest,
            _ => BlockType::Air,
        }
    }

    pub fn is_transparent(self) -> (r: bool)
        ensures
            r == spec_is_transparent(self),
    {
        matches!(
            self,
            BlockType::Air
                | BlockType::CaveAir
                | BlockType::VoidAir
                | BlockType::Glass
                | BlockType::WhiteStainedGlass
                | BlockType::Water
                | BlockType::Lava
                | BlockType::OakLeaves
        )
    }

    pub fn is_solid(self) -> (r: bool)
        ensures
            r == spec_is_solid(self),
    {
        !matches!(
            self,
            BlockType::Air | BlockType::CaveAir | BlockType::VoidAir | BlockType::Water
        )
    }

    pub fn is_liquid(self) -> (r: bool)
        ensures
            r == spec_is_liquid(self),
    {
        matches!(self, BlockType::Water | BlockType::Lava)
    }

    /// Mining time cost in tenths; -10 is the unbreakable sentinel.
    pub fn hardness(self) -> (r: i16)
        ensures
            r == spec_hardness(self),
    {
        match self {
            BlockType::Air | BlockType::CaveAir | BlockType::VoidAir => 0,
            BlockType::Bedrock => -10,
            BlockType::GrassBlock => 6,
            BlockType::Dirt | BlockType::CoarseDirt | BlockType::Podzol => 5,
            BlockType::Sand | BlockType::RedSand => 5,
            BlockType::Gravel => 6,
            BlockType::Stone => 15,
            BlockType::Granite | BlockType::Diorite | BlockType::Andesite => 15,
            BlockType::Deepslate => 30,
            BlockType::CoalOre | BlockType::IronOre | BlockType::GoldOre => 30,
            BlockType::DiamondOre | BlockType::EmeraldOre => 30,
            BlockType::Cobblestone | BlockType::MossyCobblestone => 20,
            BlockType::StoneBricks => 15,
            BlockType::Sandstone | BlockType::RedSandstone => 8,
            BlockType::Bricks => 20,
            BlockType::OakLog
            | BlockType::SpruceLog
            | BlockType::BirchLog
            | BlockType::JungleLog
            | BlockType::AcaciaLog
            | BlockType::DarkOakLog => 20,
            BlockType::OakPlanks | BlockType::SprucePlanks | BlockType::BirchPlanks => 20,
            BlockType::OakLeaves => 2,
            BlockType::Glass | BlockType::WhiteStainedGlass => 3,
            BlockType::Netherrack => 4,
            BlockType::NetherBricks => 20,
            BlockType::SoulSand => 5,
            BlockType::Obsidian => 500,
            BlockType::CraftingTable => 25,
            BlockType::Furnace => 35,
            BlockType::Chest => 25,
            _ => 10,
        }
    }

    /// Base tint in hundredths per channel.
    pub fn get_color(self) -> (r: Rgb)
        ensures
            r == spec_color(self),
    {
        match self {
            BlockType::Air | BlockType::CaveAir | BlockType::VoidAir => Rgb { r: 0, g: 0, b: 0 },
            BlockType::GrassBlock => Rgb { r: 35, g: 65, b: 25 },
            BlockType::Dirt | BlockType::CoarseDirt => Rgb { r: 55, g: 35, b: 20 },
            BlockType::Sand => Rgb { r: 90, g: 85, b: 60 },
            BlockType::RedSand => Rgb { r: 80, g: 50, b: 30 },
            BlockType::Stone => Rgb { r: 50, g: 50, b: 50 },
            BlockType::Granite => Rgb { r: 60, g: 40, b: 35 },
            BlockType::Diorite => Rgb { r: 85, g: 85, b: 85 },
            BlockType::Andesite => Rgb { r: 55, g: 55, b: 55 },
            BlockType::Deepslate => Rgb { r: 30, g: 30, b: 35 },
            BlockType::CoalOre => Rgb { r: 40, g: 40, b: 40 },
            BlockType::IronOre => Rgb { r: 65, g: 60, b: 55 },
            BlockType::GoldOre => Rgb { r: 90, g: 80, b: 30 },
            BlockType::DiamondOre => Rgb { r: 40, g: 70, b: 80 },
            BlockType::EmeraldOre => Rgb { r: 30, g: 80, b: 40 },
            BlockType::Cobblestone => Rgb { r: 45, g: 45, b: 45 },
            BlockType::StoneBricks => Rgb { r: 50, g: 50, b: 50 },
            BlockType::Sandstone => Rgb { r: 85, g: 80, b: 60 },
            BlockType::RedSandstone => Rgb { r: 75, g: 45, b: 30 },
            BlockType::Bricks => Rgb { r: 60, g: 30, b: 20 },
            BlockType::OakLog => Rgb { r: 40, g: 30, b: 20 },
            BlockType::SpruceLog => Rgb { r: 30, g: 25, b: 20 },
            BlockType::BirchLog => Rgb { r: 85, g: 85, b: 80 },
            BlockType::OakPlanks => Rgb { r: 65, g: 50, b: 30 },
            BlockType::SprucePlanks => Rgb { r: 45, g: 35, b: 25 },
            BlockType::BirchPlanks => Rgb { r: 75, g: 70, b: 55 },
            BlockType::OakLeaves => Rgb { r: 20, g: 60, b: 20 },
            BlockType::Glass => Rgb { r: 85, g: 95, b: 100 },
            BlockType::WhiteStainedGlass => Rgb { r: 95, g: 95, b: 100 },
            BlockType::Netherrack => Rgb { r: 60, g: 25, b: 25 },
            BlockType::NetherBricks => Rgb { r: 30, g: 15, b: 20 },
            BlockType::SoulSand => Rgb { r: 35, g: 30, b: 25 },
            BlockType::Obsidian => Rgb { r: 5, g: 5, b: 15 },
            BlockType::Bedrock => Rgb { r: 20, g: 20, b: 20 },
            BlockType::Water => Rgb { r: 10, g: 30, b: 80 },
            BlockType::Lava => Rgb { r: 90, g: 40, b: 10 },
            BlockType::CraftingTable => Rgb { r: 60, g: 45, b: 30 },
            BlockType::Furnace => Rgb { r: 40, g: 40, b: 40 },
            BlockType::Chest => Rgb { r: 55, g: 40, b: 25 },
            _ => Rgb { r: 70, g: 70, b: 70 },
        }
    }
}

impl Default for BlockType {
    fn default() -> (r: Self)
        ensures
            r == BlockType::Air,
    {
        BlockType::Air
    }
}

/// Decoding a block's own stable id yields the block back: the persisted
/// encoding loses nothing on catalog members.
pub proof fn lemma_id_round_trip(b: BlockType)
    ensures
        spec_from_id(spec_block_id(b)) == b,
{
}

} // verus!
