use voxelworld::block::BlockType;

#[test]
fn stable_ids_round_trip() {
    let samples = [
        BlockType::Air,
        BlockType::GrassBlock,
        BlockType::Dirt,
        BlockType::Stone,
        BlockType::Deepslate,
        BlockType::CoalOre,
        BlockType::DeepslateDiamondOre,
        BlockType::Cobblestone,
        BlockType::OakLog,
        BlockType::Glass,
        BlockType::Obsidian,
        BlockType::Bedrock,
        BlockType::Water,
        BlockType::Lava,
        BlockType::Chest,
    ];
    for b in samples {
        assert_eq!(BlockType::from_id(b.id()), b);
    }
}

#[test]
fn known_ids_decode() {
    assert_eq!(BlockType::from_id(0), BlockType::Air);
    assert_eq!(BlockType::from_id(14), BlockType::Stone);
    assert_eq!(BlockType::from_id(236), BlockType::Bedrock);
    assert_eq!(BlockType::from_id(237), BlockType::Water);
    assert_eq!(BlockType::from_id(95), BlockType::DiamondOre);
}

#[test]
fn unknown_ids_decode_to_air() {
    assert_eq!(BlockType::from_id(22), BlockType::Air);
    assert_eq!(BlockType::from_id(50), BlockType::Air);
    assert_eq!(BlockType::from_id(242), BlockType::Air);
    assert_eq!(BlockType::from_id(999), BlockType::Air);
    assert_eq!(BlockType::from_id(u16::MAX), BlockType::Air);
}

#[test]
fn solidity() {
    assert!(!BlockType::Air.is_solid());
    assert!(!BlockType::CaveAir.is_solid());
    assert!(!BlockType::VoidAir.is_solid());
    assert!(!BlockType::Water.is_solid());
    assert!(BlockType::Lava.is_solid());
    assert!(BlockType::Stone.is_solid());
    assert!(BlockType::Glass.is_solid());
}

#[test]
fn transparency() {
    assert!(BlockType::Air.is_transparent());
    assert!(BlockType::Glass.is_transparent());
    assert!(BlockType::WhiteStainedGlass.is_transparent());
    assert!(BlockType::Water.is_transparent());
    assert!(BlockType::OakLeaves.is_transparent());
    assert!(!BlockType::Stone.is_transparent());
}

#[test]
fn liquids() {
    assert!(BlockType::Water.is_liquid());
    assert!(BlockType::Lava.is_liquid());
    assert!(!BlockType::Stone.is_liquid());
    assert!(!BlockType::Air.is_liquid());
}

#[test]
fn hardness_values() {
    assert_eq!(BlockType::Air.hardness(), 0);
    assert_eq!(BlockType::Bedrock.hardness(), -10);
    assert_eq!(BlockType::Stone.hardness(), 15);
    assert_eq!(BlockType::Obsidian.hardness(), 500);
    assert_eq!(BlockType::OakLeaves.hardness(), 2);
    assert_eq!(BlockType::Mud.hardness(), 10);
}

#[test]
fn base_colors() {
    let grass = BlockType::GrassBlock.get_color();
    assert_eq!((grass.r, grass.g, grass.b), (35, 65, 25));
    let bedrock = BlockType::Bedrock.get_color();
    assert_eq!((bedrock.r, bedrock.g, bedrock.b), (20, 20, 20));
    let air = BlockType::Air.get_color();
    assert_eq!((air.r, air.g, air.b), (0, 0, 0));
    let fallback = BlockType::Mud.get_color();
    assert_eq!((fallback.r, fallback.g, fallback.b), (70, 70, 70));
}

#[test]
fn default_is_air() {
    assert_eq!(BlockType::default(), BlockType::Air);
}
