use voxelworld::block::BlockType;
use voxelworld::chunk::Chunk;
use voxelworld::store::{decode_chunk, encode_chunk, encode_meta, parse_meta, CHUNK_BYTES};
use voxelworld::terrain::generate_chunk;

#[test]
fn new_chunk_is_air() {
    let c = Chunk::new(3, -4);
    assert_eq!(c.x, 3);
    assert_eq!(c.z, -4);
    for &(x, y, z) in &[(0, 0, 0), (15, 255, 15), (7, 100, 9)] {
        assert_eq!(c.get_block(x, y, z), BlockType::Air);
    }
}

#[test]
fn set_then_get() {
    let mut c = Chunk::new(0, 0);
    c.set_block(5, 60, 7, BlockType::Stone);
    assert_eq!(c.get_block(5, 60, 7), BlockType::Stone);
    assert_eq!(c.get_block(5, 61, 7), BlockType::Air);
}

#[test]
fn out_of_range_read_is_air() {
    let c = Chunk::new(0, 0);
    assert_eq!(c.get_block(16, 0, 0), BlockType::Air);
    assert_eq!(c.get_block(0, 256, 0), BlockType::Air);
    assert_eq!(c.get_block(0, 0, 16), BlockType::Air);
}

#[test]
fn out_of_range_write_is_noop() {
    let mut c = Chunk::new(0, 0);
    c.set_block(16, 0, 0, BlockType::Stone);
    c.set_block(0, 256, 0, BlockType::Stone);
    c.set_block(0, 0, 16, BlockType::Stone);
    for x in 0..16 {
        for z in 0..16 {
            assert_eq!(c.get_block(x, 0, z), BlockType::Air);
            assert_eq!(c.get_block(x, 255, z), BlockType::Air);
        }
    }
}

#[test]
fn chunk_codec_round_trip() {
    let c = generate_chunk(42, -2, 5);
    let bytes = encode_chunk(&c);
    assert_eq!(bytes.len(), CHUNK_BYTES);
    let back = decode_chunk(-2, 5, &bytes).expect("well-sized file must decode");
    assert_eq!(back.x, -2);
    assert_eq!(back.z, 5);
    assert_eq!(back.blocks, c.blocks);
}

#[test]
fn decode_rejects_wrong_length() {
    assert!(decode_chunk(0, 0, &vec![]).is_none());
    assert!(decode_chunk(0, 0, &vec![0u8; CHUNK_BYTES - 1]).is_none());
    assert!(decode_chunk(0, 0, &vec![0u8; CHUNK_BYTES + 1]).is_none());
}

#[test]
fn decode_maps_unknown_ids_to_air() {
    // id 500 (0xf4, 0x01 little-endian) is outside the catalog
    let mut bytes = vec![0u8; CHUNK_BYTES];
    bytes[0] = 0xf4;
    bytes[1] = 0x01;
    // id 14 is stone
    bytes[2] = 14;
    let c = decode_chunk(0, 0, &bytes).unwrap();
    assert_eq!(c.get_block(0, 0, 0), BlockType::Air);
    assert_eq!(c.get_block(1, 0, 0), BlockType::Stone);
}

#[test]
fn meta_round_trip() {
    for seed in [0u32, 1, 9, 10, 42, 65536, 4294967295] {
        let doc = encode_meta(seed);
        assert_eq!(parse_meta(&doc), Some(seed));
    }
}

#[test]
fn meta_document_shape() {
    let doc = encode_meta(42);
    assert_eq!(doc, b"{\"seed\":42}".to_vec());
}

#[test]
fn meta_rejects_malformed() {
    assert_eq!(parse_meta(&vec![]), None);
    assert_eq!(parse_meta(&b"{\"seed\":}".to_vec()), None);
    assert_eq!(parse_meta(&b"{\"seed\":42".to_vec()), None);
    assert_eq!(parse_meta(&b"{\"sead\":42}".to_vec()), None);
    assert_eq!(parse_meta(&b"{\"seed\":4x2}".to_vec()), None);
    // non-canonical digits (leading zero) do not parse
    assert_eq!(parse_meta(&b"{\"seed\":007}".to_vec()), None);
    // value too large for a seed
    assert_eq!(parse_meta(&b"{\"seed\":4294967296}".to_vec()), None);
}
