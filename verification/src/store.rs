//! Persistence codec for chunks and world metadata.
//!
//! A chunk file is the flat voxel array in storage order, two bytes
//! (little-endian stable id) per voxel. The metadata document is a small
//! JSON-shaped record holding the world seed in decimal. Decoding is total:
//! wrong length or malformed text yields `None`, and unknown block ids decode
//! to air, so corrupt storage degrades to regeneration and never to an error.

use vstd::prelude::*;

use vstd::arithmetic::div_mod::lemma_fundamental_div_mod;

use crate::block::{spec_block_id, spec_from_id, BlockType};
use crate::chunk::Chunk;

verus! {

/// Number of bytes in an encoded chunk: two per voxel.
pub const CHUNK_BYTES: usize = 131072;

/// The byte stream a voxel array encodes to: for each voxel its stable id,
/// low byte first.
pub open spec fn spec_encode_chunk(blocks: Seq<BlockType>) -> Seq<u8> {
    Seq::new(
        blocks.len() * 2,
        |i: int|
            if i % 2 == 0 {
                (spec_block_id(blocks[i / 2]) % 256) as u8
            } else {
                (spec_block_id(blocks[i / 2]) / 256) as u8
            },
    )
}

/// The voxel array a byte stream decodes to: `None` unless the length is
/// exactly one chunk, otherwise each two-byte id mapped through the catalog
/// (unknown ids become air).
pub open spec fn spec_decode_chunk(bytes: Seq<u8>) -> Option<Seq<BlockType>> {
    if bytes.len() == 131072 {
        Some(
            Seq::new(
                65536,
                |i: int| spec_from_id((bytes[2 * i] + 256 * bytes[2 * i + 1]) as u16),
            ),
        )
    } else {
        None
    }
}

/// Encode a chunk's voxel contents for storage.
pub fn encode_chunk(c: &Chunk) -> (r: Vec<u8>)
    requires
        c.wf(),
    ensures
        r@ == spec_encode_chunk(c@),
        r@.len() == 131072,
{
    let mut out: Vec<u8> = Vec::new();
    let mut i: usize = 0;
    while i < 65536
        invariant
            c.wf(),
            i <= 65536,
            out@.len() == 2 * i,
            forall|j: int| 0 <= j < 2 * i ==> out@[j] == spec_encode_chunk(c@)[j],
        decreases 65536 - i,
    {
        let id = c.blocks[i].id();
        let lo = (id % 256) as u8;
        let hi = (id / 256) as u8;
        out.push(lo);
        out.push(hi);
        proof {
            assert((2 * i as int) % 2 == 0 && (2 * i as int) / 2 == i as int);
            assert((2 * i as int + 1) % 2 == 1 && (2 * i as int + 1) / 2 == i as int);
        }
        i = i + 1;
    }
    proof {
        assert(out@ =~= spec_encode_chunk(c@));
    }
    out
}

/// Decode a chunk file for chunk coordinates `(cx, cz)`. Returns `None`
/// exactly when the byte length is wrong; unknown ids inside a well-sized
/// file decode to air rather than failing.
pub fn decode_chunk(cx: i32, cz: i32, bytes: &Vec<u8>) -> (r: Option<Chunk>)
    ensures
        match r {
            Some(c) => {
                &&& spec_decode_chunk(bytes@) == Some(c@)
                &&& c.wf()
                &&& c.x == cx
                &&& c.z == cz
            },
            None => spec_decode_chunk(bytes@) is None,
        },
{
    if bytes.len() != CHUNK_BYTES {
        return None;
    }
    let mut blocks: Vec<BlockType> = Vec::new();
    let mut i: usize = 0;
    while i < 65536
        invariant
            bytes@.len() == 131072,
            i <= 65536,
            blocks@.len() == i,
            forall|j: int|
                0 <= j < i ==> blocks@[j] == spec_from_id(
                    (bytes@[2 * j] + 256 * bytes@[2 * j + 1]) as u16,
                ),
        decreases 65536 - i,
    {
        let lo = bytes[2 * i];
        let hi = bytes[2 * i + 1];
        let id: u16 = lo as u16 + 256 * (hi as u16);
        blocks.push(BlockType::from_id(id));
        i = i + 1;
    }
    let c = Chunk { x: cx, z: cz, blocks };
    proof {
        assert(spec_decode_chunk(bytes@) == Some(c@)) by {
            assert(c@ =~= spec_decode_chunk(bytes@).unwrap());
        }
    }
    Some(c)
}

/// Decoding an encoded chunk reproduces the voxel contents exactly.
pub proof fn lemma_chunk_round_trip(blocks: Seq<BlockType>)
    requires
        blocks.len() == 65536,
    ensures
        spec_decode_chunk(spec_encode_chunk(blocks)) == Some(blocks),
{
    let bytes = spec_encode_chunk(blocks);
    assert(bytes.len() == 131072);
    let decoded = spec_decode_chunk(bytes).unwrap();
    assert forall|i: int| 0 <= i < 65536 implies decoded[i] == blocks[i] by {
        let id = spec_block_id(blocks[i]);
        assert((2 * i) % 2 == 0 && (2 * i) / 2 == i);
        assert((2 * i + 1) % 2 == 1 && (2 * i + 1) / 2 == i);
        lemma_fundamental_div_mod(id as int, 256);
        crate::block::lemma_id_round_trip(blocks[i]);
    }
    assert(decoded =~= blocks);
}

/// The fixed bytes around the seed digits in the metadata document:
/// `{"seed":` before, `}` after.
pub open spec fn spec_meta_prefix() -> Seq<u8> {
    seq![123u8, 34u8, 115u8, 101u8, 101u8, 100u8, 34u8, 58u8]
}

/// Decimal digits of a number, most significant first, as ASCII bytes.
pub open spec fn spec_digits(n: nat) -> Seq<u8>
    decreases n,
{
    if n < 10 {
        seq![(48 + n) as u8]
    } else {
        spec_digits(n / 10).push((48 + n % 10) as u8)
    }
}

/// The canonical metadata document for a seed.
pub open spec fn spec_encode_meta(seed: u32) -> Seq<u8> {
    spec_meta_prefix() + spec_digits(seed as nat) + seq![125u8]
}

/// Value of a run of ASCII digits, most significant first.
pub open spec fn spec_digit_val(ds: Seq<u8>) -> int
    decreases ds.len(),
{
    if ds.len() == 0 {
        0
    } else {
        spec_digit_val(ds.drop_last()) * 10 + (ds.last() - 48)
    }
}

proof fn lemma_digits_shape(n: nat)
    ensures
        1 <= spec_digits(n).len(),
        forall|i: int| 0 <= i < spec_digits(n).len() ==> 48 <= #[trigger] spec_digits(n)[i] <= 57,
    decreases n,
{
    if n >= 10 {
        lemma_digits_shape(n / 10);
    }
}

proof fn lemma_digit_val_of_digits(n: nat)
    ensures
        spec_digit_val(spec_digits(n)) == n,
    decreases n,
{
    let ds = spec_digits(n);
    if n < 10 {
        assert(ds.len() == 1 && ds.last() == (48 + n) as u8);
        assert(ds.drop_last() =~= Seq::<u8>::empty());
        assert(spec_digit_val(ds) == spec_digit_val(Seq::<u8>::empty()) * 10 + ((48 + n) as u8
            - 48));
        assert(spec_digit_val(Seq::<u8>::empty()) == 0);
    } else {
        lemma_digit_val_of_digits(n / 10);
        assert(ds == spec_digits(n / 10).push((48 + n % 10) as u8));
        assert(ds.drop_last() =~= spec_digits(n / 10));
        assert(ds.last() == (48 + n % 10) as u8);
        assert(spec_digit_val(ds) == spec_digit_val(spec_digits(n / 10)) * 10 + ((48 + n
            % 10) as u8 - 48));
        lemma_fundamental_div_mod(n as int, 10);
    }
}

proof fn lemma_digit_val_nonneg(ds: Seq<u8>)
    requires
        forall|i: int| 0 <= i < ds.len() ==> 48 <= #[trigger] ds[i] <= 57,
    ensures
        spec_digit_val(ds) >= 0,
    decreases ds.len(),
{
    if ds.len() > 0 {
        lemma_digit_val_nonneg(ds.drop_last());
    }
}

proof fn lemma_digit_val_prefix(ds: Seq<u8>, i: int)
    requires
        forall|j: int| 0 <= j < ds.len() ==> 48 <= #[trigger] ds[j] <= 57,
        0 <= i <= ds.len(),
    ensures
        spec_digit_val(ds.take(i)) <= spec_digit_val(ds),
    decreases ds.len() - i,
{
    if i == ds.len() {
        assert(ds.take(i) =~= ds);
    } else {
        lemma_digit_val_prefix(ds, i + 1);
        assert(ds.take(i + 1).drop_last() =~= ds.take(i));
        lemma_digit_val_nonneg(ds.take(i));
    }
}

/// Append the decimal digits of `n`.
fn push_digits(n: u32, out: &mut Vec<u8>)
    ensures
        final(out)@ == old(out)@ + spec_digits(n as nat),
    decreases n,
{
    if n < 10 {
        out.push(48 + n as u8);
        proof {
            assert(out@ =~= old(out)@ + spec_digits(n as nat));
        }
    } else {
        push_digits(n / 10, out);
        out.push(48 + (n % 10) as u8);
        proof {
            assert(out@ =~= old(out)@ + spec_digits(n as nat));
        }
    }
}

/// Encode the metadata document holding the world seed.
pub fn encode_meta(seed: u32) -> (r: Vec<u8>)
    ensures
        r@ == spec_encode_meta(seed),
{
    let mut out: Vec<u8> = Vec::new();
    out.push(123);
    out.push(34);
    out.push(115);
    out.push(101);
    out.push(101);
    out.push(100);
    out.push(34);
    out.push(58);
    proof {
        assert(out@ =~= spec_meta_prefix());
    }
    push_digits(seed, &mut out);
    out.push(125);
    proof {
        assert(out@ =~= spec_encode_meta(seed));
    }
    out
}

fn bytes_equal(a: &Vec<u8>, b: &Vec<u8>) -> (r: bool)
    ensures
        r == (a@ == b@),
{
    if a.len() != b.len() {
        proof {
            assert(a@ != b@);
        }
        return false;
    }
    let mut i: usize = 0;
    while i < a.len()
        invariant
            a@.len() == b@.len(),
            i <= a@.len(),
            forall|j: int| 0 <= j < i ==> a@[j] == b@[j],
        decreases a@.len() - i,
    {
        if a[i] != b[i] {
            proof {
                assert(a@ != b@);
            }
            return false;
        }
        i = i + 1;
    }
    proof {
        assert(a@ =~= b@);
    }
    true
}

/// Parse a metadata document back to its seed. Exactly the canonical
/// documents parse: the seed written by `encode_meta` is read back, and a
/// successful parse pins the input to the canonical document of its result,
/// so anything malformed degrades to `None` (and so to a fresh seed), never
/// to an error.
pub fn parse_meta(bytes: &Vec<u8>) -> (r: Option<u32>)
    ensures
        forall|s: u32| bytes@ == spec_encode_meta(s) ==> r == Some(s),
        r matches Some(s) ==> bytes@ == spec_encode_meta(s),
{
    if bytes.len() < 10 {
        proof {
            assert forall|s: u32| bytes@ != spec_encode_meta(s) by {
                lemma_digits_shape(s as nat);
            }
        }
        return None;
    }
    let p0 = bytes[0];
    let p1 = bytes[1];
    let p2 = bytes[2];
    let p3 = bytes[3];
    let p4 = bytes[4];
    let p5 = bytes[5];
    let p6 = bytes[6];
    let p7 = bytes[7];
    if p0 != 123 || p1 != 34 || p2 != 115 || p3 != 101 || p4 != 101 || p5 != 100 || p6 != 34 || p7
        != 58 {
        proof {
            assert forall|s: u32| bytes@ != spec_encode_meta(s) by {
                lemma_digits_shape(s as nat);
            }
        }
        return None;
    }
    if bytes[bytes.len() - 1] != 125 {
        proof {
            assert forall|s: u32| bytes@ != spec_encode_meta(s) by {
                lemma_digits_shape(s as nat);
                if bytes@ == spec_encode_meta(s) {
                    assert(bytes@[bytes@.len() - 1] == 125);
                }
            }
        }
        return None;
    }
    let end = bytes.len() - 1;
    let ghost digits_region = bytes@.subrange(8, end as int);
    let mut i: usize = 8;
    let mut acc: u64 = 0;
    while i < end
        invariant
            bytes@.len() >= 10,
            end == bytes@.len() - 1,
            8 <= i <= end,
            digits_region == bytes@.subrange(8, end as int),
            forall|j: int| 0 <= j < i - 8 ==> 48 <= #[trigger] digits_region[j] <= 57,
            acc == spec_digit_val(digits_region.take(i - 8)),
            acc <= 0xFFFFFFFF,
        decreases end - i,
    {
        let b = bytes[i];
        if b < 48 || b > 57 {
            proof {
                assert forall|s: u32| bytes@ != spec_encode_meta(s) by {
                    lemma_digits_shape(s as nat);
                    if bytes@ == spec_encode_meta(s) {
                        assert(spec_digits(s as nat) =~= bytes@.subrange(8, end as int));
                        assert(48 <= spec_digits(s as nat)[i - 8] <= 57);
                    }
                }
            }
            return None;
        }
        proof {
            assert(digits_region.take(i - 8 + 1).drop_last() =~= digits_region.take(i - 8));
            assert(digits_region.take(i - 8 + 1).last() == digits_region[i - 8]);
            assert(digits_region[i - 8] == bytes@[i as int]);
        }
        let acc2: u64 = acc * 10 + (b - 48) as u64;
        if acc2 > 0xFFFFFFFF {
            proof {
                assert forall|s: u32| bytes@ != spec_encode_meta(s) by {
                    lemma_digits_shape(s as nat);
                    if bytes@ == spec_encode_meta(s) {
                        assert(spec_digits(s as nat) =~= digits_region);
                        lemma_digit_val_of_digits(s as nat);
                        lemma_digit_val_prefix(digits_region, i - 8 + 1);
                        assert(spec_digit_val(digits_region.take(i - 8 + 1)) <= s);
                    }
                }
            }
            return None;
        }
        acc = acc2;
        i = i + 1;
    }
    let candidate = acc as u32;
    let re = encode_meta(candidate);
    if bytes_equal(&re, bytes) {
        proof {
            assert forall|s: u32| bytes@ == spec_encode_meta(s) implies Some(candidate) == Some(
                s,
            ) by {
                assert(spec_digits(s as nat) =~= digits_region);
                lemma_digit_val_of_digits(s as nat);
                assert(digits_region.take(end - 8) =~= digits_region);
            }
        }
        Some(candidate)
    } else {
        proof {
            assert forall|s: u32| bytes@ != spec_encode_meta(s) by {
                if bytes@ == spec_encode_meta(s) {
                    assert(spec_digits(s as nat) =~= digits_region);
                    lemma_digit_val_of_digits(s as nat);
                    assert(digits_region.take(end - 8) =~= digits_region);
                    assert(candidate == s);
                }
            }
        }
        None
    }
}

} // verus!
