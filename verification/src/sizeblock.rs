//! The fixed 10-byte size block that prefixes every frame: a 2-byte
//! big-endian metadata length followed by an 8-byte big-endian payload
//! length, and the block count used when receiving.

use vstd::prelude::*;

verus! {

/// Bytes in the size block prefixing every frame.
pub const SIZE_BLOCK_LEN: usize = 10;

/// Bytes of the size block holding the metadata length.
pub const MD_LEN_BYTES: usize = 2;

/// Bytes of the size block holding the payload length.
pub const PAYLOAD_LEN_BYTES: usize = 8;

/// Size in bytes of one bounded read when receiving a frame body.
pub const READ_BLOCK_LEN: usize = 1024;

/// The two big-endian bytes of a 16-bit length.
pub open spec fn spec_u16_to_be_bytes(x: u16) -> Seq<u8> {
    seq![((x >> 8) & 0xff) as u8, (x & 0xff) as u8]
}

/// The 16-bit value read big-endian from two bytes.
pub open spec fn spec_u16_from_be_bytes(s: Seq<u8>) -> u16
    recommends
        s.len() == 2,
{
    (((s[0] as u16) << 8) | (s[1] as u16)) as u16
}

/// The eight big-endian bytes of a 64-bit length.
pub open spec fn spec_u64_to_be_bytes(x: u64) -> Seq<u8> {
    seq![
        ((x >> 56) & 0xff) as u8,
        ((x >> 48) & 0xff) as u8,
        ((x >> 40) & 0xff) as u8,
        ((x >> 32) & 0xff) as u8,
        ((x >> 24) & 0xff) as u8,
        ((x >> 16) & 0xff) as u8,
        ((x >> 8) & 0xff) as u8,
        (x & 0xff) as u8,
    ]
}

/// The 64-bit value read big-endian from eight bytes.
pub open spec fn spec_u64_from_be_bytes(s: Seq<u8>) -> u64
    recommends
        s.len() == 8,
{
    (((s[0] as u64) << 56) | ((s[1] as u64) << 48) | ((s[2] as u64) << 40) | ((s[3] as u64) << 32)
        | ((s[4] as u64) << 24) | ((s[5] as u64) << 16) | ((s[6] as u64) << 8) | (
    s[7] as u64)) as u64
}

/// The full 10-byte size block declaring a metadata and a payload length.
pub open spec fn spec_size_block(md_len: u16, payload_len: u64) -> Seq<u8> {
    spec_u16_to_be_bytes(md_len) + spec_u64_to_be_bytes(payload_len)
}

/// Reading the two big-endian bytes of a 16-bit value back yields that
/// value.
pub proof fn lemma_u16_be_round_trip(x: u16)
    ensures
        spec_u16_from_be_bytes(spec_u16_to_be_bytes(x)) == x,
{
    assert((((((x >> 8) & 0xff) << 8) | (x & 0xff))) == x) by (bit_vector);
    assert((x >> 8) & 0xff < 256 && x & 0xff < 256) by (bit_vector);
}

/// Reading the eight big-endian bytes of a 64-bit value back yields that
/// value.
pub proof fn lemma_u64_be_round_trip(x: u64)
    ensures
        spec_u64_from_be_bytes(spec_u64_to_be_bytes(x)) == x,
{
    assert(((((x >> 56) & 0xff) << 56) | (((x >> 48) & 0xff) << 48) | (((x >> 40) & 0xff) << 40)
        | (((x >> 32) & 0xff) << 32) | (((x >> 24) & 0xff) << 24) | (((x >> 16) & 0xff) << 16) | ((
    (x >> 8) & 0xff) << 8) | (x & 0xff)) == x) by (bit_vector);
    assert((x >> 56) & 0xff < 256 && (x >> 48) & 0xff < 256 && (x >> 40) & 0xff < 256 && (x >> 32)
        & 0xff < 256 && (x >> 24) & 0xff < 256 && (x >> 16) & 0xff < 256 && (x >> 8) & 0xff < 256
        && x & 0xff < 256) by (bit_vector);
}

/// Encoding a size block from a pair of lengths and decoding it again
/// returns the original pair, for every 16-bit metadata length and every
/// 64-bit payload length.
pub proof fn lemma_size_block_round_trip(md_len: u16, payload_len: u64)
    ensures
        spec_size_block(md_len, payload_len).len() == 10,
        spec_u16_from_be_bytes(spec_size_block(md_len, payload_len).subrange(0, 2)) == md_len,
        spec_u64_from_be_bytes(spec_size_block(md_len, payload_len).subrange(2, 10))
            == payload_len,
{
    assert(spec_size_block(md_len, payload_len).subrange(0, 2) =~= spec_u16_to_be_bytes(md_len));
    assert(spec_size_block(md_len, payload_len).subrange(2, 10) =~= spec_u64_to_be_bytes(
        payload_len,
    ));
    lemma_u16_be_round_trip(md_len);
    lemma_u64_be_round_trip(payload_len);
}

/// Builds the 10-byte size block declaring `md_len` metadata bytes and
/// `payload_len` payload bytes.
pub fn encode_size_block(md_len: u16, payload_len: u64) -> (r: Vec<u8>)
    ensures
        r@ == spec_size_block(md_len, payload_len),
        r@.len() == 10,
{
    let mut out: Vec<u8> = Vec::new();
    out.push(((md_len >> 8) & 0xff) as u8);
    out.push((md_len & 0xff) as u8);
    out.push(((payload_len >> 56) & 0xff) as u8);
    out.push(((payload_len >> 48) & 0xff) as u8);
    out.push(((payload_len >> 40) & 0xff) as u8);
    out.push(((payload_len >> 32) & 0xff) as u8);
    out.push(((payload_len >> 24) & 0xff) as u8);
    out.push(((payload_len >> 16) & 0xff) as u8);
    out.push(((payload_len >> 8) & 0xff) as u8);
    out.push((payload_len & 0xff) as u8);
    proof {
        assert(out@ =~= spec_size_block(md_len, payload_len));
    }
    out
}

/// Reads the metadata length from the first two bytes of a size block.
pub fn decode_md_len(block: &[u8]) -> (r: u16)
    requires
        block@.len() == 10,
    ensures
        r == spec_u16_from_be_bytes(block@.subrange(0, 2)),
{
    let b0: u8 = block[0];
    let b1: u8 = block[1];
    proof {
        assert(block@.subrange(0, 2) =~= seq![block@[0], block@[1]]);
    }
    ((b0 as u16) << 8) | (b1 as u16)
}

/// Reads the payload length from the last eight bytes of a size block.
pub fn decode_payload_len(block: &[u8]) -> (r: u64)
    requires
        block@.len() == 10,
    ensures
        r == spec_u64_from_be_bytes(block@.subrange(2, 10)),
{
    let b2: u8 = block[2];
    let b3: u8 = block[3];
    let b4: u8 = block[4];
    let b5: u8 = block[5];
    let b6: u8 = block[6];
    let b7: u8 = block[7];
    let b8: u8 = block[8];
    let b9: u8 = block[9];
    proof {
        assert(block@.subrange(2, 10) =~= seq![
            block@[2],
            block@[3],
            block@[4],
            block@[5],
            block@[6],
            block@[7],
            block@[8],
            block@[9],
        ]);
    }
    ((b2 as u64) << 56) | ((b3 as u64) << 48) | ((b4 as u64) << 40) | ((b5 as u64) << 32) | ((
    b6 as u64) << 24) | ((b7 as u64) << 16) | ((b8 as u64) << 8) | (b9 as u64)
}

/// How many bounded reads of [`READ_BLOCK_LEN`] bytes are needed to cover
/// `n` bytes: the ceiling of `n / 1024`, and `0` when `n == 0`.
pub open spec fn spec_blocks_needed(n: u64) -> u64 {
    if n % 1024 == 0 {
        (n / 1024) as u64
    } else {
        (n / 1024 + 1) as u64
    }
}

/// Number of 1024-byte blocks needed to receive `n` bytes.
pub fn blocks_needed(n: u64) -> (r: u64)
    ensures
        r == spec_blocks_needed(n),
        n == 0 ==> r == 0,
        r as int * 1024 >= n as int,
        n > 0 ==> (r as int - 1) * 1024 < n as int,
{
    let blocks: u64 = if n % 1024 == 0 {
        n / 1024
    } else {
        n / 1024 + 1
    };
    proof {
        assert(n / 1024 * 1024 + n % 1024 == n) by (nonlinear_arith);
        assert(n / 1024 * 1024 >= 0) by (nonlinear_arith);
        if n % 1024 == 0 {
            assert(blocks as int * 1024 >= n as int);
        } else {
            assert(blocks as int * 1024 == n / 1024 * 1024 + 1024) by (nonlinear_arith)
                requires
                    blocks == n / 1024 + 1,
            ;
        }
    }
    blocks
}

} // verus!
