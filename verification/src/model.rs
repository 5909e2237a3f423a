//! The mathematical model of SHA-256: padding, message-schedule
//! expansion, the 64-round compression, and the big-endian digest
//! serialization, written as spec functions over byte and word
//! sequences. The executable functions in the crate root are proved
//! against these definitions.

use vstd::prelude::*;

verus! {

/// Right rotation of a 32-bit word by `d` bits.
pub open spec fn rotr(x: u32, d: u32) -> u32
    recommends
        1 <= d < 32,
{
    (x >> d) | (x << ((32 - d) as u32))
}

/// The mixing function applied to word `i - 15` of the schedule.
pub open spec fn small_sigma0(x: u32) -> u32 {
    rotr(x, 7) ^ rotr(x, 18) ^ (x >> 3u32)
}

/// The mixing function applied to word `i - 2` of the schedule.
pub open spec fn small_sigma1(x: u32) -> u32 {
    rotr(x, 17) ^ rotr(x, 19) ^ (x >> 10u32)
}

/// The mixing function applied to working variable `a` in each round.
pub open spec fn big_sigma0(x: u32) -> u32 {
    rotr(x, 2) ^ rotr(x, 13) ^ rotr(x, 22)
}

/// The mixing function applied to working variable `e` in each round.
pub open spec fn big_sigma1(x: u32) -> u32 {
    rotr(x, 6) ^ rotr(x, 11) ^ rotr(x, 25)
}

/// The choice function of a compression round: each bit of `e` selects
/// the corresponding bit of `f` or of `g`.
pub open spec fn ch(e: u32, f: u32, g: u32) -> u32 {
    (e & f) ^ ((!e) & g)
}

/// The majority function of a compression round.
pub open spec fn maj(a: u32, b: u32, c: u32) -> u32 {
    (a & b) ^ (a & c) ^ (b & c)
}

/// A 32-bit word read big-endian from four bytes.
pub open spec fn word_be(b0: u8, b1: u8, b2: u8, b3: u8) -> u32 {
    ((b0 as u32) << 24u32) | ((b1 as u32) << 16u32) | ((b2 as u32) << 8u32) | (b3 as u32)
}

/// The four bytes of a 32-bit word, most significant first.
pub open spec fn be32_bytes(x: u32) -> Seq<u8> {
    seq![
        ((x >> 24u32) & 0xff) as u8,
        ((x >> 16u32) & 0xff) as u8,
        ((x >> 8u32) & 0xff) as u8,
        (x & 0xff) as u8,
    ]
}

/// The eight bytes of a 64-bit word, most significant first.
pub open spec fn be64_bytes(x: u64) -> Seq<u8> {
    seq![
        ((x >> 56u64) & 0xff) as u8,
        ((x >> 48u64) & 0xff) as u8,
        ((x >> 40u64) & 0xff) as u8,
        ((x >> 32u64) & 0xff) as u8,
        ((x >> 24u64) & 0xff) as u8,
        ((x >> 16u64) & 0xff) as u8,
        ((x >> 8u64) & 0xff) as u8,
        (x & 0xff) as u8,
    ]
}

/// How many zero bytes the padding inserts between the `0x80` byte and
/// the 8-byte length field: the least count that brings the total
/// length to 56 modulo 64.
pub open spec fn zero_pad_len(msg_len: nat) -> int {
    (56 - ((msg_len + 1) % 64)) % 64
}

/// The padded message: the message itself, one `0x80` byte, zero bytes
/// up to 56 modulo 64, and the message bit length as a big-endian
/// 64-bit word.
pub open spec fn padded(msg: Seq<u8>) -> Seq<u8> {
    msg + seq![0x80u8] + Seq::new(zero_pad_len(msg.len()) as nat, |i: int| 0u8) + be64_bytes(
        (msg.len() * 8) as u64,
    )
}

/// The zero-byte count, written out as the two cases on where the
/// `0x80` byte leaves the buffer relative to the next 56-mod-64 mark.
pub proof fn lemma_zero_pad_len_cases(l: nat)
    ensures
        (l + 1) % 64 <= 56 ==> zero_pad_len(l) == 56 - ((l + 1) % 64),
        (l + 1) % 64 > 56 ==> zero_pad_len(l) == 120 - ((l + 1) % 64),
        0 <= zero_pad_len(l) < 64,
{
    let r = ((l + 1) as int) % 64;
    vstd::arithmetic::div_mod::lemma_mod_bound((l + 1) as int, 64);
    if r <= 56 {
        vstd::arithmetic::div_mod::lemma_small_mod((56 - r) as nat, 64);
    } else {
        vstd::arithmetic::div_mod::lemma_mod_multiples_vanish(-1, 56 - r + 64, 64);
        vstd::arithmetic::div_mod::lemma_small_mod((56 - r + 64) as nat, 64);
    }
}

/// For every message, the padded buffer's length is a multiple of 64
/// bytes and strictly greater than the message's length.
pub proof fn lemma_padded_shape(msg: Seq<u8>)
    ensures
        padded(msg).len() % 64 == 0,
        padded(msg).len() > msg.len(),
{
    let l = msg.len() as int;
    let r = (l + 1) % 64;
    let z = zero_pad_len(msg.len());
    lemma_zero_pad_len_cases(msg.len());
    vstd::arithmetic::div_mod::lemma_fundamental_div_mod(l + 1, 64);
    let q = (l + 1) / 64;
    assert(padded(msg).len() == l + 1 + z + 8);
    if r <= 56 {
        assert(l + 1 + z + 8 == 64 * (q + 1));
        vstd::arithmetic::div_mod::lemma_mod_multiples_vanish(q + 1, 0, 64);
    } else {
        assert(l + 1 + z + 8 == 64 * (q + 2));
        vstd::arithmetic::div_mod::lemma_mod_multiples_vanish(q + 2, 0, 64);
    }
}

/// The 64-byte block of `data` with index `j`.
pub open spec fn block_at(data: Seq<u8>, j: int) -> Seq<u8>
    recommends
        0 <= j,
        64 * j + 64 <= data.len(),
{
    data.subrange(64 * j, 64 * j + 64)
}

/// Word `i` of a block's message schedule: for `i` below 16 the word is
/// read big-endian from the block, after that it is derived from four
/// earlier schedule words, with wrapping additions.
pub open spec fn schedule(block: Seq<u8>, i: int) -> u32
    recommends
        block.len() == 64,
        0 <= i < 64,
    decreases i,
{
    if i < 16 {
        word_be(block[4 * i], block[4 * i + 1], block[4 * i + 2], block[4 * i + 3])
    } else {
        schedule(block, i - 16).wrapping_add(small_sigma0(schedule(block, i - 15))).wrapping_add(
            schedule(block, i - 7),
        ).wrapping_add(small_sigma1(schedule(block, i - 2)))
    }
}

/// The eight working variables of the compression function, and equally
/// the eight words of the running state between blocks.
pub struct Words {
    pub a: u32,
    pub b: u32,
    pub c: u32,
    pub d: u32,
    pub e: u32,
    pub f: u32,
    pub g: u32,
    pub h: u32,
}

/// One compression round: the shift register step driven by the round
/// constant `k` and the schedule word `wi`.
pub open spec fn round_step(s: Words, k: u32, wi: u32) -> Words {
    let t1 = s.h.wrapping_add(big_sigma1(s.e)).wrapping_add(ch(s.e, s.f, s.g)).wrapping_add(
        k,
    ).wrapping_add(wi);
    let t2 = big_sigma0(s.a).wrapping_add(maj(s.a, s.b, s.c));
    Words {
        a: t1.wrapping_add(t2),
        b: s.a,
        c: s.b,
        d: s.c,
        e: s.d.wrapping_add(t1),
        f: s.e,
        g: s.f,
        h: s.g,
    }
}

/// The working variables after the first `n` rounds on `block`,
/// starting from `init`.
pub open spec fn rounds(init: Words, block: Seq<u8>, n: int) -> Words
    recommends
        block.len() == 64,
        0 <= n <= 64,
    decreases n,
{
    if n <= 0 {
        init
    } else {
        round_step(rounds(init, block, n - 1), crate::K32[n - 1], schedule(block, n - 1))
    }
}

/// One full block compression: 64 rounds, then the working variables
/// added back into the carried state, wrapping.
pub open spec fn compress_block(state: Words, block: Seq<u8>) -> Words
    recommends
        block.len() == 64,
{
    let r = rounds(state, block, 64);
    Words {
        a: state.a.wrapping_add(r.a),
        b: state.b.wrapping_add(r.b),
        c: state.c.wrapping_add(r.c),
        d: state.d.wrapping_add(r.d),
        e: state.e.wrapping_add(r.e),
        f: state.f.wrapping_add(r.f),
        g: state.g.wrapping_add(r.g),
        h: state.h.wrapping_add(r.h),
    }
}

/// The running state after the first `n` blocks of `data`, starting
/// from `state`.
pub open spec fn chain(state: Words, data: Seq<u8>, n: int) -> Words
    recommends
        0 <= n,
        64 * n <= data.len(),
    decreases n,
{
    if n <= 0 {
        state
    } else {
        compress_block(chain(state, data, n - 1), block_at(data, n - 1))
    }
}

/// The fixed initial state of the working words.
pub open spec fn initial_state() -> Words {
    Words {
        a: crate::H256[0],
        b: crate::H256[1],
        c: crate::H256[2],
        d: crate::H256[3],
        e: crate::H256[4],
        f: crate::H256[5],
        g: crate::H256[6],
        h: crate::H256[7],
    }
}

/// The 32 digest bytes: the eight state words serialized big-endian,
/// in order.
pub open spec fn state_bytes(s: Words) -> Seq<u8> {
    be32_bytes(s.a) + be32_bytes(s.b) + be32_bytes(s.c) + be32_bytes(s.d) + be32_bytes(s.e)
        + be32_bytes(s.f) + be32_bytes(s.g) + be32_bytes(s.h)
}

/// The SHA-256 digest of a message: the padded message compressed block
/// by block from the initial state, then serialized.
pub open spec fn spec_sha256(msg: Seq<u8>) -> Seq<u8> {
    let p = padded(msg);
    state_bytes(chain(initial_state(), p, p.len() as int / 64))
}

/// Every digest is exactly 32 bytes long.
pub proof fn lemma_digest_len(msg: Seq<u8>)
    ensures
        spec_sha256(msg).len() == 32,
{
}

/// The digest is a function of the message bytes alone: repeated
/// hashing of identical input yields byte-identical output.
pub proof fn lemma_sha256_deterministic(m1: Seq<u8>, m2: Seq<u8>)
    requires
        m1 == m2,
    ensures
        spec_sha256(m1) == spec_sha256(m2),
{
}

} // verus!

