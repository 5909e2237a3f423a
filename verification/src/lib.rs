//! SHA-256 digest of a byte sequence, as FIPS 180-4 defines it.
//!
//! The algorithm is modelled by the spec functions in [`model`]; the
//! executable functions here are proved to return exactly what that
//! model says: `sha256` returns the 32-byte digest of any message whose
//! bit length fits in 64 bits, and reports the one possible failure,
//! a length overflow, on every other message.

use vstd::prelude::*;

pub mod model;

verus! {

/// The eight initial state words of SHA-256.
pub const H256: [u32; 8] = [
    0x6a09e667, 0xbb67ae85, 0x3c6ef372, 0xa54ff53a, 0x510e527f, 0x9b05688c, 0x1f83d9ab, 0x5be0cd19,
];

/// The 64 round constants of the SHA-256 family of digests.
pub const K32: [u32; 64] = [
    0x428a2f98, 0x71374491, 0xb5c0fbcf, 0xe9b5dba5, 0x3956c25b, 0x59f111f1, 0x923f82a4, 0xab1c5ed5,
    0xd807aa98, 0x12835b01, 0x243185be, 0x550c7dc3, 0x72be5d74, 0x80deb1fe, 0x9bdc06a7, 0xc19bf174,
    0xe49b69c1, 0xefbe4786, 0x0fc19dc6, 0x240ca1cc, 0x2de92c6f, 0x4a7484aa, 0x5cb0a9dc, 0x76f988da,
    0x983e5152, 0xa831c66d, 0xb00327c8, 0xbf597fc7, 0xc6e00bf3, 0xd5a79147, 0x06ca6351, 0x14292967,
    0x27b70a85, 0x2e1b2138, 0x4d2c6dfc, 0x53380d13, 0x650a7354, 0x766a0abb, 0x81c2c92e, 0x92722c85,
    0xa2bfe8a1, 0xa81a664b, 0xc24b8b70, 0xc76c51a3, 0xd192e819, 0xd6990624, 0xf40e3585, 0x106aa070,
    0x19a4c116, 0x1e376c08, 0x2748774c, 0x34b0bcb5, 0x391c0cb3, 0x4ed8aa4a, 0x5b9cca4f, 0x682e6ff3,
    0x748f82ee, 0x78a5636f, 0x84c87814, 0x8cc70208, 0x90befffa, 0xa4506ceb, 0xbef9a3f7, 0xc67178f2,
];

/// The sum of two machine words, kept as a public entry point.
pub fn add(left: usize, right: usize) -> (r: usize)
    requires
        left + right <= usize::MAX,
    ensures
        r == left + right,
{
    left + right
}

/// Rotates a 32-bit word right by `d` bits, for `d` strictly between 0 and 32.
fn right_rotate(n: u32, d: u32) -> (r: u32)
    requires
        1 <= d < 32,
    ensures
        r == model::rotr(n, d),
{
    (n >> d) | (n << (32 - d))
}

/// Builds the padded buffer for `message`: the message itself, one
/// `0x80` byte, zero bytes up to 56 modulo 64, and the message bit
/// length as a big-endian 64-bit word. The result always ends on a
/// 64-byte boundary and is longer than the message.
pub fn pad_message(message: &[u8]) -> (r: Vec<u8>)
    requires
        message@.len() * 8 <= u64::MAX,
    ensures
        r@ == model::padded(message@),
        r@.len() % 64 == 0,
        r@.len() > message@.len(),
{
    let mut buf: Vec<u8> = Vec::new();
    let mut i: usize = 0;
    while i < message.len()
        invariant
            i <= message@.len(),
            buf@ == message@.subrange(0, i as int),
        decreases message@.len() - i,
    {
        buf.push(message[i]);
        i = i + 1;
    }
    assert(buf@ =~= message@);
    buf.push(0x80);
    let rem: usize = buf.len() % 64;
    let zeros: usize = if rem <= 56 {
        56 - rem
    } else {
        120 - rem
    };
    proof {
        model::lemma_zero_pad_len_cases(message@.len());
        assert(zeros == model::zero_pad_len(message@.len()));
    }
    let mut j: usize = 0;
    while j < zeros
        invariant
            j <= zeros,
            buf@ == message@ + seq![0x80u8] + Seq::new(j as nat, |k: int| 0u8),
        decreases zeros - j,
    {
        buf.push(0);
        j = j + 1;
        assert(buf@ =~= message@ + seq![0x80u8] + Seq::new(j as nat, |k: int| 0u8));
    }
    let bits: u64 = (message.len() as u64) * 8;
    buf.push(((bits >> 56) & 0xff) as u8);
    buf.push(((bits >> 48) & 0xff) as u8);
    buf.push(((bits >> 40) & 0xff) as u8);
    buf.push(((bits >> 32) & 0xff) as u8);
    buf.push(((bits >> 24) & 0xff) as u8);
    buf.push(((bits >> 16) & 0xff) as u8);
    buf.push(((bits >> 8) & 0xff) as u8);
    buf.push((bits & 0xff) as u8);
    proof {
        assert(buf@ =~= model::padded(message@));
        model::lemma_padded_shape(message@);
    }
    buf
}

/// The one failure the digest can report: a message whose bit length
/// does not fit the 64-bit length field of the padding.
#[derive(Clone, Copy, Debug, PartialEq, Eq, Structural)]
pub enum Sha256Error {
    LengthOverflow,
}

/// A 32-bit word read big-endian from four bytes.
fn word_from_be_bytes(b0: u8, b1: u8, b2: u8, b3: u8) -> (r: u32)
    ensures
        r == model::word_be(b0, b1, b2, b3),
{
    ((b0 as u32) << 24) | ((b1 as u32) << 16) | ((b2 as u32) << 8) | (b3 as u32)
}

/// Appends the four bytes of `x`, most significant first.
fn push_be32(out: &mut Vec<u8>, x: u32)
    ensures
        final(out)@ == old(out)@ + model::be32_bytes(x),
{
    out.push(((x >> 24) & 0xff) as u8);
    out.push(((x >> 16) & 0xff) as u8);
    out.push(((x >> 8) & 0xff) as u8);
    out.push((x & 0xff) as u8);
    assert(out@ =~= old(out)@ + model::be32_bytes(x));
}

/// The SHA-256 digest of `message`: exactly the 32 bytes that the
/// model assigns to it. Every message whose bit length fits in 64 bits
/// is hashed; any longer one is reported as a length overflow.
pub fn sha256(message: &[u8]) -> (r: Result<Vec<u8>, Sha256Error>)
    ensures
        r is Ok <==> message@.len() * 8 <= u64::MAX,
        r is Ok ==> r->Ok_0@ == model::spec_sha256(message@),
        r is Ok ==> r->Ok_0@.len() == 32,
        r is Err ==> r->Err_0 == Sha256Error::LengthOverflow,
{
    if message.len() as u64 > u64::MAX / 8 {
        return Err(Sha256Error::LengthOverflow);
    }
    let padded = pad_message(message);
    let ghost pmsg = model::padded(message@);
    let nblocks = padded.len() / 64;
    let mut h0 = H256[0];
    let mut h1 = H256[1];
    let mut h2 = H256[2];
    let mut h3 = H256[3];
    let mut h4 = H256[4];
    let mut h5 = H256[5];
    let mut h6 = H256[6];
    let mut h7 = H256[7];
    let mut blk: usize = 0;
    while blk < nblocks
        invariant
            blk <= nblocks,
            padded@ == pmsg,
            pmsg.len() <= usize::MAX,
            pmsg.len() % 64 == 0,
            nblocks == pmsg.len() / 64,
            (model::Words { a: h0, b: h1, c: h2, d: h3, e: h4, f: h5, g: h6, h: h7 })
                == model::chain(model::initial_state(), pmsg, blk as int),
        decreases nblocks - blk,
    {
        proof {
            vstd::arithmetic::div_mod::lemma_fundamental_div_mod(pmsg.len() as int, 64);
            assert(64 * (blk + 1) <= pmsg.len());
        }
        let base = blk * 64;
        let ghost block = model::block_at(pmsg, blk as int);

        // The message schedule: 16 words read from the block, 48 derived.
        let mut w: Vec<u32> = Vec::new();
        let mut t: usize = 0;
        while t < 16
            invariant
                t <= 16,
                w@.len() == t as int,
                base == 64 * blk,
                base + 64 <= padded@.len(),
                padded@ == pmsg,
                block == model::block_at(pmsg, blk as int),
                forall|x: int| 0 <= x < t ==> w@[x] == model::schedule(block, x),
            decreases 16 - t,
        {
            let wd = word_from_be_bytes(
                padded[base + 4 * t],
                padded[base + 4 * t + 1],
                padded[base + 4 * t + 2],
                padded[base + 4 * t + 3],
            );
            proof {
                assert(wd == model::schedule(block, t as int));
            }
            w.push(wd);
            t = t + 1;
        }
        let mut t: usize = 16;
        while t < 64
            invariant
                16 <= t <= 64,
                w@.len() == t as int,
                block == model::block_at(pmsg, blk as int),
                forall|x: int| 0 <= x < t ==> w@[x] == model::schedule(block, x),
            decreases 64 - t,
        {
            let s0 = right_rotate(w[t - 15], 7) ^ right_rotate(w[t - 15], 18) ^ (w[t - 15] >> 3u32);
            let s1 = right_rotate(w[t - 2], 17) ^ right_rotate(w[t - 2], 19) ^ (w[t - 2] >> 10u32);
            let wt = w[t - 16].wrapping_add(s0).wrapping_add(w[t - 7]).wrapping_add(s1);
            proof {
                assert(s0 == model::small_sigma0(w@[t - 15]));
                assert(s1 == model::small_sigma1(w@[t - 2]));
                assert(model::schedule(block, t as int) == model::schedule(block, t - 16)
                    .wrapping_add(model::small_sigma0(model::schedule(block, t - 15)))
                    .wrapping_add(model::schedule(block, t - 7))
                    .wrapping_add(model::small_sigma1(model::schedule(block, t - 2))));
            }
            w.push(wt);
            t = t + 1;
        }

        // The 64 compression rounds on the working variables.
        let ghost start = model::Words { a: h0, b: h1, c: h2, d: h3, e: h4, f: h5, g: h6, h: h7 };
        let mut a = h0;
        let mut b = h1;
        let mut c = h2;
        let mut d = h3;
        let mut e = h4;
        let mut f = h5;
        let mut g = h6;
        let mut h = h7;
        let mut i: usize = 0;
        while i < 64
            invariant
                i <= 64,
                w@.len() == 64,
                forall|x: int| 0 <= x < 64 ==> w@[x] == model::schedule(block, x),
                start == (model::Words { a: h0, b: h1, c: h2, d: h3, e: h4, f: h5, g: h6, h: h7 }),
                (model::Words { a, b, c, d, e, f, g, h }) == model::rounds(start, block, i as int),
            decreases 64 - i,
        {
            let s1 = right_rotate(e, 6) ^ right_rotate(e, 11) ^ right_rotate(e, 25);
            let ch = (e & f) ^ ((!e) & g);
            let temp1 = h.wrapping_add(s1).wrapping_add(ch).wrapping_add(K32[i]).wrapping_add(w[i]);
            let s0 = right_rotate(a, 2) ^ right_rotate(a, 13) ^ right_rotate(a, 22);
            let maj = (a & b) ^ (a & c) ^ (b & c);
            let temp2 = s0.wrapping_add(maj);
            h = g;
            g = f;
            f = e;
            e = d.wrapping_add(temp1);
            d = c;
            c = b;
            b = a;
            a = temp1.wrapping_add(temp2);
            i = i + 1;
        }

        // Fold the round result back into the carried state.
        h0 = h0.wrapping_add(a);
        h1 = h1.wrapping_add(b);
        h2 = h2.wrapping_add(c);
        h3 = h3.wrapping_add(d);
        h4 = h4.wrapping_add(e);
        h5 = h5.wrapping_add(f);
        h6 = h6.wrapping_add(g);
        h7 = h7.wrapping_add(h);
        blk = blk + 1;
        assert((model::Words { a: h0, b: h1, c: h2, d: h3, e: h4, f: h5, g: h6, h: h7 })
            == model::chain(model::initial_state(), pmsg, blk as int));
    }
    let mut out: Vec<u8> = Vec::new();
    push_be32(&mut out, h0);
    push_be32(&mut out, h1);
    push_be32(&mut out, h2);
    push_be32(&mut out, h3);
    push_be32(&mut out, h4);
    push_be32(&mut out, h5);
    push_be32(&mut out, h6);
    push_be32(&mut out, h7);
    proof {
        assert(out@ =~= model::spec_sha256(message@));
    }
    Ok(out)
}

} // verus!
