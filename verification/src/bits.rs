//! Bit-field extraction primitives: slicing, sign extension, the logical
//! bitmask-immediate expansion, and the 8-bit float immediate expansion.

use vstd::prelude::*;

verus! {

pub proof fn lemma_and_mask_le(x: u32, m: u32)
    ensures
        x & m <= m,
{
    assert(x & m <= m) by (bit_vector);
}

pub proof fn lemma_and_mask_le_u8(x: u8, m: u8)
    ensures
        x & m <= m,
{
    assert(x & m <= m) by (bit_vector);
}

/// The bit-field of `w` that starts at bit `lo`, selected by `mask`
/// (already shifted down): `field(w, 10, 0xFFF)` is bits 10..=21.
pub fn field(w: u32, lo: u32, mask: u32) -> (r: u32)
    requires
        lo < 32,
    ensures
        r == (w >> lo) & mask,
        r <= mask,
        lo == 0 ==> r == w & mask,
{
    let x = w >> lo;
    proof {
        lemma_and_mask_le(x, mask);
        assert(w >> 0u32 == w) by (bit_vector);
    }
    x & mask
}

proof fn lemma_shl1_ge1(k: u64)
    requires
        k < 64,
    ensures
        1u64 << k >= 1,
{
    assert(1u64 << k >= 1) by (bit_vector)
        requires
            k < 64,
    ;
}

/// The value of the low bits of `x` read as a two's-complement number,
/// where `half` is 2 to the power of (width - 1).
pub open spec fn sval(x: u32, half: u32) -> int {
    if x >= half {
        x - 2 * half
    } else {
        x as int
    }
}

/// Sign-extend an already-masked `width`-bit field; `half` is
/// 2 to the power of (width - 1).
pub fn sign_extend(x: u32, half: u32) -> (r: i64)
    requires
        1 <= half <= 0x4000_0000,
        x < 2 * half,
    ensures
        r == sval(x, half),
        -(half as int) <= r < half,
{
    if x >= half {
        (x as i64) - 2 * (half as i64)
    } else {
        x as i64
    }
}

/// Addition modulo 2^64.
pub fn wrap_add64(a: u64, b: u64) -> (r: u64)
    ensures
        r == (a + b) % 0x1_0000_0000_0000_0000,
{
    (((a as u128) + (b as u128)) % 0x1_0000_0000_0000_0000u128) as u64
}

/// A run of `n` one bits in the low positions.
pub open spec fn spec_ones(n: u32) -> u64 {
    ((1u64 << (n as u64)) - 1) as u64
}

/// All-ones mask of an element of `esize` bits (2..=64).
pub open spec fn spec_emask(esize: u32) -> u64 {
    if esize >= 64 {
        0xFFFF_FFFF_FFFF_FFFFu64
    } else {
        spec_ones(esize)
    }
}

/// Rotate an `esize`-bit element right by `r` bits.
pub open spec fn spec_ror(e: u64, r: u32, esize: u32) -> u64 {
    if r == 0 {
        e
    } else {
        (e >> (r as u64)) | ((e << (((esize - r) as u64)) & spec_emask(esize)) as u64)
    }
}

/// An `esize`-bit element repeated `count` times, filling the low
/// `count * esize` bits.
pub open spec fn spec_replicate(e: u64, esize: u32, count: u32) -> u64
    decreases count,
{
    if count == 0 {
        0u64
    } else {
        spec_replicate(e, esize, (count - 1) as u32) | (e << ((((count - 1) * esize) as u64)))
    }
}

/// The element size and repeat count selected by the N bit and the imms
/// field of a logical bitmask immediate; (0, 0) marks the reserved pattern.
pub open spec fn spec_esize_count(n: u32, imms: u32) -> (u32, u32) {
    if n == 1 {
        (64u32, 1u32)
    } else if (imms >> 5) & 1 == 0 {
        (32u32, 2u32)
    } else if (imms >> 4) & 1 == 0 {
        (16u32, 4u32)
    } else if (imms >> 3) & 1 == 0 {
        (8u32, 8u32)
    } else if (imms >> 2) & 1 == 0 {
        (4u32, 16u32)
    } else if (imms >> 1) & 1 == 0 {
        (2u32, 32u32)
    } else {
        (0u32, 0u32)
    }
}

/// The 64-bit wmask of the architecture's bitmask-immediate expansion:
/// a run of imms+1 ones (within the element), rotated right by immr and
/// replicated to 64 bits; `None` for the reserved patterns.
pub open spec fn spec_decode_bitmask(n: u32, immr: u32, imms: u32) -> Option<u64> {
    let (esize, count) = spec_esize_count(n, imms);
    if esize == 0 {
        None
    } else {
        let levels = (esize - 1) as u32;
        let s = imms & levels;
        let r = immr & levels;
        if s == levels {
            None
        } else {
            let welem = spec_ones((s + 1) as u32);
            Some(spec_replicate(spec_ror(welem, r, esize), esize, count))
        }
    }
}

fn replicate(e: u64, esize: u32, count: u32) -> (r: u64)
    requires
        1 <= esize,
        count * esize == 64,
    ensures
        r == spec_replicate(e, esize, count),
{
    let mut acc: u64 = 0;
    let mut i: u32 = 0;
    while i < count
        invariant
            i <= count,
            1 <= esize,
            count * esize == 64,
            acc == spec_replicate(e, esize, i),
        decreases count - i,
    {
        proof {
            assert(i * esize + esize <= count * esize) by (nonlinear_arith)
                requires
                    i < count,
                    1 <= esize,
            ;
        }
        let sh: u32 = i * esize;
        acc = acc | (e << (sh as u64));
        i = i + 1;
    }
    acc
}

/// Expand a logical-immediate N:immr:imms triple to its 64-bit bitmask;
/// `None` when the combination is reserved.
pub fn decode_bitmask(n: u32, immr: u32, imms: u32) -> (r: Option<u64>)
    requires
        n <= 1,
        immr <= 63,
        imms <= 63,
    ensures
        r == spec_decode_bitmask(n, immr, imms),
{
    let (esize, count): (u32, u32) = if n == 1 {
        (64, 1)
    } else if (imms >> 5) & 1 == 0 {
        (32, 2)
    } else if (imms >> 4) & 1 == 0 {
        (16, 4)
    } else if (imms >> 3) & 1 == 0 {
        (8, 8)
    } else if (imms >> 2) & 1 == 0 {
        (4, 16)
    } else if (imms >> 1) & 1 == 0 {
        (2, 32)
    } else {
        (0, 0)
    };
    if esize == 0 {
        return None;
    }
    let levels: u32 = esize - 1;
    proof {
        lemma_and_mask_le(imms, levels);
        lemma_and_mask_le(immr, levels);
    }
    let s: u32 = imms & levels;
    let r: u32 = immr & levels;
    if s == levels {
        return None;
    }
    proof {
        lemma_shl1_ge1((s + 1) as u64);
        if esize < 64 {
            lemma_shl1_ge1(esize as u64);
        }
    }
    let welem: u64 = (1u64 << ((s + 1) as u64)) - 1;
    let emask: u64 = if esize >= 64 {
        0xFFFF_FFFF_FFFF_FFFF
    } else {
        (1u64 << (esize as u64)) - 1
    };
    let rot: u64 = if r == 0 {
        welem
    } else {
        (welem >> (r as u64)) | ((welem << ((esize - r) as u64)) & emask)
    };
    Some(replicate(rot, esize, count))
}

/// The IEEE 754 double-precision bit pattern denoted by an 8-bit float
/// immediate (sign, 3-bit exponent, 4-bit fraction).
pub open spec fn spec_vfp_expand_imm(imm8: u32) -> u64 {
    let sign = ((imm8 >> 7) & 1) as u64;
    let b6 = ((imm8 >> 6) & 1) as u64;
    let exp = ((((1 - b6) * 0x400) + (b6 * 0x3FC) + (((imm8 >> 4) & 3) as u64)) as u64);
    let frac = ((imm8 & 0xF) as u64);
    (((sign * 0x8000_0000_0000_0000) + (exp * 0x10_0000_0000_0000) + (frac * 0x1_0000_0000_0000))
        as u64)
}

/// Expand an 8-bit float immediate to double-precision bits.
pub fn vfp_expand_imm(imm8: u32) -> (r: u64)
    requires
        imm8 <= 0xFF,
    ensures
        r == spec_vfp_expand_imm(imm8),
{
    proof {
        lemma_and_mask_le(imm8 >> 7, 1);
        lemma_and_mask_le(imm8 >> 6, 1);
        lemma_and_mask_le(imm8 >> 4, 3);
        lemma_and_mask_le(imm8, 0xF);
    }
    let sign: u64 = ((imm8 >> 7) & 1) as u64;
    let b6: u64 = ((imm8 >> 6) & 1) as u64;
    let exp: u64 = ((1 - b6) * 0x400) + (b6 * 0x3FC) + (((imm8 >> 4) & 3) as u64);
    let frac: u64 = (imm8 & 0xF) as u64;
    (sign * 0x8000_0000_0000_0000) + (exp * 0x10_0000_0000_0000) + (frac * 0x1_0000_0000_0000)
}

} // verus!
