//! Tests for the decoder's stated properties: totality, determinism,
//! register-31 disjointness, alias condition inversion, addressing-mode
//! completeness, branch offset normalization, move canonicalization and
//! hint canonicalization.

use a64dec::decode;
use a64dec::model::{
    get_addrmode, get_cond, get_va, AddrMode, Cond, FlagMasks, Inst, Op, Payload, Reg,
    VectorArrangement, FLAG_W32,
};

/// A spread of words from every class, plus corner words.
fn sample_words() -> Vec<u32> {
    vec![
        0x0000_0000,
        0xFFFF_FFFF,
        0x0000_DEAD,
        0x00FF_0000,
        0x0400_0000,
        0x1000_0040,
        0xB000_0000,
        0x9100_1020,
        0x3200_3FE0,
        0x529F_FFE0,
        0x12BF_FFE0,
        0xD37C_EC20,
        0x93C1_2020,
        0x5400_0040,
        0xD503_201F,
        0xD503_203F,
        0xB400_00A0,
        0x1400_0002,
        0xDA81_B420,
        0x9B02_7C20,
        0xC85F_FC20,
        0xA941_07E0,
        0xF821_0040,
        0xF940_0420,
        0x5800_0040,
        0x1E22_2820,
        0x4EA2_8420,
        0x4F07_E7E0,
        0x4C40_7020,
        0x7E30_3820,
        0x2EF7_8A31,
    ]
}

#[test]
fn totality_every_word_yields_one_outcome() {
    // A word is either a valid instruction, the undefined-instruction
    // opcode, the no-defined-instruction sentinel (raw word kept), or the
    // recognized-but-unresolved sentinel (reason kept). A sweep over a
    // spread of the word space, including both all-zero and all-one words,
    // must never panic and must keep the diagnostics invariants.
    let mut words = sample_words();
    let mut x: u32 = 0x1234_5678;
    for _ in 0..20000 {
        // xorshift to spray pseudo-random words across the space
        x ^= x << 13;
        x ^= x >> 17;
        x ^= x << 5;
        words.push(x);
    }
    for w in words {
        let i = decode(w, 0x4000_0000);
        if i.op == Op::A64_UNKNOWN {
            assert_eq!(i.imm, w as u64, "raw word must be kept for {w:#010x}");
        }
        if i.op == Op::A64_ERROR {
            match i.aux {
                Payload::Reason(why) => assert!(!why.text().is_empty()),
                _ => panic!("an unresolved word must carry its reason"),
            }
        }
    }
}

#[test]
fn determinism_same_word_same_address_same_record() {
    for w in sample_words() {
        let a: Inst = decode(w, 0x1000);
        let b: Inst = decode(w, 0x1000);
        assert_eq!(a, b, "decoding {w:#010x} twice must agree bit for bit");
    }
}

#[test]
fn register31_disjointness() {
    // Zero-register reading: cbz x31 (i.e. xzr) never yields StackPointer.
    let i = decode(0xB400_001F, 0);
    assert_eq!(i.op, Op::A64_CBZ);
    assert_eq!(i.rd, Reg::ZeroRegister);
    // Stack-pointer reading: ldr x0, [sp] never yields ZeroRegister.
    let j = decode(0xF940_03E0, 0);
    assert_eq!(j.op, Op::A64_LDR);
    assert_eq!(j.rn, Reg::StackPointer);
    // cmp x0, #1: the discarded destination is the zero register.
    let k = decode(0xF100_041F, 0);
    assert_eq!(k.rd, Reg::ZeroRegister);
    // mov x0, sp: both sides resolve 31 as the stack pointer.
    let l = decode(0x9100_03E0, 0);
    assert_eq!(l.rn, Reg::StackPointer);
    // Ordinary indices pass through unchanged.
    let m = decode(0xB400_00A5, 0); // cbz x5, +20
    assert_eq!(m.rd, Reg::Ordinary(5));
}

#[test]
fn csel_alias_condition_inversion() {
    // csneg x0, x1, x1, lt: equal sources, invertible condition -> the
    // CNEG alias with the stored condition inverted to GE.
    let i = decode(0xDA81_B420, 0);
    assert_eq!(i.op, Op::A64_CNEG);
    assert_eq!(get_cond(i.flags), Cond::COND_GE);
    assert_eq!(i.rn, Reg::Ordinary(1));
    assert_eq!(i.rm, Reg::Ordinary(1));
    // csneg x0, x1, x2, lt: differing sources -> the plain opcode with the
    // raw condition unchanged.
    let j = decode(0xDA82_B420, 0);
    assert_eq!(j.op, Op::A64_CSNEG);
    assert_eq!(get_cond(j.flags), Cond::COND_LT);
    // csinc x0, xzr, xzr, eq (assemblers write it as cset x0, ne).
    let k = decode(0x9A9F_07E0, 0);
    assert_eq!(k.op, Op::A64_CSET);
    assert_eq!(get_cond(k.flags), Cond::COND_NE);
    // csinc with a non-invertible condition stays csinc.
    // csinc x0, x1, x1, al
    let l = decode(0x9A81_E420, 0);
    assert_eq!(l.op, Op::A64_CSINC);
    assert_eq!(get_cond(l.flags), Cond::COND_AL);
}

#[test]
fn addressing_mode_completeness() {
    // Each of the seven addressing modes is reachable and recorded.
    // AM_SIMPLE: ldar x0, [x1]
    let simple = decode(0xC8DF_FC20, 0);
    assert_eq!(simple.op, Op::A64_LDR);
    assert_eq!(get_addrmode(simple.flags), AddrMode::AM_SIMPLE);
    // AM_OFF_IMM: ldr x0, [x1, #8]
    let imm = decode(0xF940_0420, 0);
    assert_eq!(get_addrmode(imm.flags), AddrMode::AM_OFF_IMM);
    assert_eq!(imm.offset, 8);
    // AM_OFF_REG: ldr x0, [x1, x2]
    let reg = decode(0xF862_6820, 0);
    assert_eq!(get_addrmode(reg.flags), AddrMode::AM_OFF_REG);
    assert_eq!(reg.rm, Reg::Ordinary(2));
    // AM_OFF_EXT: ldr x0, [x1, w2, sxtw]
    let ext = decode(0xF862_C820, 0);
    assert_eq!(get_addrmode(ext.flags), AddrMode::AM_OFF_EXT);
    // AM_PRE: ldr x0, [x1, #8]!
    let pre = decode(0xF840_8C20, 0);
    assert_eq!(get_addrmode(pre.flags), AddrMode::AM_PRE);
    assert_eq!(pre.offset, 8);
    // AM_POST: ldr x0, [x1], #8
    let post = decode(0xF840_8420, 0);
    assert_eq!(get_addrmode(post.flags), AddrMode::AM_POST);
    assert_eq!(post.offset, 8);
    // AM_LITERAL: ldr x0, #+8
    let lit = decode(0x5800_0040, 0);
    assert_eq!(get_addrmode(lit.flags), AddrMode::AM_LITERAL);
    assert_eq!(lit.offset, 8);
}

#[test]
fn branch_offset_unit_normalization() {
    // cbz x0, +5 words decodes to a byte offset of +20.
    let i = decode(0xB400_00A0, 0);
    assert_eq!(i.op, Op::A64_CBZ);
    assert_eq!(i.offset, 20);
    // cbnz w1, +2 words -> +8 bytes.
    let j = decode(0x3500_0041, 0);
    assert_eq!(j.op, Op::A64_CBNZ);
    assert_eq!(j.offset, 8);
    assert_eq!(j.flags & FLAG_W32, FLAG_W32);
}

#[test]
fn move_encodings_round_trip_to_one_opcode() {
    // Three different encodings whose result is the 32-bit value 0xFFFF:
    // movz w0, #0xffff; movn w0, #0xffff, lsl #16; orr w0, wzr, #0xffff.
    // All three decode to the canonical move-immediate with the identical
    // resulting value, although their raw encodings differ entirely.
    let movz = decode(0x529F_FFE0, 0);
    let movn = decode(0x12BF_FFE0, 0);
    let bitmask = decode(0x3200_3FE0, 0);
    for i in [&movz, &movn, &bitmask] {
        assert_eq!(i.op, Op::A64_MOV_IMM);
        assert_eq!(i.imm, 0xFFFF);
        assert_eq!(i.rd, Reg::Ordinary(0));
    }
}

#[test]
fn allocated_hints_canonicalize_to_one_opcode() {
    // nop, yield, wfe, wfi, sev, sevl
    for w in [0xD503_201Fu32, 0xD503_203F, 0xD503_205F, 0xD503_207F, 0xD503_209F, 0xD503_20BF] {
        let i = decode(w, 0);
        assert_eq!(i.op, Op::A64_HINT, "hint {w:#010x} must canonicalize");
    }
}

#[test]
fn flags_attribute_masks() {
    assert_eq!(FlagMasks::W32.bit(), 0x01);
    assert_eq!(FlagMasks::SET_FLAGS.bit(), 0x02);
    assert_eq!(FlagMasks::SIMD_SCALAR.bit(), 0x20);
    assert_eq!(FlagMasks::SIMD_SIGNED.bit(), 0x40);
    assert_eq!(FlagMasks::SIMD_ROUND.bit(), 0x80);
}

#[test]
fn empty_record_defaults() {
    let e = Inst::empty();
    assert_eq!(e.op, Op::A64_UNKNOWN);
    assert_eq!(e.flags, 0);
    assert_eq!(e.rd, Reg::ZeroRegister);
    assert_eq!(e.imm, 0);
    assert_eq!(e.offset, 0);
    assert_eq!(e.aux, Payload::Empty);
}

#[test]
fn vector_arrangement_is_one_value() {
    // add v0.2d, v1.2d, v2.2d: element width and total width decode into
    // the single arrangement value 2D.
    let i = decode(0x4EE2_8420, 0);
    assert_eq!(i.op, Op::A64_ADD_VEC);
    assert_eq!(get_va(i.flags), VectorArrangement::VA_2D);
    // add v0.2s, v1.2s, v2.2s: the 64-bit-wide form of the same element.
    let j = decode(0x0EA2_8420, 0);
    assert_eq!(get_va(j.flags), VectorArrangement::VA_2S);
}
