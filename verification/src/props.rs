//! Laws the decoder obeys, stated over the decode contract and proved.
//! Each law quantifies over every word of the family it speaks of, not
//! over chosen examples.

use vstd::prelude::*;
use crate::decode_post;
use crate::is_udf_word;
use crate::branches::{
    is_hint_word, is_cbz_word, is_b_word, is_bcond_word, is_tbz_word, is_exception_word,
    is_system_word, is_br_word,
};
use crate::dp_imm::{
    is_movewide_word, is_logimm_word, is_addsub_imm_word, is_pcrel_word, is_bitfield_word,
    is_extract_word,
};
use crate::dp_reg::{
    is_csel_word, is_logshift_word, is_addsub_shifted_word, is_addsub_ext_word,
    is_carry_flags_word, is_ccmp_word, is_one_two_source_word, is_three_source_word,
};
use crate::ldst::{
    is_ldr_lit_word, is_exclusive_word, is_pair_word, is_regform_word, is_atomic_word,
    is_simd_struct_word,
};
use crate::fpsimd::{
    is_fp_scalar_word, is_fp_3src_word, is_vec_three_same_word, is_vec_copy_word,
    is_vec_modimm_word,
};
use crate::bits::{sval, spec_decode_bitmask};
use crate::model::{
    Inst, Op, Payload, Reg, Tbz, AddrMode, FPSize, Size, spec_gpr_zr, spec_gpr_sp, spec_get_cond,
    spec_invert_cond, cond_of, lemma_cond_roundtrip, spec_get_addrmode, lemma_addrmode_roundtrip,
    spec_with_prec, spec_with_size, FLAG_W32, FLAG_LDST_SEXT,
};

verus! {

/// Register-31 disjointness: the two readings of register number 31 are
/// never conflated. A zero-register operand is never the stack-pointer
/// identity and vice versa, ordinary numbers pass through unchanged, and
/// neither reading ever yields a raw ordinary 31.
pub proof fn lemma_reg31_disjoint(n: u32)
    requires
        n <= 31,
    ensures
        spec_gpr_zr(n) != Reg::StackPointer,
        spec_gpr_sp(n) != Reg::ZeroRegister,
        n < 31 ==> spec_gpr_zr(n) == Reg::Ordinary(n as u8) && spec_gpr_sp(n) == Reg::Ordinary(
            n as u8,
        ),
        spec_gpr_zr(31) == Reg::ZeroRegister,
        spec_gpr_sp(31) == Reg::StackPointer,
        spec_gpr_zr(n) != Reg::Ordinary(31),
        spec_gpr_sp(n) != Reg::Ordinary(31),
{
}

/// Register-31 disjointness at the decoder: in the add/subtract-immediate
/// family, the base register reads 31 as the stack pointer and never as
/// the zero register, the destination of a flag-setting form that discards
/// its result is the zero register and never the stack pointer, and no
/// operand ever surfaces as a raw ordinary 31.
pub proof fn lemma_reg31_roles_in_addsub_imm(w: u32, addr: u64, r: Inst)
    requires
        decode_post(w, addr, r),
        is_addsub_imm_word(w),
    ensures
        r.rn != Reg::ZeroRegister,
        (w >> 5) & 0x1F == 31 ==> r.rn == Reg::StackPointer,
        (w >> 29) & 1 == 1 && w & 0x1F == 31 ==> r.rd == Reg::ZeroRegister,
        (w >> 29) & 1 == 1 ==> r.rd != Reg::StackPointer,
        r.rd != Reg::Ordinary(31),
        r.rn != Reg::Ordinary(31),
{
    crate::bits::lemma_and_mask_le(w, 0x1F);
    crate::bits::lemma_and_mask_le(w >> 5, 0x1F);
}

/// Determinism on the functionally pinned classes and families: wherever
/// the decode contract determines the whole record as a function of the
/// word (the reserved, unallocated and SVE classes; every branch, system
/// and exception family; the whole data-processing immediate and register
/// classes; literal loads; the scalar floating-point space; and the vector
/// three-same, copy and modified-immediate families), any two records
/// decoded from the same word are equal.
pub proof fn lemma_decode_deterministic_pinned(w: u32, addr: u64, r1: Inst, r2: Inst)
    requires
        decode_post(w, addr, r1),
        decode_post(w, addr, r2),
        (w >> 25) & 0xF <= 3 || is_udf_word(w) || is_hint_word(w) || is_cbz_word(w) || is_b_word(w)
            || is_bcond_word(w) || is_tbz_word(w) || is_exception_word(w) || is_system_word(w)
            || is_br_word(w) || is_movewide_word(w) || is_logimm_word(w) || is_addsub_imm_word(w)
            || is_pcrel_word(w) || is_bitfield_word(w) || is_extract_word(w) || is_csel_word(w)
            || is_logshift_word(w) || is_addsub_shifted_word(w) || is_addsub_ext_word(w)
            || is_carry_flags_word(w) || is_ccmp_word(w) || is_one_two_source_word(w)
            || is_three_source_word(w) || is_ldr_lit_word(w) || is_fp_scalar_word(w)
            || is_fp_3src_word(w) || is_vec_three_same_word(w) || is_vec_copy_word(w)
            || is_vec_modimm_word(w),
    ensures
        r1 == r2,
{
}

/// Addressing-mode recording: every successfully decoded load/store writes
/// into the attributes word the one addressing mode matching the offset
/// fields its family populates (the literal leg, with its byte offset, is
/// stated separately below).
pub proof fn lemma_addressing_modes_recorded(w: u32, addr: u64, r: Inst)
    requires
        decode_post(w, addr, r),
        r.op != Op::A64_UNKNOWN,
        r.op != Op::A64_ERROR,
    ensures
        is_exclusive_word(w) || is_atomic_word(w) ==> spec_get_addrmode(r.flags)
            == AddrMode::AM_SIMPLE,
        is_pair_word(w) ==> spec_get_addrmode(r.flags) == (if (w >> 23) & 3 == 1 {
            AddrMode::AM_POST
        } else if (w >> 23) & 3 == 3 {
            AddrMode::AM_PRE
        } else {
            AddrMode::AM_OFF_IMM
        }),
        is_regform_word(w) && !is_atomic_word(w) ==> spec_get_addrmode(r.flags) == (if (w >> 24) & 1
            == 1 {
            AddrMode::AM_OFF_IMM
        } else if (w >> 21) & 1 == 1 {
            if (w >> 13) & 7 == 3 {
                AddrMode::AM_OFF_REG
            } else {
                AddrMode::AM_OFF_EXT
            }
        } else if (w >> 10) & 3 == 1 {
            AddrMode::AM_POST
        } else if (w >> 10) & 3 == 3 {
            AddrMode::AM_PRE
        } else {
            AddrMode::AM_OFF_IMM
        }),
        is_simd_struct_word(w) ==> spec_get_addrmode(r.flags) == (if (w >> 23) & 1 == 1 {
            AddrMode::AM_POST
        } else {
            AddrMode::AM_SIMPLE
        }),
{
}

/// Register-31 disjointness at the loads and stores: in every family the
/// base register reads 31 as the stack pointer and never as the zero
/// register, and the exclusive/atomic transfer register reads 31 as the
/// zero register and never as the stack pointer.
pub proof fn lemma_reg31_roles_in_loads_stores(w: u32, addr: u64, r: Inst)
    requires
        decode_post(w, addr, r),
        r.op != Op::A64_UNKNOWN,
        r.op != Op::A64_ERROR,
    ensures
        (is_exclusive_word(w) || is_atomic_word(w) || is_pair_word(w) || is_regform_word(w)
            || is_simd_struct_word(w)) ==> r.rn != Reg::ZeroRegister,
        (is_exclusive_word(w) || is_atomic_word(w) || is_pair_word(w) || is_regform_word(w)
            || is_simd_struct_word(w)) && (w >> 5) & 0x1F == 31 ==> r.rn == Reg::StackPointer,
        is_exclusive_word(w) || is_atomic_word(w) ==> r.rd != Reg::StackPointer,
{
}

/// Hint canonicalization: every word in the hint space (NOP, YIELD, WFE,
/// ...) decodes to the single canonical no-op hint opcode.
pub proof fn lemma_hint_canonical(w: u32, addr: u64, r: Inst)
    requires
        decode_post(w, addr, r),
        is_hint_word(w),
    ensures
        r.op == Op::A64_HINT,
{
}

/// Branch offset unit normalization: a compare-and-branch word with raw
/// signed word-offset k decodes to the byte offset 4k, and likewise for
/// the unconditional immediate branches.
pub proof fn lemma_branch_offset_bytes(w: u32, addr: u64, r: Inst)
    requires
        decode_post(w, addr, r),
    ensures
        is_cbz_word(w) ==> r.offset == 4 * sval((w >> 5) & 0x7FFFF, 0x40000),
        is_b_word(w) ==> r.offset == 4 * sval(w & 0x3FF_FFFF, 0x200_0000),
        is_bcond_word(w) && (w >> 4) & 1 == 0 ==> r.offset == 4 * sval((w >> 5) & 0x7FFFF, 0x40000),
        is_tbz_word(w) ==> r.aux == Payload::Tbz(
            Tbz {
                offset: (4 * sval((w >> 5) & 0x3FFF, 0x2000)) as i32,
                bit: (((w >> 31) & 1) * 32 + ((w >> 19) & 0x1F)) as u32,
            },
        ),
{
}

/// Move canonicalization: every MOVZ and MOVN encoding (the moves whose
/// result is precomputable) decodes to the one canonical move-immediate
/// opcode, with `imm` holding exactly the value the move produces
/// (inverted for MOVN, truncated to 32 bits in the W form).
pub proof fn lemma_move_wide_canonical(w: u32, addr: u64, r: Inst)
    requires
        decode_post(w, addr, r),
        is_movewide_word(w),
        (w >> 29) & 3 != 1,  // allocated row
        (w >> 29) & 3 != 3,  // not MOVK, which keeps other bits
        !((w >> 31) & 1 == 0 && (w >> 21) & 3 >= 2),  // shift fits the W form
    ensures
        r.op == Op::A64_MOV_IMM,
        (w >> 29) & 3 == 2 ==> r.imm == (((w >> 5) & 0xFFFF) as u64) << ((16 * ((w >> 21) & 3))
            as u64),
        (w >> 29) & 3 == 0 && (w >> 31) & 1 == 1 ==> r.imm == !((((w >> 5) & 0xFFFF) as u64) << ((
        16 * ((w >> 21) & 3)) as u64)),
        (w >> 29) & 3 == 0 && (w >> 31) & 1 == 0 ==> r.imm == !((((w >> 5) & 0xFFFF) as u64) << ((
        16 * ((w >> 21) & 3)) as u64)) & 0xFFFF_FFFFu64,
{
}

/// Move canonicalization, bitmask leg: ORR from the zero register with a
/// decodable bitmask immediate is the same canonical move-immediate, with
/// `imm` holding the expanded mask (truncated to 32 bits in the W form).
pub proof fn lemma_bitmask_move_canonical(w: u32, addr: u64, r: Inst, mask: u64)
    requires
        decode_post(w, addr, r),
        is_logimm_word(w),
        (w >> 29) & 3 == 1,  // ORR
        (w >> 5) & 0x1F == 31,  // from the zero register
        !((w >> 31) & 1 == 0 && (w >> 22) & 1 == 1),  // allocated in the W form
        spec_decode_bitmask((w >> 22) & 1, (w >> 16) & 0x3F, (w >> 10) & 0x3F) == Some(mask),
    ensures
        r.op == Op::A64_MOV_IMM,
        (w >> 31) & 1 == 1 ==> r.imm == mask,
        (w >> 31) & 1 == 0 ==> r.imm == mask & 0xFFFF_FFFFu64,
{
}

/// Addressing-mode recording, literal leg: every allocated literal-load
/// word records the literal addressing mode in the attributes word, with
/// the label kept as a byte offset.
pub proof fn lemma_literal_addressing(w: u32, addr: u64, r: Inst)
    requires
        decode_post(w, addr, r),
        is_ldr_lit_word(w),
        !((w >> 26) & 1 == 1 && (w >> 30) & 3 == 3),  // the one reserved row
    ensures
        spec_get_addrmode(r.flags) == AddrMode::AM_LITERAL,
        r.offset == 4 * sval((w >> 5) & 0x7FFFF, 0x40000),
{
    let v = (w >> 26) & 1;
    let opc = (w >> 30) & 3;
    if v == 1 {
        if opc == 0 {
            lemma_addrmode_roundtrip(spec_with_prec(0, FPSize::FSZ_S), AddrMode::AM_LITERAL);
        } else if opc == 1 {
            lemma_addrmode_roundtrip(spec_with_prec(0, FPSize::FSZ_D), AddrMode::AM_LITERAL);
        } else {
            lemma_addrmode_roundtrip(spec_with_prec(0, FPSize::FSZ_Q), AddrMode::AM_LITERAL);
        }
    } else if opc == 3 {
        lemma_addrmode_roundtrip(0, AddrMode::AM_LITERAL);
    } else if opc == 0 {
        lemma_addrmode_roundtrip(spec_with_size(FLAG_W32, Size::SZ_W), AddrMode::AM_LITERAL);
    } else if opc == 1 {
        lemma_addrmode_roundtrip(spec_with_size(0, Size::SZ_X), AddrMode::AM_LITERAL);
    } else {
        lemma_addrmode_roundtrip(spec_with_size(FLAG_LDST_SEXT, Size::SZ_W), AddrMode::AM_LITERAL);
    }
}

/// Conditional-select alias and condition inversion: in the CSINC, CSINV
/// and CSNEG rows, a word whose two source registers coincide and whose
/// condition is invertible decodes to the alias opcode with the condition
/// stored inverted relative to the raw encoding; a word with differing
/// sources decodes to the plain opcode with the raw condition unchanged.
/// The operand registers themselves are never changed by the alias.
pub proof fn lemma_csel_alias_inversion(w: u32, addr: u64, r: Inst)
    requires
        decode_post(w, addr, r),
        is_csel_word(w),
        (w >> 10) & 3 < 2,
        !((w >> 30) & 1 == 0 && (w >> 10) & 3 == 0),  // CSEL itself has no alias
    ensures
        ((w >> 16) & 0x1F == (w >> 5) & 0x1F && (w >> 12) & 0xF < 14) ==> {
            &&& (r.op == Op::A64_CINC || r.op == Op::A64_CSET || r.op == Op::A64_CINV || r.op
                == Op::A64_CSETM || r.op == Op::A64_CNEG)
            &&& spec_get_cond(r.flags) == spec_invert_cond(cond_of((w >> 12) & 0xF))
        },
        ((w >> 16) & 0x1F != (w >> 5) & 0x1F) ==> {
            &&& (r.op == Op::A64_CSINC || r.op == Op::A64_CSINV || r.op == Op::A64_CSNEG)
            &&& spec_get_cond(r.flags) == cond_of((w >> 12) & 0xF)
        },
        r.rm == spec_gpr_zr((w >> 16) & 0x1F),
        r.rn == spec_gpr_zr((w >> 5) & 0x1F),
        r.rd == spec_gpr_zr(w & 0x1F),
{
    let cond = (w >> 12) & 0xF;
    let c = cond_of(cond);
    lemma_cond_roundtrip(crate::model::spec_flags_w32((w >> 31) & 1), spec_invert_cond(c));
    lemma_cond_roundtrip(crate::model::spec_flags_w32((w >> 31) & 1), c);
}

} // verus!
