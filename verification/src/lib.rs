//! Decoder for 32-bit A64 (AArch64) machine-code words.
//!
//! One call decodes one word into a structured, normalized [`model::Inst`]
//! record: canonical opcode (aliases resolved), operand registers with
//! register 31 split into zero-register and stack-pointer identities,
//! byte-granular branch offsets, and a tagged auxiliary payload.
//! Decoding is total: every 32-bit word yields exactly one record.

use vstd::prelude::*;

pub mod bits;
pub mod model;
pub mod dp_imm;
pub mod branches;
pub mod dp_reg;
pub mod ldst;
pub mod fpsimd;
pub mod props;

use crate::model::{
    Inst, Op, Payload, DecodeReason, empty_inst_spec, empty_inst, unknown_inst, error_inst,
};
use crate::branches::{
    is_hint_word, is_cbz_word, is_b_word, is_bcond_word, is_tbz_word, is_exception_word,
    is_system_word, is_br_word, hint_post, cbz_post, b_post, bcond_post, tbz_post, spec_exception,
    spec_system, spec_br,
};
use crate::dp_imm::{
    is_movewide_word, is_logimm_word, is_addsub_imm_word, is_pcrel_word, is_bitfield_word,
    is_extract_word, movewide_post, logimm_post, addsub_imm_post, spec_pcrel, spec_bitfield,
    spec_extract,
};
use crate::dp_reg::{
    is_csel_word, csel_post, is_logshift_word, is_addsub_shifted_word, is_addsub_ext_word,
    is_carry_flags_word, is_ccmp_word, is_one_two_source_word, is_three_source_word,
    spec_logical_shifted, spec_addsub_shifted, spec_addsub_ext, spec_carry_flags, spec_ccmp,
    spec_one_two_source, spec_three_source,
};
use crate::ldst::{
    is_ldr_lit_word, ldr_lit_post, is_exclusive_word, is_pair_word, is_regform_word,
    is_atomic_word, is_simd_struct_word, exclusive_post, pair_post, regform_post, atomic_post,
    simd_struct_post,
};
use crate::fpsimd::{
    is_fp_scalar_word, is_fp_3src_word, is_vec_three_same_word, is_vec_copy_word,
    is_vec_modimm_word, spec_fp_scalar, spec_fp_3src, spec_vec_three_same, spec_vec_copy,
    spec_vec_modimm,
};

verus! {

/// Reserved words with all of bits 16..31 clear encode the permanently
/// undefined instruction UDF, a real (allocated) instruction.
pub open spec fn is_udf_word(w: u32) -> bool {
    w >> 16 == 0
}

/// Everything the decoder promises of its result, for every word.
///
/// The failure sentinels carry their diagnostics: a word that decodes to no
/// defined instruction keeps the raw word in `imm`, and a recognized-but-
/// unresolved word carries a reason in the payload. For the instruction
/// families below, the whole record is pinned down as a function of the
/// word (and so decoding those families is provably deterministic).
pub open spec fn decode_post(w: u32, addr: u64, r: Inst) -> bool {
    &&& (r.op == Op::A64_UNKNOWN ==> r.imm == w as u64)
    &&& (r.op == Op::A64_ERROR ==> r.aux is Reason)
    &&& (is_udf_word(w) ==> r == udf_inst_spec(w))
    &&& ((w >> 25) & 0xF == 0 && !is_udf_word(w) ==> r == (Inst {
        imm: w as u64,
        ..empty_inst_spec()
    }))
    &&& (((w >> 25) & 0xF == 1 || (w >> 25) & 0xF == 3) ==> r == (Inst {
        imm: w as u64,
        ..empty_inst_spec()
    }))
    &&& ((w >> 25) & 0xF == 2 ==> r == (Inst {
        op: Op::A64_ERROR,
        aux: Payload::Reason(DecodeReason::SveUnsupported),
        ..empty_inst_spec()
    }))
    &&& (is_hint_word(w) ==> hint_post(w, r))
    &&& (is_cbz_word(w) ==> cbz_post(w, r))
    &&& (is_b_word(w) ==> b_post(w, r))
    &&& (is_bcond_word(w) ==> bcond_post(w, r))
    &&& (is_tbz_word(w) ==> tbz_post(w, r))
    &&& (is_exception_word(w) ==> r == spec_exception(w))
    &&& (is_system_word(w) ==> r == spec_system(w))
    &&& (is_br_word(w) ==> r == spec_br(w))
    &&& (is_movewide_word(w) ==> movewide_post(w, r))
    &&& (is_logimm_word(w) ==> logimm_post(w, r))
    &&& (is_addsub_imm_word(w) ==> addsub_imm_post(w, r))
    &&& (is_pcrel_word(w) ==> r == spec_pcrel(w, addr))
    &&& (is_bitfield_word(w) ==> r == spec_bitfield(w))
    &&& (is_extract_word(w) ==> r == spec_extract(w))
    &&& (is_csel_word(w) ==> csel_post(w, r))
    &&& (is_logshift_word(w) ==> r == spec_logical_shifted(w))
    &&& (is_addsub_shifted_word(w) ==> r == spec_addsub_shifted(w))
    &&& (is_addsub_ext_word(w) ==> r == spec_addsub_ext(w))
    &&& (is_carry_flags_word(w) ==> r == spec_carry_flags(w))
    &&& (is_ccmp_word(w) ==> r == spec_ccmp(w))
    &&& (is_one_two_source_word(w) ==> r == spec_one_two_source(w))
    &&& (is_three_source_word(w) ==> r == spec_three_source(w))
    &&& (is_ldr_lit_word(w) ==> ldr_lit_post(w, r))
    &&& (is_exclusive_word(w) ==> exclusive_post(w, r))
    &&& (is_pair_word(w) ==> pair_post(w, r))
    &&& (is_regform_word(w) ==> regform_post(w, r))
    &&& (is_atomic_word(w) ==> atomic_post(w, r))
    &&& (is_simd_struct_word(w) ==> simd_struct_post(w, r))
    &&& (is_fp_scalar_word(w) ==> r == spec_fp_scalar(w))
    &&& (is_fp_3src_word(w) ==> r == spec_fp_3src(w))
    &&& (is_vec_three_same_word(w) ==> r == spec_vec_three_same(w))
    &&& (is_vec_copy_word(w) ==> r == spec_vec_copy(w))
    &&& (is_vec_modimm_word(w) ==> r == spec_vec_modimm(w))
}

pub open spec fn udf_inst_spec(w: u32) -> Inst {
    Inst { op: Op::A64_UDF, imm: (w & 0xFFFF) as u64, ..empty_inst_spec() }
}

/// The instruction-family patterns each force the top-level class selector
/// (bits 25..28) into the group that decodes them.
proof fn lemma_dispatch(w: u32)
    ensures
        is_udf_word(w) ==> (w >> 25) & 0xF == 0,
        is_hint_word(w) ==> (w >> 25) & 0xF == 0xA,
        is_cbz_word(w) ==> (w >> 25) & 0xF == 0xA,
        is_b_word(w) ==> ((w >> 25) & 0xF == 0xA || (w >> 25) & 0xF == 0xB),
        is_bcond_word(w) ==> (w >> 25) & 0xF == 0xA,
        is_tbz_word(w) ==> (w >> 25) & 0xF == 0xB,
        is_exception_word(w) ==> (w >> 25) & 0xF == 0xA,
        is_system_word(w) ==> (w >> 25) & 0xF == 0xA,
        is_br_word(w) ==> (w >> 25) & 0xF == 0xB,
        is_movewide_word(w) ==> (w >> 25) & 0xF == 9,
        is_logimm_word(w) ==> (w >> 25) & 0xF == 9,
        is_addsub_imm_word(w) ==> (w >> 25) & 0xF == 8,
        is_pcrel_word(w) ==> (w >> 25) & 0xF == 8,
        is_bitfield_word(w) ==> (w >> 25) & 0xF == 9,
        is_extract_word(w) ==> (w >> 25) & 0xF == 9,
        is_csel_word(w) ==> (w >> 25) & 0xF == 0xD,
        (w >> 24) & 0x1F == 0x0A || (w >> 24) & 0x1F == 0x0B ==> (w >> 25) & 0xF == 5,
        (w >> 21) & 0xFF == 0xD0 || (w >> 21) & 0xFF == 0xD2 || (w >> 21) & 0xFF == 0xD6 ==> (w
            >> 25) & 0xF == 0xD,
        (w >> 24) & 0x1F == 0x1B ==> (w >> 25) & 0xF == 0xD,
        is_ldr_lit_word(w) ==> ((w >> 25) & 0xF == 0xC || (w >> 25) & 0xF == 0xE),
        is_exclusive_word(w) ==> (w >> 25) & 0xF == 4,
        is_simd_struct_word(w) ==> (w >> 25) & 0xF == 6,
        is_pair_word(w) ==> ((w >> 25) & 0xF == 4 || (w >> 25) & 0xF == 6),
        is_regform_word(w) ==> ((w >> 25) & 0xF == 0xC || (w >> 25) & 0xF == 0xE),
        (w >> 24) & 0x7F == 0x1E || (w >> 24) & 0x7F == 0x1F ==> (w >> 25) & 0xF == 0xF,
        (w >> 24) & 0x9F == 0x0E || (w >> 24) & 0x9F == 0x0F ==> (w >> 25) & 0xF == 7,
{
    assert((w >> 16 == 0 ==> (w >> 25) & 0xF == 0)
        && ((w & 0xFFFFF01F) == 0xD503201F ==> (w >> 25) & 0xF == 0xA)
        && ((w >> 25) & 0x3F == 0x1A ==> (w >> 25) & 0xF == 0xA)
        && ((w >> 26) & 0x1F == 0x05 ==> ((w >> 25) & 0xF == 0xA || (w >> 25) & 0xF == 0xB))
        && ((w >> 24) & 0xFF == 0x54 ==> (w >> 25) & 0xF == 0xA)
        && ((w >> 25) & 0x3F == 0x1B ==> (w >> 25) & 0xF == 0xB)
        && ((w >> 24) & 0xFF == 0xD4 ==> (w >> 25) & 0xF == 0xA)
        && ((w >> 22) & 0x3FF == 0x354 ==> (w >> 25) & 0xF == 0xA)
        && ((w >> 25) & 0x7F == 0x6B ==> (w >> 25) & 0xF == 0xB)
        && ((w >> 23) & 0x3F == 0x25 ==> (w >> 25) & 0xF == 9)
        && ((w >> 23) & 0x3F == 0x24 ==> (w >> 25) & 0xF == 9)
        && ((w >> 23) & 0x3F == 0x22 ==> (w >> 25) & 0xF == 8)
        && ((w >> 24) & 0x1F == 0x10 ==> (w >> 25) & 0xF == 8)
        && ((w >> 23) & 0x3F == 0x26 ==> (w >> 25) & 0xF == 9)
        && ((w >> 23) & 0x3F == 0x27 ==> (w >> 25) & 0xF == 9)
        && ((w >> 21) & 0xFF == 0xD4 ==> (w >> 25) & 0xF == 0xD)
        && (((w >> 24) & 0x1F == 0x0A || (w >> 24) & 0x1F == 0x0B) ==> (w >> 25) & 0xF == 5)
        && (((w >> 21) & 0xFF == 0xD0 || (w >> 21) & 0xFF == 0xD2 || (w >> 21) & 0xFF == 0xD6)
        ==> (w >> 25) & 0xF == 0xD)
        && ((w >> 24) & 0x1F == 0x1B ==> (w >> 25) & 0xF == 0xD)
        && ((w >> 24) & 0x3B == 0x18 ==> ((w >> 25) & 0xF == 0xC || (w >> 25) & 0xF == 0xE))
        && ((w >> 24) & 0x3F == 0x08 ==> (w >> 25) & 0xF == 4)
        && ((w >> 25) & 0x1F == 6 ==> (w >> 25) & 0xF == 6)
        && ((w >> 25) & 0x1D == 0x14 ==> ((w >> 25) & 0xF == 4 || (w >> 25) & 0xF == 6))
        && ((w >> 25) & 0x1D == 0x1C ==> ((w >> 25) & 0xF == 0xC || (w >> 25) & 0xF == 0xE))
        && (((w >> 24) & 0x7F == 0x1E || (w >> 24) & 0x7F == 0x1F) ==> (w >> 25) & 0xF == 0xF)
        && (((w >> 24) & 0x9F == 0x0E || (w >> 24) & 0x9F == 0x0F) ==> (w >> 25) & 0xF
        == 7)) by (bit_vector);
}

/// Decode one 32-bit word residing at virtual address `addr`.
///
/// Total over all 2^32 words: the result is exactly one of a valid
/// instruction, the undefined-instruction opcode `A64_UDF`, the
/// no-defined-instruction sentinel `A64_UNKNOWN` (raw word in `imm`), or the
/// recognized-but-unresolved sentinel `A64_ERROR` (reason in the payload).
/// The call never panics and depends on nothing but its two arguments.
pub fn decode(w: u32, addr: u64) -> (r: Inst)
    ensures
        decode_post(w, addr, r),
{
    proof {
        lemma_dispatch(w);
    }
    let op0 = bits::field(w, 25, 0xF);
    if op0 == 0 {
        // Reserved class: only UDF is allocated here.
        if w >> 16 == 0 {
            let mut r = empty_inst();
            r.op = Op::A64_UDF;
            r.imm = (w & 0xFFFF) as u64;
            proof {
                bits::lemma_and_mask_le(w, 0xFFFF);
            }
            r
        } else {
            unknown_inst(w)
        }
    } else if op0 == 2 {
        // SVE encodings are allocated but not resolved further here.
        error_inst(DecodeReason::SveUnsupported)
    } else if op0 == 1 || op0 == 3 {
        unknown_inst(w)
    } else if op0 == 8 || op0 == 9 {
        dp_imm::decode_dp_imm(w, addr)
    } else if op0 == 0xA || op0 == 0xB {
        branches::decode_branches(w)
    } else if op0 == 5 || op0 == 0xD {
        dp_reg::decode_dp_reg(w)
    } else if op0 == 7 || op0 == 0xF {
        fpsimd::decode_fpsimd(w)
    } else {
        // 4, 6, 0xC, 0xE: loads and stores.
        ldst::decode_ldst(w)
    }
}

} // verus!
