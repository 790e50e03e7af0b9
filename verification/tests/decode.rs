//! Decoding tests across the instruction classes, on concrete words
//! (assembled with a reference assembler).

use a64dec::decode;
use a64dec::model::{
    get_addrmode, get_cond, get_prec, get_size, get_va, AddrMode, Cond, DecodeReason, ExtendType,
    FPRounding, FPSize, MemOrdering, Op, PStateField, Payload, Reg, Shift, Size,
    VectorArrangement, FLAG_W32, FLAG_SET_FLAGS, FLAG_LDST_SEXT, FLAG_SIMD_SIGNED,
    FLAG_SIMD_ROUND,
};

#[test]
fn udf_words_decode_to_udf() {
    let i = decode(0x0000_0000, 0);
    assert_eq!(i.op, Op::A64_UDF);
    assert_eq!(i.imm, 0);
    let j = decode(0x0000_DEAD, 0);
    assert_eq!(j.op, Op::A64_UDF);
    assert_eq!(j.imm, 0xDEAD);
}

#[test]
fn unallocated_words_carry_raw_word() {
    let i = decode(0x00FF_0000, 0);
    assert_eq!(i.op, Op::A64_UNKNOWN);
    assert_eq!(i.imm, 0x00FF_0000);
    let j = decode(0x0200_0000, 0);
    assert_eq!(j.op, Op::A64_UNKNOWN);
    assert_eq!(j.imm, 0x0200_0000);
}

#[test]
fn sve_space_reports_reason() {
    let i = decode(0x0400_0000, 0);
    assert_eq!(i.op, Op::A64_ERROR);
    assert_eq!(i.aux, Payload::Reason(DecodeReason::SveUnsupported));
    assert!(!DecodeReason::SveUnsupported.text().is_empty());
}

#[test]
fn adr_and_adrp_materialize_targets() {
    // adr x0, #8 at address 0x1000
    let i = decode(0x1000_0040, 0x1000);
    assert_eq!(i.op, Op::A64_ADR);
    assert_eq!(i.offset, 8);
    assert_eq!(i.imm, 0x1008);
    assert_eq!(i.rd, Reg::Ordinary(0));
    // adrp x0, #+1 page at address 0x1234
    let j = decode(0xB000_0000, 0x1234);
    assert_eq!(j.op, Op::A64_ADRP);
    assert_eq!(j.offset, 4096);
    assert_eq!(j.imm, 0x2000);
}

#[test]
fn add_sub_immediate_and_aliases() {
    // add x0, x1, #4
    let i = decode(0x9100_1020, 0);
    assert_eq!(i.op, Op::A64_ADD_IMM);
    assert_eq!(i.imm, 4);
    assert_eq!(i.rd, Reg::Ordinary(0));
    assert_eq!(i.rn, Reg::Ordinary(1));
    assert_eq!(i.flags & FLAG_W32, 0);
    // sub w2, w3, #16
    let j = decode(0x5100_4062, 0);
    assert_eq!(j.op, Op::A64_SUB_IMM);
    assert_eq!(j.imm, 16);
    assert_eq!(j.flags & FLAG_W32, FLAG_W32);
    // cmp x0, #1 (subs xzr, x0, #1)
    let k = decode(0xF100_041F, 0);
    assert_eq!(k.op, Op::A64_CMP_IMM);
    assert_eq!(k.rd, Reg::ZeroRegister);
    assert_eq!(k.flags & FLAG_SET_FLAGS, FLAG_SET_FLAGS);
    // cmn x0, #4 (adds xzr, x0, #4)
    let l = decode(0xB100_101F, 0);
    assert_eq!(l.op, Op::A64_CMN_IMM);
    // mov x0, sp (add x0, sp, #0)
    let m = decode(0x9100_03E0, 0);
    assert_eq!(m.op, Op::A64_MOV_SP);
    assert_eq!(m.rn, Reg::StackPointer);
    assert_eq!(m.rd, Reg::Ordinary(0));
}

#[test]
fn logical_immediate_and_tst_alias() {
    // orr w0, wzr, #0xffff -> canonical move
    let i = decode(0x3200_3FE0, 0);
    assert_eq!(i.op, Op::A64_MOV_IMM);
    assert_eq!(i.imm, 0xFFFF);
    // tst x0, #... (ands xzr, ...): and-immediate of x0 with 0x0303030303030303
    // tst x0, #0x7 = ands xzr, x0, #7
    let j = decode(0xF240_081F, 0);
    assert_eq!(j.op, Op::A64_TST_IMM);
    assert_eq!(j.rd, Reg::ZeroRegister);
    assert_eq!(j.imm, 7);
    assert_eq!(j.flags & FLAG_SET_FLAGS, FLAG_SET_FLAGS);
}

#[test]
fn move_wide_family() {
    // movz w0, #0xffff
    let i = decode(0x529F_FFE0, 0);
    assert_eq!(i.op, Op::A64_MOV_IMM);
    assert_eq!(i.imm, 0xFFFF);
    // movn w0, #0xffff, lsl #16  -> value 0x0000FFFF
    let j = decode(0x12BF_FFE0, 0);
    assert_eq!(j.op, Op::A64_MOV_IMM);
    assert_eq!(j.imm, 0xFFFF);
    // movn x0, #0 -> value 0xFFFFFFFFFFFFFFFF
    let k = decode(0x9280_0000, 0);
    assert_eq!(k.op, Op::A64_MOV_IMM);
    assert_eq!(k.imm, 0xFFFF_FFFF_FFFF_FFFF);
    // movk x1, #5, lsl #16
    let l = decode(0xF2A0_00A1, 0);
    assert_eq!(l.op, Op::A64_MOVK);
    match l.aux {
        Payload::Movk(m) => {
            assert_eq!(m.imm16, 5);
            assert_eq!(m.lsl, 16);
        }
        _ => panic!("movk payload expected"),
    }
    // movz w0, #1, lsl #32 is unallocated in the W form
    let bad = decode(0x52C0_0020, 0);
    assert_eq!(bad.op, Op::A64_UNKNOWN);
}

#[test]
fn bitfield_aliases() {
    // lsl x0, x1, #4
    let i = decode(0xD37C_EC20, 0);
    assert_eq!(i.op, Op::A64_LSL_IMM);
    match i.aux {
        Payload::Shift(s) => {
            assert_eq!(s.typ, Shift::SH_LSL);
            assert_eq!(s.amount, 4);
        }
        _ => panic!("shift payload expected"),
    }
    // asr x0, x1, #4
    let j = decode(0x9344_FC20, 0);
    assert_eq!(j.op, Op::A64_ASR_IMM);
    match j.aux {
        Payload::Shift(s) => {
            assert_eq!(s.typ, Shift::SH_ASR);
            assert_eq!(s.amount, 4);
        }
        _ => panic!("shift payload expected"),
    }
    // sxtw x0, w1
    let k = decode(0x9340_7C20, 0);
    assert_eq!(k.op, Op::A64_EXTEND);
    match k.aux {
        Payload::Extend(e) => assert_eq!(e.typ, ExtendType::SXTW),
        _ => panic!("extend payload expected"),
    }
}

#[test]
fn extract_and_ror_alias() {
    // ror x0, x1, #8 (extr x0, x1, x1, #8)
    let i = decode(0x93C1_2020, 0);
    assert_eq!(i.op, Op::A64_ROR_IMM);
    match i.aux {
        Payload::Shift(s) => {
            assert_eq!(s.typ, Shift::SH_ROR);
            assert_eq!(s.amount, 8);
        }
        _ => panic!("shift payload expected"),
    }
    // extr x0, x1, x2, #8
    let j = decode(0x93C2_2020, 0);
    assert_eq!(j.op, Op::A64_EXTR);
    assert_eq!(j.imm, 8);
    assert_eq!(j.rm, Reg::Ordinary(2));
}

#[test]
fn branches_and_system() {
    // b.eq +8
    let i = decode(0x5400_0040, 0);
    assert_eq!(i.op, Op::A64_BCOND);
    assert_eq!(i.offset, 8);
    assert_eq!(get_cond(i.flags), Cond::COND_EQ);
    // bl +8
    let j = decode(0x9400_0002, 0);
    assert_eq!(j.op, Op::A64_BL);
    assert_eq!(j.offset, 8);
    // b -4
    let k = decode(0x17FF_FFFF, 0);
    assert_eq!(k.op, Op::A64_B);
    assert_eq!(k.offset, -4);
    // br x1 / ret
    assert_eq!(decode(0xD61F_0020, 0).op, Op::A64_BR);
    let r = decode(0xD65F_03C0, 0);
    assert_eq!(r.op, Op::A64_RET);
    assert_eq!(r.rn, Reg::Ordinary(30));
    // svc #0 / brk #1
    let s = decode(0xD400_0001, 0);
    assert_eq!(s.op, Op::A64_SVC);
    assert_eq!(s.imm, 0);
    let b = decode(0xD420_0020, 0);
    assert_eq!(b.op, Op::A64_BRK);
    assert_eq!(b.imm, 1);
    // dmb ish / isb
    let d = decode(0xD503_3BBF, 0);
    assert_eq!(d.op, Op::A64_DMB);
    assert_eq!(d.imm, 0xB);
    assert_eq!(decode(0xD503_3FDF, 0).op, Op::A64_ISB);
    // mrs x0, nzcv / msr nzcv, x0
    let m = decode(0xD53B_4200, 0);
    assert_eq!(m.op, Op::A64_MRS);
    assert_eq!(m.rd, Reg::Ordinary(0));
    assert_eq!(decode(0xD51B_4200, 0).op, Op::A64_MSR_REG);
    // msr daifset, #2
    let p = decode(0xD503_42DF, 0);
    assert_eq!(p.op, Op::A64_MSR_IMM);
    match p.aux {
        Payload::MsrImm(mi) => {
            assert_eq!(mi.psfld, PStateField::PSF_DAIFSet);
            assert_eq!(mi.imm, 2);
        }
        _ => panic!("msr payload expected"),
    }
    // cfinv
    assert_eq!(decode(0xD500_401F, 0).op, Op::A64_CFINV);
}

#[test]
fn test_and_branch_reassembles_bit() {
    // tbz x0, #63, +8
    let i = decode(0xB6F8_0040, 0);
    assert_eq!(i.op, Op::A64_TBZ);
    match i.aux {
        Payload::Tbz(t) => {
            assert_eq!(t.bit, 63);
            assert_eq!(t.offset, 8);
        }
        _ => panic!("tbz payload expected"),
    }
    assert_eq!(i.rd, Reg::Ordinary(0));
}

#[test]
fn logical_shifted_register_aliases() {
    // tst x0, x1 (ands xzr, x0, x1)
    let i = decode(0xEA01_001F, 0);
    assert_eq!(i.op, Op::A64_TST_SHIFTED);
    assert_eq!(i.rd, Reg::ZeroRegister);
    // mov x0, x1 (orr x0, xzr, x1)
    let j = decode(0xAA01_03E0, 0);
    assert_eq!(j.op, Op::A64_MOV_REG);
    assert_eq!(j.rm, Reg::Ordinary(1));
    // mvn x0, x1 (orn x0, xzr, x1)
    let k = decode(0xAA21_03E0, 0);
    assert_eq!(k.op, Op::A64_MVN);
    // neg x0, x1 (sub x0, xzr, x1)
    let l = decode(0xCB01_03E0, 0);
    assert_eq!(l.op, Op::A64_NEG);
}

#[test]
fn multiply_aliases() {
    // mul x0, x1, x2 (madd with xzr accumulator)
    let i = decode(0x9B02_7C20, 0);
    assert_eq!(i.op, Op::A64_MUL);
    assert_eq!(i.ra, Reg::ZeroRegister);
    // madd x0, x1, x2, x3
    let j = decode(0x9B02_0C20, 0);
    assert_eq!(j.op, Op::A64_MADD);
    assert_eq!(j.ra, Reg::Ordinary(3));
}

#[test]
fn pairs_and_exclusives() {
    // ldp x0, x1, [sp, #16]
    let i = decode(0xA941_07E0, 0);
    assert_eq!(i.op, Op::A64_LDP);
    assert_eq!(get_addrmode(i.flags), AddrMode::AM_OFF_IMM);
    assert_eq!(i.offset, 16);
    assert_eq!(i.rn, Reg::StackPointer);
    assert_eq!(i.rt2, Reg::Ordinary(1));
    // stp x29, x30, [sp, #-16]!
    let j = decode(0xA9BF_7BFD, 0);
    assert_eq!(j.op, Op::A64_STP);
    assert_eq!(get_addrmode(j.flags), AddrMode::AM_PRE);
    assert_eq!(j.offset, -16);
    assert_eq!(j.rd, Reg::Ordinary(29));
    assert_eq!(j.rt2, Reg::Ordinary(30));
    // ldxr x0, [x1] and ldaxr x0, [x1]
    let k = decode(0xC85F_7C20, 0);
    assert_eq!(k.op, Op::A64_LDXR);
    match k.aux {
        Payload::LdstOrder(o) => assert_eq!(o.load, MemOrdering::MO_NONE),
        _ => panic!("order payload expected"),
    }
    let l = decode(0xC85F_FC20, 0);
    assert_eq!(l.op, Op::A64_LDXR);
    match l.aux {
        Payload::LdstOrder(o) => assert_eq!(o.load, MemOrdering::MO_ACQUIRE),
        _ => panic!("order payload expected"),
    }
    // stlr x0, [x1]: a plain store opcode plus release ordering
    let m = decode(0xC89F_FC20, 0);
    assert_eq!(m.op, Op::A64_STR);
    assert_eq!(get_addrmode(m.flags), AddrMode::AM_SIMPLE);
    match m.aux {
        Payload::LdstOrder(o) => {
            assert_eq!(o.store, MemOrdering::MO_RELEASE);
            assert_eq!(o.load, MemOrdering::MO_NONE);
        }
        _ => panic!("order payload expected"),
    }
}

#[test]
fn atomics_record_orderings_independently() {
    // ldadd x1, x0, [x2]: neither acquire nor release
    let i = decode(0xF821_0040, 0);
    assert_eq!(i.op, Op::A64_LDADD);
    assert_eq!(get_addrmode(i.flags), AddrMode::AM_SIMPLE);
    match i.aux {
        Payload::LdstOrder(o) => {
            assert_eq!(o.load, MemOrdering::MO_NONE);
            assert_eq!(o.store, MemOrdering::MO_NONE);
            assert_eq!(o.rs, Reg::Ordinary(1));
        }
        _ => panic!("order payload expected"),
    }
    // ldaddal x1, x0, [x2]: both
    let j = decode(0xF8E1_0040, 0);
    assert_eq!(j.op, Op::A64_LDADD);
    match j.aux {
        Payload::LdstOrder(o) => {
            assert_eq!(o.load, MemOrdering::MO_ACQUIRE);
            assert_eq!(o.store, MemOrdering::MO_RELEASE);
        }
        _ => panic!("order payload expected"),
    }
    // staddl x1, [x2] is ldaddl with the zero register as destination: the
    // literal destination is recorded, never reinterpreted as a store.
    let k = decode(0xF861_005F, 0);
    assert_eq!(k.op, Op::A64_LDADD);
    assert_eq!(k.rd, Reg::ZeroRegister);
    match k.aux {
        Payload::LdstOrder(o) => {
            assert_eq!(o.load, MemOrdering::MO_NONE);
            assert_eq!(o.store, MemOrdering::MO_RELEASE);
        }
        _ => panic!("order payload expected"),
    }
    // swp x1, x0, [x2]
    assert_eq!(decode(0xF821_8040, 0).op, Op::A64_SWP);
    // cas w1, w0, [x2]
    let c = decode(0x88A1_7C40, 0);
    assert_eq!(c.op, Op::A64_CAS);
    assert_eq!(c.rn, Reg::Ordinary(2));
}

#[test]
fn unprivileged_forms_report_reason() {
    // ldtr x0, [x1]
    let i = decode(0xF840_0820, 0);
    assert_eq!(i.op, Op::A64_ERROR);
    assert_eq!(i.aux, Payload::Reason(DecodeReason::UnprivilegedLoadStore));
}

#[test]
fn load_sizes_and_sign_extension() {
    // ldrb w0, [x1]
    let i = decode(0x3940_0020, 0);
    assert_eq!(i.op, Op::A64_LDR);
    assert_eq!(get_size(i.flags), Size::SZ_B);
    assert_eq!(i.flags & FLAG_W32, FLAG_W32);
    assert_eq!(i.flags & FLAG_LDST_SEXT, 0);
    // ldrsw x0, [x1]
    let j = decode(0xB980_0020, 0);
    assert_eq!(j.op, Op::A64_LDR);
    assert_eq!(get_size(j.flags), Size::SZ_W);
    assert_eq!(j.flags & FLAG_LDST_SEXT, FLAG_LDST_SEXT);
    assert_eq!(j.flags & FLAG_W32, 0);
    // strh w0, [x1]
    let k = decode(0x7900_0020, 0);
    assert_eq!(k.op, Op::A64_STR);
    assert_eq!(get_size(k.flags), Size::SZ_H);
}

#[test]
fn conditional_compare_and_two_source() {
    // ccmp x0, x1, #0, eq
    let i = decode(0xFA41_0000, 0);
    assert_eq!(i.op, Op::A64_CCMP_REG);
    assert_eq!(get_cond(i.flags), Cond::COND_EQ);
    assert_eq!(i.rm, Reg::Ordinary(1));
    match i.aux {
        Payload::Ccmp(c) => assert_eq!(c.nzcv, 0),
        _ => panic!("ccmp payload expected"),
    }
    // udiv x0, x1, x2
    let j = decode(0x9AC2_0820, 0);
    assert_eq!(j.op, Op::A64_UDIV);
    assert_eq!(j.rm, Reg::Ordinary(2));
}

#[test]
fn exclusive_store_records_status_register() {
    // stxr w2, w0, [x1]
    let i = decode(0x8802_7C20, 0);
    assert_eq!(i.op, Op::A64_STXR);
    assert_eq!(get_addrmode(i.flags), AddrMode::AM_SIMPLE);
    assert_eq!(i.rn, Reg::Ordinary(1));
    match i.aux {
        Payload::LdstOrder(o) => {
            assert_eq!(o.rs, Reg::Ordinary(2));
            assert_eq!(o.store, MemOrdering::MO_NONE);
        }
        _ => panic!("order payload expected"),
    }
}

#[test]
fn simd_structure_loads() {
    // ld1 {v0.b}[0], [x1]
    let i = decode(0x0D40_0020, 0);
    assert_eq!(i.op, Op::A64_LD1_SINGLE);
    match i.aux {
        Payload::SimdLdst(s) => {
            assert_eq!(s.nreg, 1);
            assert_eq!(s.index, 0);
        }
        _ => panic!("simd load payload expected"),
    }
    // ld1r {v0.8b}, [x1]
    let j = decode(0x0D40_C020, 0);
    assert_eq!(j.op, Op::A64_LD1R);
    assert_eq!(get_va(j.flags), VectorArrangement::VA_8B);
    // ld2 {v0.16b, v1.16b}, [x1], #32
    let k = decode(0x4CDF_8020, 0);
    assert_eq!(k.op, Op::A64_LD2_MULT);
    assert_eq!(get_addrmode(k.flags), AddrMode::AM_POST);
    match k.aux {
        Payload::SimdLdst(s) => {
            assert_eq!(s.nreg, 2);
            assert_eq!(s.offset, 32);
        }
        _ => panic!("simd load payload expected"),
    }
}

#[test]
fn prefetch_keeps_operation_number() {
    // prfm pldl1keep, [x1] (unsigned immediate form, operation number 0)
    let i = decode(0xF980_0020, 0);
    assert_eq!(i.op, Op::A64_PRFM);
    assert_eq!(i.imm, 0);
    assert_eq!(get_addrmode(i.flags), AddrMode::AM_OFF_IMM);
    // prfm pstl2keep (#18), [pc+8] (literal form)
    let j = decode(0xD800_0052, 0);
    assert_eq!(j.op, Op::A64_PRFM);
    assert_eq!(j.imm, 18);
    assert_eq!(get_addrmode(j.flags), AddrMode::AM_LITERAL);
}

#[test]
fn fp_scalar_and_conversions() {
    // fadd s0, s1, s2
    let i = decode(0x1E22_2820, 0);
    assert_eq!(i.op, Op::A64_FADD);
    assert_eq!(get_prec(i.flags), FPSize::FSZ_S);
    // fmov d0, #1.0
    let j = decode(0x1E6E_1000, 0);
    assert_eq!(j.op, Op::A64_FMOV_IMM);
    assert_eq!(j.fimm, 0x3FF0_0000_0000_0000);
    assert_eq!(get_prec(j.flags), FPSize::FSZ_D);
    // fcvtzs w0, s1
    let k = decode(0x1E38_0020, 0);
    assert_eq!(k.op, Op::A64_FCVT_GPR);
    match k.aux {
        Payload::Fcvt(f) => {
            assert_eq!(f.mode, FPRounding::FPR_ZERO);
            assert_eq!(f.sgn, 1);
            assert_eq!(f.fbits, 0);
        }
        _ => panic!("fcvt payload expected"),
    }
    // scvtf d0, x1
    let l = decode(0x9E62_0020, 0);
    assert_eq!(l.op, Op::A64_CVTF);
    // fmov x0, d1
    let m = decode(0x9E66_0020, 0);
    assert_eq!(m.op, Op::A64_FMOV_VEC2GPR);
    // fmadd d0, d1, d2, d3
    let n = decode(0x1F42_0C20, 0);
    assert_eq!(n.op, Op::A64_FMADD);
    assert_eq!(n.ra, Reg::Ordinary(3));
    // fcsel d0, d1, d2, eq
    let o = decode(0x1E62_0C20, 0);
    assert_eq!(o.op, Op::A64_FCSEL);
    assert_eq!(get_cond(o.flags), Cond::COND_EQ);
    // fcmp s0, s1
    let p = decode(0x1E21_2000, 0);
    assert_eq!(p.op, Op::A64_FCMP_REG);
}

#[test]
fn vector_families() {
    // add v0.4s, v1.4s, v2.4s
    let i = decode(0x4EA2_8420, 0);
    assert_eq!(i.op, Op::A64_ADD_VEC);
    assert_eq!(get_va(i.flags), VectorArrangement::VA_4S);
    // and v0.8b, v1.8b, v2.8b
    let j = decode(0x0E22_1C20, 0);
    assert_eq!(j.op, Op::A64_AND_VEC);
    assert_eq!(get_va(j.flags), VectorArrangement::VA_8B);
    // cmeq v0.16b, v1.16b, v2.16b
    let k = decode(0x6E22_8C20, 0);
    assert_eq!(k.op, Op::A64_CMEQ_REG);
    // mvn v0.8b, v1.8b (two-register misc NOT)
    let l = decode(0x2E20_5820, 0);
    assert_eq!(l.op, Op::A64_NOT_VEC);
    // dup v0.8b, w1
    let m = decode(0x0E01_0C20, 0);
    assert_eq!(m.op, Op::A64_DUP_GPR);
    // umov w0, v1.s[1]
    let n = decode(0x0E0C_3C20, 0);
    assert_eq!(n.op, Op::A64_UMOV);
    assert_eq!(n.imm, 1);
    // ins v0.s[1], w1
    let o = decode(0x4E0C_1C20, 0);
    assert_eq!(o.op, Op::A64_INS_GPR);
    assert_eq!(o.imm, 1);
    // movi v0.16b, #255
    let p = decode(0x4F07_E7E0, 0);
    assert_eq!(p.op, Op::A64_MOVI);
    assert_eq!(p.imm, 0xFF);
    assert_eq!(get_va(p.flags), VectorArrangement::VA_16B);
    // ext v0.16b, v1.16b, v2.16b, #4
    let q = decode(0x6E02_2020, 0);
    assert_eq!(q.op, Op::A64_EXT);
    assert_eq!(q.imm, 4);
    // ld1 {v0.16b}, [x1]
    let r = decode(0x4C40_7020, 0);
    assert_eq!(r.op, Op::A64_LD1_MULT);
    assert_eq!(get_va(r.flags), VectorArrangement::VA_16B);
    match r.aux {
        Payload::SimdLdst(s) => assert_eq!(s.nreg, 1),
        _ => panic!("simd load payload expected"),
    }
    // sqadd v0.4s, v1.4s, v2.4s: saturating, signedness as an attribute
    let t = decode(0x4EA2_0C20, 0);
    assert_eq!(t.op, Op::A64_QADD);
    assert_eq!(t.flags & FLAG_SIMD_SIGNED, FLAG_SIMD_SIGNED);
    // umax v0.8h, v1.8h, v2.8h
    let u = decode(0x6E62_6420, 0);
    assert_eq!(u.op, Op::A64_MAX_VEC);
    assert_eq!(u.flags & FLAG_SIMD_SIGNED, 0);
    // addp v0.16b, v1.16b, v2.16b
    let v = decode(0x4E22_BC20, 0);
    assert_eq!(v.op, Op::A64_ADDP_VEC);
    // mla v0.16b, v1.16b, v2.16b
    let x = decode(0x4E22_9420, 0);
    assert_eq!(x.op, Op::A64_MLA_VEC);
    // aese v0.16b, v1.16b: outside the resolved families
    let s = decode(0x4E28_4800, 0);
    assert_eq!(s.op, Op::A64_ERROR);
    assert_eq!(s.aux, Payload::Reason(DecodeReason::UnresolvedSimd));
}

#[test]
fn vector_dot_complex_and_by_element() {
    // sdot v0.4s, v1.16b, v2.16b / udot: signedness is an attribute
    let i = decode(0x4E82_9420, 0);
    assert_eq!(i.op, Op::A64_DOT_VEC);
    assert_eq!(i.flags & FLAG_SIMD_SIGNED, FLAG_SIMD_SIGNED);
    let j = decode(0x6E82_9420, 0);
    assert_eq!(j.op, Op::A64_DOT_VEC);
    assert_eq!(j.flags & FLAG_SIMD_SIGNED, 0);
    // fcmla v0.4s, v1.4s, v2.4s, #90: rotation in degrees in imm
    let k = decode(0x6E82_CC20, 0);
    assert_eq!(k.op, Op::A64_FCMLA_VEC);
    assert_eq!(k.imm, 90);
    // fcadd v0.4s, v1.4s, v2.4s, #90 and #270
    let l = decode(0x6E82_E420, 0);
    assert_eq!(l.op, Op::A64_FCADD);
    assert_eq!(l.imm, 90);
    let m = decode(0x6E82_F420, 0);
    assert_eq!(m.op, Op::A64_FCADD);
    assert_eq!(m.imm, 270);
    // sqrdmlah v0.4s, v1.4s, v2.4s
    let n = decode(0x6E82_8420, 0);
    assert_eq!(n.op, Op::A64_SQRDMLAH_VEC);
    // mul v0.4s, v1.4s, v2.s[1]: the lane index decoded into imm
    let o = decode(0x4FA2_8020, 0);
    assert_eq!(o.op, Op::A64_MUL_ELEM);
    assert_eq!(o.imm, 1);
    assert_eq!(o.rm, Reg::Ordinary(2));
    // fmla v0.4s, v1.4s, v2.s[3]
    let p = decode(0x4FA2_1820, 0);
    assert_eq!(p.op, Op::A64_FMLA_ELEM);
    assert_eq!(p.imm, 3);
    // mla v0.4s, v1.4s, v2.s[1]
    let q = decode(0x6FA2_0020, 0);
    assert_eq!(q.op, Op::A64_MLA_ELEM);
    assert_eq!(q.imm, 1);
}

#[test]
fn vector_shifts_widening_and_permutes() {
    // sshr v0.4s, v1.4s, #8
    let i = decode(0x4F38_0420, 0);
    assert_eq!(i.op, Op::A64_SHR);
    assert_eq!(i.imm, 8);
    assert_eq!(get_va(i.flags), VectorArrangement::VA_4S);
    assert_eq!(i.flags & FLAG_SIMD_SIGNED, FLAG_SIMD_SIGNED);
    assert_eq!(i.flags & FLAG_SIMD_ROUND, 0);
    // shl v0.2d, v1.2d, #4
    let j = decode(0x4F44_5420, 0);
    assert_eq!(j.op, Op::A64_SHL_IMM);
    assert_eq!(j.imm, 4);
    assert_eq!(get_va(j.flags), VectorArrangement::VA_2D);
    // saddl v0.8h, v1.8b, v2.8b
    let k = decode(0x0E22_0020, 0);
    assert_eq!(k.op, Op::A64_ADDL);
    assert_eq!(k.flags & FLAG_SIMD_SIGNED, FLAG_SIMD_SIGNED);
    // addv b0, v1.16b
    let l = decode(0x4E31_B820, 0);
    assert_eq!(l.op, Op::A64_ADDV);
    // tbl v0.16b, {v1.16b}, v2.16b
    let m = decode(0x4E02_0020, 0);
    assert_eq!(m.op, Op::A64_TBL);
    assert_eq!(m.imm, 1);
    // zip1 v0.16b, v1.16b, v2.16b
    let n = decode(0x4E02_3820, 0);
    assert_eq!(n.op, Op::A64_ZIP1);
    // xtn v0.8b, v1.8h
    let o = decode(0x0E21_2820, 0);
    assert_eq!(o.op, Op::A64_XTN);
    // uaddlp v0.4h, v1.8b
    let p = decode(0x2E20_2820, 0);
    assert_eq!(p.op, Op::A64_ADDLP);
    assert_eq!(p.flags & FLAG_SIMD_SIGNED, 0);
}
