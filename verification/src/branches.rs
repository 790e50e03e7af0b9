//! Decoder for the branch, exception-generation and system class.
//! Every branch target is materialized as a byte-granular signed offset
//! relative to the instruction's own address; word-unit offsets in the
//! encoding are converted here, once.

use vstd::prelude::*;
use crate::bits::{field, sign_extend, sval};
use crate::model::{
    Inst, Op, Payload, PStateField, MsrImm, Sys, Tbz, empty_inst_spec, empty_inst,
    unknown_inst_spec, unknown_inst, spec_flags_w32, flags_w32, spec_gpr_zr, gpr_zr,
    spec_with_cond, with_cond, cond_of, cond_from_bits,
};

verus! {

/// The hint space (NOP, YIELD, WFE, WFI, SEV, ...): all allocated hints
/// canonicalize to the single no-op hint opcode.
pub open spec fn is_hint_word(w: u32) -> bool {
    (w & 0xFFFFF01F) == 0xD503201F
}

/// Compare-and-branch: CBZ and CBNZ (bits 25..=30 are 011010).
pub open spec fn is_cbz_word(w: u32) -> bool {
    (w >> 25) & 0x3F == 0x1A
}

/// Unconditional immediate branch: B and BL (bits 26..=30 are 00101).
pub open spec fn is_b_word(w: u32) -> bool {
    (w >> 26) & 0x1F == 0x05
}

/// Conditional branch: B.cond (bits 24..=31 are 01010100).
pub open spec fn is_bcond_word(w: u32) -> bool {
    (w >> 24) & 0xFF == 0x54
}

/// Test-and-branch: TBZ and TBNZ (bits 25..=30 are 011011).
pub open spec fn is_tbz_word(w: u32) -> bool {
    (w >> 25) & 0x3F == 0x1B
}

/// Exception generation (bits 24..=31 are 11010100).
pub open spec fn is_exception_word(w: u32) -> bool {
    (w >> 24) & 0xFF == 0xD4
}

/// System instructions, barriers, PSTATE writes (the hint space included)
/// and system-register moves (bits 22..=31 are 1101010100).
pub open spec fn is_system_word(w: u32) -> bool {
    (w >> 22) & 0x3FF == 0x354
}

/// Unconditional branch (register): bits 25..=31 are 1101011.
pub open spec fn is_br_word(w: u32) -> bool {
    (w >> 25) & 0x7F == 0x6B
}

/// The record decoded from an exception-generation word.
pub open spec fn spec_exception(w: u32) -> Inst {
    let opc = (w >> 21) & 7;
    let imm16 = (w >> 5) & 0xFFFF;
    let op2 = (w >> 2) & 7;
    let ll = w & 3;
    if op2 != 0 {
        unknown_inst_spec(w)
    } else {
        let opcv: Option<Op> = if opc == 0 && ll == 1 {
            Option::Some(Op::A64_SVC)
        } else if opc == 0 && ll == 2 {
            Option::Some(Op::A64_HVC)
        } else if opc == 0 && ll == 3 {
            Option::Some(Op::A64_SMC)
        } else if opc == 1 && ll == 0 {
            Option::Some(Op::A64_BRK)
        } else if opc == 2 && ll == 0 {
            Option::Some(Op::A64_HLT)
        } else if opc == 5 && ll == 1 {
            Option::Some(Op::A64_DCPS1)
        } else if opc == 5 && ll == 2 {
            Option::Some(Op::A64_DCPS2)
        } else if opc == 5 && ll == 3 {
            Option::Some(Op::A64_DCPS3)
        } else {
            Option::None
        };
        match opcv {
            Option::None => unknown_inst_spec(w),
            Option::Some(o) => Inst { op: o, imm: imm16 as u64, ..empty_inst_spec() },
        }
    }
}

/// The record decoded from the hint/barrier/PSTATE rows of the system
/// space: every allocated hint canonicalizes to `A64_HINT`.
pub open spec fn spec_pstate_barriers(w: u32) -> Inst {
    let op1 = (w >> 16) & 7;
    let crn = (w >> 12) & 0xF;
    let crm = (w >> 8) & 0xF;
    let op2 = (w >> 5) & 7;
    if w & 0x1F != 31 {
        unknown_inst_spec(w)
    } else if crn == 2 {
        if op1 == 3 {
            Inst { op: Op::A64_HINT, imm: ((w >> 5) & 0x7F) as u64, ..empty_inst_spec() }
        } else {
            unknown_inst_spec(w)
        }
    } else if crn == 3 {
        if op1 != 3 {
            unknown_inst_spec(w)
        } else {
            let opcv: Option<Op> = if op2 == 2 {
                Option::Some(Op::A64_CLREX)
            } else if op2 == 4 {
                Option::Some(
                    if crm == 0 {
                        Op::A64_SSBB
                    } else if crm == 4 {
                        Op::A64_PSSBB
                    } else {
                        Op::A64_DSB
                    },
                )
            } else if op2 == 5 {
                Option::Some(Op::A64_DMB)
            } else if op2 == 6 {
                Option::Some(Op::A64_ISB)
            } else if op2 == 7 {
                Option::Some(Op::A64_SB)
            } else {
                Option::None
            };
            match opcv {
                Option::None => unknown_inst_spec(w),
                Option::Some(o) => Inst { op: o, imm: crm as u64, ..empty_inst_spec() },
            }
        }
    } else if crn == 4 {
        if op1 == 0 && op2 == 0 {
            if crm == 0 {
                Inst { op: Op::A64_CFINV, ..empty_inst_spec() }
            } else {
                unknown_inst_spec(w)
            }
        } else if op1 == 0 && op2 == 1 {
            Inst { op: Op::A64_XAFlag, ..empty_inst_spec() }
        } else if op1 == 0 && op2 == 2 {
            Inst { op: Op::A64_AXFlag, ..empty_inst_spec() }
        } else {
            let psfld: Option<PStateField> = if op1 == 0 && op2 == 3 {
                Option::Some(PStateField::PSF_UAO)
            } else if op1 == 0 && op2 == 4 {
                Option::Some(PStateField::PSF_PAN)
            } else if op1 == 0 && op2 == 5 {
                Option::Some(PStateField::PSF_SPSel)
            } else if op1 == 3 && op2 == 1 {
                Option::Some(PStateField::PSF_SSBS)
            } else if op1 == 3 && op2 == 2 {
                Option::Some(PStateField::PSF_DIT)
            } else if op1 == 3 && op2 == 6 {
                Option::Some(PStateField::PSF_DAIFSet)
            } else if op1 == 3 && op2 == 7 {
                Option::Some(PStateField::PSF_DAIFClr)
            } else {
                Option::None
            };
            match psfld {
                Option::None => unknown_inst_spec(w),
                Option::Some(p) => Inst {
                    op: Op::A64_MSR_IMM,
                    aux: Payload::MsrImm(MsrImm { psfld: p, imm: crm }),
                    ..empty_inst_spec()
                },
            }
        }
    } else {
        unknown_inst_spec(w)
    }
}

/// The record decoded from a system-space word: hints, barriers and PSTATE
/// writes, generic system instructions, and system-register moves. The
/// operand register Xt always lands in the `rd` slot.
pub open spec fn spec_system(w: u32) -> Inst {
    let l = (w >> 21) & 1;
    let op0 = (w >> 19) & 3;
    let rt = w & 0x1F;
    if op0 == 0 {
        if l != 0 {
            unknown_inst_spec(w)
        } else {
            spec_pstate_barriers(w)
        }
    } else if op0 == 1 {
        Inst {
            op: if l == 1 {
                Op::A64_SYSL
            } else {
                Op::A64_SYS
            },
            rd: spec_gpr_zr(rt),
            aux: Payload::Sys(
                Sys {
                    op1: (((w >> 16) & 7) as u16),
                    op2: (((w >> 5) & 7) as u16),
                    crn: (((w >> 12) & 0xF) as u16),
                    crm: (((w >> 8) & 0xF) as u16),
                },
            ),
            ..empty_inst_spec()
        }
    } else {
        Inst {
            op: if l == 1 {
                Op::A64_MRS
            } else {
                Op::A64_MSR_REG
            },
            rd: spec_gpr_zr(rt),
            imm: ((w >> 5) & 0xFFFF) as u64,
            ..empty_inst_spec()
        }
    }
}

/// The record decoded from a register-branch word: BR, BLR or RET.
pub open spec fn spec_br(w: u32) -> Inst {
    let opc = (w >> 21) & 0xF;
    let op2 = (w >> 16) & 0x1F;
    let op3 = (w >> 10) & 0x3F;
    let rn = (w >> 5) & 0x1F;
    let op4 = w & 0x1F;
    if op2 != 0x1F || op3 != 0 || op4 != 0 {
        unknown_inst_spec(w)
    } else if opc == 0 {
        Inst { op: Op::A64_BR, rn: spec_gpr_zr(rn), ..empty_inst_spec() }
    } else if opc == 1 {
        Inst { op: Op::A64_BLR, rn: spec_gpr_zr(rn), ..empty_inst_spec() }
    } else if opc == 2 {
        Inst { op: Op::A64_RET, rn: spec_gpr_zr(rn), ..empty_inst_spec() }
    } else {
        unknown_inst_spec(w)
    }
}

/// Every allocated hint decodes to `A64_HINT`, never to a per-mnemonic
/// opcode; the CRm:op2 selector is kept in `imm` for diagnostics.
pub open spec fn hint_post(w: u32, r: Inst) -> bool {
    r == (Inst { op: Op::A64_HINT, imm: ((w >> 5) & 0x7F) as u64, ..empty_inst_spec() })
}

/// Compare-and-branch record: the word-unit offset is normalized to bytes
/// (4 bytes per word), and the tested register reads 31 as the zero register.
pub open spec fn cbz_post(w: u32, r: Inst) -> bool {
    r == (Inst {
        op: if (w >> 24) & 1 == 1 {
            Op::A64_CBNZ
        } else {
            Op::A64_CBZ
        },
        flags: spec_flags_w32((w >> 31) & 1),
        rd: spec_gpr_zr(w & 0x1F),
        offset: (4 * sval((w >> 5) & 0x7FFFF, 0x40000)) as i64,
        ..empty_inst_spec()
    })
}

/// Unconditional immediate branch record, offset normalized to bytes.
pub open spec fn b_post(w: u32, r: Inst) -> bool {
    r == (Inst {
        op: if (w >> 31) & 1 == 1 {
            Op::A64_BL
        } else {
            Op::A64_B
        },
        offset: (4 * sval(w & 0x3FF_FFFF, 0x200_0000)) as i64,
        ..empty_inst_spec()
    })
}

/// The branch and system row patterns select pairwise disjoint sets of
/// words, except that the hint space lies inside the system space (with
/// the field values the hint row of the system decode keys on).
proof fn lemma_branch_patterns_disjoint(w: u32)
    ensures
        is_hint_word(w) ==> !is_cbz_word(w) && !is_b_word(w) && !is_bcond_word(w) && !is_tbz_word(
            w,
        ) && !is_exception_word(w) && !is_br_word(w),
        is_hint_word(w) ==> is_system_word(w) && (w >> 21) & 1 == 0 && (w >> 19) & 3 == 0 && w
            & 0x1F == 31 && (w >> 12) & 0xF == 2 && (w >> 16) & 7 == 3,
        is_cbz_word(w) ==> !is_b_word(w) && !is_bcond_word(w) && !is_tbz_word(w)
            && !is_exception_word(w) && !is_system_word(w) && !is_br_word(w),
        is_b_word(w) ==> !is_bcond_word(w) && !is_tbz_word(w) && !is_exception_word(w)
            && !is_system_word(w) && !is_br_word(w),
        is_bcond_word(w) ==> !is_tbz_word(w) && !is_exception_word(w) && !is_system_word(w)
            && !is_br_word(w),
        is_tbz_word(w) ==> !is_exception_word(w) && !is_system_word(w) && !is_br_word(w),
        is_exception_word(w) ==> !is_system_word(w) && !is_br_word(w),
        is_system_word(w) ==> !is_br_word(w),
{
    assert(((w & 0xFFFFF01F) == 0xD503201F ==> ((w >> 25) & 0x3F != 0x1A && (w >> 26) & 0x1F
        != 0x05 && (w >> 24) & 0xFF != 0x54 && (w >> 25) & 0x3F != 0x1B && (w >> 24) & 0xFF
        != 0xD4 && (w >> 25) & 0x7F != 0x6B)) && ((w & 0xFFFFF01F) == 0xD503201F ==> ((w >> 22)
        & 0x3FF == 0x354 && (w >> 21) & 1 == 0 && (w >> 19) & 3 == 0 && w & 0x1F == 31 && (w
        >> 12) & 0xF == 2 && (w >> 16) & 7 == 3)) && ((w >> 25) & 0x3F == 0x1A ==> ((w >> 26)
        & 0x1F != 0x05 && (w >> 24) & 0xFF != 0x54 && (w >> 25) & 0x3F != 0x1B && (w >> 24) & 0xFF
        != 0xD4 && (w >> 22) & 0x3FF != 0x354 && (w >> 25) & 0x7F != 0x6B)) && ((w >> 26) & 0x1F
        == 0x05 ==> ((w >> 24) & 0xFF != 0x54 && (w >> 25) & 0x3F != 0x1B && (w >> 24) & 0xFF
        != 0xD4 && (w >> 22) & 0x3FF != 0x354 && (w >> 25) & 0x7F != 0x6B)) && ((w >> 24) & 0xFF
        == 0x54 ==> ((w >> 25) & 0x3F != 0x1B && (w >> 24) & 0xFF != 0xD4 && (w >> 22) & 0x3FF
        != 0x354 && (w >> 25) & 0x7F != 0x6B)) && ((w >> 25) & 0x3F == 0x1B ==> ((w >> 24) & 0xFF
        != 0xD4 && (w >> 22) & 0x3FF != 0x354 && (w >> 25) & 0x7F != 0x6B)) && ((w >> 24) & 0xFF
        == 0xD4 ==> ((w >> 22) & 0x3FF != 0x354 && (w >> 25) & 0x7F != 0x6B)) && ((w >> 22)
        & 0x3FF == 0x354 ==> (w >> 25) & 0x7F != 0x6B)) by (bit_vector);
}

/// Conditional-branch record: condition in the attributes word, offset
/// normalized to bytes. A set bit 4 selects consistent-branch forms not
/// resolved here.
pub open spec fn bcond_post(w: u32, r: Inst) -> bool {
    if (w >> 4) & 1 != 0 {
        r == (Inst { imm: w as u64, ..empty_inst_spec() })
    } else {
        r == (Inst {
            op: Op::A64_BCOND,
            flags: spec_with_cond(0, cond_of(w & 0xF)),
            offset: (4 * sval((w >> 5) & 0x7FFFF, 0x40000)) as i64,
            ..empty_inst_spec()
        })
    }
}

/// Test-and-branch record: the tested bit index is reassembled from its
/// two non-adjacent raw fields, and the offset payload is byte-granular.
pub open spec fn tbz_post(w: u32, r: Inst) -> bool {
    r == (Inst {
        op: if (w >> 24) & 1 == 1 {
            Op::A64_TBNZ
        } else {
            Op::A64_TBZ
        },
        rd: spec_gpr_zr(w & 0x1F),
        aux: Payload::Tbz(
            Tbz {
                offset: (4 * sval((w >> 5) & 0x3FFF, 0x2000)) as i32,
                bit: (((w >> 31) & 1) * 32 + ((w >> 19) & 0x1F)) as u32,
            },
        ),
        ..empty_inst_spec()
    })
}

/// Exception generation: SVC, HVC, SMC, BRK, HLT and the DCPS family.
fn decode_exception(w: u32) -> (r: Inst)
    ensures
        r == spec_exception(w),
{
    let opc = field(w, 21, 7);
    let imm16 = field(w, 5, 0xFFFF);
    let op2 = field(w, 2, 7);
    let ll = field(w, 0, 3);
    if op2 != 0 {
        return unknown_inst(w);
    }
    let mut r = empty_inst();
    r.imm = imm16 as u64;
    if opc == 0 && ll == 1 {
        r.op = Op::A64_SVC;
    } else if opc == 0 && ll == 2 {
        r.op = Op::A64_HVC;
    } else if opc == 0 && ll == 3 {
        r.op = Op::A64_SMC;
    } else if opc == 1 && ll == 0 {
        r.op = Op::A64_BRK;
    } else if opc == 2 && ll == 0 {
        r.op = Op::A64_HLT;
    } else if opc == 5 && ll == 1 {
        r.op = Op::A64_DCPS1;
    } else if opc == 5 && ll == 2 {
        r.op = Op::A64_DCPS2;
    } else if opc == 5 && ll == 3 {
        r.op = Op::A64_DCPS3;
    } else {
        return unknown_inst(w);
    }
    r
}

/// Hints, barriers and PSTATE writes. Every allocated hint (NOP, YIELD,
/// WFE, ...) canonicalizes to the single no-op hint opcode.
fn decode_pstate_barriers(w: u32) -> (r: Inst)
    ensures
        r == spec_pstate_barriers(w),
{
    let op1 = field(w, 16, 7);
    let crn = field(w, 12, 0xF);
    let crm = field(w, 8, 0xF);
    let op2 = field(w, 5, 7);
    if field(w, 0, 0x1F) != 31 {
        return unknown_inst(w);
    }
    if crn == 2 {
        if op1 == 3 {
            let mut r = empty_inst();
            r.op = Op::A64_HINT;
            r.imm = field(w, 5, 0x7F) as u64;
            return r;
        }
        return unknown_inst(w);
    }
    if crn == 3 {
        // Barriers.
        let mut r = empty_inst();
        r.imm = crm as u64;
        if op1 != 3 {
            return unknown_inst(w);
        }
        if op2 == 2 {
            r.op = Op::A64_CLREX;
        } else if op2 == 4 {
            if crm == 0 {
                r.op = Op::A64_SSBB;
            } else if crm == 4 {
                r.op = Op::A64_PSSBB;
            } else {
                r.op = Op::A64_DSB;
            }
        } else if op2 == 5 {
            r.op = Op::A64_DMB;
        } else if op2 == 6 {
            r.op = Op::A64_ISB;
        } else if op2 == 7 {
            r.op = Op::A64_SB;
        } else {
            return unknown_inst(w);
        }
        return r;
    }
    if crn == 4 {
        // PSTATE: flag-manipulation instructions and the immediate MSR.
        let mut r = empty_inst();
        if op1 == 0 && op2 == 0 {
            if crm == 0 {
                r.op = Op::A64_CFINV;
                return r;
            }
            return unknown_inst(w);
        }
        if op1 == 0 && op2 == 1 {
            r.op = Op::A64_XAFlag;
            return r;
        }
        if op1 == 0 && op2 == 2 {
            r.op = Op::A64_AXFlag;
            return r;
        }
        let psfld: PStateField = if op1 == 0 && op2 == 3 {
            PStateField::PSF_UAO
        } else if op1 == 0 && op2 == 4 {
            PStateField::PSF_PAN
        } else if op1 == 0 && op2 == 5 {
            PStateField::PSF_SPSel
        } else if op1 == 3 && op2 == 1 {
            PStateField::PSF_SSBS
        } else if op1 == 3 && op2 == 2 {
            PStateField::PSF_DIT
        } else if op1 == 3 && op2 == 6 {
            PStateField::PSF_DAIFSet
        } else if op1 == 3 && op2 == 7 {
            PStateField::PSF_DAIFClr
        } else {
            return unknown_inst(w);
        };
        r.op = Op::A64_MSR_IMM;
        r.aux = Payload::MsrImm(MsrImm { psfld: psfld, imm: crm });
        return r;
    }
    unknown_inst(w)
}

/// System instructions and system-register moves. The operand register Xt
/// goes into the `rd` slot regardless of transfer direction.
fn decode_system(w: u32) -> (r: Inst)
    ensures
        r == spec_system(w),
{
    let l = field(w, 21, 1);
    let op0 = field(w, 19, 3);
    let rt = field(w, 0, 0x1F);
    if op0 == 0 {
        if l != 0 {
            return unknown_inst(w);
        }
        return decode_pstate_barriers(w);
    }
    if op0 == 1 {
        // SYS / SYSL (cache maintenance and friends come through here).
        let mut r = empty_inst();
        r.op = if l == 1 {
            Op::A64_SYSL
        } else {
            Op::A64_SYS
        };
        r.rd = gpr_zr(rt);
        r.aux = Payload::Sys(
            Sys {
                op1: field(w, 16, 7) as u16,
                op2: field(w, 5, 7) as u16,
                crn: field(w, 12, 0xF) as u16,
                crm: field(w, 8, 0xF) as u16,
            },
        );
        return r;
    }
    // System-register move; imm keeps the whole o0:op1:CRn:CRm:op2 selector.
    let mut r = empty_inst();
    r.op = if l == 1 {
        Op::A64_MRS
    } else {
        Op::A64_MSR_REG
    };
    r.rd = gpr_zr(rt);
    r.imm = field(w, 5, 0xFFFF) as u64;
    r
}

/// Decode a word of the branch/exception/system class.
pub fn decode_branches(w: u32) -> (r: Inst)
    ensures
        r.op == Op::A64_UNKNOWN ==> r.imm == w as u64,
        r.op == Op::A64_ERROR ==> r.aux is Reason,
        is_hint_word(w) ==> hint_post(w, r),
        is_cbz_word(w) ==> cbz_post(w, r),
        is_b_word(w) ==> b_post(w, r),
        is_bcond_word(w) ==> bcond_post(w, r),
        is_tbz_word(w) ==> tbz_post(w, r),
        is_exception_word(w) ==> r == spec_exception(w),
        is_system_word(w) ==> r == spec_system(w),
        is_br_word(w) ==> r == spec_br(w),
{
    proof {
        lemma_branch_patterns_disjoint(w);
    }
    if (w >> 25) & 0x3F == 0x1A {
        let o = field(w, 24, 1);
        let imm19 = field(w, 5, 0x7FFFF);
        let off = sign_extend(imm19, 0x40000);
        let mut r = empty_inst();
        r.op = if o == 1 {
            Op::A64_CBNZ
        } else {
            Op::A64_CBZ
        };
        r.flags = flags_w32(field(w, 31, 1));
        r.rd = gpr_zr(field(w, 0, 0x1F));
        r.offset = 4 * off;
        return r;
    }
    if (w >> 26) & 0x1F == 0x05 {
        let off = sign_extend(field(w, 0, 0x3FF_FFFF), 0x200_0000);
        let mut r = empty_inst();
        r.op = if field(w, 31, 1) == 1 {
            Op::A64_BL
        } else {
            Op::A64_B
        };
        r.offset = 4 * off;
        return r;
    }
    if (w >> 24) & 0xFF == 0x54 {
        // Conditional branch: the condition goes into the attributes word.
        // A set bit 4 selects consistent-branch forms not resolved here.
        if field(w, 4, 1) != 0 {
            return unknown_inst(w);
        }
        let off = sign_extend(field(w, 5, 0x7FFFF), 0x40000);
        let mut r = empty_inst();
        r.op = Op::A64_BCOND;
        r.flags = with_cond(0, cond_from_bits(field(w, 0, 0xF)));
        r.offset = 4 * off;
        return r;
    }
    if (w >> 25) & 0x3F == 0x1B {
        // Test-and-branch: the tested bit index is reassembled from its two
        // non-adjacent raw fields; the offset payload is byte-granular.
        let b5 = field(w, 31, 1);
        let o = field(w, 24, 1);
        let b40 = field(w, 19, 0x1F);
        let imm14 = field(w, 5, 0x3FFF);
        let rt = field(w, 0, 0x1F);
        let off = sign_extend(imm14, 0x2000);
        let mut r = empty_inst();
        r.op = if o == 1 {
            Op::A64_TBNZ
        } else {
            Op::A64_TBZ
        };
        r.rd = gpr_zr(rt);
        r.aux = Payload::Tbz(Tbz { offset: (4 * off) as i32, bit: b5 * 32 + b40 });
        return r;
    }
    if (w >> 24) & 0xFF == 0xD4 {
        return decode_exception(w);
    }
    if (w >> 22) & 0x3FF == 0x354 {
        return decode_system(w);
    }
    if (w >> 25) & 0x7F == 0x6B {
        // Unconditional branch (register).
        let opc = field(w, 21, 0xF);
        let op2 = field(w, 16, 0x1F);
        let op3 = field(w, 10, 0x3F);
        let rn = field(w, 5, 0x1F);
        let op4 = field(w, 0, 0x1F);
        if op2 != 0x1F || op3 != 0 || op4 != 0 {
            return unknown_inst(w);
        }
        let mut r = empty_inst();
        r.rn = gpr_zr(rn);
        if opc == 0 {
            r.op = Op::A64_BR;
        } else if opc == 1 {
            r.op = Op::A64_BLR;
        } else if opc == 2 {
            r.op = Op::A64_RET;
        } else {
            return unknown_inst(w);
        }
        return r;
    }
    unknown_inst(w)
}

} // verus!
