//! Decoder for the scalar floating-point and SIMD class: float/integer
//! conversion, scalar FP arithmetic, compare, select and immediate moves,
//! the fused-multiply family, and the regular vector families (three-same
//! integer and FP arithmetic, two-register miscellany, element copy,
//! modified immediates, extract).
//!
//! Allocated SIMD encodings outside the families resolved here (the
//! floating-point rows of the two-register miscellany, half-precision
//! vector forms, crypto, and the scalar SIMD duplicates of vector forms)
//! deliberately decode to the recognized-but-unresolved sentinel with the
//! `UnresolvedSimd` reason, rather than being half-decoded silently.

use vstd::prelude::*;
use crate::bits::{field, vfp_expand_imm, spec_vfp_expand_imm};
use crate::model::{
    Inst, Op, Payload, Ccmp, Fcvt, Frint, FPRounding, FPSize, InsElem, FcmlaElem,
    VectorArrangement, Reg, DecodeReason, empty_inst_spec, empty_inst, unknown_inst_spec,
    unknown_inst, error_inst_spec, error_inst, spec_gpr_zr, gpr_zr, simd_reg, spec_flags_w32,
    flags_w32, spec_with_cond, with_cond, cond_of, cond_from_bits, spec_with_prec, with_prec,
    spec_with_size, with_size, spec_with_va, with_va, spec_va_of, va_of, spec_size_of,
    size_of_bits, FLAG_SIMD_SIGNED, FLAG_SIMD_ROUND,
};

verus! {

/// The whole scalar floating-point space except the fused multiplies
/// (bits 24..=30 are 0011110).
pub open spec fn is_fp_scalar_word(w: u32) -> bool {
    (w >> 24) & 0x7F == 0x1E
}

/// The scalar fused-multiply space (bits 24..=30 are 0011111).
pub open spec fn is_fp_3src_word(w: u32) -> bool {
    (w >> 24) & 0x7F == 0x1F
}

/// Vector three-same: two vectors of one arrangement, element-wise.
pub open spec fn is_vec_three_same_word(w: u32) -> bool {
    (w >> 24) & 0x9F == 0x0E && (w >> 21) & 1 == 1 && (w >> 10) & 1 == 1
}

/// Vector element copy: duplicate, insert and the extracting moves.
pub open spec fn is_vec_copy_word(w: u32) -> bool {
    (w >> 24) & 0x9F == 0x0E && (w >> 22) & 3 == 0 && (w >> 21) & 1 == 0 && (w >> 15) & 1 == 0
        && (w >> 10) & 1 == 1
}

/// Vector modified immediate: MOVI/MVNI, immediate ORR/BIC, vector FMOV.
pub open spec fn is_vec_modimm_word(w: u32) -> bool {
    (w >> 24) & 0x9F == 0x0F && (w >> 19) & 0x1F == 0 && (w >> 10) & 1 == 1
}

pub open spec fn spec_prec_of_type(t: u32) -> Option<FPSize> {
    if t == 0 {
        Option::Some(FPSize::FSZ_S)
    } else if t == 1 {
        Option::Some(FPSize::FSZ_D)
    } else if t == 3 {
        Option::Some(FPSize::FSZ_H)
    } else {
        Option::None
    }
}

/// The scalar precision selected by the two-bit type field of scalar FP
/// instructions; the fourth encoding (2) is allocated only to special
/// cases and yields `None` here.
fn prec_of_type(t: u32) -> (r: Option<FPSize>)
    requires
        t <= 3,
    ensures
        r == spec_prec_of_type(t),
{
    if t == 0 {
        Option::Some(FPSize::FSZ_S)
    } else if t == 1 {
        Option::Some(FPSize::FSZ_D)
    } else if t == 3 {
        Option::Some(FPSize::FSZ_H)
    } else {
        Option::None
    }
}

/// The record decoded from a float/integer conversion or register-move word.
pub open spec fn spec_fp_int_conv(w: u32) -> Inst {
    let sf = (w >> 31) & 1;
    let typ = (w >> 22) & 3;
    let rmode = (w >> 19) & 3;
    let opcode = (w >> 16) & 7;
    let rn = (w >> 5) & 0x1F;
    let rd = w & 0x1F;
    let f0 = spec_flags_w32(sf);
    if sf == 0 && typ == 1 && rmode == 3 && opcode == 6 {
        Inst {
            op: Op::A64_FJCVTZS,
            flags: spec_with_prec(f0, FPSize::FSZ_D),
            rd: spec_gpr_zr(rd),
            rn: Reg::Ordinary(rn as u8),
            aux: Payload::Fcvt(Fcvt { mode: FPRounding::FPR_ZERO, fbits: 0, sgn: 1 }),
            ..empty_inst_spec()
        }
    } else if opcode >= 6 {
        let top = rmode == 1;
        if rmode >= 2 || (top && typ != 2) {
            unknown_inst_spec(w)
        } else if !top && spec_prec_of_type(typ) is None {
            unknown_inst_spec(w)
        } else {
            let fl = if top {
                spec_with_prec(f0, FPSize::FSZ_Q)
            } else {
                match spec_prec_of_type(typ) {
                    Option::Some(p) => spec_with_prec(f0, p),
                    Option::None => f0,
                }
            };
            if opcode == 6 {
                Inst {
                    op: if top {
                        Op::A64_FMOV_TOP2GPR
                    } else {
                        Op::A64_FMOV_VEC2GPR
                    },
                    flags: fl,
                    rd: spec_gpr_zr(rd),
                    rn: Reg::Ordinary(rn as u8),
                    ..empty_inst_spec()
                }
            } else {
                Inst {
                    op: if top {
                        Op::A64_FMOV_GPR2TOP
                    } else {
                        Op::A64_FMOV_GPR2VEC
                    },
                    flags: fl,
                    rd: Reg::Ordinary(rd as u8),
                    rn: spec_gpr_zr(rn),
                    ..empty_inst_spec()
                }
            }
        }
    } else {
        match spec_prec_of_type(typ) {
            Option::None => unknown_inst_spec(w),
            Option::Some(p) => {
                let fl = spec_with_prec(f0, p);
                if opcode <= 1 {
                    let mode = if rmode == 0 {
                        FPRounding::FPR_TIE_EVEN
                    } else if rmode == 1 {
                        FPRounding::FPR_POS_INF
                    } else if rmode == 2 {
                        FPRounding::FPR_NEG_INF
                    } else {
                        FPRounding::FPR_ZERO
                    };
                    Inst {
                        op: Op::A64_FCVT_GPR,
                        flags: fl,
                        rd: spec_gpr_zr(rd),
                        rn: Reg::Ordinary(rn as u8),
                        aux: Payload::Fcvt(
                            Fcvt {
                                mode: mode,
                                fbits: 0,
                                sgn: if opcode == 0 {
                                    1
                                } else {
                                    0
                                },
                            },
                        ),
                        ..empty_inst_spec()
                    }
                } else if rmode == 0 && (opcode == 2 || opcode == 3) {
                    Inst {
                        op: Op::A64_CVTF,
                        flags: fl,
                        rd: Reg::Ordinary(rd as u8),
                        rn: spec_gpr_zr(rn),
                        aux: Payload::Fcvt(
                            Fcvt {
                                mode: FPRounding::FPR_CURRENT,
                                fbits: 0,
                                sgn: if opcode == 2 {
                                    1
                                } else {
                                    0
                                },
                            },
                        ),
                        ..empty_inst_spec()
                    }
                } else if rmode == 0 && (opcode == 4 || opcode == 5) {
                    Inst {
                        op: Op::A64_FCVT_GPR,
                        flags: fl,
                        rd: spec_gpr_zr(rd),
                        rn: Reg::Ordinary(rn as u8),
                        aux: Payload::Fcvt(
                            Fcvt {
                                mode: FPRounding::FPR_TIE_AWAY,
                                fbits: 0,
                                sgn: if opcode == 4 {
                                    1
                                } else {
                                    0
                                },
                            },
                        ),
                        ..empty_inst_spec()
                    }
                } else {
                    unknown_inst_spec(w)
                }
            },
        }
    }
}

/// Conversions between floating point and integer registers, and the
/// no-conversion FMOV register moves (including the top-half forms).
fn decode_fp_int_conv(w: u32) -> (r: Inst)
    ensures
        r == spec_fp_int_conv(w),
{
    let sf = field(w, 31, 1);
    let typ = field(w, 22, 3);
    let rmode = field(w, 19, 3);
    let opcode = field(w, 16, 7);
    let rn = field(w, 5, 0x1F);
    let rd = field(w, 0, 0x1F);
    let mut r = empty_inst();
    r.flags = flags_w32(sf);
    if sf == 0 && typ == 1 && rmode == 3 && opcode == 6 {
        // FJCVTZS: the Javascript convert, a single combination.
        r.op = Op::A64_FJCVTZS;
        r.flags = with_prec(r.flags, FPSize::FSZ_D);
        r.rd = gpr_zr(rd);
        r.rn = simd_reg(rn);
        r.aux = Payload::Fcvt(Fcvt { mode: FPRounding::FPR_ZERO, fbits: 0, sgn: 1 });
        return r;
    }
    if opcode >= 6 {
        // FMOV between register files, no conversion.
        let top = rmode == 1;
        if rmode >= 2 || (top && typ != 2) {
            return unknown_inst(w);
        }
        if !top {
            let prec = match prec_of_type(typ) {
                Option::Some(p) => p,
                Option::None => {
                    return unknown_inst(w);
                },
            };
            r.flags = with_prec(r.flags, prec);
        } else {
            r.flags = with_prec(r.flags, FPSize::FSZ_Q);
        }
        if opcode == 6 {
            r.op = if top {
                Op::A64_FMOV_TOP2GPR
            } else {
                Op::A64_FMOV_VEC2GPR
            };
            r.rd = gpr_zr(rd);
            r.rn = simd_reg(rn);
        } else {
            r.op = if top {
                Op::A64_FMOV_GPR2TOP
            } else {
                Op::A64_FMOV_GPR2VEC
            };
            r.rd = simd_reg(rd);
            r.rn = gpr_zr(rn);
        }
        return r;
    }
    let prec = match prec_of_type(typ) {
        Option::Some(p) => p,
        Option::None => {
            return unknown_inst(w);
        },
    };
    r.flags = with_prec(r.flags, prec);
    if opcode <= 1 {
        // FCVT* to integer, rounding mode from rmode.
        let mode = if rmode == 0 {
            FPRounding::FPR_TIE_EVEN
        } else if rmode == 1 {
            FPRounding::FPR_POS_INF
        } else if rmode == 2 {
            FPRounding::FPR_NEG_INF
        } else {
            FPRounding::FPR_ZERO
        };
        r.op = Op::A64_FCVT_GPR;
        r.rd = gpr_zr(rd);
        r.rn = simd_reg(rn);
        r.aux = Payload::Fcvt(
            Fcvt {
                mode: mode,
                fbits: 0,
                sgn: if opcode == 0 {
                    1
                } else {
                    0
                },
            },
        );
        return r;
    }
    if rmode == 0 && (opcode == 2 || opcode == 3) {
        // SCVTF/UCVTF from an integer register.
        r.op = Op::A64_CVTF;
        r.rd = simd_reg(rd);
        r.rn = gpr_zr(rn);
        r.aux = Payload::Fcvt(
            Fcvt {
                mode: FPRounding::FPR_CURRENT,
                fbits: 0,
                sgn: if opcode == 2 {
                    1
                } else {
                    0
                },
            },
        );
        return r;
    }
    if rmode == 0 && (opcode == 4 || opcode == 5) {
        // FCVTAS/FCVTAU: round to nearest, ties away.
        r.op = Op::A64_FCVT_GPR;
        r.rd = gpr_zr(rd);
        r.rn = simd_reg(rn);
        r.aux = Payload::Fcvt(
            Fcvt {
                mode: FPRounding::FPR_TIE_AWAY,
                fbits: 0,
                sgn: if opcode == 4 {
                    1
                } else {
                    0
                },
            },
        );
        return r;
    }
    unknown_inst(w)
}

/// The record decoded from a scalar one-source FP word.
pub open spec fn spec_fp_1src(w: u32) -> Inst {
    let typ = (w >> 22) & 3;
    let opcode = (w >> 15) & 0x3F;
    let rn = (w >> 5) & 0x1F;
    let rd = w & 0x1F;
    match spec_prec_of_type(typ) {
        Option::None => unknown_inst_spec(w),
        Option::Some(p) => {
            let fl = spec_with_prec(0, p);
            let opc: Option<Op> = if opcode == 0 {
                Option::Some(Op::A64_FMOV_REG)
            } else if opcode == 1 {
                Option::Some(Op::A64_FABS)
            } else if opcode == 2 {
                Option::Some(Op::A64_FNEG)
            } else if opcode == 3 {
                Option::Some(Op::A64_FSQRT)
            } else if opcode == 4 {
                Option::Some(Op::A64_FCVT_S)
            } else if opcode == 5 {
                Option::Some(Op::A64_FCVT_D)
            } else if opcode == 7 {
                Option::Some(Op::A64_FCVT_H)
            } else {
                Option::None
            };
            match opc {
                Option::Some(o) => Inst {
                    op: o,
                    flags: fl,
                    rd: Reg::Ordinary(rd as u8),
                    rn: Reg::Ordinary(rn as u8),
                    ..empty_inst_spec()
                },
                Option::None => {
                    if opcode >= 8 && opcode <= 15 && opcode != 13 {
                        let mode = if opcode == 8 {
                            FPRounding::FPR_TIE_EVEN
                        } else if opcode == 9 {
                            FPRounding::FPR_POS_INF
                        } else if opcode == 10 {
                            FPRounding::FPR_NEG_INF
                        } else if opcode == 11 {
                            FPRounding::FPR_ZERO
                        } else if opcode == 12 {
                            FPRounding::FPR_TIE_AWAY
                        } else {
                            FPRounding::FPR_CURRENT
                        };
                        Inst {
                            op: if opcode == 14 {
                                Op::A64_FRINTX
                            } else {
                                Op::A64_FRINT
                            },
                            flags: fl,
                            rd: Reg::Ordinary(rd as u8),
                            rn: Reg::Ordinary(rn as u8),
                            aux: Payload::Frint(Frint { mode: mode, bits: 0 }),
                            ..empty_inst_spec()
                        }
                    } else {
                        unknown_inst_spec(w)
                    }
                },
            }
        },
    }
}

/// Scalar one-source FP: moves, absolute/negate/sqrt, precision conversion
/// and the round-to-integral family.
fn decode_fp_1src(w: u32) -> (r: Inst)
    ensures
        r == spec_fp_1src(w),
{
    let typ = field(w, 22, 3);
    let opcode = field(w, 15, 0x3F);
    let rn = field(w, 5, 0x1F);
    let rd = field(w, 0, 0x1F);
    let prec = match prec_of_type(typ) {
        Option::Some(p) => p,
        Option::None => {
            return unknown_inst(w);
        },
    };
    let mut r = empty_inst();
    r.flags = with_prec(0, prec);
    r.rd = simd_reg(rd);
    r.rn = simd_reg(rn);
    if opcode == 0 {
        r.op = Op::A64_FMOV_REG;
    } else if opcode == 1 {
        r.op = Op::A64_FABS;
    } else if opcode == 2 {
        r.op = Op::A64_FNEG;
    } else if opcode == 3 {
        r.op = Op::A64_FSQRT;
    } else if opcode == 4 {
        r.op = Op::A64_FCVT_S;
    } else if opcode == 5 {
        r.op = Op::A64_FCVT_D;
    } else if opcode == 7 {
        r.op = Op::A64_FCVT_H;
    } else if opcode >= 8 && opcode <= 15 {
        let mode = if opcode == 8 {
            FPRounding::FPR_TIE_EVEN
        } else if opcode == 9 {
            FPRounding::FPR_POS_INF
        } else if opcode == 10 {
            FPRounding::FPR_NEG_INF
        } else if opcode == 11 {
            FPRounding::FPR_ZERO
        } else if opcode == 12 {
            FPRounding::FPR_TIE_AWAY
        } else if opcode == 14 || opcode == 15 {
            FPRounding::FPR_CURRENT
        } else {
            return unknown_inst(w);
        };
        r.op = if opcode == 14 {
            Op::A64_FRINTX
        } else {
            Op::A64_FRINT
        };
        r.aux = Payload::Frint(Frint { mode: mode, bits: 0 });
    } else {
        return unknown_inst(w);
    }
    r
}

/// The record decoded from a scalar FP compare word.
pub open spec fn spec_fp_compare(w: u32) -> Inst {
    let typ = (w >> 22) & 3;
    let rm = (w >> 16) & 0x1F;
    let op = (w >> 14) & 3;
    let opcode2 = w & 0x1F;
    let rn = (w >> 5) & 0x1F;
    if op != 0 {
        unknown_inst_spec(w)
    } else {
        match spec_prec_of_type(typ) {
            Option::None => unknown_inst_spec(w),
            Option::Some(p) => {
                let fl = spec_with_prec(0, p);
                if opcode2 == 0 {
                    Inst {
                        op: Op::A64_FCMP_REG,
                        flags: fl,
                        rn: Reg::Ordinary(rn as u8),
                        rm: Reg::Ordinary(rm as u8),
                        ..empty_inst_spec()
                    }
                } else if opcode2 == 8 {
                    Inst {
                        op: Op::A64_FCMP_ZERO,
                        flags: fl,
                        rn: Reg::Ordinary(rn as u8),
                        ..empty_inst_spec()
                    }
                } else if opcode2 == 16 {
                    Inst {
                        op: Op::A64_FCMPE_REG,
                        flags: fl,
                        rn: Reg::Ordinary(rn as u8),
                        rm: Reg::Ordinary(rm as u8),
                        ..empty_inst_spec()
                    }
                } else if opcode2 == 24 {
                    Inst {
                        op: Op::A64_FCMPE_ZERO,
                        flags: fl,
                        rn: Reg::Ordinary(rn as u8),
                        ..empty_inst_spec()
                    }
                } else {
                    unknown_inst_spec(w)
                }
            },
        }
    }
}

/// Scalar FP compare (with register or with zero, quiet or signalling).
fn decode_fp_compare(w: u32) -> (r: Inst)
    ensures
        r == spec_fp_compare(w),
{
    let typ = field(w, 22, 3);
    let rm = field(w, 16, 0x1F);
    let op = field(w, 14, 3);
    let opcode2 = field(w, 0, 0x1F);
    let rn = field(w, 5, 0x1F);
    if op != 0 {
        return unknown_inst(w);
    }
    let prec = match prec_of_type(typ) {
        Option::Some(p) => p,
        Option::None => {
            return unknown_inst(w);
        },
    };
    let mut r = empty_inst();
    r.flags = with_prec(0, prec);
    r.rn = simd_reg(rn);
    if opcode2 == 0 {
        r.op = Op::A64_FCMP_REG;
        r.rm = simd_reg(rm);
    } else if opcode2 == 8 {
        r.op = Op::A64_FCMP_ZERO;
    } else if opcode2 == 16 {
        r.op = Op::A64_FCMPE_REG;
        r.rm = simd_reg(rm);
    } else if opcode2 == 24 {
        r.op = Op::A64_FCMPE_ZERO;
    } else {
        return unknown_inst(w);
    }
    r
}

/// The record decoded from a scalar two-source FP arithmetic word.
pub open spec fn spec_fp_2src(w: u32) -> Inst {
    let typ = (w >> 22) & 3;
    let rm = (w >> 16) & 0x1F;
    let opcode = (w >> 12) & 0xF;
    let rn = (w >> 5) & 0x1F;
    let rd = w & 0x1F;
    match spec_prec_of_type(typ) {
        Option::None => unknown_inst_spec(w),
        Option::Some(p) => {
            let opc: Option<Op> = if opcode == 0 {
                Option::Some(Op::A64_FMUL)
            } else if opcode == 1 {
                Option::Some(Op::A64_FDIV)
            } else if opcode == 2 {
                Option::Some(Op::A64_FADD)
            } else if opcode == 3 {
                Option::Some(Op::A64_FSUB)
            } else if opcode == 4 {
                Option::Some(Op::A64_FMAX)
            } else if opcode == 5 {
                Option::Some(Op::A64_FMIN)
            } else if opcode == 6 {
                Option::Some(Op::A64_FMAXNM)
            } else if opcode == 7 {
                Option::Some(Op::A64_FMINNM)
            } else if opcode == 8 {
                Option::Some(Op::A64_FNMUL)
            } else {
                Option::None
            };
            match opc {
                Option::None => unknown_inst_spec(w),
                Option::Some(o) => Inst {
                    op: o,
                    flags: spec_with_prec(0, p),
                    rd: Reg::Ordinary(rd as u8),
                    rn: Reg::Ordinary(rn as u8),
                    rm: Reg::Ordinary(rm as u8),
                    ..empty_inst_spec()
                },
            }
        },
    }
}

/// Scalar two-source FP arithmetic.
fn decode_fp_2src(w: u32) -> (r: Inst)
    ensures
        r == spec_fp_2src(w),
{
    let typ = field(w, 22, 3);
    let rm = field(w, 16, 0x1F);
    let opcode = field(w, 12, 0xF);
    let rn = field(w, 5, 0x1F);
    let rd = field(w, 0, 0x1F);
    let prec = match prec_of_type(typ) {
        Option::Some(p) => p,
        Option::None => {
            return unknown_inst(w);
        },
    };
    let mut r = empty_inst();
    r.flags = with_prec(0, prec);
    r.rd = simd_reg(rd);
    r.rn = simd_reg(rn);
    r.rm = simd_reg(rm);
    if opcode == 0 {
        r.op = Op::A64_FMUL;
    } else if opcode == 1 {
        r.op = Op::A64_FDIV;
    } else if opcode == 2 {
        r.op = Op::A64_FADD;
    } else if opcode == 3 {
        r.op = Op::A64_FSUB;
    } else if opcode == 4 {
        r.op = Op::A64_FMAX;
    } else if opcode == 5 {
        r.op = Op::A64_FMIN;
    } else if opcode == 6 {
        r.op = Op::A64_FMAXNM;
    } else if opcode == 7 {
        r.op = Op::A64_FMINNM;
    } else if opcode == 8 {
        r.op = Op::A64_FNMUL;
    } else {
        return unknown_inst(w);
    }
    r
}

/// The record decoded from any word of the scalar floating-point space:
/// fixed-point and integer conversions, one/two-source arithmetic,
/// compares, conditional compare/select, and the immediate move.
pub open spec fn spec_fp_scalar(w: u32) -> Inst {
    let typ = (w >> 22) & 3;
    if (w >> 21) & 1 == 0 {
        // Fixed-point conversions.
        let sf = (w >> 31) & 1;
        let rmode = (w >> 19) & 3;
        let opcode = (w >> 16) & 7;
        let scale = (w >> 10) & 0x3F;
        if sf == 0 && scale < 32 {
            unknown_inst_spec(w)
        } else {
            match spec_prec_of_type(typ) {
                Option::None => unknown_inst_spec(w),
                Option::Some(p) => {
                    let fl = spec_with_prec(spec_flags_w32(sf), p);
                    let fbits = 64 - scale;
                    if rmode == 3 && opcode <= 1 {
                        Inst {
                            op: Op::A64_FCVT_GPR,
                            flags: fl,
                            rd: spec_gpr_zr(w & 0x1F),
                            rn: Reg::Ordinary(((w >> 5) & 0x1F) as u8),
                            aux: Payload::Fcvt(
                                Fcvt {
                                    mode: FPRounding::FPR_ZERO,
                                    fbits: fbits as u16,
                                    sgn: if opcode == 0 {
                                        1
                                    } else {
                                        0
                                    },
                                },
                            ),
                            ..empty_inst_spec()
                        }
                    } else if rmode == 0 && (opcode == 2 || opcode == 3) {
                        Inst {
                            op: Op::A64_CVTF,
                            flags: fl,
                            rd: Reg::Ordinary((w & 0x1F) as u8),
                            rn: spec_gpr_zr((w >> 5) & 0x1F),
                            aux: Payload::Fcvt(
                                Fcvt {
                                    mode: FPRounding::FPR_CURRENT,
                                    fbits: fbits as u16,
                                    sgn: if opcode == 2 {
                                        1
                                    } else {
                                        0
                                    },
                                },
                            ),
                            ..empty_inst_spec()
                        }
                    } else {
                        unknown_inst_spec(w)
                    }
                },
            }
        }
    } else {
        let sub = (w >> 10) & 0x3F;
        if sub == 0 {
            spec_fp_int_conv(w)
        } else if (w >> 10) & 0x1F == 0x10 {
            spec_fp_1src(w)
        } else if sub == 8 {
            spec_fp_compare(w)
        } else if (w >> 10) & 7 == 4 {
            if (w >> 5) & 0x1F != 0 {
                unknown_inst_spec(w)
            } else {
                match spec_prec_of_type(typ) {
                    Option::None => unknown_inst_spec(w),
                    Option::Some(p) => Inst {
                        op: Op::A64_FMOV_IMM,
                        flags: spec_with_prec(0, p),
                        rd: Reg::Ordinary((w & 0x1F) as u8),
                        fimm: spec_vfp_expand_imm((w >> 13) & 0xFF),
                        ..empty_inst_spec()
                    },
                }
            }
        } else {
            let t = (w >> 10) & 3;
            match spec_prec_of_type(typ) {
                Option::None => unknown_inst_spec(w),
                Option::Some(p) => {
                    if t == 1 {
                        Inst {
                            op: if (w >> 4) & 1 == 1 {
                                Op::A64_FCCMPE
                            } else {
                                Op::A64_FCCMP
                            },
                            flags: spec_with_cond(spec_with_prec(0, p), cond_of((w >> 12) & 0xF)),
                            rn: Reg::Ordinary(((w >> 5) & 0x1F) as u8),
                            rm: Reg::Ordinary(((w >> 16) & 0x1F) as u8),
                            aux: Payload::Ccmp(Ccmp { nzcv: w & 0xF, imm5: 0 }),
                            ..empty_inst_spec()
                        }
                    } else if t == 2 {
                        spec_fp_2src(w)
                    } else if t == 3 {
                        Inst {
                            op: Op::A64_FCSEL,
                            flags: spec_with_cond(spec_with_prec(0, p), cond_of((w >> 12) & 0xF)),
                            rd: Reg::Ordinary((w & 0x1F) as u8),
                            rn: Reg::Ordinary(((w >> 5) & 0x1F) as u8),
                            rm: Reg::Ordinary(((w >> 16) & 0x1F) as u8),
                            ..empty_inst_spec()
                        }
                    } else {
                        unknown_inst_spec(w)
                    }
                },
            }
        }
    }
}

/// Decode the scalar floating-point rows (conversion, one/two-source,
/// compare, conditional compare/select, immediate move, fixed-point).
fn decode_fp_scalar(w: u32) -> (r: Inst)
    ensures
        r == spec_fp_scalar(w),
        r.op == Op::A64_UNKNOWN ==> r.imm == w as u64,
        r.op == Op::A64_ERROR ==> r.aux is Reason,
{
    let typ = field(w, 22, 3);
    if field(w, 21, 1) == 0 {
        // Fixed-point conversions.
        let sf = field(w, 31, 1);
        let rmode = field(w, 19, 3);
        let opcode = field(w, 16, 7);
        let scale = field(w, 10, 0x3F);
        if sf == 0 && scale < 32 {
            return unknown_inst(w);
        }
        let prec = match prec_of_type(typ) {
            Option::Some(p) => p,
            Option::None => {
                return unknown_inst(w);
            },
        };
        let fbits: u32 = 64 - scale;
        let mut r = empty_inst();
        r.flags = with_prec(flags_w32(sf), prec);
        if rmode == 3 && opcode <= 1 {
            r.op = Op::A64_FCVT_GPR;
            r.rd = gpr_zr(field(w, 0, 0x1F));
            r.rn = simd_reg(field(w, 5, 0x1F));
            r.aux = Payload::Fcvt(
                Fcvt {
                    mode: FPRounding::FPR_ZERO,
                    fbits: fbits as u16,
                    sgn: if opcode == 0 {
                        1
                    } else {
                        0
                    },
                },
            );
            return r;
        }
        if rmode == 0 && (opcode == 2 || opcode == 3) {
            r.op = Op::A64_CVTF;
            r.rd = simd_reg(field(w, 0, 0x1F));
            r.rn = gpr_zr(field(w, 5, 0x1F));
            r.aux = Payload::Fcvt(
                Fcvt {
                    mode: FPRounding::FPR_CURRENT,
                    fbits: fbits as u16,
                    sgn: if opcode == 2 {
                        1
                    } else {
                        0
                    },
                },
            );
            return r;
        }
        return unknown_inst(w);
    }
    let sub = field(w, 10, 0x3F);
    if sub == 0 {
        return decode_fp_int_conv(w);
    }
    if field(w, 10, 0x1F) == 0x10 {
        return decode_fp_1src(w);
    }
    if sub == 8 {
        return decode_fp_compare(w);
    }
    if field(w, 10, 7) == 4 {
        // FMOV (scalar, immediate): the expanded value is kept in fimm as
        // a double-precision bit pattern.
        if field(w, 5, 0x1F) != 0 {
            return unknown_inst(w);
        }
        let prec = match prec_of_type(typ) {
            Option::Some(p) => p,
            Option::None => {
                return unknown_inst(w);
            },
        };
        let mut r = empty_inst();
        r.op = Op::A64_FMOV_IMM;
        r.flags = with_prec(0, prec);
        r.rd = simd_reg(field(w, 0, 0x1F));
        r.fimm = vfp_expand_imm(field(w, 13, 0xFF));
        return r;
    }
    let t = field(w, 10, 3);
    let prec = match prec_of_type(typ) {
        Option::Some(p) => p,
        Option::None => {
            return unknown_inst(w);
        },
    };
    if t == 1 {
        // FCCMP / FCCMPE.
        let mut r = empty_inst();
        r.op = if field(w, 4, 1) == 1 {
            Op::A64_FCCMPE
        } else {
            Op::A64_FCCMP
        };
        r.flags = with_cond(with_prec(0, prec), cond_from_bits(field(w, 12, 0xF)));
        r.rn = simd_reg(field(w, 5, 0x1F));
        r.rm = simd_reg(field(w, 16, 0x1F));
        r.aux = Payload::Ccmp(Ccmp { nzcv: field(w, 0, 0xF), imm5: 0 });
        return r;
    }
    if t == 2 {
        return decode_fp_2src(w);
    }
    if t == 3 {
        let mut r = empty_inst();
        r.op = Op::A64_FCSEL;
        r.flags = with_cond(with_prec(0, prec), cond_from_bits(field(w, 12, 0xF)));
        r.rd = simd_reg(field(w, 0, 0x1F));
        r.rn = simd_reg(field(w, 5, 0x1F));
        r.rm = simd_reg(field(w, 16, 0x1F));
        return r;
    }
    unknown_inst(w)
}

/// The record decoded from a scalar fused-multiply word.
pub open spec fn spec_fp_3src(w: u32) -> Inst {
    let typ = (w >> 22) & 3;
    let o1 = (w >> 21) & 1;
    let o0 = (w >> 15) & 1;
    match spec_prec_of_type(typ) {
        Option::None => unknown_inst_spec(w),
        Option::Some(p) => Inst {
            op: if o1 == 0 && o0 == 0 {
                Op::A64_FMADD
            } else if o1 == 0 {
                Op::A64_FMSUB
            } else if o0 == 0 {
                Op::A64_FNMADD
            } else {
                Op::A64_FNMSUB
            },
            flags: spec_with_prec(0, p),
            rd: Reg::Ordinary((w & 0x1F) as u8),
            rn: Reg::Ordinary(((w >> 5) & 0x1F) as u8),
            rm: Reg::Ordinary(((w >> 16) & 0x1F) as u8),
            ra: Reg::Ordinary(((w >> 10) & 0x1F) as u8),
            ..empty_inst_spec()
        },
    }
}

/// Scalar fused multiply-add family (three sources).
fn decode_fp_3src(w: u32) -> (r: Inst)
    ensures
        r == spec_fp_3src(w),
        r.op == Op::A64_UNKNOWN ==> r.imm == w as u64,
        r.op == Op::A64_ERROR ==> r.aux is Reason,
{
    let typ = field(w, 22, 3);
    let o1 = field(w, 21, 1);
    let o0 = field(w, 15, 1);
    let prec = match prec_of_type(typ) {
        Option::Some(p) => p,
        Option::None => {
            return unknown_inst(w);
        },
    };
    let mut r = empty_inst();
    r.flags = with_prec(0, prec);
    r.rd = simd_reg(field(w, 0, 0x1F));
    r.rn = simd_reg(field(w, 5, 0x1F));
    r.rm = simd_reg(field(w, 16, 0x1F));
    r.ra = simd_reg(field(w, 10, 0x1F));
    r.op = if o1 == 0 && o0 == 0 {
        Op::A64_FMADD
    } else if o1 == 0 {
        Op::A64_FMSUB
    } else if o0 == 0 {
        Op::A64_FNMADD
    } else {
        Op::A64_FNMSUB
    };
    r
}

/// The opcode and attribute additions of an integer three-same word:
/// `None` marks an unallocated combination. The first flag is the
/// signedness/rounding addition to the arrangement bits.
pub open spec fn spec_vec_three_same_int(u: u32, size: u32, opcode: u32, base: u8) -> Option<
    (Op, u8),
> {
    let signed_by_u: u8 = if u == 0 {
        FLAG_SIMD_SIGNED
    } else {
        0
    };
    if opcode == 0 || opcode == 2 || opcode == 4 {
        if size == 3 {
            Option::None
        } else {
            let f1 = base | signed_by_u;
            let f2 = if opcode == 2 {
                f1 | FLAG_SIMD_ROUND
            } else {
                f1
            };
            Option::Some(
                (
                    if opcode == 4 {
                        Op::A64_HSUB
                    } else {
                        Op::A64_HADD
                    },
                    f2,
                ),
            )
        }
    } else if opcode == 1 || opcode == 5 {
        Option::Some(
            (
                if opcode == 1 {
                    Op::A64_QADD
                } else {
                    Op::A64_QSUB
                },
                base | signed_by_u,
            ),
        )
    } else if opcode == 6 {
        Option::Some(
            (
                if u == 0 {
                    Op::A64_CMGT_REG
                } else {
                    Op::A64_CMHI_REG
                },
                base,
            ),
        )
    } else if opcode == 7 {
        Option::Some(
            (
                if u == 0 {
                    Op::A64_CMGE_REG
                } else {
                    Op::A64_CMHS_REG
                },
                base,
            ),
        )
    } else if opcode <= 0xB {
        let f1 = base | signed_by_u;
        let f2 = if opcode >= 0xA {
            f1 | FLAG_SIMD_ROUND
        } else {
            f1
        };
        Option::Some(
            (
                if opcode % 2 == 0 {
                    Op::A64_SHL_REG
                } else {
                    Op::A64_QSHL_REG
                },
                f2,
            ),
        )
    } else if opcode == 0xC || opcode == 0xD || opcode == 0xE || opcode == 0xF {
        if size == 3 {
            Option::None
        } else {
            Option::Some(
                (
                    if opcode == 0xC {
                        Op::A64_MAX_VEC
                    } else if opcode == 0xD {
                        Op::A64_MIN_VEC
                    } else if opcode == 0xE {
                        Op::A64_ABD
                    } else {
                        Op::A64_ABA
                    },
                    base | signed_by_u,
                ),
            )
        }
    } else if opcode == 0x10 {
        Option::Some(
            (
                if u == 0 {
                    Op::A64_ADD_VEC
                } else {
                    Op::A64_SUB_VEC
                },
                base,
            ),
        )
    } else if opcode == 0x11 {
        Option::Some(
            (
                if u == 0 {
                    Op::A64_CMTST
                } else {
                    Op::A64_CMEQ_REG
                },
                base,
            ),
        )
    } else if opcode == 0x12 {
        if size == 3 {
            Option::None
        } else {
            Option::Some(
                (
                    if u == 0 {
                        Op::A64_MLA_VEC
                    } else {
                        Op::A64_MLS_VEC
                    },
                    base,
                ),
            )
        }
    } else if opcode == 0x13 {
        if u == 0 {
            if size == 3 {
                Option::None
            } else {
                Option::Some((Op::A64_MUL_VEC, base))
            }
        } else {
            if size != 0 {
                Option::None
            } else {
                Option::Some((Op::A64_PMUL, base))
            }
        }
    } else if opcode == 0x14 || opcode == 0x15 {
        if size == 3 {
            Option::None
        } else {
            Option::Some(
                (
                    if opcode == 0x14 {
                        Op::A64_MAXP
                    } else {
                        Op::A64_MINP
                    },
                    base | signed_by_u,
                ),
            )
        }
    } else if opcode == 0x16 {
        if size != 1 && size != 2 {
            Option::None
        } else {
            Option::Some(
                (
                    Op::A64_SQDMULH_VEC,
                    if u == 1 {
                        base | FLAG_SIMD_ROUND
                    } else {
                        base
                    },
                ),
            )
        }
    } else if opcode == 0x17 && u == 0 {
        Option::Some((Op::A64_ADDP_VEC, base))
    } else {
        Option::None
    }
}

/// The floating-point opcode of a three-same word, selected by the U bit,
/// the high size bit and the opcode field; `None` for the rows not
/// resolved here.
pub open spec fn spec_vec_three_same_fp(u: u32, half: u32, opcode: u32) -> Option<Op> {
    if u == 0 && half == 0 && opcode == 0x18 {
        Option::Some(Op::A64_FMAXNM_VEC)
    } else if u == 0 && half == 1 && opcode == 0x18 {
        Option::Some(Op::A64_FMINNM_VEC)
    } else if u == 0 && half == 0 && opcode == 0x19 {
        Option::Some(Op::A64_FMLA_VEC)
    } else if u == 0 && half == 1 && opcode == 0x19 {
        Option::Some(Op::A64_FMLS_VEC)
    } else if u == 0 && half == 0 && opcode == 0x1A {
        Option::Some(Op::A64_FADD_VEC)
    } else if u == 0 && half == 1 && opcode == 0x1A {
        Option::Some(Op::A64_FSUB_VEC)
    } else if u == 0 && half == 0 && opcode == 0x1B {
        Option::Some(Op::A64_FMULX_VEC)
    } else if u == 0 && half == 0 && opcode == 0x1C {
        Option::Some(Op::A64_FCMEQ_REG)
    } else if u == 0 && half == 0 && opcode == 0x1E {
        Option::Some(Op::A64_FMAX_VEC)
    } else if u == 0 && half == 1 && opcode == 0x1E {
        Option::Some(Op::A64_FMIN_VEC)
    } else if u == 0 && half == 0 && opcode == 0x1F {
        Option::Some(Op::A64_FRECPS_VEC)
    } else if u == 0 && half == 1 && opcode == 0x1F {
        Option::Some(Op::A64_FRSQRTS_VEC)
    } else if u == 1 && half == 0 && opcode == 0x1A {
        Option::Some(Op::A64_FADDP_VEC)
    } else if u == 1 && half == 1 && opcode == 0x1A {
        Option::Some(Op::A64_FABD_VEC)
    } else if u == 1 && half == 0 && opcode == 0x1B {
        Option::Some(Op::A64_FMUL_VEC)
    } else if u == 1 && half == 0 && opcode == 0x1C {
        Option::Some(Op::A64_FCMGE_REG)
    } else if u == 1 && half == 1 && opcode == 0x1C {
        Option::Some(Op::A64_FCMGT_REG)
    } else if u == 1 && half == 0 && opcode == 0x1D {
        Option::Some(Op::A64_FACGE)
    } else if u == 1 && half == 1 && opcode == 0x1D {
        Option::Some(Op::A64_FACGT)
    } else if u == 1 && half == 0 && opcode == 0x1E {
        Option::Some(Op::A64_FMAXP_VEC)
    } else if u == 1 && half == 1 && opcode == 0x1E {
        Option::Some(Op::A64_FMINP_VEC)
    } else if u == 1 && half == 0 && opcode == 0x1F {
        Option::Some(Op::A64_FDIV_VEC)
    } else {
        Option::None
    }
}

/// The record decoded from a vector three-same word: the arrangement is
/// one value in the attributes word, registers are SIMD registers, and
/// signedness/rounding variants become attribute bits.
pub open spec fn spec_vec_three_same(w: u32) -> Inst {
    let q = (w >> 30) & 1;
    let u = (w >> 29) & 1;
    let size = (w >> 22) & 3;
    let opcode = (w >> 11) & 0x1F;
    let rm = (w >> 16) & 0x1F;
    let rn = (w >> 5) & 0x1F;
    let rd = w & 0x1F;
    if opcode == 3 {
        let opc = if u == 0 {
            if size == 0 {
                Op::A64_AND_VEC
            } else if size == 1 {
                Op::A64_BIC_VEC_REG
            } else if size == 2 {
                if rm == rn {
                    Op::A64_MOV_VEC
                } else {
                    Op::A64_ORR_VEC_REG
                }
            } else {
                Op::A64_ORN_VEC
            }
        } else {
            if size == 0 {
                Op::A64_EOR_VEC
            } else if size == 1 {
                Op::A64_BSL
            } else if size == 2 {
                Op::A64_BIT
            } else {
                Op::A64_BIF
            }
        };
        Inst {
            op: opc,
            flags: spec_with_va(0, spec_va_of(0, q)),
            rd: Reg::Ordinary(rd as u8),
            rn: Reg::Ordinary(rn as u8),
            rm: Reg::Ordinary(rm as u8),
            ..empty_inst_spec()
        }
    } else if opcode >= 0x18 {
        let half = size / 2;
        let sz = size % 2;
        if sz != 0 && q == 0 {
            unknown_inst_spec(w)
        } else {
            let va = if sz == 0 {
                spec_va_of(2, q)
            } else {
                VectorArrangement::VA_2D
            };
            match spec_vec_three_same_fp(u, half, opcode) {
                Option::None => error_inst_spec(DecodeReason::UnresolvedSimd),
                Option::Some(o) => Inst {
                    op: o,
                    flags: spec_with_va(0, va),
                    rd: Reg::Ordinary(rd as u8),
                    rn: Reg::Ordinary(rn as u8),
                    rm: Reg::Ordinary(rm as u8),
                    ..empty_inst_spec()
                },
            }
        }
    } else {
        if size == 3 && q == 0 {
            unknown_inst_spec(w)
        } else {
            let base = spec_with_va(0, spec_va_of(size, q));
            match spec_vec_three_same_int(u, size, opcode, base) {
                Option::None => unknown_inst_spec(w),
                Option::Some((o, fl)) => Inst {
                    op: o,
                    flags: fl,
                    rd: Reg::Ordinary(rd as u8),
                    rn: Reg::Ordinary(rn as u8),
                    rm: Reg::Ordinary(rm as u8),
                    ..empty_inst_spec()
                },
            }
        }
    }
}

/// Vector three-same: element-wise integer and FP arithmetic, logic and
/// compares between two vectors of the same arrangement.
fn decode_vec_three_same(w: u32) -> (r: Inst)
    ensures
        r == spec_vec_three_same(w),
        r.op == Op::A64_UNKNOWN ==> r.imm == w as u64,
        r.op == Op::A64_ERROR ==> r.aux is Reason,
{
    let q = field(w, 30, 1);
    let u = field(w, 29, 1);
    let size = field(w, 22, 3);
    let opcode = field(w, 11, 0x1F);
    let rm = field(w, 16, 0x1F);
    let rn = field(w, 5, 0x1F);
    let rd = field(w, 0, 0x1F);
    let mut r = empty_inst();
    r.rd = simd_reg(rd);
    r.rn = simd_reg(rn);
    r.rm = simd_reg(rm);
    if opcode == 3 {
        // Bitwise logical; the size field selects the operation and the
        // arrangement is always bytes.
        r.flags = with_va(0, va_of(0, q));
        if u == 0 {
            r.op = if size == 0 {
                Op::A64_AND_VEC
            } else if size == 1 {
                Op::A64_BIC_VEC_REG
            } else if size == 2 {
                if rm == rn {
                    Op::A64_MOV_VEC
                } else {
                    Op::A64_ORR_VEC_REG
                }
            } else {
                Op::A64_ORN_VEC
            };
        } else {
            r.op = if size == 0 {
                Op::A64_EOR_VEC
            } else if size == 1 {
                Op::A64_BSL
            } else if size == 2 {
                Op::A64_BIT
            } else {
                Op::A64_BIF
            };
        }
        return r;
    }
    if opcode >= 0x18 {
        // Floating-point three-same; the high size bit picks add-family vs
        // sub-family, the low one the element width.
        let half = size / 2;
        let sz = size % 2;
        let va = if sz == 0 {
            va_of(2, q)
        } else {
            if q == 0 {
                return unknown_inst(w);
            }
            VectorArrangement::VA_2D
        };
        r.flags = with_va(0, va);
        r.op = if u == 0 && half == 0 && opcode == 0x18 {
            Op::A64_FMAXNM_VEC
        } else if u == 0 && half == 1 && opcode == 0x18 {
            Op::A64_FMINNM_VEC
        } else if u == 0 && half == 0 && opcode == 0x19 {
            Op::A64_FMLA_VEC
        } else if u == 0 && half == 1 && opcode == 0x19 {
            Op::A64_FMLS_VEC
        } else if u == 0 && half == 0 && opcode == 0x1A {
            Op::A64_FADD_VEC
        } else if u == 0 && half == 1 && opcode == 0x1A {
            Op::A64_FSUB_VEC
        } else if u == 0 && half == 0 && opcode == 0x1B {
            Op::A64_FMULX_VEC
        } else if u == 0 && half == 0 && opcode == 0x1C {
            Op::A64_FCMEQ_REG
        } else if u == 0 && half == 0 && opcode == 0x1E {
            Op::A64_FMAX_VEC
        } else if u == 0 && half == 1 && opcode == 0x1E {
            Op::A64_FMIN_VEC
        } else if u == 0 && half == 0 && opcode == 0x1F {
            Op::A64_FRECPS_VEC
        } else if u == 0 && half == 1 && opcode == 0x1F {
            Op::A64_FRSQRTS_VEC
        } else if u == 1 && half == 0 && opcode == 0x1A {
            Op::A64_FADDP_VEC
        } else if u == 1 && half == 1 && opcode == 0x1A {
            Op::A64_FABD_VEC
        } else if u == 1 && half == 0 && opcode == 0x1B {
            Op::A64_FMUL_VEC
        } else if u == 1 && half == 0 && opcode == 0x1C {
            Op::A64_FCMGE_REG
        } else if u == 1 && half == 1 && opcode == 0x1C {
            Op::A64_FCMGT_REG
        } else if u == 1 && half == 0 && opcode == 0x1D {
            Op::A64_FACGE
        } else if u == 1 && half == 1 && opcode == 0x1D {
            Op::A64_FACGT
        } else if u == 1 && half == 0 && opcode == 0x1E {
            Op::A64_FMAXP_VEC
        } else if u == 1 && half == 1 && opcode == 0x1E {
            Op::A64_FMINP_VEC
        } else if u == 1 && half == 0 && opcode == 0x1F {
            Op::A64_FDIV_VEC
        } else {
            return error_inst(DecodeReason::UnresolvedSimd);
        };
        return r;
    }
    // Integer three-same. Where the U bit selects unsigned against signed
    // behaviour of one operation it becomes the signedness attribute;
    // rounding variants set the rounding attribute instead of an opcode.
    if size == 3 && q == 0 {
        return unknown_inst(w);
    }
    r.flags = with_va(0, va_of(size, q));
    let signed_by_u: u8 = if u == 0 {
        FLAG_SIMD_SIGNED
    } else {
        0
    };
    if opcode == 0 || opcode == 2 || opcode == 4 {
        // Halving add/subtract, with the rounding variant of the add.
        if size == 3 {
            return unknown_inst(w);
        }
        r.flags = r.flags | signed_by_u;
        if opcode == 2 {
            r.flags = r.flags | FLAG_SIMD_ROUND;
        }
        r.op = if opcode == 4 {
            Op::A64_HSUB
        } else {
            Op::A64_HADD
        };
    } else if opcode == 1 || opcode == 5 {
        r.flags = r.flags | signed_by_u;
        r.op = if opcode == 1 {
            Op::A64_QADD
        } else {
            Op::A64_QSUB
        };
    } else if opcode == 6 {
        r.op = if u == 0 {
            Op::A64_CMGT_REG
        } else {
            Op::A64_CMHI_REG
        };
    } else if opcode == 7 {
        r.op = if u == 0 {
            Op::A64_CMGE_REG
        } else {
            Op::A64_CMHS_REG
        };
    } else if opcode <= 0xB {
        // Shifts by a register: plain or saturating, each with a rounding
        // variant.
        r.flags = r.flags | signed_by_u;
        if opcode >= 0xA {
            r.flags = r.flags | FLAG_SIMD_ROUND;
        }
        r.op = if opcode % 2 == 0 {
            Op::A64_SHL_REG
        } else {
            Op::A64_QSHL_REG
        };
    } else if opcode == 0xC || opcode == 0xD || opcode == 0xE || opcode == 0xF {
        if size == 3 {
            return unknown_inst(w);
        }
        r.flags = r.flags | signed_by_u;
        r.op = if opcode == 0xC {
            Op::A64_MAX_VEC
        } else if opcode == 0xD {
            Op::A64_MIN_VEC
        } else if opcode == 0xE {
            Op::A64_ABD
        } else {
            Op::A64_ABA
        };
    } else if opcode == 0x10 {
        r.op = if u == 0 {
            Op::A64_ADD_VEC
        } else {
            Op::A64_SUB_VEC
        };
    } else if opcode == 0x11 {
        r.op = if u == 0 {
            Op::A64_CMTST
        } else {
            Op::A64_CMEQ_REG
        };
    } else if opcode == 0x12 {
        if size == 3 {
            return unknown_inst(w);
        }
        r.op = if u == 0 {
            Op::A64_MLA_VEC
        } else {
            Op::A64_MLS_VEC
        };
    } else if opcode == 0x13 {
        if u == 0 {
            if size == 3 {
                return unknown_inst(w);
            }
            r.op = Op::A64_MUL_VEC;
        } else {
            if size != 0 {
                return unknown_inst(w);
            }
            r.op = Op::A64_PMUL;
        }
    } else if opcode == 0x14 || opcode == 0x15 {
        if size == 3 {
            return unknown_inst(w);
        }
        r.flags = r.flags | signed_by_u;
        r.op = if opcode == 0x14 {
            Op::A64_MAXP
        } else {
            Op::A64_MINP
        };
    } else if opcode == 0x16 {
        if size != 1 && size != 2 {
            return unknown_inst(w);
        }
        if u == 1 {
            r.flags = r.flags | FLAG_SIMD_ROUND;
        }
        r.op = Op::A64_SQDMULH_VEC;
    } else if opcode == 0x17 && u == 0 {
        r.op = Op::A64_ADDP_VEC;
    } else {
        return unknown_inst(w);
    }
    r
}

/// Vector two-register miscellany: reversals, compares against zero,
/// absolute value/negate, population count, narrowing.
fn decode_vec_two_misc(w: u32) -> (r: Inst)
    ensures
        r.op == Op::A64_UNKNOWN ==> r.imm == w as u64,
        r.op == Op::A64_ERROR ==> r.aux is Reason,
{
    let q = field(w, 30, 1);
    let u = field(w, 29, 1);
    let size = field(w, 22, 3);
    let opcode = field(w, 12, 0x1F);
    let rn = field(w, 5, 0x1F);
    let rd = field(w, 0, 0x1F);
    let mut r = empty_inst();
    r.flags = with_va(0, va_of(size, q));
    r.rd = simd_reg(rd);
    r.rn = simd_reg(rn);
    if opcode == 2 || opcode == 3 || opcode == 6 || opcode == 20 {
        // Pairwise widening adds and saturating narrowing: signedness is a
        // flag, not a separate opcode.
        if u == 0 {
            r.flags = r.flags | FLAG_SIMD_SIGNED;
        }
        r.op = if opcode == 2 {
            Op::A64_ADDLP
        } else if opcode == 3 {
            if u == 0 {
                Op::A64_SUQADD
            } else {
                Op::A64_USQADD
            }
        } else if opcode == 6 {
            Op::A64_ADALP
        } else {
            if size == 3 {
                return unknown_inst(w);
            }
            Op::A64_QXTN
        };
        return r;
    }
    if u == 0 {
        r.op = if opcode == 0 {
            Op::A64_REV64_VEC
        } else if opcode == 1 && size == 0 {
            Op::A64_REV16_VEC
        } else if opcode == 4 {
            Op::A64_CLS_VEC
        } else if opcode == 5 && size == 0 {
            Op::A64_CNT
        } else if opcode == 8 {
            Op::A64_CMGT_ZERO
        } else if opcode == 9 {
            Op::A64_CMEQ_ZERO
        } else if opcode == 10 {
            Op::A64_CMLT_ZERO
        } else if opcode == 11 {
            Op::A64_ABS_VEC
        } else if opcode == 7 {
            Op::A64_SQABS
        } else if opcode == 18 && size != 3 {
            Op::A64_XTN
        } else {
            return error_inst(DecodeReason::UnresolvedSimd);
        };
    } else {
        r.op = if opcode == 0 && size <= 1 {
            Op::A64_REV32_VEC
        } else if opcode == 4 {
            Op::A64_CLZ_VEC
        } else if opcode == 5 && size == 0 {
            Op::A64_NOT_VEC
        } else if opcode == 5 && size == 1 {
            Op::A64_RBIT_VEC
        } else if opcode == 7 {
            Op::A64_SQNEG
        } else if opcode == 8 {
            Op::A64_CMGE_ZERO
        } else if opcode == 9 {
            Op::A64_CMLE_ZERO
        } else if opcode == 11 {
            Op::A64_NEG_VEC
        } else if opcode == 18 && size != 3 {
            Op::A64_SQXTUN
        } else {
            return error_inst(DecodeReason::UnresolvedSimd);
        };
    }
    r
}

/// Vector three-different: the widening and narrowing arithmetic between
/// vectors of neighbouring element widths.
fn decode_vec_three_diff(w: u32) -> (r: Inst)
    ensures
        r.op == Op::A64_UNKNOWN ==> r.imm == w as u64,
        r.op == Op::A64_ERROR ==> r.aux is Reason,
{
    let q = field(w, 30, 1);
    let u = field(w, 29, 1);
    let size = field(w, 22, 3);
    let opcode = field(w, 12, 0xF);
    let mut r = empty_inst();
    r.flags = with_va(0, va_of(size, q));
    r.rd = simd_reg(field(w, 0, 0x1F));
    r.rn = simd_reg(field(w, 5, 0x1F));
    r.rm = simd_reg(field(w, 16, 0x1F));
    if u == 0 {
        r.flags = r.flags | FLAG_SIMD_SIGNED;
    }
    if opcode == 14 {
        // PMULL allows only the byte and doubleword element sizes.
        if u == 1 || (size != 0 && size != 3) {
            return unknown_inst(w);
        }
        r.op = Op::A64_PMULL;
        return r;
    }
    if size == 3 {
        return unknown_inst(w);
    }
    r.op = if opcode == 0 {
        Op::A64_ADDL
    } else if opcode == 1 {
        Op::A64_ADDW
    } else if opcode == 2 {
        Op::A64_SUBL
    } else if opcode == 3 {
        Op::A64_SUBW
    } else if opcode == 4 {
        // RADDHN is the rounding form of ADDHN.
        if u == 1 {
            r.flags = r.flags | FLAG_SIMD_ROUND;
        }
        Op::A64_ADDHN
    } else if opcode == 5 {
        Op::A64_ABAL
    } else if opcode == 6 {
        if u == 1 {
            r.flags = r.flags | FLAG_SIMD_ROUND;
        }
        Op::A64_SUBHN
    } else if opcode == 7 {
        Op::A64_ABDL
    } else if opcode == 8 {
        Op::A64_MLAL_VEC
    } else if opcode == 9 && u == 0 {
        Op::A64_SQDMLAL_VEC
    } else if opcode == 10 {
        Op::A64_MLSL_VEC
    } else if opcode == 11 && u == 0 {
        Op::A64_SQDMLSL_VEC
    } else if opcode == 12 {
        Op::A64_MULL_VEC
    } else if opcode == 13 && u == 0 {
        Op::A64_SQDMULL_VEC
    } else {
        return unknown_inst(w);
    };
    r
}

/// Vector across-lanes reductions.
fn decode_vec_across(w: u32) -> (r: Inst)
    ensures
        r.op == Op::A64_UNKNOWN ==> r.imm == w as u64,
        r.op == Op::A64_ERROR ==> r.aux is Reason,
{
    let q = field(w, 30, 1);
    let u = field(w, 29, 1);
    let size = field(w, 22, 3);
    let opcode = field(w, 12, 0x1F);
    let mut r = empty_inst();
    r.flags = with_va(0, va_of(size, q));
    r.rd = simd_reg(field(w, 0, 0x1F));
    r.rn = simd_reg(field(w, 5, 0x1F));
    if u == 0 {
        r.flags = r.flags | FLAG_SIMD_SIGNED;
    }
    r.op = if opcode == 3 {
        Op::A64_ADDLV
    } else if opcode == 10 {
        Op::A64_MAXV
    } else if opcode == 26 {
        Op::A64_MINV
    } else if opcode == 27 && u == 0 {
        Op::A64_ADDV
    } else if opcode == 12 && u == 1 {
        if size < 2 {
            Op::A64_FMAXNMV
        } else {
            Op::A64_FMINNMV
        }
    } else if opcode == 15 && u == 1 {
        if size < 2 {
            Op::A64_FMAXV
        } else {
            Op::A64_FMINV
        }
    } else {
        return error_inst(DecodeReason::UnresolvedSimd);
    };
    r
}

/// Vector shift by immediate: plain, rounding and accumulating shifts,
/// the insert shifts, and the widening and narrowing shifts. The shift
/// amount is decoded to its value and kept in `imm`.
fn decode_vec_shift_imm(w: u32) -> (r: Inst)
    ensures
        r.op == Op::A64_UNKNOWN ==> r.imm == w as u64,
        r.op == Op::A64_ERROR ==> r.aux is Reason,
{
    let q = field(w, 30, 1);
    let u = field(w, 29, 1);
    let immh = field(w, 19, 0xF);
    let immb = field(w, 16, 7);
    let opcode = field(w, 11, 0x1F);
    if field(w, 10, 1) != 1 || immh == 0 {
        return unknown_inst(w);
    }
    // The element width is selected by the highest set bit of immh, and
    // the raw field immh:immb carries the shift amount around it.
    let (esize_log, esize): (u32, u32) = if immh >= 8 {
        (3, 64)
    } else if immh >= 4 {
        (2, 32)
    } else if immh >= 2 {
        (1, 16)
    } else {
        (0, 8)
    };
    if esize_log == 3 && q == 0 {
        return unknown_inst(w);
    }
    let ih_ib: u32 = immh * 8 + immb;
    let right: u32 = 2 * esize - ih_ib;
    let left: u32 = ih_ib - esize;
    let mut r = empty_inst();
    r.flags = with_va(0, va_of(esize_log, q));
    r.rd = simd_reg(field(w, 0, 0x1F));
    r.rn = simd_reg(field(w, 5, 0x1F));
    if u == 0 {
        r.flags = r.flags | FLAG_SIMD_SIGNED;
    }
    if opcode == 0 || opcode == 4 {
        if opcode == 4 {
            r.flags = r.flags | FLAG_SIMD_ROUND;
        }
        r.op = Op::A64_SHR;
        r.imm = right as u64;
    } else if opcode == 2 || opcode == 6 {
        if opcode == 6 {
            r.flags = r.flags | FLAG_SIMD_ROUND;
        }
        r.op = Op::A64_SRA;
        r.imm = right as u64;
    } else if opcode == 8 && u == 1 {
        r.op = Op::A64_SRI;
        r.imm = right as u64;
    } else if opcode == 10 {
        r.op = if u == 0 {
            Op::A64_SHL_IMM
        } else {
            Op::A64_SLI
        };
        r.imm = left as u64;
    } else if opcode == 12 && u == 1 {
        r.op = Op::A64_SQSHLU;
        r.imm = left as u64;
    } else if opcode == 14 {
        r.op = Op::A64_QSHL_IMM;
        r.imm = left as u64;
    } else if opcode == 16 || opcode == 17 {
        if esize_log == 3 {
            return unknown_inst(w);
        }
        if opcode == 17 {
            r.flags = r.flags | FLAG_SIMD_ROUND;
        }
        r.op = if u == 0 {
            Op::A64_SHRN
        } else {
            Op::A64_SQSHRUN
        };
        r.imm = right as u64;
    } else if opcode == 18 || opcode == 19 {
        if esize_log == 3 {
            return unknown_inst(w);
        }
        if opcode == 19 {
            r.flags = r.flags | FLAG_SIMD_ROUND;
        }
        r.op = Op::A64_QSHRN;
        r.imm = right as u64;
    } else if opcode == 20 {
        if esize_log == 3 {
            return unknown_inst(w);
        }
        r.op = Op::A64_SHLL;
        r.imm = left as u64;
    } else {
        return error_inst(DecodeReason::UnresolvedSimd);
    }
    r
}

/// Table lookup (TBL/TBX); the number of table registers is kept in `imm`.
fn decode_vec_table(w: u32) -> (r: Inst)
    ensures
        r.op == Op::A64_UNKNOWN ==> r.imm == w as u64,
        r.op == Op::A64_ERROR ==> r.aux is Reason,
{
    let q = field(w, 30, 1);
    let len = field(w, 13, 3);
    let tbx = field(w, 12, 1);
    let mut r = empty_inst();
    r.op = if tbx == 1 {
        Op::A64_TBX
    } else {
        Op::A64_TBL
    };
    r.flags = with_va(0, va_of(0, q));
    r.rd = simd_reg(field(w, 0, 0x1F));
    r.rn = simd_reg(field(w, 5, 0x1F));
    r.rm = simd_reg(field(w, 16, 0x1F));
    r.imm = (len + 1) as u64;
    r
}

/// Permutes: transpose, unzip and zip.
fn decode_vec_permute(w: u32) -> (r: Inst)
    ensures
        r.op == Op::A64_UNKNOWN ==> r.imm == w as u64,
        r.op == Op::A64_ERROR ==> r.aux is Reason,
{
    let q = field(w, 30, 1);
    let size = field(w, 22, 3);
    let opc = field(w, 12, 7);
    let mut r = empty_inst();
    r.flags = with_va(0, va_of(size, q));
    r.rd = simd_reg(field(w, 0, 0x1F));
    r.rn = simd_reg(field(w, 5, 0x1F));
    r.rm = simd_reg(field(w, 16, 0x1F));
    r.op = if opc == 1 {
        Op::A64_UZP1
    } else if opc == 2 {
        Op::A64_TRN1
    } else if opc == 3 {
        Op::A64_ZIP1
    } else if opc == 5 {
        Op::A64_UZP2
    } else if opc == 6 {
        Op::A64_TRN2
    } else if opc == 7 {
        Op::A64_ZIP2
    } else {
        return unknown_inst(w);
    };
    r
}

/// The record decoded from a vector element-copy word: the element size
/// comes from the lowest set bit of imm5, the lane index from the bits
/// above it, and the width attribute of the extracting moves from Q.
pub open spec fn spec_vec_copy(w: u32) -> Inst {
    let q = (w >> 30) & 1;
    let op = (w >> 29) & 1;
    let imm5 = (w >> 16) & 0x1F;
    let imm4 = (w >> 11) & 0xF;
    let rn = (w >> 5) & 0x1F;
    let rd = w & 0x1F;
    if !(imm5 % 2 == 1 || imm5 % 4 == 2 || imm5 % 8 == 4 || imm5 % 16 == 8) {
        unknown_inst_spec(w)
    } else {
        let (esize, index): (u32, u32) = if imm5 % 2 == 1 {
            (0, imm5 / 2)
        } else if imm5 % 4 == 2 {
            (1, imm5 / 4)
        } else if imm5 % 8 == 4 {
            (2, imm5 / 8)
        } else {
            (3, imm5 / 16)
        };
        let base = spec_with_size(0, spec_size_of(esize));
        if op == 1 {
            if q != 1 {
                unknown_inst_spec(w)
            } else {
                let src: u32 = if esize == 0 {
                    imm4
                } else if esize == 1 {
                    imm4 / 2
                } else if esize == 2 {
                    imm4 / 4
                } else {
                    imm4 / 8
                };
                Inst {
                    op: Op::A64_INS_ELEM,
                    flags: base,
                    rd: Reg::Ordinary(rd as u8),
                    rn: Reg::Ordinary(rn as u8),
                    aux: Payload::InsElem(InsElem { dst: index, src: src }),
                    ..empty_inst_spec()
                }
            }
        } else if imm4 == 0 {
            if esize == 3 && q == 0 {
                unknown_inst_spec(w)
            } else {
                Inst {
                    op: Op::A64_DUP_ELEM,
                    flags: base,
                    rd: Reg::Ordinary(rd as u8),
                    rn: Reg::Ordinary(rn as u8),
                    imm: index as u64,
                    ..empty_inst_spec()
                }
            }
        } else if imm4 == 1 {
            if esize == 3 && q == 0 {
                unknown_inst_spec(w)
            } else {
                Inst {
                    op: Op::A64_DUP_GPR,
                    flags: base,
                    rd: Reg::Ordinary(rd as u8),
                    rn: spec_gpr_zr(rn),
                    ..empty_inst_spec()
                }
            }
        } else if imm4 == 3 {
            if q != 1 {
                unknown_inst_spec(w)
            } else {
                Inst {
                    op: Op::A64_INS_GPR,
                    flags: base,
                    rd: Reg::Ordinary(rd as u8),
                    rn: spec_gpr_zr(rn),
                    imm: index as u64,
                    ..empty_inst_spec()
                }
            }
        } else if imm4 == 5 {
            if (esize >= 2 && q == 0) || esize >= 3 {
                unknown_inst_spec(w)
            } else {
                Inst {
                    op: Op::A64_SMOV,
                    flags: base | spec_flags_w32(q),
                    rd: spec_gpr_zr(rd),
                    rn: Reg::Ordinary(rn as u8),
                    imm: index as u64,
                    ..empty_inst_spec()
                }
            }
        } else if imm4 == 7 {
            if (q == 0 && esize == 3) || (q == 1 && esize != 3) {
                unknown_inst_spec(w)
            } else {
                Inst {
                    op: Op::A64_UMOV,
                    flags: base | spec_flags_w32(q),
                    rd: spec_gpr_zr(rd),
                    rn: Reg::Ordinary(rn as u8),
                    imm: index as u64,
                    ..empty_inst_spec()
                }
            }
        } else {
            unknown_inst_spec(w)
        }
    }
}

/// Vector element copy: duplicate, insert and the extracting moves.
/// Lane indices are decoded into explicit values.
fn decode_vec_copy(w: u32) -> (r: Inst)
    ensures
        r == spec_vec_copy(w),
        r.op == Op::A64_UNKNOWN ==> r.imm == w as u64,
        r.op == Op::A64_ERROR ==> r.aux is Reason,
{
    let q = field(w, 30, 1);
    let op = field(w, 29, 1);
    let imm5 = field(w, 16, 0x1F);
    let imm4 = field(w, 11, 0xF);
    let rn = field(w, 5, 0x1F);
    let rd = field(w, 0, 0x1F);
    // The element size is the position of the lowest set bit of imm5; the
    // lane index sits in the bits above it.
    let (esize, index): (u32, u32) = if imm5 % 2 == 1 {
        (0, imm5 / 2)
    } else if imm5 % 4 == 2 {
        (1, imm5 / 4)
    } else if imm5 % 8 == 4 {
        (2, imm5 / 8)
    } else if imm5 % 16 == 8 {
        (3, imm5 / 16)
    } else {
        return unknown_inst(w);
    };
    let mut r = empty_inst();
    r.flags = with_size(0, size_of_bits(esize));
    r.rd = simd_reg(rd);
    r.rn = simd_reg(rn);
    if op == 1 {
        // INS (element): both lane indices recorded.
        if q != 1 {
            return unknown_inst(w);
        }
        let src: u32 = if esize == 0 {
            imm4
        } else if esize == 1 {
            imm4 / 2
        } else if esize == 2 {
            imm4 / 4
        } else {
            imm4 / 8
        };
        r.op = Op::A64_INS_ELEM;
        r.aux = Payload::InsElem(InsElem { dst: index, src: src });
        return r;
    }
    if imm4 == 0 {
        if esize == 3 && q == 0 {
            return unknown_inst(w);
        }
        r.op = Op::A64_DUP_ELEM;
        r.imm = index as u64;
    } else if imm4 == 1 {
        if esize == 3 && q == 0 {
            return unknown_inst(w);
        }
        r.op = Op::A64_DUP_GPR;
        r.rn = gpr_zr(rn);
    } else if imm4 == 3 {
        if q != 1 {
            return unknown_inst(w);
        }
        r.op = Op::A64_INS_GPR;
        r.rn = gpr_zr(rn);
        r.imm = index as u64;
    } else if imm4 == 5 {
        // SMOV: sign-extending element move to a general register.
        if esize >= 2 && q == 0 {
            return unknown_inst(w);
        }
        if esize >= 3 {
            return unknown_inst(w);
        }
        r.op = Op::A64_SMOV;
        r.flags = r.flags | flags_w32(q);
        r.rd = gpr_zr(rd);
        r.imm = index as u64;
    } else if imm4 == 7 {
        // UMOV: zero-extending element move to a general register.
        if q == 0 && esize == 3 {
            return unknown_inst(w);
        }
        if q == 1 && esize != 3 {
            return unknown_inst(w);
        }
        r.op = Op::A64_UMOV;
        r.flags = r.flags | flags_w32(q);
        r.rd = gpr_zr(rd);
        r.imm = index as u64;
    } else {
        return unknown_inst(w);
    }
    r
}

/// The 64-bit mask denoted by an 8-bit immediate whose bits each expand to
/// a whole byte.
pub open spec fn spec_modimm_mask64(imm8: u32) -> u64 {
    let v0: u64 = 0;
    let v1: u64 = if imm8 % 2 == 1 {
        (v0 + 0xFF) as u64
    } else {
        v0
    };
    let v2: u64 = if (imm8 / 2) % 2 == 1 {
        (v1 + 0xFF00) as u64
    } else {
        v1
    };
    let v3: u64 = if (imm8 / 4) % 2 == 1 {
        (v2 + 0xFF_0000) as u64
    } else {
        v2
    };
    let v4: u64 = if (imm8 / 8) % 2 == 1 {
        (v3 + 0xFF00_0000) as u64
    } else {
        v3
    };
    let v5: u64 = if (imm8 / 16) % 2 == 1 {
        (v4 + 0xFF_0000_0000) as u64
    } else {
        v4
    };
    let v6: u64 = if (imm8 / 32) % 2 == 1 {
        (v5 + 0xFF00_0000_0000) as u64
    } else {
        v5
    };
    let v7: u64 = if (imm8 / 64) % 2 == 1 {
        (v6 + 0xFF_0000_0000_0000) as u64
    } else {
        v6
    };
    if (imm8 / 128) % 2 == 1 {
        (v7 + 0xFF00_0000_0000_0000) as u64
    } else {
        v7
    }
}

/// The record decoded from a vector modified-immediate word: MOVI (with
/// MVNI folded in, the element value precomputed), immediate ORR/BIC, or
/// the vector FMOV with its expanded immediate.
pub open spec fn spec_vec_modimm(w: u32) -> Inst {
    let q = (w >> 30) & 1;
    let op = (w >> 29) & 1;
    let abc = (w >> 16) & 7;
    let cmode = (w >> 12) & 0xF;
    let o2 = (w >> 11) & 1;
    let defgh = (w >> 5) & 0x1F;
    let rd = w & 0x1F;
    if o2 != 0 {
        unknown_inst_spec(w)
    } else {
        let imm8: u32 = (abc * 32 + defgh) as u32;
        let rdr = Reg::Ordinary(rd as u8);
        if cmode <= 7 {
            let val: u64 = (imm8 as u64) << ((8 * (cmode / 2)) as u64);
            let fl = spec_with_va(0, spec_va_of(2, q));
            if cmode % 2 == 0 {
                Inst {
                    op: Op::A64_MOVI,
                    flags: fl,
                    rd: rdr,
                    imm: if op == 1 {
                        !val & 0xFFFF_FFFFu64
                    } else {
                        val
                    },
                    ..empty_inst_spec()
                }
            } else {
                Inst {
                    op: if op == 1 {
                        Op::A64_BIC_VEC_IMM
                    } else {
                        Op::A64_ORR_VEC_IMM
                    },
                    flags: fl,
                    rd: rdr,
                    imm: val,
                    ..empty_inst_spec()
                }
            }
        } else if cmode <= 11 {
            let val: u64 = (imm8 as u64) << ((8 * ((cmode - 8) / 2)) as u64);
            let fl = spec_with_va(0, spec_va_of(1, q));
            if cmode % 2 == 0 {
                Inst {
                    op: Op::A64_MOVI,
                    flags: fl,
                    rd: rdr,
                    imm: if op == 1 {
                        !val & 0xFFFFu64
                    } else {
                        val
                    },
                    ..empty_inst_spec()
                }
            } else {
                Inst {
                    op: if op == 1 {
                        Op::A64_BIC_VEC_IMM
                    } else {
                        Op::A64_ORR_VEC_IMM
                    },
                    flags: fl,
                    rd: rdr,
                    imm: val,
                    ..empty_inst_spec()
                }
            }
        } else if cmode == 12 || cmode == 13 {
            let val: u64 = if cmode == 12 {
                ((imm8 as u64) << 8) | 0xFF
            } else {
                ((imm8 as u64) << 16) | 0xFFFF
            };
            Inst {
                op: Op::A64_MOVI,
                flags: spec_with_va(0, spec_va_of(2, q)),
                rd: rdr,
                imm: if op == 1 {
                    !val & 0xFFFF_FFFFu64
                } else {
                    val
                },
                ..empty_inst_spec()
            }
        } else if cmode == 14 {
            if op == 0 {
                Inst {
                    op: Op::A64_MOVI,
                    flags: spec_with_va(0, spec_va_of(0, q)),
                    rd: rdr,
                    imm: imm8 as u64,
                    ..empty_inst_spec()
                }
            } else {
                Inst {
                    op: Op::A64_MOVI,
                    flags: spec_with_va(
                        0,
                        if q == 1 {
                            VectorArrangement::VA_2D
                        } else {
                            VectorArrangement::VA_1D
                        },
                    ),
                    rd: rdr,
                    imm: spec_modimm_mask64(imm8),
                    ..empty_inst_spec()
                }
            }
        } else {
            if op == 1 && q == 0 {
                unknown_inst_spec(w)
            } else {
                Inst {
                    op: Op::A64_FMOV_VEC,
                    flags: spec_with_va(
                        0,
                        if op == 1 {
                            VectorArrangement::VA_2D
                        } else {
                            spec_va_of(2, q)
                        },
                    ),
                    rd: rdr,
                    fimm: spec_vfp_expand_imm(imm8),
                    ..empty_inst_spec()
                }
            }
        }
    }
}

/// Vector modified immediate: MOVI (MVNI folded in, the moved value is
/// precomputed), the immediate bitwise ORR/BIC, and the vector FMOV.
fn decode_vec_modimm(w: u32) -> (r: Inst)
    ensures
        r == spec_vec_modimm(w),
        r.op == Op::A64_UNKNOWN ==> r.imm == w as u64,
        r.op == Op::A64_ERROR ==> r.aux is Reason,
{
    let q = field(w, 30, 1);
    let op = field(w, 29, 1);
    let abc = field(w, 16, 7);
    let cmode = field(w, 12, 0xF);
    let o2 = field(w, 11, 1);
    let defgh = field(w, 5, 0x1F);
    let rd = field(w, 0, 0x1F);
    if o2 != 0 {
        return unknown_inst(w);
    }
    let imm8: u32 = abc * 32 + defgh;
    let mut r = empty_inst();
    r.rd = simd_reg(rd);
    if cmode <= 7 {
        // 32-bit element, byte shifted into one of the four positions.
        let val: u64 = (imm8 as u64) << ((8 * (cmode / 2)) as u64);
        r.flags = with_va(0, va_of(2, q));
        if cmode % 2 == 0 {
            r.op = Op::A64_MOVI;
            r.imm = if op == 1 {
                !val & 0xFFFF_FFFF
            } else {
                val
            };
        } else {
            r.op = if op == 1 {
                Op::A64_BIC_VEC_IMM
            } else {
                Op::A64_ORR_VEC_IMM
            };
            r.imm = val;
        }
        return r;
    }
    if cmode <= 11 {
        // 16-bit element.
        let val: u64 = (imm8 as u64) << ((8 * ((cmode - 8) / 2)) as u64);
        r.flags = with_va(0, va_of(1, q));
        if cmode % 2 == 0 {
            r.op = Op::A64_MOVI;
            r.imm = if op == 1 {
                !val & 0xFFFF
            } else {
                val
            };
        } else {
            r.op = if op == 1 {
                Op::A64_BIC_VEC_IMM
            } else {
                Op::A64_ORR_VEC_IMM
            };
            r.imm = val;
        }
        return r;
    }
    if cmode == 12 || cmode == 13 {
        // 32-bit element, shifting ones in below the byte.
        let val: u64 = if cmode == 12 {
            ((imm8 as u64) << 8) | 0xFF
        } else {
            ((imm8 as u64) << 16) | 0xFFFF
        };
        r.flags = with_va(0, va_of(2, q));
        r.op = Op::A64_MOVI;
        r.imm = if op == 1 {
            !val & 0xFFFF_FFFF
        } else {
            val
        };
        return r;
    }
    if cmode == 14 {
        if op == 0 {
            // 8-bit element.
            r.flags = with_va(0, va_of(0, q));
            r.op = Op::A64_MOVI;
            r.imm = imm8 as u64;
            return r;
        }
        // 64-bit mask: each immediate bit expands to a whole byte.
        let mut val: u64 = 0;
        if imm8 % 2 == 1 {
            val = val + 0xFF;
        }
        if (imm8 / 2) % 2 == 1 {
            val = val + 0xFF00;
        }
        if (imm8 / 4) % 2 == 1 {
            val = val + 0xFF_0000;
        }
        if (imm8 / 8) % 2 == 1 {
            val = val + 0xFF00_0000;
        }
        if (imm8 / 16) % 2 == 1 {
            val = val + 0xFF_0000_0000;
        }
        if (imm8 / 32) % 2 == 1 {
            val = val + 0xFF00_0000_0000;
        }
        if (imm8 / 64) % 2 == 1 {
            val = val + 0xFF_0000_0000_0000;
        }
        if (imm8 / 128) % 2 == 1 {
            val = val + 0xFF00_0000_0000_0000;
        }
        r.flags = with_va(0, if q == 1 {
            VectorArrangement::VA_2D
        } else {
            VectorArrangement::VA_1D
        });
        r.op = Op::A64_MOVI;
        r.imm = val;
        return r;
    }
    // cmode == 15: vector FMOV from an 8-bit float immediate.
    if op == 1 && q == 0 {
        return unknown_inst(w);
    }
    r.op = Op::A64_FMOV_VEC;
    r.flags = with_va(0, if op == 1 {
        VectorArrangement::VA_2D
    } else {
        va_of(2, q)
    });
    r.fimm = vfp_expand_imm(imm8);
    r
}

/// Vector multiply by an indexed element: the lane index is decoded to its
/// value and kept in `imm` (or in the complex-multiply payload).
fn decode_vec_elem(w: u32) -> (r: Inst)
    ensures
        r.op == Op::A64_UNKNOWN ==> r.imm == w as u64,
        r.op == Op::A64_ERROR ==> r.aux is Reason,
{
    let q = field(w, 30, 1);
    let u = field(w, 29, 1);
    let size = field(w, 22, 3);
    let l = field(w, 21, 1);
    let m = field(w, 20, 1);
    let rm4 = field(w, 16, 0xF);
    let opcode = field(w, 12, 0xF);
    let h = field(w, 11, 1);
    let rn = field(w, 5, 0x1F);
    let rd = field(w, 0, 0x1F);
    if u == 1 && opcode % 2 == 1 && opcode <= 7 {
        // FCMLA by element: the rotation sits in the opcode field.
        if size != 1 && size != 2 {
            return unknown_inst(w);
        }
        let idx: u32 = if size == 1 {
            h * 2 + l
        } else {
            if l != 0 {
                return unknown_inst(w);
            }
            h
        };
        let mut r = empty_inst();
        r.op = Op::A64_FCMLA_ELEM;
        r.flags = with_va(0, va_of(size, q));
        r.rd = simd_reg(rd);
        r.rn = simd_reg(rn);
        r.rm = simd_reg(m * 16 + rm4);
        r.aux = Payload::FcmlaElem(FcmlaElem { idx: idx, rot: (opcode / 2) * 90 });
        return r;
    }
    // FMLAL/FMLSL (and their "2" forms) multiply half-precision elements.
    let fmlal = (u == 0 && (opcode == 0 || opcode == 4) && size == 2) || (u == 1 && (opcode == 8
        || opcode == 12) && size == 2);
    // The 16-bit element forms take the index from H:L:M and a 4-bit
    // register; the wider forms take H:L (or H alone) and a 5-bit register.
    let (idx, rm5): (u32, u32) = if size == 1 || fmlal {
        (h * 4 + l * 2 + m, rm4)
    } else if size == 2 {
        (h * 2 + l, m * 16 + rm4)
    } else if size == 3 {
        if l != 0 {
            return unknown_inst(w);
        }
        (h, m * 16 + rm4)
    } else {
        return unknown_inst(w);
    };
    let mut r = empty_inst();
    r.flags = with_va(0, va_of(size, q));
    r.rd = simd_reg(rd);
    r.rn = simd_reg(rn);
    r.rm = simd_reg(rm5);
    r.imm = idx as u64;
    // Integer forms exist for 16- and 32-bit elements; the FP forms for
    // 32- and 64-bit (half precision is not resolved here).
    let int_sizes = size == 1 || size == 2;
    let fp_sizes = size == 2 || (size == 3 && q == 1);
    if u == 0 {
        if opcode == 0 || opcode == 4 {
            if !fmlal {
                return unknown_inst(w);
            }
            r.op = if opcode == 0 {
                Op::A64_FMLAL_ELEM
            } else {
                Op::A64_FMLSL_ELEM
            };
        } else if opcode == 1 || opcode == 5 || opcode == 9 {
            if size == 1 {
                // Half-precision FP forms are not resolved here.
                return error_inst(DecodeReason::UnresolvedSimd);
            }
            if !fp_sizes {
                return unknown_inst(w);
            }
            r.op = if opcode == 1 {
                Op::A64_FMLA_ELEM
            } else if opcode == 5 {
                Op::A64_FMLS_ELEM
            } else {
                Op::A64_FMUL_ELEM
            };
        } else if opcode == 2 || opcode == 6 || opcode == 10 {
            if !int_sizes {
                return unknown_inst(w);
            }
            r.flags = r.flags | FLAG_SIMD_SIGNED;
            r.op = if opcode == 2 {
                Op::A64_MLAL_ELEM
            } else if opcode == 6 {
                Op::A64_MLSL_ELEM
            } else {
                Op::A64_MULL_ELEM
            };
        } else if opcode == 3 || opcode == 7 || opcode == 11 {
            if !int_sizes {
                return unknown_inst(w);
            }
            r.op = if opcode == 3 {
                Op::A64_SQDMLAL_ELEM
            } else if opcode == 7 {
                Op::A64_SQDMLSL_ELEM
            } else {
                Op::A64_SQDMULL_ELEM
            };
        } else if opcode == 8 {
            if !int_sizes {
                return unknown_inst(w);
            }
            r.op = Op::A64_MUL_ELEM;
        } else if opcode == 12 || opcode == 13 {
            if !int_sizes {
                return unknown_inst(w);
            }
            if opcode == 13 {
                r.flags = r.flags | FLAG_SIMD_ROUND;
            }
            r.op = Op::A64_SQDMULH_ELEM;
        } else if opcode == 14 {
            if size != 2 {
                return unknown_inst(w);
            }
            r.flags = r.flags | FLAG_SIMD_SIGNED;
            r.op = Op::A64_DOT_ELEM;
        } else {
            return unknown_inst(w);
        }
    } else {
        if opcode == 0 || opcode == 4 {
            if !int_sizes {
                return unknown_inst(w);
            }
            r.op = if opcode == 0 {
                Op::A64_MLA_ELEM
            } else {
                Op::A64_MLS_ELEM
            };
        } else if opcode == 2 || opcode == 6 || opcode == 10 {
            if !int_sizes {
                return unknown_inst(w);
            }
            r.op = if opcode == 2 {
                Op::A64_MLAL_ELEM
            } else if opcode == 6 {
                Op::A64_MLSL_ELEM
            } else {
                Op::A64_MULL_ELEM
            };
        } else if opcode == 8 || opcode == 12 {
            if !fmlal {
                return unknown_inst(w);
            }
            r.op = if opcode == 8 {
                Op::A64_FMLAL2_ELEM
            } else {
                Op::A64_FMLSL2_ELEM
            };
        } else if opcode == 9 {
            if size == 1 {
                return error_inst(DecodeReason::UnresolvedSimd);
            }
            if !fp_sizes {
                return unknown_inst(w);
            }
            r.op = Op::A64_FMULX_ELEM;
        } else if opcode == 13 || opcode == 15 {
            if !int_sizes {
                return unknown_inst(w);
            }
            r.op = if opcode == 13 {
                Op::A64_SQRDMLAH_ELEM
            } else {
                Op::A64_SQRDMLSH_ELEM
            };
        } else if opcode == 14 {
            if size != 2 {
                return unknown_inst(w);
            }
            r.op = Op::A64_DOT_ELEM;
        } else {
            return unknown_inst(w);
        }
    }
    r
}

/// Vector three-same extra: dot products, the saturating rounding
/// multiply-accumulates, and the complex arithmetic (FCMLA/FCADD) whose
/// rotation is kept in `imm` in degrees.
fn decode_vec_three_extra(w: u32) -> (r: Inst)
    ensures
        r.op == Op::A64_UNKNOWN ==> r.imm == w as u64,
        r.op == Op::A64_ERROR ==> r.aux is Reason,
{
    let q = field(w, 30, 1);
    let u = field(w, 29, 1);
    let size = field(w, 22, 3);
    let opcode = field(w, 11, 0xF);
    let mut r = empty_inst();
    r.flags = with_va(0, va_of(size, q));
    r.rd = simd_reg(field(w, 0, 0x1F));
    r.rn = simd_reg(field(w, 5, 0x1F));
    r.rm = simd_reg(field(w, 16, 0x1F));
    if opcode == 2 {
        // SDOT/UDOT: byte sources, 32-bit accumulators.
        if size != 2 {
            return unknown_inst(w);
        }
        if u == 0 {
            r.flags = r.flags | FLAG_SIMD_SIGNED;
        }
        r.op = Op::A64_DOT_VEC;
        return r;
    }
    if u != 1 {
        return unknown_inst(w);
    }
    if opcode == 0 || opcode == 1 {
        if size != 1 && size != 2 {
            return unknown_inst(w);
        }
        r.op = if opcode == 0 {
            Op::A64_SQRDMLAH_VEC
        } else {
            Op::A64_SQRDMLSH_VEC
        };
        return r;
    }
    if opcode >= 8 && opcode <= 11 {
        // FCMLA, rotation in steps of 90 degrees.
        if size == 0 || (size == 3 && q == 0) {
            return unknown_inst(w);
        }
        r.op = Op::A64_FCMLA_VEC;
        r.imm = ((opcode - 8) * 90) as u64;
        return r;
    }
    if opcode == 12 || opcode == 14 {
        // FCADD, rotation 90 or 270 degrees.
        if size == 0 || (size == 3 && q == 0) {
            return unknown_inst(w);
        }
        r.op = Op::A64_FCADD;
        r.imm = if opcode == 14 {
            270
        } else {
            90
        };
        return r;
    }
    unknown_inst(w)
}

/// The scalar floating-point prefixes and the vector prefixes select
/// disjoint sets of words.
proof fn lemma_fpsimd_prefixes(w: u32)
    ensures
        (w >> 24) & 0x7F == 0x1E ==> ((w >> 24) & 0x9F != 0x0E && (w >> 24) & 0x9F != 0x0F),
        (w >> 24) & 0x7F == 0x1F ==> ((w >> 24) & 0x9F != 0x0E && (w >> 24) & 0x9F != 0x0F),
{
    assert(((w >> 24) & 0x7F == 0x1E ==> ((w >> 24) & 0x9F != 0x0E && (w >> 24) & 0x9F != 0x0F))
        && ((w >> 24) & 0x7F == 0x1F ==> ((w >> 24) & 0x9F != 0x0E && (w >> 24) & 0x9F
        != 0x0F))) by (bit_vector);
}

/// Decode a word of the scalar-FP/SIMD class.
pub fn decode_fpsimd(w: u32) -> (r: Inst)
    ensures
        r.op == Op::A64_UNKNOWN ==> r.imm == w as u64,
        r.op == Op::A64_ERROR ==> r.aux is Reason,
        is_fp_scalar_word(w) ==> r == spec_fp_scalar(w),
        is_fp_3src_word(w) ==> r == spec_fp_3src(w),
        is_vec_three_same_word(w) ==> r == spec_vec_three_same(w),
        is_vec_copy_word(w) ==> r == spec_vec_copy(w),
        is_vec_modimm_word(w) ==> r == spec_vec_modimm(w),
{
    proof {
        lemma_fpsimd_prefixes(w);
    }
    if (w >> 24) & 0x7F == 0x1E {
        return decode_fp_scalar(w);
    }
    if (w >> 24) & 0x7F == 0x1F {
        return decode_fp_3src(w);
    }
    if (w >> 24) & 0x9F == 0x0F {
        // The immediate row carries the modified immediates; a clear bit 10
        // selects multiplication by an indexed element, and everything else
        // is the shift-by-immediate group.
        if field(w, 19, 0x1F) == 0 && field(w, 10, 1) == 1 {
            return decode_vec_modimm(w);
        }
        if field(w, 10, 1) == 0 {
            return decode_vec_elem(w);
        }
        return decode_vec_shift_imm(w);
    }
    if (w >> 24) & 0x9F == 0x0E {
        if field(w, 21, 1) == 1 {
            if field(w, 10, 1) == 1 {
                return decode_vec_three_same(w);
            }
            if field(w, 10, 3) == 0 {
                return decode_vec_three_diff(w);
            }
            if field(w, 17, 0xF) == 0 {
                return decode_vec_two_misc(w);
            }
            if field(w, 17, 0xF) == 8 {
                return decode_vec_across(w);
            }
            // Crypto and the other allocated rows of this space.
            return error_inst(DecodeReason::UnresolvedSimd);
        }
        if field(w, 22, 3) == 0 && field(w, 15, 1) == 0 && field(w, 10, 1) == 1 {
            return decode_vec_copy(w);
        }
        if field(w, 15, 1) == 1 && field(w, 10, 1) == 1 {
            return decode_vec_three_extra(w);
        }
        if field(w, 29, 1) == 0 && field(w, 15, 1) == 0 && field(w, 10, 3) == 2 {
            return decode_vec_permute(w);
        }
        if field(w, 29, 1) == 0 && field(w, 22, 3) == 0 && field(w, 15, 1) == 0 && field(
            w,
            10,
            3,
        ) == 0 {
            return decode_vec_table(w);
        }
        if field(w, 29, 1) == 1 && field(w, 22, 3) == 0 && field(w, 15, 1) == 0 && field(
            w,
            10,
            1,
        ) == 0 {
            // EXT: byte extract from a register pair.
            let q = field(w, 30, 1);
            let imm4 = field(w, 11, 0xF);
            if q == 0 && imm4 >= 8 {
                return unknown_inst(w);
            }
            let mut r = empty_inst();
            r.op = Op::A64_EXT;
            r.flags = with_va(0, va_of(0, q));
            r.rd = simd_reg(field(w, 0, 0x1F));
            r.rn = simd_reg(field(w, 5, 0x1F));
            r.rm = simd_reg(field(w, 16, 0x1F));
            r.imm = imm4 as u64;
            return r;
        }
        // Table lookup and permute forms.
        return error_inst(DecodeReason::UnresolvedSimd);
    }
    // Scalar SIMD forms, crypto, and the remaining allocated spaces.
    error_inst(DecodeReason::UnresolvedSimd)
}

} // verus!
