//! Decoder for the loads-and-stores class. A handful of canonical opcodes
//! (LDR, STR, LDP, STP, the exclusive/atomic forms and the SIMD structure
//! forms) pair with one of seven addressing modes, written into the
//! attributes word; memory-ordering semantics are recorded separately, and
//! the base register reads number 31 as the stack pointer in every mode.

use vstd::prelude::*;
use crate::bits::{field, sign_extend, sval};
use crate::model::{
    Inst, Op, Payload, AddrMode, MemOrdering, LdstOrder, SimdLdst, Extend, Size, FPSize,
    DecodeReason, Reg, empty_inst_spec, empty_inst, unknown_inst, error_inst, spec_gpr_zr,
    spec_gpr_sp, gpr_zr, gpr_sp, simd_reg, spec_size_of, size_of_bits, fpsize_of, extend_of,
    va_of, spec_get_addrmode, spec_with_addrmode, with_addrmode, spec_get_size, spec_with_size,
    with_size, spec_with_prec, with_prec, with_va, lemma_addrmode_roundtrip, lemma_ldst_flag_bits,
    FLAG_W32, FLAG_LDST_SEXT,
};

verus! {

/// Exclusive, compare-and-swap and ordered accesses (bits 24..=29 are
/// 001000).
pub open spec fn is_exclusive_word(w: u32) -> bool {
    (w >> 24) & 0x3F == 0x08
}

/// Register pairs (bits 25 and 27..=29 are 0, 1, 0, 1; bit 26 selects SIMD).
pub open spec fn is_pair_word(w: u32) -> bool {
    (w >> 25) & 0x1D == 0x14
}

/// Single-register load/store forms (bits 25 and 27..=29 are 0, 1, 1, 1).
pub open spec fn is_regform_word(w: u32) -> bool {
    (w >> 25) & 0x1D == 0x1C
}

/// Atomic memory operations, a carve-out of the register forms.
pub open spec fn is_atomic_word(w: u32) -> bool {
    is_regform_word(w) && (w >> 26) & 1 == 0 && (w >> 24) & 1 == 0 && (w >> 21) & 1 == 1 && (w
        >> 10) & 3 == 0
}

/// SIMD structured loads/stores (bits 25..=29 are 01100).
pub open spec fn is_simd_struct_word(w: u32) -> bool {
    (w >> 25) & 0x1F == 6
}

/// What every successfully decoded exclusive-space word records: the
/// simple addressing mode, a base that reads 31 as the stack pointer, a
/// transfer register that reads 31 as the zero register, and an ordering
/// payload with its independent load and store fields.
pub open spec fn exclusive_post(w: u32, r: Inst) -> bool {
    r.op != Op::A64_UNKNOWN ==> {
        &&& spec_get_addrmode(r.flags) == AddrMode::AM_SIMPLE
        &&& r.rn == spec_gpr_sp((w >> 5) & 0x1F)
        &&& r.rd == spec_gpr_zr(w & 0x1F)
        &&& r.aux is LdstOrder
    }
}

/// What every successfully decoded pair word records: the addressing mode
/// selected by the index bits, the SP-reading base, and the two transfer
/// registers in the class the V bit selects.
pub open spec fn pair_post(w: u32, r: Inst) -> bool {
    r.op != Op::A64_UNKNOWN ==> {
        let idx = (w >> 23) & 3;
        &&& spec_get_addrmode(r.flags) == (if idx == 1 {
            AddrMode::AM_POST
        } else if idx == 3 {
            AddrMode::AM_PRE
        } else {
            AddrMode::AM_OFF_IMM
        })
        &&& r.rn == spec_gpr_sp((w >> 5) & 0x1F)
        &&& ((w >> 26) & 1 == 0 ==> r.rd == spec_gpr_zr(w & 0x1F) && r.rt2 == spec_gpr_zr(
            (w >> 10) & 0x1F,
        ))
        &&& ((w >> 26) & 1 == 1 ==> r.rd == Reg::Ordinary((w & 0x1F) as u8) && r.rt2
            == Reg::Ordinary(((w >> 10) & 0x1F) as u8))
    }
}

/// What every successfully decoded single-register form records (the
/// atomic carve-out aside): the addressing mode matching the offset fields
/// the word populates, the SP-reading base, and for the general-register
/// forms the access size, the sign-extension attribute exactly when the
/// opc field asks for it, and the ZR-reading transfer register.
pub open spec fn regform_post(w: u32, r: Inst) -> bool {
    !is_atomic_word(w) && r.op != Op::A64_UNKNOWN && r.op != Op::A64_ERROR ==> {
        &&& r.rn == spec_gpr_sp((w >> 5) & 0x1F)
        &&& spec_get_addrmode(r.flags) == (if (w >> 24) & 1 == 1 {
            AddrMode::AM_OFF_IMM
        } else if (w >> 21) & 1 == 1 {
            if (w >> 13) & 7 == 3 {
                AddrMode::AM_OFF_REG
            } else {
                AddrMode::AM_OFF_EXT
            }
        } else if (w >> 10) & 3 == 1 {
            AddrMode::AM_POST
        } else if (w >> 10) & 3 == 3 {
            AddrMode::AM_PRE
        } else {
            AddrMode::AM_OFF_IMM
        })
        &&& ((w >> 26) & 1 == 0 && r.op != Op::A64_PRFM ==> {
            &&& spec_get_size(r.flags) == spec_size_of((w >> 30) & 3)
            &&& ((r.flags & FLAG_LDST_SEXT != 0) <==> (w >> 23) & 1 == 1)
            &&& r.rd == spec_gpr_zr(w & 0x1F)
        })
    }
}

/// What every successfully decoded atomic memory operation records: the
/// simple addressing mode, the literal (ZR-reading) destination, the
/// SP-reading base, and the exact independent orderings the A and R bits
/// select (acquire-PC for LDAPR).
pub open spec fn atomic_post(w: u32, r: Inst) -> bool {
    r.op != Op::A64_UNKNOWN ==> {
        &&& spec_get_addrmode(r.flags) == AddrMode::AM_SIMPLE
        &&& r.rd == spec_gpr_zr(w & 0x1F)
        &&& r.rn == spec_gpr_sp((w >> 5) & 0x1F)
        &&& r.aux == Payload::LdstOrder(
            LdstOrder {
                load: if r.op == Op::A64_LDAPR {
                    MemOrdering::MO_ACQUIRE_PC
                } else if (w >> 23) & 1 == 1 {
                    MemOrdering::MO_ACQUIRE
                } else {
                    MemOrdering::MO_NONE
                },
                store: if (w >> 22) & 1 == 1 {
                    MemOrdering::MO_RELEASE
                } else {
                    MemOrdering::MO_NONE
                },
                rs: spec_gpr_zr((w >> 16) & 0x1F),
            },
        )
    }
}

/// What every successfully decoded SIMD structured load/store records:
/// the simple or post-indexed addressing mode, the SP-reading base, the
/// SIMD transfer register, and the structure payload.
pub open spec fn simd_struct_post(w: u32, r: Inst) -> bool {
    r.op != Op::A64_UNKNOWN ==> {
        &&& r.rn == spec_gpr_sp((w >> 5) & 0x1F)
        &&& spec_get_addrmode(r.flags) == (if (w >> 23) & 1 == 1 {
            AddrMode::AM_POST
        } else {
            AddrMode::AM_SIMPLE
        })
        &&& r.rd == Reg::Ordinary((w & 0x1F) as u8)
        &&& r.aux is SimdLdst
    }
}

/// The W32 attribute for a general-register access of the given size
/// (anything below doubleword uses the 32-bit register view).
fn ldst_w32(size: u32) -> (f: u8)
    ensures
        f == (if size == 3 {
            0u8
        } else {
            FLAG_W32
        }),
{
    if size == 3 {
        0
    } else {
        FLAG_W32
    }
}

/// Exclusive, compare-and-swap and ordered (acquire/release) accesses.
fn decode_exclusive(w: u32) -> (r: Inst)
    ensures
        r.op == Op::A64_UNKNOWN ==> r.imm == w as u64,
        r.op == Op::A64_ERROR ==> r.aux is Reason,
        exclusive_post(w, r),
{
    let size = field(w, 30, 3);
    let o2 = field(w, 23, 1);
    let l = field(w, 22, 1);
    let o1 = field(w, 21, 1);
    let rs = field(w, 16, 0x1F);
    let o0 = field(w, 15, 1);
    let rt2 = field(w, 10, 0x1F);
    let rn = field(w, 5, 0x1F);
    let rt = field(w, 0, 0x1F);
    let mut r = empty_inst();
    let fbase = with_size(ldst_w32(size), size_of_bits(size));
    r.flags = with_addrmode(fbase, AddrMode::AM_SIMPLE);
    proof {
        lemma_addrmode_roundtrip(fbase, AddrMode::AM_SIMPLE);
    }
    r.rn = gpr_sp(rn);
    r.rd = gpr_zr(rt);
    if o2 == 0 {
        if o1 == 0 {
            // Load/store exclusive register, with optional acquire/release.
            if l == 1 {
                r.op = Op::A64_LDXR;
                r.aux = Payload::LdstOrder(
                    LdstOrder {
                        load: if o0 == 1 {
                            MemOrdering::MO_ACQUIRE
                        } else {
                            MemOrdering::MO_NONE
                        },
                        store: MemOrdering::MO_NONE,
                        rs: Reg::ZeroRegister,
                    },
                );
            } else {
                r.op = Op::A64_STXR;
                r.aux = Payload::LdstOrder(
                    LdstOrder {
                        load: MemOrdering::MO_NONE,
                        store: if o0 == 1 {
                            MemOrdering::MO_RELEASE
                        } else {
                            MemOrdering::MO_NONE
                        },
                        rs: gpr_zr(rs),
                    },
                );
            }
            return r;
        }
        if size <= 1 {
            // Compare-and-swap pair (32- or 64-bit register pairs).
            if rt2 != 31 {
                return unknown_inst(w);
            }
            r.op = Op::A64_CASP;
            let fcasp = with_size(ldst_w32(size + 2), size_of_bits(size + 2));
            r.flags = with_addrmode(fcasp, AddrMode::AM_SIMPLE);
            proof {
                lemma_addrmode_roundtrip(fcasp, AddrMode::AM_SIMPLE);
            }
            r.aux = Payload::LdstOrder(
                LdstOrder {
                    load: if l == 1 {
                        MemOrdering::MO_ACQUIRE
                    } else {
                        MemOrdering::MO_NONE
                    },
                    store: if o0 == 1 {
                        MemOrdering::MO_RELEASE
                    } else {
                        MemOrdering::MO_NONE
                    },
                    rs: gpr_zr(rs),
                },
            );
            return r;
        }
        // Load/store exclusive pair.
        r.op = if l == 1 {
            Op::A64_LDXP
        } else {
            Op::A64_STXP
        };
        r.rt2 = gpr_zr(rt2);
        r.aux = Payload::LdstOrder(
            LdstOrder {
                load: if l == 1 && o0 == 1 {
                    MemOrdering::MO_ACQUIRE
                } else {
                    MemOrdering::MO_NONE
                },
                store: if l == 0 && o0 == 1 {
                    MemOrdering::MO_RELEASE
                } else {
                    MemOrdering::MO_NONE
                },
                rs: if l == 1 {
                    Reg::ZeroRegister
                } else {
                    gpr_zr(rs)
                },
            },
        );
        return r;
    }
    if o1 == 1 {
        // Compare-and-swap.
        if rt2 != 31 {
            return unknown_inst(w);
        }
        r.op = Op::A64_CAS;
        r.aux = Payload::LdstOrder(
            LdstOrder {
                load: if l == 1 {
                    MemOrdering::MO_ACQUIRE
                } else {
                    MemOrdering::MO_NONE
                },
                store: if o0 == 1 {
                    MemOrdering::MO_RELEASE
                } else {
                    MemOrdering::MO_NONE
                },
                rs: gpr_zr(rs),
            },
        );
        return r;
    }
    // Load-acquire / store-release (plain and limited-ordering forms);
    // these carry the generic load/store opcodes plus an ordering payload.
    if rs != 31 || rt2 != 31 {
        return unknown_inst(w);
    }
    if l == 1 {
        r.op = Op::A64_LDR;
        r.aux = Payload::LdstOrder(
            LdstOrder {
                load: if o0 == 1 {
                    MemOrdering::MO_ACQUIRE
                } else {
                    MemOrdering::MO_LO_ACQUIRE
                },
                store: MemOrdering::MO_NONE,
                rs: Reg::ZeroRegister,
            },
        );
    } else {
        r.op = Op::A64_STR;
        r.aux = Payload::LdstOrder(
            LdstOrder {
                load: MemOrdering::MO_NONE,
                store: if o0 == 1 {
                    MemOrdering::MO_RELEASE
                } else {
                    MemOrdering::MO_LO_RELEASE
                },
                rs: Reg::ZeroRegister,
            },
        );
    }
    r
}

/// PC-relative literal loads: LDR (and LDRSW/PRFM) from a label
/// (bits 27..=28 are 11 and bits 24..=25 and 29 are 0).
pub open spec fn is_ldr_lit_word(w: u32) -> bool {
    (w >> 24) & 0x3B == 0x18
}

/// The record decoded from a literal-load word: the literal addressing
/// mode in the attributes word, the label as a byte offset, the access
/// size or precision from the opc bits, and for the prefetch form the
/// operation number in `imm`.
pub open spec fn ldr_lit_post(w: u32, r: Inst) -> bool {
    let v = (w >> 26) & 1;
    let opc = (w >> 30) & 3;
    let off = (4 * sval((w >> 5) & 0x7FFFF, 0x40000)) as i64;
    let rt = w & 0x1F;
    if v == 1 {
        if opc == 3 {
            r == (Inst { imm: w as u64, ..empty_inst_spec() })
        } else {
            r == (Inst {
                op: Op::A64_LDR_FP,
                flags: spec_with_addrmode(
                    spec_with_prec(
                        0,
                        if opc == 0 {
                            FPSize::FSZ_S
                        } else if opc == 1 {
                            FPSize::FSZ_D
                        } else {
                            FPSize::FSZ_Q
                        },
                    ),
                    AddrMode::AM_LITERAL,
                ),
                rd: Reg::Ordinary(rt as u8),
                offset: off,
                ..empty_inst_spec()
            })
        }
    } else if opc == 3 {
        r == (Inst {
            op: Op::A64_PRFM,
            flags: spec_with_addrmode(0, AddrMode::AM_LITERAL),
            imm: rt as u64,
            offset: off,
            ..empty_inst_spec()
        })
    } else {
        r == (Inst {
            op: Op::A64_LDR,
            flags: spec_with_addrmode(
                if opc == 0 {
                    spec_with_size(FLAG_W32, Size::SZ_W)
                } else if opc == 1 {
                    spec_with_size(0, Size::SZ_X)
                } else {
                    spec_with_size(FLAG_LDST_SEXT, Size::SZ_W)
                },
                AddrMode::AM_LITERAL,
            ),
            rd: spec_gpr_zr(rt),
            offset: off,
            ..empty_inst_spec()
        })
    }
}

fn decode_literal(w: u32) -> (r: Inst)
    ensures
        ldr_lit_post(w, r),
{
    let v = field(w, 26, 1);
    let opc = field(w, 30, 3);
    let imm19 = field(w, 5, 0x7FFFF);
    let rt = field(w, 0, 0x1F);
    let mut r = empty_inst();
    r.offset = 4 * sign_extend(imm19, 0x40000);
    if v == 1 {
        if opc == 3 {
            return unknown_inst(w);
        }
        r.op = Op::A64_LDR_FP;
        let prec = if opc == 0 {
            FPSize::FSZ_S
        } else if opc == 1 {
            FPSize::FSZ_D
        } else {
            FPSize::FSZ_Q
        };
        r.flags = with_addrmode(with_prec(0, prec), AddrMode::AM_LITERAL);
        r.rd = simd_reg(rt);
        return r;
    }
    if opc == 3 {
        // Literal prefetch: the prefetch operation number is kept in imm.
        r.op = Op::A64_PRFM;
        r.flags = with_addrmode(0, AddrMode::AM_LITERAL);
        r.imm = rt as u64;
        return r;
    }
    r.op = Op::A64_LDR;
    r.rd = gpr_zr(rt);
    if opc == 0 {
        r.flags = with_addrmode(with_size(FLAG_W32, Size::SZ_W), AddrMode::AM_LITERAL);
    } else if opc == 1 {
        r.flags = with_addrmode(with_size(0, Size::SZ_X), AddrMode::AM_LITERAL);
    } else {
        // LDRSW: a word, sign-extended into a 64-bit register.
        r.flags = with_addrmode(with_size(FLAG_LDST_SEXT, Size::SZ_W), AddrMode::AM_LITERAL);
    }
    r
}

/// Register pairs: LDP/STP and the no-allocate LDNP/STNP, general and SIMD.
fn decode_pair(w: u32, v: u32) -> (r: Inst)
    requires
        v == (w >> 26) & 1,
    ensures
        r.op == Op::A64_UNKNOWN ==> r.imm == w as u64,
        r.op == Op::A64_ERROR ==> r.aux is Reason,
        pair_post(w, r),
{
    let opc = field(w, 30, 3);
    let idx = field(w, 23, 3);
    let l = field(w, 22, 1);
    let imm7 = field(w, 15, 0x7F);
    let rt2 = field(w, 10, 0x1F);
    let rn = field(w, 5, 0x1F);
    let rt = field(w, 0, 0x1F);
    let mut r = empty_inst();
    r.rn = gpr_sp(rn);
    let mode = if idx == 1 {
        AddrMode::AM_POST
    } else if idx == 3 {
        AddrMode::AM_PRE
    } else {
        AddrMode::AM_OFF_IMM
    };
    let mut scale_bytes: i64 = 4;
    if v == 1 {
        if opc == 3 {
            return unknown_inst(w);
        }
        scale_bytes = if opc == 0 {
            4
        } else if opc == 1 {
            8
        } else {
            16
        };
        let prec = if opc == 0 {
            FPSize::FSZ_S
        } else if opc == 1 {
            FPSize::FSZ_D
        } else {
            FPSize::FSZ_Q
        };
        let fprec = with_prec(0, prec);
        r.flags = with_addrmode(fprec, mode);
        proof {
            lemma_addrmode_roundtrip(fprec, mode);
        }
        r.rd = simd_reg(rt);
        r.rt2 = simd_reg(rt2);
        r.op = if idx == 0 {
            if l == 1 {
                Op::A64_LDNP_FP
            } else {
                Op::A64_STNP_FP
            }
        } else {
            if l == 1 {
                Op::A64_LDP_FP
            } else {
                Op::A64_STP_FP
            }
        };
    } else {
        if opc == 3 {
            return unknown_inst(w);
        }
        if opc == 1 && (l == 0 || idx == 0) {
            return unknown_inst(w);
        }
        let mut f: u8 = 0;
        if opc == 0 {
            // 32-bit pair.
            scale_bytes = 4;
            f = with_size(FLAG_W32, Size::SZ_W);
        } else if opc == 1 {
            // LDPSW: two words, sign-extended into 64-bit registers.
            scale_bytes = 4;
            f = with_size(FLAG_LDST_SEXT, Size::SZ_W);
        } else {
            scale_bytes = 8;
            f = with_size(0, Size::SZ_X);
        }
        r.flags = with_addrmode(f, mode);
        proof {
            lemma_addrmode_roundtrip(f, mode);
        }
        r.rd = gpr_zr(rt);
        r.rt2 = gpr_zr(rt2);
        r.op = if idx == 0 {
            if l == 1 {
                Op::A64_LDNP
            } else {
                Op::A64_STNP
            }
        } else {
            if l == 1 {
                Op::A64_LDP
            } else {
                Op::A64_STP
            }
        };
    }
    r.offset = scale_bytes * sign_extend(imm7, 0x40);
    r
}

/// Atomic memory operations (and SWP/LDAPR, which live in this space).
fn decode_atomic(w: u32) -> (r: Inst)
    ensures
        r.op == Op::A64_UNKNOWN ==> r.imm == w as u64,
        r.op == Op::A64_ERROR ==> r.aux is Reason,
        atomic_post(w, r),
{
    let size = field(w, 30, 3);
    let a = field(w, 23, 1);
    let rel = field(w, 22, 1);
    let rs = field(w, 16, 0x1F);
    let o3 = field(w, 15, 1);
    let aop = field(w, 12, 7);
    let rn = field(w, 5, 0x1F);
    let rt = field(w, 0, 0x1F);
    let mut load = if a == 1 {
        MemOrdering::MO_ACQUIRE
    } else {
        MemOrdering::MO_NONE
    };
    let store = if rel == 1 {
        MemOrdering::MO_RELEASE
    } else {
        MemOrdering::MO_NONE
    };
    let opcode: Op = if o3 == 0 {
        if aop == 0 {
            Op::A64_LDADD
        } else if aop == 1 {
            Op::A64_LDCLR
        } else if aop == 2 {
            Op::A64_LDEOR
        } else if aop == 3 {
            Op::A64_LDSET
        } else if aop == 4 {
            Op::A64_LDSMAX
        } else if aop == 5 {
            Op::A64_LDSMIN
        } else if aop == 6 {
            Op::A64_LDUMAX
        } else {
            Op::A64_LDUMIN
        }
    } else if aop == 0 {
        Op::A64_SWP
    } else if aop == 4 && a == 1 && rel == 0 && rs == 31 {
        load = MemOrdering::MO_ACQUIRE_PC;
        Op::A64_LDAPR
    } else {
        return unknown_inst(w);
    };
    let mut r = empty_inst();
    r.op = opcode;
    // The literal destination is recorded even when it discards the value:
    // an atomic op used purely for its memory side effect still decodes as
    // its LD* opcode.
    r.rd = gpr_zr(rt);
    r.rn = gpr_sp(rn);
    let fat = with_size(ldst_w32(size), size_of_bits(size));
    r.flags = with_addrmode(fat, AddrMode::AM_SIMPLE);
    proof {
        lemma_addrmode_roundtrip(fat, AddrMode::AM_SIMPLE);
    }
    r.aux = Payload::LdstOrder(LdstOrder { load: load, store: store, rs: gpr_zr(rs) });
    r
}

/// Single-register loads and stores: unsigned scaled immediate, unscaled,
/// pre/post-indexed, register and extended-register offsets, plus the
/// atomic carve-out and the unprivileged forms.
fn decode_register_form(w: u32, v: u32) -> (r: Inst)
    requires
        is_regform_word(w),
        v == (w >> 26) & 1,
    ensures
        r.op == Op::A64_UNKNOWN ==> r.imm == w as u64,
        r.op == Op::A64_ERROR ==> r.aux is Reason,
        regform_post(w, r),
        is_atomic_word(w) ==> atomic_post(w, r),
{
    proof {
        lemma_opc_sext_bit(w);
        lemma_sext_bit_values();
        crate::bits::lemma_and_mask_le(w >> 26, 1);
    }
    let size = field(w, 30, 3);
    let opc = field(w, 22, 3);
    let rn = field(w, 5, 0x1F);
    let rt = field(w, 0, 0x1F);
    let unsigned_imm = field(w, 24, 1) == 1;
    if !unsigned_imm && field(w, 21, 1) == 1 && field(w, 10, 3) == 0 {
        if v == 1 {
            return unknown_inst(w);
        }
        return decode_atomic(w);
    }
    // Operation, register class and attributes.
    let mut r = empty_inst();
    let mut prfm = false;
    let mut f: u8 = 0;
    let mut base: u8 = 0;
    let mut scale: u32 = size;
    if v == 1 {
        if opc >= 2 && size != 0 {
            return unknown_inst(w);
        }
        let prec = if opc >= 2 {
            scale = 4;
            FPSize::FSZ_Q
        } else {
            fpsize_of(size)
        };
        f = with_prec(0, prec);
        r.rd = simd_reg(rt);
        r.op = if opc & 1 == 1 {
            Op::A64_LDR_FP
        } else {
            Op::A64_STR_FP
        };
    } else {
        r.rd = gpr_zr(rt);
        if opc == 0 {
            base = ldst_w32(size);
            r.op = Op::A64_STR;
        } else if opc == 1 {
            base = ldst_w32(size);
            r.op = Op::A64_LDR;
        } else if opc == 2 {
            if size == 3 {
                // Prefetch: the operation number is kept in imm.
                prfm = true;
                r.op = Op::A64_PRFM;
                r.rd = Reg::ZeroRegister;
                r.imm = rt as u64;
            } else {
                // Sign-extending load into a 64-bit register.
                base = FLAG_LDST_SEXT;
                r.op = Op::A64_LDR;
            }
        } else {
            if size >= 2 {
                return unknown_inst(w);
            }
            // Sign-extending load into a 32-bit register.
            base = FLAG_LDST_SEXT | FLAG_W32;
            r.op = Op::A64_LDR;
        }
        if !prfm {
            f = with_size(base, size_of_bits(size));
        }
    }
    r.rn = gpr_sp(rn);
    let scale_bytes: i64 = if scale == 0 {
        1
    } else if scale == 1 {
        2
    } else if scale == 2 {
        4
    } else if scale == 3 {
        8
    } else {
        16
    };
    if unsigned_imm {
        let imm12 = field(w, 10, 0xFFF);
        r.flags = with_addrmode(f, AddrMode::AM_OFF_IMM);
        proof {
            lemma_addrmode_roundtrip(f, AddrMode::AM_OFF_IMM);
            if v == 0 && !prfm {
                lemma_ldst_flag_bits(base, spec_size_of(size), AddrMode::AM_OFF_IMM);
            }
        }
        r.offset = (imm12 as i64) * scale_bytes;
        return r;
    }
    if field(w, 21, 1) == 1 {
        if field(w, 10, 3) != 2 {
            return unknown_inst(w);
        }
        // Register or extended-register offset.
        let option = field(w, 13, 7);
        let s = field(w, 12, 1);
        if option & 2 == 0 {
            return unknown_inst(w);
        }
        let amount: u32 = if s == 1 {
            scale
        } else {
            0
        };
        let mode = if option == 3 {
            AddrMode::AM_OFF_REG
        } else {
            AddrMode::AM_OFF_EXT
        };
        r.flags = with_addrmode(f, mode);
        proof {
            lemma_addrmode_roundtrip(f, mode);
            if v == 0 && !prfm {
                lemma_ldst_flag_bits(base, spec_size_of(size), mode);
            }
        }
        r.rm = gpr_zr(field(w, 16, 0x1F));
        r.aux = Payload::Extend(Extend { typ: extend_of(option), lsl: amount });
        return r;
    }
    // Unscaled / post-indexed / unprivileged / pre-indexed, all simm9.
    let sub = field(w, 10, 3);
    if sub == 2 {
        return error_inst(DecodeReason::UnprivilegedLoadStore);
    }
    if prfm && sub != 0 {
        // Only the unscaled-offset prefetch exists here.
        return unknown_inst(w);
    }
    let mode = if sub == 0 {
        AddrMode::AM_OFF_IMM
    } else if sub == 1 {
        AddrMode::AM_POST
    } else {
        AddrMode::AM_PRE
    };
    r.flags = with_addrmode(f, mode);
    proof {
        lemma_addrmode_roundtrip(f, mode);
        if v == 0 && !prfm {
            lemma_ldst_flag_bits(base, spec_size_of(size), mode);
        }
    }
    r.offset = sign_extend(field(w, 12, 0x1FF), 0x100);
    r
}

/// SIMD load/store of multiple structures (LD1..LD4/ST1..ST4 and LDxR).
fn decode_simd_struct(w: u32) -> (r: Inst)
    ensures
        r.op == Op::A64_UNKNOWN ==> r.imm == w as u64,
        r.op == Op::A64_ERROR ==> r.aux is Reason,
        simd_struct_post(w, r),
{
    if field(w, 31, 1) != 0 {
        return unknown_inst(w);
    }
    let q = field(w, 30, 1);
    let post = field(w, 23, 1);
    let l = field(w, 22, 1);
    let rm = field(w, 16, 0x1F);
    let size = field(w, 10, 3);
    let rn = field(w, 5, 0x1F);
    let rt = field(w, 0, 0x1F);
    let single = field(w, 24, 1) == 1;
    if post == 0 && rm != 0 {
        return unknown_inst(w);
    }
    let mut r = empty_inst();
    r.rn = gpr_sp(rn);
    r.rd = simd_reg(rt);
    let mode = if post == 1 {
        AddrMode::AM_POST
    } else {
        AddrMode::AM_SIMPLE
    };
    if post == 1 && rm != 31 {
        r.rm = gpr_zr(rm);
    }
    if !single {
        let opcode = field(w, 12, 0xF);
        let (selem, nreg): (u32, u32) = if opcode == 0 {
            (4, 4)
        } else if opcode == 2 {
            (1, 4)
        } else if opcode == 4 {
            (3, 3)
        } else if opcode == 6 {
            (1, 3)
        } else if opcode == 7 {
            (1, 1)
        } else if opcode == 8 {
            (2, 2)
        } else if opcode == 10 {
            (1, 2)
        } else {
            return unknown_inst(w);
        };
        if size == 3 && q == 0 && selem != 1 {
            // The 1D arrangement exists only for the LD1/ST1 forms.
            return unknown_inst(w);
        }
        r.op = if l == 1 {
            if selem == 1 {
                Op::A64_LD1_MULT
            } else if selem == 2 {
                Op::A64_LD2_MULT
            } else if selem == 3 {
                Op::A64_LD3_MULT
            } else {
                Op::A64_LD4_MULT
            }
        } else {
            if selem == 1 {
                Op::A64_ST1_MULT
            } else if selem == 2 {
                Op::A64_ST2_MULT
            } else if selem == 3 {
                Op::A64_ST3_MULT
            } else {
                Op::A64_ST4_MULT
            }
        };
        let fmult = with_va(0, va_of(size, q));
        r.flags = with_addrmode(fmult, mode);
        proof {
            lemma_addrmode_roundtrip(fmult, mode);
        }
        let bytes: u32 = nreg * (if q == 1 {
            16
        } else {
            8
        });
        r.aux = Payload::SimdLdst(
            SimdLdst {
                nreg: nreg,
                index: 0,
                offset: if post == 1 && rm == 31 {
                    bytes as i16
                } else {
                    0
                },
            },
        );
        return r;
    }
    // Single structures: one element of one to four registers, or the
    // load-and-replicate forms.
    let rbit = field(w, 21, 1);
    let opcode3 = field(w, 13, 7);
    let s = field(w, 12, 1);
    let selem: u32 = rbit * 2 + opcode3 % 2 + 1;
    let scale = opcode3 / 2;
    let mut esize_log: u32 = scale;
    let mut index: u32 = 0;
    if scale == 3 {
        // Load one element and replicate to all lanes.
        if l == 0 || s != 0 {
            return unknown_inst(w);
        }
        r.op = if selem == 1 {
            Op::A64_LD1R
        } else if selem == 2 {
            Op::A64_LD2R
        } else if selem == 3 {
            Op::A64_LD3R
        } else {
            Op::A64_LD4R
        };
        let frep = with_va(0, va_of(size, q));
        r.flags = with_addrmode(frep, mode);
        proof {
            lemma_addrmode_roundtrip(frep, mode);
        }
        esize_log = size;
    } else {
        if scale == 0 {
            index = q * 8 + s * 4 + size;
        } else if scale == 1 {
            if size & 1 != 0 {
                return unknown_inst(w);
            }
            index = q * 4 + s * 2 + size / 2;
        } else {
            if size == 0 {
                index = q * 2 + s;
            } else if size == 1 && s == 0 {
                index = q;
                esize_log = 3;
            } else {
                return unknown_inst(w);
            }
        }
        r.op = if l == 1 {
            if selem == 1 {
                Op::A64_LD1_SINGLE
            } else if selem == 2 {
                Op::A64_LD2_SINGLE
            } else if selem == 3 {
                Op::A64_LD3_SINGLE
            } else {
                Op::A64_LD4_SINGLE
            }
        } else {
            if selem == 1 {
                Op::A64_ST1_SINGLE
            } else if selem == 2 {
                Op::A64_ST2_SINGLE
            } else if selem == 3 {
                Op::A64_ST3_SINGLE
            } else {
                Op::A64_ST4_SINGLE
            }
        };
        let fsingle = with_size(0, size_of_bits(esize_log));
        r.flags = with_addrmode(fsingle, mode);
        proof {
            lemma_addrmode_roundtrip(fsingle, mode);
        }
    }
    let total_bytes: u32 = if esize_log == 0 {
        selem
    } else if esize_log == 1 {
        selem * 2
    } else if esize_log == 2 {
        selem * 4
    } else {
        selem * 8
    };
    r.aux = Payload::SimdLdst(
        SimdLdst {
            nreg: selem,
            index: index as u16,
            offset: if post == 1 && rm == 31 {
                total_bytes as i16
            } else {
                0
            },
        },
    );
    r
}

/// The five load/store row patterns select pairwise disjoint sets of
/// words, and the opc field asks for sign extension exactly when bit 23
/// is set.
proof fn lemma_ldst_windows(w: u32)
    ensures
        is_ldr_lit_word(w) ==> !is_exclusive_word(w) && !is_simd_struct_word(w) && !is_pair_word(w)
            && !is_regform_word(w),
        is_exclusive_word(w) ==> !is_simd_struct_word(w) && !is_pair_word(w) && !is_regform_word(
            w,
        ),
        is_simd_struct_word(w) ==> !is_pair_word(w) && !is_regform_word(w),
{
    assert(((w >> 24) & 0x3B == 0x18 ==> ((w >> 24) & 0x3F != 0x08 && (w >> 25) & 0x1F != 6 && (w
        >> 25) & 0x1D != 0x14 && (w >> 25) & 0x1D != 0x1C)) && ((w >> 24) & 0x3F == 0x08 ==> ((w
        >> 25) & 0x1F != 6 && (w >> 25) & 0x1D != 0x14 && (w >> 25) & 0x1D != 0x1C)) && ((w >> 25)
        & 0x1F == 6 ==> ((w >> 25) & 0x1D != 0x14 && (w >> 25) & 0x1D != 0x1C))) by (bit_vector);
}

/// The opc field of a register-form word selects a sign-extending load
/// exactly when bit 23 is set.
proof fn lemma_opc_sext_bit(w: u32)
    ensures
        (w >> 22) & 3 >= 2 <==> (w >> 23) & 1 == 1,
{
    assert((w >> 22) & 3 >= 2 <==> (w >> 23) & 1 == 1) by (bit_vector);
}

/// The width and sign-extension attribute bits never overlap the masks of
/// the attribute bases built here.
proof fn lemma_sext_bit_values()
    ensures
        0u8 & 0x10 == 0,
        1u8 & 0x10 == 0,
        0x10u8 & 0x10 == 0x10,
        (0x10u8 | 0x01) & 0x10 == 0x10,
{
    assert(0u8 & 0x10 == 0 && 1u8 & 0x10 == 0 && 0x10u8 & 0x10 == 0x10 && (0x10u8 | 0x01) & 0x10
        == 0x10) by (bit_vector);
}

/// Decode a word of the loads-and-stores class.
pub fn decode_ldst(w: u32) -> (r: Inst)
    ensures
        r.op == Op::A64_UNKNOWN ==> r.imm == w as u64,
        r.op == Op::A64_ERROR ==> r.aux is Reason,
        is_ldr_lit_word(w) ==> ldr_lit_post(w, r),
        is_exclusive_word(w) ==> exclusive_post(w, r),
        is_simd_struct_word(w) ==> simd_struct_post(w, r),
        is_pair_word(w) ==> pair_post(w, r),
        is_regform_word(w) ==> regform_post(w, r),
        is_atomic_word(w) ==> atomic_post(w, r),
{
    proof {
        lemma_ldst_windows(w);
    }
    if (w >> 24) & 0x3B == 0x18 {
        return decode_literal(w);
    }
    if (w >> 24) & 0x3F == 0x08 {
        return decode_exclusive(w);
    }
    if (w >> 25) & 0x1F == 6 {
        return decode_simd_struct(w);
    }
    if (w >> 25) & 0x1D == 0x14 {
        return decode_pair(w, field(w, 26, 1));
    }
    if (w >> 25) & 0x1D == 0x1C {
        return decode_register_form(w, field(w, 26, 1));
    }
    // No other row exists in the loads-and-stores class selector.
    unknown_inst(w)
}

} // verus!
