//! Decoder for the data-processing (register) class: shifted/extended
//! arithmetic and logic, carries, conditional compare and select, and the
//! multiply families, with their architectural aliases.

use vstd::prelude::*;
use crate::bits::field;
use crate::model::{
    Inst, Op, Cond, Payload, InstShift, Extend, Ccmp, Rmif, Reg, empty_inst_spec, empty_inst,
    unknown_inst_spec, unknown_inst, spec_flags_w32, flags_w32,
    spec_gpr_zr, spec_gpr_sp, gpr_zr, gpr_sp, spec_with_cond, with_cond, cond_of, cond_from_bits,
    spec_invert_cond, invert_cond, spec_shift_of, shift_of, spec_extend_of, extend_of,
    FLAG_SET_FLAGS, FLAG_W32,
};

verus! {

/// Conditional select: CSEL/CSINC/CSINV/CSNEG (bits 21..=28 are 11010100,
/// with the S bit clear).
pub open spec fn is_csel_word(w: u32) -> bool {
    (w >> 21) & 0xFF == 0xD4 && (w >> 29) & 1 == 0
}

/// Logical (shifted register): bits 24..=28 are 01010.
pub open spec fn is_logshift_word(w: u32) -> bool {
    (w >> 24) & 0x1F == 0x0A
}

/// Add/subtract (shifted register): bits 24..=28 are 01011, bit 21 clear.
pub open spec fn is_addsub_shifted_word(w: u32) -> bool {
    (w >> 24) & 0x1F == 0x0B && (w >> 21) & 1 == 0
}

/// Add/subtract (extended register): bits 24..=28 are 01011, bit 21 set.
pub open spec fn is_addsub_ext_word(w: u32) -> bool {
    (w >> 24) & 0x1F == 0x0B && (w >> 21) & 1 == 1
}

/// Add/subtract with carry, RMIF and SETF: bits 21..=28 are 11010000.
pub open spec fn is_carry_flags_word(w: u32) -> bool {
    (w >> 21) & 0xFF == 0xD0
}

/// Conditional compare: bits 21..=28 are 11010010.
pub open spec fn is_ccmp_word(w: u32) -> bool {
    (w >> 21) & 0xFF == 0xD2
}

/// Data-processing one/two sources: bits 21..=28 are 11010110.
pub open spec fn is_one_two_source_word(w: u32) -> bool {
    (w >> 21) & 0xFF == 0xD6
}

/// Data-processing three sources: bits 24..=28 are 11011.
pub open spec fn is_three_source_word(w: u32) -> bool {
    (w >> 24) & 0x1F == 0x1B
}

/// The record decoded from a logical-shifted-register word, with the
/// MOV/MVN/TST aliases and flag-setting forms folded to their attributes.
pub open spec fn spec_logical_shifted(w: u32) -> Inst {
    let sf = (w >> 31) & 1;
    let opc = (w >> 29) & 3;
    let shift = (w >> 22) & 3;
    let nbit = (w >> 21) & 1;
    let rm = (w >> 16) & 0x1F;
    let imm6 = (w >> 10) & 0x3F;
    let rn = (w >> 5) & 0x1F;
    let rd = w & 0x1F;
    if sf == 0 && imm6 >= 32 {
        unknown_inst_spec(w)
    } else {
        let fl = spec_flags_w32(sf);
        let sh = Payload::Shift(InstShift { typ: spec_shift_of(shift), amount: imm6 });
        let (opcv, flv, auxv): (Op, u8, Payload) = if opc == 0 {
            (
                if nbit == 1 {
                    Op::A64_BIC
                } else {
                    Op::A64_AND_SHIFTED
                },
                fl,
                sh,
            )
        } else if opc == 1 {
            if nbit == 1 {
                (
                    if rn == 31 {
                        Op::A64_MVN
                    } else {
                        Op::A64_ORN
                    },
                    fl,
                    sh,
                )
            } else if shift == 0 && imm6 == 0 && rn == 31 {
                (Op::A64_MOV_REG, fl, Payload::Empty)
            } else {
                (Op::A64_ORR_SHIFTED, fl, sh)
            }
        } else if opc == 2 {
            (
                if nbit == 1 {
                    Op::A64_EON
                } else {
                    Op::A64_EOR_SHIFTED
                },
                fl,
                sh,
            )
        } else {
            (
                if nbit == 1 {
                    Op::A64_BIC
                } else if rd == 31 {
                    Op::A64_TST_SHIFTED
                } else {
                    Op::A64_AND_SHIFTED
                },
                fl | FLAG_SET_FLAGS,
                sh,
            )
        };
        Inst {
            op: opcv,
            flags: flv,
            rd: spec_gpr_zr(rd),
            rn: spec_gpr_zr(rn),
            rm: spec_gpr_zr(rm),
            aux: auxv,
            ..empty_inst_spec()
        }
    }
}

/// The record decoded from an add/subtract (shifted register) word, with
/// the CMN/CMP/NEG aliases; register 31 always reads as the zero register.
pub open spec fn spec_addsub_shifted(w: u32) -> Inst {
    let sf = (w >> 31) & 1;
    let op = (w >> 30) & 1;
    let s = (w >> 29) & 1;
    let shift = (w >> 22) & 3;
    let rm = (w >> 16) & 0x1F;
    let imm6 = (w >> 10) & 0x3F;
    let rn = (w >> 5) & 0x1F;
    let rd = w & 0x1F;
    if shift == 3 || (sf == 0 && imm6 >= 32) {
        unknown_inst_spec(w)
    } else {
        let fl = if s == 1 {
            spec_flags_w32(sf) | FLAG_SET_FLAGS
        } else {
            spec_flags_w32(sf)
        };
        let opcv: Op = if s == 1 && rd == 31 {
            if op == 0 {
                Op::A64_CMN_SHIFTED
            } else {
                Op::A64_CMP_SHIFTED
            }
        } else if op == 1 && rn == 31 {
            Op::A64_NEG
        } else if op == 0 {
            Op::A64_ADD_SHIFTED
        } else {
            Op::A64_SUB_SHIFTED
        };
        Inst {
            op: opcv,
            flags: fl,
            rd: spec_gpr_zr(rd),
            rn: spec_gpr_zr(rn),
            rm: spec_gpr_zr(rm),
            aux: Payload::Shift(InstShift { typ: spec_shift_of(shift), amount: imm6 }),
            ..empty_inst_spec()
        }
    }
}

/// The record decoded from an add/subtract (extended register) word: the
/// base side reads 31 as the stack pointer, and so does an untested
/// destination; a flag-setting destination reads it as the zero register.
pub open spec fn spec_addsub_ext(w: u32) -> Inst {
    let sf = (w >> 31) & 1;
    let op = (w >> 30) & 1;
    let s = (w >> 29) & 1;
    let opt = (w >> 22) & 3;
    let rm = (w >> 16) & 0x1F;
    let option = (w >> 13) & 7;
    let imm3 = (w >> 10) & 7;
    let rn = (w >> 5) & 0x1F;
    let rd = w & 0x1F;
    if opt != 0 || imm3 > 4 {
        unknown_inst_spec(w)
    } else {
        let fl = if s == 1 {
            spec_flags_w32(sf) | FLAG_SET_FLAGS
        } else {
            spec_flags_w32(sf)
        };
        let rdv = if s == 1 {
            spec_gpr_zr(rd)
        } else {
            spec_gpr_sp(rd)
        };
        let opcv: Op = if s == 1 && rd == 31 {
            if op == 0 {
                Op::A64_CMN_EXT
            } else {
                Op::A64_CMP_EXT
            }
        } else if op == 0 {
            Op::A64_ADD_EXT
        } else {
            Op::A64_SUB_EXT
        };
        Inst {
            op: opcv,
            flags: fl,
            rd: rdv,
            rn: spec_gpr_sp(rn),
            rm: spec_gpr_zr(rm),
            aux: Payload::Extend(Extend { typ: spec_extend_of(option), lsl: imm3 }),
            ..empty_inst_spec()
        }
    }
}

/// The record decoded from the carry/flag-manipulation row: ADC/SBC with
/// the NGC alias, rotate-right-into-flags, and evaluate-into-flags.
pub open spec fn spec_carry_flags(w: u32) -> Inst {
    let sf = (w >> 31) & 1;
    let op = (w >> 30) & 1;
    let s = (w >> 29) & 1;
    let op3 = (w >> 10) & 0x3F;
    let rn = (w >> 5) & 0x1F;
    let rd = w & 0x1F;
    if op3 == 0 {
        let fl = if s == 1 {
            spec_flags_w32(sf) | FLAG_SET_FLAGS
        } else {
            spec_flags_w32(sf)
        };
        Inst {
            op: if op == 0 {
                Op::A64_ADC
            } else if rn == 31 {
                Op::A64_NGC
            } else {
                Op::A64_SBC
            },
            flags: fl,
            rd: spec_gpr_zr(rd),
            rn: spec_gpr_zr(rn),
            rm: spec_gpr_zr((w >> 16) & 0x1F),
            ..empty_inst_spec()
        }
    } else if op3 & 0x1F == 1 {
        if sf != 1 || s != 1 || op != 0 {
            unknown_inst_spec(w)
        } else {
            Inst {
                op: Op::A64_RMIF,
                rn: spec_gpr_zr(rn),
                aux: Payload::Rmif(Rmif { mask: w & 0xF, ror: (w >> 15) & 0x3F }),
                ..empty_inst_spec()
            }
        }
    } else if op3 == 2 || op3 == 18 {
        if sf != 0 || s != 1 || op != 0 || rd != 13 {
            unknown_inst_spec(w)
        } else {
            Inst {
                op: if op3 == 2 {
                    Op::A64_SETF8
                } else {
                    Op::A64_SETF16
                },
                flags: FLAG_W32,
                rn: spec_gpr_zr(rn),
                ..empty_inst_spec()
            }
        }
    } else {
        unknown_inst_spec(w)
    }
}

/// The record decoded from a conditional-compare word: the condition in
/// the attributes word, the alternative NZCV in the payload.
pub open spec fn spec_ccmp(w: u32) -> Inst {
    let sf = (w >> 31) & 1;
    let op = (w >> 30) & 1;
    let s = (w >> 29) & 1;
    let imm5 = (w >> 16) & 0x1F;
    let cond = (w >> 12) & 0xF;
    let imm_form = (w >> 11) & 1;
    let o2 = (w >> 10) & 1;
    let rn = (w >> 5) & 0x1F;
    let o3 = (w >> 4) & 1;
    let nzcv = w & 0xF;
    if s != 1 || o2 != 0 || o3 != 0 {
        unknown_inst_spec(w)
    } else {
        let fl = spec_with_cond(spec_flags_w32(sf) | FLAG_SET_FLAGS, cond_of(cond));
        let auxv = Payload::Ccmp(Ccmp { nzcv: nzcv, imm5: imm5 });
        if imm_form == 1 {
            Inst {
                op: if op == 0 {
                    Op::A64_CCMN_IMM
                } else {
                    Op::A64_CCMP_IMM
                },
                flags: fl,
                rn: spec_gpr_zr(rn),
                imm: imm5 as u64,
                aux: auxv,
                ..empty_inst_spec()
            }
        } else {
            Inst {
                op: if op == 0 {
                    Op::A64_CCMN_REG
                } else {
                    Op::A64_CCMP_REG
                },
                flags: fl,
                rn: spec_gpr_zr(rn),
                rm: spec_gpr_zr(imm5),
                aux: auxv,
                ..empty_inst_spec()
            }
        }
    }
}

/// The opcode of a two-source word; `None` for unallocated combinations.
pub open spec fn spec_two_source_op(sf: u32, opcode: u32) -> Option<Op> {
    if opcode == 0 && sf == 1 {
        Option::Some(Op::A64_SUBP)
    } else if opcode == 2 {
        Option::Some(Op::A64_UDIV)
    } else if opcode == 3 {
        Option::Some(Op::A64_SDIV)
    } else if opcode == 8 {
        Option::Some(Op::A64_LSLV)
    } else if opcode == 9 {
        Option::Some(Op::A64_LSRV)
    } else if opcode == 10 {
        Option::Some(Op::A64_ASRV)
    } else if opcode == 11 {
        Option::Some(Op::A64_RORV)
    } else if opcode == 16 && sf == 0 {
        Option::Some(Op::A64_CRC32B)
    } else if opcode == 17 && sf == 0 {
        Option::Some(Op::A64_CRC32H)
    } else if opcode == 18 && sf == 0 {
        Option::Some(Op::A64_CRC32W)
    } else if opcode == 19 && sf == 1 {
        Option::Some(Op::A64_CRC32X)
    } else if opcode == 20 && sf == 0 {
        Option::Some(Op::A64_CRC32CB)
    } else if opcode == 21 && sf == 0 {
        Option::Some(Op::A64_CRC32CH)
    } else if opcode == 22 && sf == 0 {
        Option::Some(Op::A64_CRC32CW)
    } else if opcode == 23 && sf == 1 {
        Option::Some(Op::A64_CRC32CX)
    } else {
        Option::None
    }
}

/// The record decoded from a two-source word (division, variable shifts,
/// CRC32, SUBP).
pub open spec fn spec_two_source(w: u32) -> Inst {
    let sf = (w >> 31) & 1;
    let s = (w >> 29) & 1;
    let rm = (w >> 16) & 0x1F;
    let opcode = (w >> 10) & 0x3F;
    let rn = (w >> 5) & 0x1F;
    let rd = w & 0x1F;
    if s != 0 {
        unknown_inst_spec(w)
    } else {
        match spec_two_source_op(sf, opcode) {
            Option::None => unknown_inst_spec(w),
            Option::Some(o) => Inst {
                op: o,
                flags: spec_flags_w32(sf),
                rd: spec_gpr_zr(rd),
                rn: spec_gpr_zr(rn),
                rm: spec_gpr_zr(rm),
                ..empty_inst_spec()
            },
        }
    }
}

/// The record decoded from a one-source word (bit/byte reversal and
/// leading-count units).
pub open spec fn spec_one_source(w: u32) -> Inst {
    let sf = (w >> 31) & 1;
    let s = (w >> 29) & 1;
    let opcode2 = (w >> 16) & 0x1F;
    let opcode = (w >> 10) & 0x3F;
    let rn = (w >> 5) & 0x1F;
    let rd = w & 0x1F;
    if s != 0 || opcode2 != 0 {
        unknown_inst_spec(w)
    } else {
        let opc: Option<Op> = if opcode == 0 {
            Option::Some(Op::A64_RBIT)
        } else if opcode == 1 {
            Option::Some(Op::A64_REV16)
        } else if opcode == 2 {
            Option::Some(
                if sf == 1 {
                    Op::A64_REV32
                } else {
                    Op::A64_REV
                },
            )
        } else if opcode == 3 && sf == 1 {
            Option::Some(Op::A64_REV)
        } else if opcode == 4 {
            Option::Some(Op::A64_CLZ)
        } else if opcode == 5 {
            Option::Some(Op::A64_CLS)
        } else {
            Option::None
        };
        match opc {
            Option::None => unknown_inst_spec(w),
            Option::Some(o) => Inst {
                op: o,
                flags: spec_flags_w32(sf),
                rd: spec_gpr_zr(rd),
                rn: spec_gpr_zr(rn),
                ..empty_inst_spec()
            },
        }
    }
}

/// The record decoded from the one/two-source row, split by bit 30.
pub open spec fn spec_one_two_source(w: u32) -> Inst {
    if (w >> 30) & 1 == 0 {
        spec_two_source(w)
    } else {
        spec_one_source(w)
    }
}

/// The record decoded from a three-source (multiply-accumulate) word, with
/// the pure-multiply aliases applying when the accumulator is the zero
/// register.
pub open spec fn spec_three_source(w: u32) -> Inst {
    let sf = (w >> 31) & 1;
    let op54 = (w >> 29) & 3;
    let op31 = (w >> 21) & 7;
    let rm = (w >> 16) & 0x1F;
    let o0 = (w >> 15) & 1;
    let ra = (w >> 10) & 0x1F;
    let rn = (w >> 5) & 0x1F;
    let rd = w & 0x1F;
    if op54 != 0 || (op31 != 0 && sf == 0) {
        unknown_inst_spec(w)
    } else {
        let za = ra == 31;
        let opc: Option<Op> = if op31 == 0 && o0 == 0 {
            Option::Some(
                if za {
                    Op::A64_MUL
                } else {
                    Op::A64_MADD
                },
            )
        } else if op31 == 0 && o0 == 1 {
            Option::Some(
                if za {
                    Op::A64_MNEG
                } else {
                    Op::A64_MSUB
                },
            )
        } else if op31 == 1 && o0 == 0 {
            Option::Some(
                if za {
                    Op::A64_SMULL
                } else {
                    Op::A64_SMADDL
                },
            )
        } else if op31 == 1 && o0 == 1 {
            Option::Some(
                if za {
                    Op::A64_SMNEGL
                } else {
                    Op::A64_SMSUBL
                },
            )
        } else if op31 == 2 && o0 == 0 {
            Option::Some(Op::A64_SMULH)
        } else if op31 == 5 && o0 == 0 {
            Option::Some(
                if za {
                    Op::A64_UMULL
                } else {
                    Op::A64_UMADDL
                },
            )
        } else if op31 == 5 && o0 == 1 {
            Option::Some(
                if za {
                    Op::A64_UMNEGL
                } else {
                    Op::A64_UMSUBL
                },
            )
        } else if op31 == 6 && o0 == 0 {
            Option::Some(Op::A64_UMULH)
        } else {
            Option::None
        };
        match opc {
            Option::None => unknown_inst_spec(w),
            Option::Some(o) => Inst {
                op: o,
                flags: spec_flags_w32(sf),
                rd: spec_gpr_zr(rd),
                rn: spec_gpr_zr(rn),
                rm: spec_gpr_zr(rm),
                ra: spec_gpr_zr(ra),
                ..empty_inst_spec()
            },
        }
    }
}

/// The conditional-select alias decision: given the two source register
/// numbers and the raw condition, pick the canonical opcode and the stored
/// condition. An alias (CINC/CSET/CINV/CSETM/CNEG) applies exactly when
/// both sources are the same register and the condition is invertible
/// (not AL/NV); the alias stores the inverted condition, the plain opcode
/// stores the raw condition unchanged.
pub open spec fn spec_csel_choice(op: u32, op2: u32, rm: u32, rn: u32, cond: u32) -> (Op, Cond) {
    let c = cond_of(cond);
    let invertible = cond < 14;
    if op == 0 && op2 == 0 {
        (Op::A64_CSEL, c)
    } else if op == 0 && op2 == 1 {
        if rm == rn && rm == 31 && invertible {
            (Op::A64_CSET, spec_invert_cond(c))
        } else if rm == rn && invertible {
            (Op::A64_CINC, spec_invert_cond(c))
        } else {
            (Op::A64_CSINC, c)
        }
    } else if op == 1 && op2 == 0 {
        if rm == rn && rm == 31 && invertible {
            (Op::A64_CSETM, spec_invert_cond(c))
        } else if rm == rn && invertible {
            (Op::A64_CINV, spec_invert_cond(c))
        } else {
            (Op::A64_CSINV, c)
        }
    } else {
        if rm == rn && invertible {
            (Op::A64_CNEG, spec_invert_cond(c))
        } else {
            (Op::A64_CSNEG, c)
        }
    }
}

/// The record decoded from a conditional-select word. Alias resolution
/// never changes the operand registers, only the opcode and the stored
/// condition.
pub open spec fn csel_post(w: u32, r: Inst) -> bool {
    let sf = (w >> 31) & 1;
    let op = (w >> 30) & 1;
    let rm = (w >> 16) & 0x1F;
    let cond = (w >> 12) & 0xF;
    let op2 = (w >> 10) & 3;
    let rn = (w >> 5) & 0x1F;
    let rd = w & 0x1F;
    if op2 >= 2 {
        r == (Inst { imm: w as u64, ..empty_inst_spec() })
    } else {
        let (opc, stored) = spec_csel_choice(op, op2, rm, rn, cond);
        r == (Inst {
            op: opc,
            flags: spec_with_cond(spec_flags_w32(sf), stored),
            rd: spec_gpr_zr(rd),
            rn: spec_gpr_zr(rn),
            rm: spec_gpr_zr(rm),
            ..empty_inst_spec()
        })
    }
}

fn decode_csel(w: u32) -> (r: Inst)
    ensures
        csel_post(w, r),
{
    let sf = field(w, 31, 1);
    let op = field(w, 30, 1);
    let rm = field(w, 16, 0x1F);
    let cond = field(w, 12, 0xF);
    let op2 = field(w, 10, 3);
    let rn = field(w, 5, 0x1F);
    let rd = field(w, 0, 0x1F);
    if op2 >= 2 {
        return unknown_inst(w);
    }
    let c = cond_from_bits(cond);
    let invertible = cond < 14;
    let alias = rm == rn && invertible;
    let opc: Op = if op == 0 && op2 == 0 {
        Op::A64_CSEL
    } else if op == 0 && op2 == 1 {
        if alias && rm == 31 {
            Op::A64_CSET
        } else if alias {
            Op::A64_CINC
        } else {
            Op::A64_CSINC
        }
    } else if op == 1 && op2 == 0 {
        if alias && rm == 31 {
            Op::A64_CSETM
        } else if alias {
            Op::A64_CINV
        } else {
            Op::A64_CSINV
        }
    } else {
        if alias {
            Op::A64_CNEG
        } else {
            Op::A64_CSNEG
        }
    };
    let stored: Cond = if opc == Op::A64_CSEL || opc == Op::A64_CSINC || opc == Op::A64_CSINV
        || opc == Op::A64_CSNEG {
        c
    } else {
        invert_cond(c)
    };
    let mut r = empty_inst();
    r.op = opc;
    r.flags = with_cond(flags_w32(sf), stored);
    r.rd = gpr_zr(rd);
    r.rn = gpr_zr(rn);
    r.rm = gpr_zr(rm);
    r
}

/// Logical (shifted register), with the MOV/MVN/TST aliases.
fn decode_logical_shifted(w: u32) -> (r: Inst)
    ensures
        r == spec_logical_shifted(w),
{
    let sf = field(w, 31, 1);
    let opc = field(w, 29, 3);
    let shift = field(w, 22, 3);
    let nbit = field(w, 21, 1);
    let rm = field(w, 16, 0x1F);
    let imm6 = field(w, 10, 0x3F);
    let rn = field(w, 5, 0x1F);
    let rd = field(w, 0, 0x1F);
    if sf == 0 && imm6 >= 32 {
        return unknown_inst(w);
    }
    let mut r = empty_inst();
    r.flags = flags_w32(sf);
    r.rd = gpr_zr(rd);
    r.rn = gpr_zr(rn);
    r.rm = gpr_zr(rm);
    r.aux = Payload::Shift(InstShift { typ: shift_of(shift), amount: imm6 });
    if opc == 0 {
        r.op = if nbit == 1 {
            Op::A64_BIC
        } else {
            Op::A64_AND_SHIFTED
        };
    } else if opc == 1 {
        if nbit == 1 {
            r.op = if rn == 31 {
                Op::A64_MVN
            } else {
                Op::A64_ORN
            };
        } else {
            if shift == 0 && imm6 == 0 && rn == 31 {
                r.op = Op::A64_MOV_REG;
                r.aux = Payload::Empty;
            } else {
                r.op = Op::A64_ORR_SHIFTED;
            }
        }
    } else if opc == 2 {
        r.op = if nbit == 1 {
            Op::A64_EON
        } else {
            Op::A64_EOR_SHIFTED
        };
    } else {
        // ANDS / BICS set the flags; ANDS discarding its result is TST.
        r.flags = r.flags | FLAG_SET_FLAGS;
        if nbit == 1 {
            r.op = Op::A64_BIC;
        } else if rd == 31 {
            r.op = Op::A64_TST_SHIFTED;
        } else {
            r.op = Op::A64_AND_SHIFTED;
        }
    }
    r
}

/// Add/subtract (shifted register), with CMN/CMP/NEG aliases.
fn decode_addsub_shifted(w: u32) -> (r: Inst)
    ensures
        r == spec_addsub_shifted(w),
{
    let sf = field(w, 31, 1);
    let op = field(w, 30, 1);
    let s = field(w, 29, 1);
    let shift = field(w, 22, 3);
    let rm = field(w, 16, 0x1F);
    let imm6 = field(w, 10, 0x3F);
    let rn = field(w, 5, 0x1F);
    let rd = field(w, 0, 0x1F);
    if shift == 3 || (sf == 0 && imm6 >= 32) {
        return unknown_inst(w);
    }
    let mut r = empty_inst();
    r.flags = flags_w32(sf);
    r.rd = gpr_zr(rd);
    r.rn = gpr_zr(rn);
    r.rm = gpr_zr(rm);
    r.aux = Payload::Shift(InstShift { typ: shift_of(shift), amount: imm6 });
    if s == 1 {
        r.flags = r.flags | FLAG_SET_FLAGS;
        if rd == 31 {
            r.op = if op == 0 {
                Op::A64_CMN_SHIFTED
            } else {
                Op::A64_CMP_SHIFTED
            };
            return r;
        }
    }
    if op == 1 && rn == 31 {
        r.op = Op::A64_NEG;
    } else if op == 0 {
        r.op = Op::A64_ADD_SHIFTED;
    } else {
        r.op = Op::A64_SUB_SHIFTED;
    }
    r
}

/// Add/subtract (extended register): the base register side reads 31 as
/// the stack pointer, and so does an untested destination.
fn decode_addsub_ext(w: u32) -> (r: Inst)
    ensures
        r == spec_addsub_ext(w),
{
    let sf = field(w, 31, 1);
    let op = field(w, 30, 1);
    let s = field(w, 29, 1);
    let opt = field(w, 22, 3);
    let rm = field(w, 16, 0x1F);
    let option = field(w, 13, 7);
    let imm3 = field(w, 10, 7);
    let rn = field(w, 5, 0x1F);
    let rd = field(w, 0, 0x1F);
    if opt != 0 || imm3 > 4 {
        return unknown_inst(w);
    }
    let mut r = empty_inst();
    r.flags = flags_w32(sf);
    r.rn = gpr_sp(rn);
    r.rm = gpr_zr(rm);
    r.aux = Payload::Extend(Extend { typ: extend_of(option), lsl: imm3 });
    if s == 1 {
        r.flags = r.flags | FLAG_SET_FLAGS;
        r.rd = gpr_zr(rd);
        if rd == 31 {
            r.op = if op == 0 {
                Op::A64_CMN_EXT
            } else {
                Op::A64_CMP_EXT
            };
            return r;
        }
    } else {
        r.rd = gpr_sp(rd);
    }
    r.op = if op == 0 {
        Op::A64_ADD_EXT
    } else {
        Op::A64_SUB_EXT
    };
    r
}

/// Add/subtract with carry, rotate-right-into-flags, and evaluate-into-flags.
fn decode_carry_flags(w: u32) -> (r: Inst)
    ensures
        r == spec_carry_flags(w),
{
    let sf = field(w, 31, 1);
    let op = field(w, 30, 1);
    let s = field(w, 29, 1);
    let op3 = field(w, 10, 0x3F);
    let rn = field(w, 5, 0x1F);
    let rd = field(w, 0, 0x1F);
    if op3 == 0 {
        let mut r = empty_inst();
        r.flags = flags_w32(sf);
        if s == 1 {
            r.flags = r.flags | FLAG_SET_FLAGS;
        }
        r.rd = gpr_zr(rd);
        r.rn = gpr_zr(rn);
        r.rm = gpr_zr(field(w, 16, 0x1F));
        if op == 0 {
            r.op = Op::A64_ADC;
        } else if rn == 31 {
            r.op = Op::A64_NGC;
        } else {
            r.op = Op::A64_SBC;
        }
        return r;
    }
    if op3 & 0x1F == 1 {
        // RMIF
        if sf != 1 || s != 1 || op != 0 {
            return unknown_inst(w);
        }
        let mut r = empty_inst();
        r.op = Op::A64_RMIF;
        r.rn = gpr_zr(rn);
        r.aux = Payload::Rmif(Rmif { mask: field(w, 0, 0xF), ror: field(w, 15, 0x3F) });
        return r;
    }
    if op3 == 2 || op3 == 18 {
        // SETF8 / SETF16
        if sf != 0 || s != 1 || op != 0 || rd != 13 {
            return unknown_inst(w);
        }
        let mut r = empty_inst();
        r.flags = FLAG_W32;
        r.op = if op3 == 2 {
            Op::A64_SETF8
        } else {
            Op::A64_SETF16
        };
        r.rn = gpr_zr(rn);
        return r;
    }
    unknown_inst(w)
}

/// Conditional compare (register and immediate forms).
fn decode_ccmp(w: u32) -> (r: Inst)
    ensures
        r == spec_ccmp(w),
{
    let sf = field(w, 31, 1);
    let op = field(w, 30, 1);
    let s = field(w, 29, 1);
    let imm5 = field(w, 16, 0x1F);
    let cond = field(w, 12, 0xF);
    let imm_form = field(w, 11, 1);
    let o2 = field(w, 10, 1);
    let rn = field(w, 5, 0x1F);
    let o3 = field(w, 4, 1);
    let nzcv = field(w, 0, 0xF);
    if s != 1 || o2 != 0 || o3 != 0 {
        return unknown_inst(w);
    }
    let mut r = empty_inst();
    r.flags = with_cond(flags_w32(sf) | FLAG_SET_FLAGS, cond_from_bits(cond));
    r.rn = gpr_zr(rn);
    r.aux = Payload::Ccmp(Ccmp { nzcv: nzcv, imm5: imm5 });
    if imm_form == 1 {
        r.imm = imm5 as u64;
        r.op = if op == 0 {
            Op::A64_CCMN_IMM
        } else {
            Op::A64_CCMP_IMM
        };
    } else {
        r.rm = gpr_zr(imm5);
        r.op = if op == 0 {
            Op::A64_CCMN_REG
        } else {
            Op::A64_CCMP_REG
        };
    }
    r
}

/// Data-processing, two sources: division, variable shifts, CRC32, SUBP.
fn decode_two_source(w: u32) -> (r: Inst)
    ensures
        r == spec_two_source(w),
{
    let sf = field(w, 31, 1);
    let s = field(w, 29, 1);
    let rm = field(w, 16, 0x1F);
    let opcode = field(w, 10, 0x3F);
    let rn = field(w, 5, 0x1F);
    let rd = field(w, 0, 0x1F);
    if s != 0 {
        return unknown_inst(w);
    }
    let mut r = empty_inst();
    r.flags = flags_w32(sf);
    r.rd = gpr_zr(rd);
    r.rn = gpr_zr(rn);
    r.rm = gpr_zr(rm);
    if opcode == 0 && sf == 1 {
        r.op = Op::A64_SUBP;
    } else if opcode == 2 {
        r.op = Op::A64_UDIV;
    } else if opcode == 3 {
        r.op = Op::A64_SDIV;
    } else if opcode == 8 {
        r.op = Op::A64_LSLV;
    } else if opcode == 9 {
        r.op = Op::A64_LSRV;
    } else if opcode == 10 {
        r.op = Op::A64_ASRV;
    } else if opcode == 11 {
        r.op = Op::A64_RORV;
    } else if opcode == 16 && sf == 0 {
        r.op = Op::A64_CRC32B;
    } else if opcode == 17 && sf == 0 {
        r.op = Op::A64_CRC32H;
    } else if opcode == 18 && sf == 0 {
        r.op = Op::A64_CRC32W;
    } else if opcode == 19 && sf == 1 {
        r.op = Op::A64_CRC32X;
    } else if opcode == 20 && sf == 0 {
        r.op = Op::A64_CRC32CB;
    } else if opcode == 21 && sf == 0 {
        r.op = Op::A64_CRC32CH;
    } else if opcode == 22 && sf == 0 {
        r.op = Op::A64_CRC32CW;
    } else if opcode == 23 && sf == 1 {
        r.op = Op::A64_CRC32CX;
    } else {
        return unknown_inst(w);
    }
    r
}

/// Data-processing, one source: bit and byte reversal, leading-count units.
fn decode_one_source(w: u32) -> (r: Inst)
    ensures
        r == spec_one_source(w),
{
    let sf = field(w, 31, 1);
    let s = field(w, 29, 1);
    let opcode2 = field(w, 16, 0x1F);
    let opcode = field(w, 10, 0x3F);
    let rn = field(w, 5, 0x1F);
    let rd = field(w, 0, 0x1F);
    if s != 0 || opcode2 != 0 {
        return unknown_inst(w);
    }
    let mut r = empty_inst();
    r.flags = flags_w32(sf);
    r.rd = gpr_zr(rd);
    r.rn = gpr_zr(rn);
    if opcode == 0 {
        r.op = Op::A64_RBIT;
    } else if opcode == 1 {
        r.op = Op::A64_REV16;
    } else if opcode == 2 {
        r.op = if sf == 1 {
            Op::A64_REV32
        } else {
            Op::A64_REV
        };
    } else if opcode == 3 && sf == 1 {
        r.op = Op::A64_REV;
    } else if opcode == 4 {
        r.op = Op::A64_CLZ;
    } else if opcode == 5 {
        r.op = Op::A64_CLS;
    } else {
        return unknown_inst(w);
    }
    r
}

/// Data-processing, three sources: the multiply-accumulate families, whose
/// pure-multiply aliases apply when the accumulator is the zero register.
fn decode_three_source(w: u32) -> (r: Inst)
    ensures
        r == spec_three_source(w),
{
    let sf = field(w, 31, 1);
    let op54 = field(w, 29, 3);
    let op31 = field(w, 21, 7);
    let rm = field(w, 16, 0x1F);
    let o0 = field(w, 15, 1);
    let ra = field(w, 10, 0x1F);
    let rn = field(w, 5, 0x1F);
    let rd = field(w, 0, 0x1F);
    if op54 != 0 {
        return unknown_inst(w);
    }
    if op31 != 0 && sf == 0 {
        // The widening and high multiplies exist only in 64-bit form.
        return unknown_inst(w);
    }
    let za = ra == 31;
    let opc: Op = if op31 == 0 && o0 == 0 {
        if za {
            Op::A64_MUL
        } else {
            Op::A64_MADD
        }
    } else if op31 == 0 && o0 == 1 {
        if za {
            Op::A64_MNEG
        } else {
            Op::A64_MSUB
        }
    } else if op31 == 1 && o0 == 0 {
        if za {
            Op::A64_SMULL
        } else {
            Op::A64_SMADDL
        }
    } else if op31 == 1 && o0 == 1 {
        if za {
            Op::A64_SMNEGL
        } else {
            Op::A64_SMSUBL
        }
    } else if op31 == 2 && o0 == 0 {
        Op::A64_SMULH
    } else if op31 == 5 && o0 == 0 {
        if za {
            Op::A64_UMULL
        } else {
            Op::A64_UMADDL
        }
    } else if op31 == 5 && o0 == 1 {
        if za {
            Op::A64_UMNEGL
        } else {
            Op::A64_UMSUBL
        }
    } else if op31 == 6 && o0 == 0 {
        Op::A64_UMULH
    } else {
        return unknown_inst(w);
    };
    let mut r = empty_inst();
    r.op = opc;
    r.flags = flags_w32(sf);
    r.rd = gpr_zr(rd);
    r.rn = gpr_zr(rn);
    r.rm = gpr_zr(rm);
    r.ra = gpr_zr(ra);
    r
}

/// The row selectors in the bits 24..=28 window and those in the bits
/// 21..=28 window never pick the same word.
proof fn lemma_dp_reg_windows(w: u32)
    ensures
        ((w >> 24) & 0x1F == 0x0A || (w >> 24) & 0x1F == 0x0B || (w >> 24) & 0x1F == 0x1B) ==> ((w
            >> 21) & 0xFF != 0xD0 && (w >> 21) & 0xFF != 0xD2 && (w >> 21) & 0xFF != 0xD4 && (w
            >> 21) & 0xFF != 0xD6),
{
    assert(((w >> 24) & 0x1F == 0x0A || (w >> 24) & 0x1F == 0x0B || (w >> 24) & 0x1F == 0x1B) ==> (
    (w >> 21) & 0xFF != 0xD0 && (w >> 21) & 0xFF != 0xD2 && (w >> 21) & 0xFF != 0xD4 && (w >> 21)
        & 0xFF != 0xD6)) by (bit_vector);
}

/// Decode a word of the data-processing (register) class.
pub fn decode_dp_reg(w: u32) -> (r: Inst)
    ensures
        r.op == Op::A64_UNKNOWN ==> r.imm == w as u64,
        r.op == Op::A64_ERROR ==> r.aux is Reason,
        is_csel_word(w) ==> csel_post(w, r),
        is_logshift_word(w) ==> r == spec_logical_shifted(w),
        is_addsub_shifted_word(w) ==> r == spec_addsub_shifted(w),
        is_addsub_ext_word(w) ==> r == spec_addsub_ext(w),
        is_carry_flags_word(w) ==> r == spec_carry_flags(w),
        is_ccmp_word(w) ==> r == spec_ccmp(w),
        is_one_two_source_word(w) ==> r == spec_one_two_source(w),
        is_three_source_word(w) ==> r == spec_three_source(w),
{
    proof {
        lemma_dp_reg_windows(w);
    }
    if (w >> 21) & 0xFF == 0xD4 {
        if (w >> 29) & 1 == 0 {
            return decode_csel(w);
        }
        return unknown_inst(w);
    }
    if (w >> 24) & 0x1F == 0x0A {
        return decode_logical_shifted(w);
    }
    if (w >> 24) & 0x1F == 0x0B {
        if (w >> 21) & 1 == 0 {
            return decode_addsub_shifted(w);
        }
        return decode_addsub_ext(w);
    }
    if (w >> 21) & 0xFF == 0xD0 {
        return decode_carry_flags(w);
    }
    if (w >> 21) & 0xFF == 0xD2 {
        return decode_ccmp(w);
    }
    if (w >> 21) & 0xFF == 0xD6 {
        if field(w, 30, 1) == 0 {
            return decode_two_source(w);
        }
        return decode_one_source(w);
    }
    if (w >> 24) & 0x1F == 0x1B {
        return decode_three_source(w);
    }
    unknown_inst(w)
}

} // verus!
