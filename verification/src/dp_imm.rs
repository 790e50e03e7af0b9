//! Decoder for the data-processing (immediate) class: PC-relative address
//! formation, add/subtract and logical immediates, the move-wide family,
//! bitfield moves and extract.

use vstd::prelude::*;
use crate::bits::{field, sign_extend, sval, wrap_add64, decode_bitmask, spec_decode_bitmask};
use crate::model::{
    Inst, Op, Payload, Movk, Bfm, InstShift, Shift, Extend, ExtendType, Reg, empty_inst_spec,
    empty_inst, unknown_inst_spec, unknown_inst, spec_flags_w32, flags_w32, spec_gpr_zr,
    spec_gpr_sp, gpr_zr, gpr_sp, FLAG_SET_FLAGS,
};

verus! {

/// Move-wide immediates: MOVN, MOVZ and MOVK (bits 23..=28 are 100101).
pub open spec fn is_movewide_word(w: u32) -> bool {
    (w >> 23) & 0x3F == 0x25
}

/// Logical immediates: AND/ORR/EOR/ANDS (bits 23..=28 are 100100).
pub open spec fn is_logimm_word(w: u32) -> bool {
    (w >> 23) & 0x3F == 0x24
}

/// Add/subtract immediate (bits 23..=28 are 100010).
pub open spec fn is_addsub_imm_word(w: u32) -> bool {
    (w >> 23) & 0x3F == 0x22
}

/// PC-relative address formation, ADR and ADRP (bits 24..=28 are 10000).
pub open spec fn is_pcrel_word(w: u32) -> bool {
    (w >> 24) & 0x1F == 0x10
}

/// Bitfield moves (bits 23..=28 are 100110).
pub open spec fn is_bitfield_word(w: u32) -> bool {
    (w >> 23) & 0x3F == 0x26
}

/// Extract (bits 23..=28 are 100111).
pub open spec fn is_extract_word(w: u32) -> bool {
    (w >> 23) & 0x3F == 0x27
}

/// The record decoded from a PC-relative address-formation word: the byte
/// (or page) delta in `offset`, and the absolute target, computed from the
/// instruction's address modulo 2^64, in `imm`.
pub open spec fn spec_pcrel(w: u32, addr: u64) -> Inst {
    let page = (w >> 31) & 1;
    let imm21 = (((w >> 5) & 0x7FFFF) * 4 + ((w >> 29) & 3)) as u32;
    let delta = sval(imm21, 0x10_0000);
    if page == 1 {
        Inst {
            op: Op::A64_ADRP,
            rd: spec_gpr_zr(w & 0x1F),
            offset: (delta * 4096) as i64,
            imm: (((addr & 0xFFFF_FFFF_FFFF_F000) + (((delta * 4096) as i64) as u64))
                % 0x1_0000_0000_0000_0000) as u64,
            ..empty_inst_spec()
        }
    } else {
        Inst {
            op: Op::A64_ADR,
            rd: spec_gpr_zr(w & 0x1F),
            offset: delta as i64,
            imm: ((addr + ((delta as i64) as u64)) % 0x1_0000_0000_0000_0000) as u64,
            ..empty_inst_spec()
        }
    }
}

/// The record decoded from a bitfield-move word: SBFM/BFM/UBFM always
/// resolve to one of their architectural aliases.
pub open spec fn spec_bitfield(w: u32) -> Inst {
    let sf = (w >> 31) & 1;
    let opc = (w >> 29) & 3;
    let n = (w >> 22) & 1;
    let immr = (w >> 16) & 0x3F;
    let imms = (w >> 10) & 0x3F;
    let rn = (w >> 5) & 0x1F;
    let rd = w & 0x1F;
    if opc == 3 || n != sf || (sf == 0 && (immr >= 32 || imms >= 32)) {
        unknown_inst_spec(w)
    } else {
        let esize: u32 = if sf == 1 {
            64
        } else {
            32
        };
        let (opcv, auxv): (Op, Payload) = if opc == 0 {
            if imms == esize - 1 {
                (Op::A64_ASR_IMM, Payload::Shift(InstShift { typ: Shift::SH_ASR, amount: immr }))
            } else if imms < immr {
                (
                    Op::A64_SBFIZ,
                    Payload::Bfm(
                        Bfm { lsb: (esize - immr) as u32, width: (imms + 1) as u32 },
                    ),
                )
            } else if immr == 0 && imms == 7 {
                (Op::A64_EXTEND, Payload::Extend(Extend { typ: ExtendType::SXTB, lsl: 0 }))
            } else if immr == 0 && imms == 15 {
                (Op::A64_EXTEND, Payload::Extend(Extend { typ: ExtendType::SXTH, lsl: 0 }))
            } else if immr == 0 && imms == 31 && sf == 1 {
                (Op::A64_EXTEND, Payload::Extend(Extend { typ: ExtendType::SXTW, lsl: 0 }))
            } else {
                (
                    Op::A64_SBFX,
                    Payload::Bfm(Bfm { lsb: immr, width: (imms - immr + 1) as u32 }),
                )
            }
        } else if opc == 2 {
            if imms == esize - 1 {
                (Op::A64_LSR_IMM, Payload::Shift(InstShift { typ: Shift::SH_LSR, amount: immr }))
            } else if imms + 1 == immr {
                (
                    Op::A64_LSL_IMM,
                    Payload::Shift(
                        InstShift { typ: Shift::SH_LSL, amount: (esize - 1 - imms) as u32 },
                    ),
                )
            } else if imms < immr {
                (
                    Op::A64_UBFIZ,
                    Payload::Bfm(
                        Bfm { lsb: (esize - immr) as u32, width: (imms + 1) as u32 },
                    ),
                )
            } else if immr == 0 && imms == 7 {
                (Op::A64_EXTEND, Payload::Extend(Extend { typ: ExtendType::UXTB, lsl: 0 }))
            } else if immr == 0 && imms == 15 {
                (Op::A64_EXTEND, Payload::Extend(Extend { typ: ExtendType::UXTH, lsl: 0 }))
            } else {
                (
                    Op::A64_UBFX,
                    Payload::Bfm(Bfm { lsb: immr, width: (imms - immr + 1) as u32 }),
                )
            }
        } else {
            if imms < immr {
                (
                    if rn == 31 {
                        Op::A64_BFC
                    } else {
                        Op::A64_BFI
                    },
                    Payload::Bfm(
                        Bfm { lsb: (esize - immr) as u32, width: (imms + 1) as u32 },
                    ),
                )
            } else {
                (
                    Op::A64_BFXIL,
                    Payload::Bfm(Bfm { lsb: immr, width: (imms - immr + 1) as u32 }),
                )
            }
        };
        Inst {
            op: opcv,
            flags: spec_flags_w32(sf),
            rd: spec_gpr_zr(rd),
            rn: spec_gpr_zr(rn),
            aux: auxv,
            ..empty_inst_spec()
        }
    }
}

/// The record decoded from an extract word, with the rotate alias when
/// both sources coincide.
pub open spec fn spec_extract(w: u32) -> Inst {
    let sf = (w >> 31) & 1;
    let op21 = (w >> 29) & 3;
    let n = (w >> 22) & 1;
    let o0 = (w >> 21) & 1;
    let rm = (w >> 16) & 0x1F;
    let imms = (w >> 10) & 0x3F;
    let rn = (w >> 5) & 0x1F;
    let rd = w & 0x1F;
    if op21 != 0 || o0 != 0 || n != sf || (sf == 0 && imms >= 32) {
        unknown_inst_spec(w)
    } else if rm == rn {
        Inst {
            op: Op::A64_ROR_IMM,
            flags: spec_flags_w32(sf),
            rd: spec_gpr_zr(rd),
            rn: spec_gpr_zr(rn),
            rm: spec_gpr_zr(rm),
            aux: Payload::Shift(InstShift { typ: Shift::SH_ROR, amount: imms }),
            ..empty_inst_spec()
        }
    } else {
        Inst {
            op: Op::A64_EXTR,
            flags: spec_flags_w32(sf),
            rd: spec_gpr_zr(rd),
            rn: spec_gpr_zr(rn),
            rm: spec_gpr_zr(rm),
            imm: imms as u64,
            ..empty_inst_spec()
        }
    }
}

/// The record decoded from an add/subtract-immediate word. Register 31 is
/// the stack pointer for the base and for an untested destination, the
/// zero register for a flag-setting destination; the CMN/CMP comparison
/// aliases apply when a flag-setting form discards its result, and the
/// MOV-to/from-SP alias when an unshifted zero is added to or from SP.
pub open spec fn addsub_imm_post(w: u32, r: Inst) -> bool {
    let sf = (w >> 31) & 1;
    let op = (w >> 30) & 1;
    let s = (w >> 29) & 1;
    let sh = (w >> 22) & 1;
    let imm12 = (w >> 10) & 0xFFF;
    let rn = (w >> 5) & 0x1F;
    let rd = w & 0x1F;
    let val = (imm12 as u64) << ((12 * sh) as u64);
    if s == 0 {
        r == (Inst {
            op: if op == 0 {
                if sh == 0 && imm12 == 0 && (rd == 31 || rn == 31) {
                    Op::A64_MOV_SP
                } else {
                    Op::A64_ADD_IMM
                }
            } else {
                Op::A64_SUB_IMM
            },
            flags: spec_flags_w32(sf),
            rd: spec_gpr_sp(rd),
            rn: spec_gpr_sp(rn),
            imm: val,
            ..empty_inst_spec()
        })
    } else if rd == 31 {
        r == (Inst {
            op: if op == 0 {
                Op::A64_CMN_IMM
            } else {
                Op::A64_CMP_IMM
            },
            flags: (spec_flags_w32(sf) | FLAG_SET_FLAGS) as u8,
            rd: Reg::ZeroRegister,
            rn: spec_gpr_sp(rn),
            imm: val,
            ..empty_inst_spec()
        })
    } else {
        r == (Inst {
            op: if op == 0 {
                Op::A64_ADD_IMM
            } else {
                Op::A64_SUB_IMM
            },
            flags: (spec_flags_w32(sf) | FLAG_SET_FLAGS) as u8,
            rd: spec_gpr_zr(rd),
            rn: spec_gpr_sp(rn),
            imm: val,
            ..empty_inst_spec()
        })
    }
}

/// The record decoded from a move-wide word. MOVZ and MOVN collapse into
/// the canonical `A64_MOV_IMM` whose `imm` is the value the move leaves in
/// the register; only MOVK (which keeps other bits) stays separate.
pub open spec fn movewide_post(w: u32, r: Inst) -> bool {
    let sf = (w >> 31) & 1;
    let opc = (w >> 29) & 3;
    let hw = (w >> 21) & 3;
    let imm16 = (w >> 5) & 0xFFFF;
    let rd = w & 0x1F;
    if opc == 1 || (sf == 0 && hw >= 2) {
        r == (Inst { imm: w as u64, ..empty_inst_spec() })
    } else {
        let val = (imm16 as u64) << ((16 * hw) as u64);
        if opc == 3 {
            r == (Inst {
                op: Op::A64_MOVK,
                flags: spec_flags_w32(sf),
                rd: spec_gpr_zr(rd),
                aux: Payload::Movk(Movk { imm16: imm16, lsl: (16 * hw) as u32 }),
                ..empty_inst_spec()
            })
        } else {
            let moved = if opc == 0 {
                if sf == 1 {
                    !val
                } else {
                    !val & 0xFFFF_FFFFu64
                }
            } else {
                val
            };
            r == (Inst {
                op: Op::A64_MOV_IMM,
                flags: spec_flags_w32(sf),
                rd: spec_gpr_zr(rd),
                imm: moved,
                ..empty_inst_spec()
            })
        }
    }
}

/// The record decoded from a logical-immediate word: the bitmask is
/// expanded, ANDS with Rd == ZR becomes TST, and ORR from the zero register
/// becomes the canonical move-immediate with the expanded mask as its value.
pub open spec fn logimm_post(w: u32, r: Inst) -> bool {
    let sf = (w >> 31) & 1;
    let opc = (w >> 29) & 3;
    let n = (w >> 22) & 1;
    let immr = (w >> 16) & 0x3F;
    let imms = (w >> 10) & 0x3F;
    let rn = (w >> 5) & 0x1F;
    let rd = w & 0x1F;
    if sf == 0 && n == 1 {
        r == (Inst { imm: w as u64, ..empty_inst_spec() })
    } else {
        match spec_decode_bitmask(n, immr, imms) {
            Option::None => r == (Inst { imm: w as u64, ..empty_inst_spec() }),
            Option::Some(mask) => {
                let imm = if sf == 0 {
                    mask & 0xFFFF_FFFFu64
                } else {
                    mask
                };
                if opc == 3 {
                    if rd == 31 {
                        r == (Inst {
                            op: Op::A64_TST_IMM,
                            flags: (spec_flags_w32(sf) | FLAG_SET_FLAGS) as u8,
                            rd: Reg::ZeroRegister,
                            rn: spec_gpr_zr(rn),
                            imm: imm,
                            ..empty_inst_spec()
                        })
                    } else {
                        r == (Inst {
                            op: Op::A64_AND_IMM,
                            flags: (spec_flags_w32(sf) | FLAG_SET_FLAGS) as u8,
                            rd: spec_gpr_zr(rd),
                            rn: spec_gpr_zr(rn),
                            imm: imm,
                            ..empty_inst_spec()
                        })
                    }
                } else if opc == 1 && rn == 31 {
                    r == (Inst {
                        op: Op::A64_MOV_IMM,
                        flags: spec_flags_w32(sf),
                        rd: spec_gpr_sp(rd),
                        rn: Reg::ZeroRegister,
                        imm: imm,
                        ..empty_inst_spec()
                    })
                } else {
                    let opcode = if opc == 0 {
                        Op::A64_AND_IMM
                    } else if opc == 1 {
                        Op::A64_ORR_IMM
                    } else {
                        Op::A64_EOR_IMM
                    };
                    r == (Inst {
                        op: opcode,
                        flags: spec_flags_w32(sf),
                        rd: spec_gpr_sp(rd),
                        rn: spec_gpr_zr(rn),
                        imm: imm,
                        ..empty_inst_spec()
                    })
                }
            },
        }
    }
}

fn decode_movewide(w: u32) -> (r: Inst)
    ensures
        movewide_post(w, r),
{
    let sf = field(w, 31, 1);
    let opc = field(w, 29, 3);
    let hw = field(w, 21, 3);
    let imm16 = field(w, 5, 0xFFFF);
    let rd = field(w, 0, 0x1F);
    if opc == 1 || (sf == 0 && hw >= 2) {
        return unknown_inst(w);
    }
    let lsl: u32 = 16 * hw;
    let val: u64 = (imm16 as u64) << (lsl as u64);
    let mut r = empty_inst();
    r.flags = flags_w32(sf);
    r.rd = gpr_zr(rd);
    if opc == 3 {
        r.op = Op::A64_MOVK;
        r.aux = Payload::Movk(Movk { imm16: imm16, lsl: lsl });
    } else {
        r.op = Op::A64_MOV_IMM;
        r.imm = if opc == 0 {
            if sf == 1 {
                !val
            } else {
                !val & 0xFFFF_FFFF
            }
        } else {
            val
        };
    }
    r
}

fn decode_logimm(w: u32) -> (r: Inst)
    ensures
        logimm_post(w, r),
{
    let sf = field(w, 31, 1);
    let opc = field(w, 29, 3);
    let n = field(w, 22, 1);
    let immr = field(w, 16, 0x3F);
    let imms = field(w, 10, 0x3F);
    let rn = field(w, 5, 0x1F);
    let rd = field(w, 0, 0x1F);
    if sf == 0 && n == 1 {
        return unknown_inst(w);
    }
    let mask = match decode_bitmask(n, immr, imms) {
        Option::Some(m) => m,
        Option::None => {
            return unknown_inst(w);
        },
    };
    let imm: u64 = if sf == 0 {
        mask & 0xFFFF_FFFF
    } else {
        mask
    };
    let mut r = empty_inst();
    r.imm = imm;
    r.rn = gpr_zr(rn);
    if opc == 3 {
        r.flags = flags_w32(sf) | FLAG_SET_FLAGS;
        if rd == 31 {
            r.op = Op::A64_TST_IMM;
            r.rd = Reg::ZeroRegister;
        } else {
            r.op = Op::A64_AND_IMM;
            r.rd = gpr_zr(rd);
        }
    } else {
        r.flags = flags_w32(sf);
        r.rd = gpr_sp(rd);
        if opc == 1 && rn == 31 {
            r.op = Op::A64_MOV_IMM;
        } else if opc == 0 {
            r.op = Op::A64_AND_IMM;
        } else if opc == 1 {
            r.op = Op::A64_ORR_IMM;
        } else {
            r.op = Op::A64_EOR_IMM;
        }
    }
    r
}

/// PC-relative address formation: ADR and ADRP. The byte delta is kept in
/// `offset` and the materialized absolute target (page-aligned for ADRP) in
/// `imm`, computed modulo 2^64 as the architecture does.
fn decode_pcrel(w: u32, addr: u64) -> (r: Inst)
    ensures
        r == spec_pcrel(w, addr),
{
    let page = field(w, 31, 1);
    let immlo = field(w, 29, 3);
    let immhi = field(w, 5, 0x7FFFF);
    let rd = field(w, 0, 0x1F);
    let imm21: u32 = immhi * 4 + immlo;
    let delta: i64 = sign_extend(imm21, 0x10_0000);
    let mut r = empty_inst();
    r.rd = gpr_zr(rd);
    if page == 1 {
        r.op = Op::A64_ADRP;
        r.offset = delta * 4096;
        r.imm = wrap_add64(addr & 0xFFFF_FFFF_FFFF_F000, #[verifier::truncate] ((delta * 4096) as u64));
    } else {
        r.op = Op::A64_ADR;
        r.offset = delta;
        r.imm = wrap_add64(addr, #[verifier::truncate] (delta as u64));
    }
    r
}

/// Add/subtract with a 12-bit immediate, with the CMN/CMP comparison
/// aliases and the MOV-to/from-SP alias.
fn decode_addsub_imm(w: u32) -> (r: Inst)
    ensures
        addsub_imm_post(w, r),
{
    let sf = field(w, 31, 1);
    let op = field(w, 30, 1);
    let s = field(w, 29, 1);
    let sh = field(w, 22, 1);
    let imm12 = field(w, 10, 0xFFF);
    let rn = field(w, 5, 0x1F);
    let rd = field(w, 0, 0x1F);
    let mut r = empty_inst();
    r.flags = flags_w32(sf);
    r.imm = (imm12 as u64) << ((12 * sh) as u64);
    r.rn = gpr_sp(rn);
    if s == 0 {
        r.rd = gpr_sp(rd);
        if op == 0 {
            if sh == 0 && imm12 == 0 && (rd == 31 || rn == 31) {
                r.op = Op::A64_MOV_SP;
            } else {
                r.op = Op::A64_ADD_IMM;
            }
        } else {
            r.op = Op::A64_SUB_IMM;
        }
    } else {
        r.flags = r.flags | FLAG_SET_FLAGS;
        if rd == 31 {
            r.rd = Reg::ZeroRegister;
            r.op = if op == 0 {
                Op::A64_CMN_IMM
            } else {
                Op::A64_CMP_IMM
            };
        } else {
            r.rd = gpr_zr(rd);
            r.op = if op == 0 {
                Op::A64_ADD_IMM
            } else {
                Op::A64_SUB_IMM
            };
        }
    }
    r
}

/// Bitfield moves. SBFM/BFM/UBFM never surface as themselves: every
/// encoding resolves to one of the architectural aliases (shifts, field
/// insert/extract, BFC, or the byte/halfword/word extensions).
fn decode_bitfield(w: u32) -> (r: Inst)
    ensures
        r == spec_bitfield(w),
{
    let sf = field(w, 31, 1);
    let opc = field(w, 29, 3);
    let n = field(w, 22, 1);
    let immr = field(w, 16, 0x3F);
    let imms = field(w, 10, 0x3F);
    let rn = field(w, 5, 0x1F);
    let rd = field(w, 0, 0x1F);
    if opc == 3 || n != sf {
        return unknown_inst(w);
    }
    if sf == 0 && (immr >= 32 || imms >= 32) {
        return unknown_inst(w);
    }
    let esize: u32 = if sf == 1 {
        64
    } else {
        32
    };
    let mut r = empty_inst();
    r.flags = flags_w32(sf);
    r.rd = gpr_zr(rd);
    r.rn = gpr_zr(rn);
    if opc == 0 {
        // SBFM
        if imms == esize - 1 {
            r.op = Op::A64_ASR_IMM;
            r.aux = Payload::Shift(InstShift { typ: Shift::SH_ASR, amount: immr });
        } else if imms < immr {
            r.op = Op::A64_SBFIZ;
            r.aux = Payload::Bfm(Bfm { lsb: esize - immr, width: imms + 1 });
        } else if immr == 0 && imms == 7 {
            r.op = Op::A64_EXTEND;
            r.aux = Payload::Extend(Extend { typ: ExtendType::SXTB, lsl: 0 });
        } else if immr == 0 && imms == 15 {
            r.op = Op::A64_EXTEND;
            r.aux = Payload::Extend(Extend { typ: ExtendType::SXTH, lsl: 0 });
        } else if immr == 0 && imms == 31 && sf == 1 {
            r.op = Op::A64_EXTEND;
            r.aux = Payload::Extend(Extend { typ: ExtendType::SXTW, lsl: 0 });
        } else {
            r.op = Op::A64_SBFX;
            r.aux = Payload::Bfm(Bfm { lsb: immr, width: imms - immr + 1 });
        }
    } else if opc == 2 {
        // UBFM
        if imms == esize - 1 {
            r.op = Op::A64_LSR_IMM;
            r.aux = Payload::Shift(InstShift { typ: Shift::SH_LSR, amount: immr });
        } else if imms + 1 == immr {
            r.op = Op::A64_LSL_IMM;
            r.aux = Payload::Shift(InstShift { typ: Shift::SH_LSL, amount: esize - 1 - imms });
        } else if imms < immr {
            r.op = Op::A64_UBFIZ;
            r.aux = Payload::Bfm(Bfm { lsb: esize - immr, width: imms + 1 });
        } else if immr == 0 && imms == 7 {
            r.op = Op::A64_EXTEND;
            r.aux = Payload::Extend(Extend { typ: ExtendType::UXTB, lsl: 0 });
        } else if immr == 0 && imms == 15 {
            r.op = Op::A64_EXTEND;
            r.aux = Payload::Extend(Extend { typ: ExtendType::UXTH, lsl: 0 });
        } else {
            r.op = Op::A64_UBFX;
            r.aux = Payload::Bfm(Bfm { lsb: immr, width: imms - immr + 1 });
        }
    } else {
        // BFM
        if imms < immr {
            if rn == 31 {
                r.op = Op::A64_BFC;
            } else {
                r.op = Op::A64_BFI;
            }
            r.aux = Payload::Bfm(Bfm { lsb: esize - immr, width: imms + 1 });
        } else {
            r.op = Op::A64_BFXIL;
            r.aux = Payload::Bfm(Bfm { lsb: immr, width: imms - immr + 1 });
        }
    }
    r
}

/// Extract (EXTR), and its rotate alias when both sources coincide.
fn decode_extract(w: u32) -> (r: Inst)
    ensures
        r == spec_extract(w),
{
    let sf = field(w, 31, 1);
    let op21 = field(w, 29, 3);
    let n = field(w, 22, 1);
    let o0 = field(w, 21, 1);
    let rm = field(w, 16, 0x1F);
    let imms = field(w, 10, 0x3F);
    let rn = field(w, 5, 0x1F);
    let rd = field(w, 0, 0x1F);
    if op21 != 0 || o0 != 0 || n != sf {
        return unknown_inst(w);
    }
    if sf == 0 && imms >= 32 {
        return unknown_inst(w);
    }
    let mut r = empty_inst();
    r.flags = flags_w32(sf);
    r.rd = gpr_zr(rd);
    r.rn = gpr_zr(rn);
    r.rm = gpr_zr(rm);
    if rm == rn {
        r.op = Op::A64_ROR_IMM;
        r.aux = Payload::Shift(InstShift { typ: Shift::SH_ROR, amount: imms });
    } else {
        r.op = Op::A64_EXTR;
        r.imm = imms as u64;
    }
    r
}

/// The PC-relative row and the rows selected in the bits 23..=28 window
/// never pick the same word.
proof fn lemma_dp_imm_windows(w: u32)
    ensures
        ((w >> 23) & 0x3F == 0x22 || (w >> 23) & 0x3F == 0x24 || (w >> 23) & 0x3F == 0x25 || (w
            >> 23) & 0x3F == 0x26 || (w >> 23) & 0x3F == 0x27) ==> (w >> 24) & 0x1F != 0x10,
{
    assert(((w >> 23) & 0x3F == 0x22 || (w >> 23) & 0x3F == 0x24 || (w >> 23) & 0x3F == 0x25 || (w
        >> 23) & 0x3F == 0x26 || (w >> 23) & 0x3F == 0x27) ==> (w >> 24) & 0x1F
        != 0x10) by (bit_vector);
}

/// Decode a word of the data-processing (immediate) class.
pub fn decode_dp_imm(w: u32, addr: u64) -> (r: Inst)
    ensures
        r.op == Op::A64_UNKNOWN ==> r.imm == w as u64,
        r.op == Op::A64_ERROR ==> r.aux is Reason,
        is_movewide_word(w) ==> movewide_post(w, r),
        is_logimm_word(w) ==> logimm_post(w, r),
        is_addsub_imm_word(w) ==> addsub_imm_post(w, r),
        is_pcrel_word(w) ==> r == spec_pcrel(w, addr),
        is_bitfield_word(w) ==> r == spec_bitfield(w),
        is_extract_word(w) ==> r == spec_extract(w),
{
    proof {
        lemma_dp_imm_windows(w);
    }
    if (w >> 23) & 0x3F == 0x25 {
        return decode_movewide(w);
    }
    if (w >> 23) & 0x3F == 0x24 {
        return decode_logimm(w);
    }
    if (w >> 23) & 0x3F == 0x22 {
        return decode_addsub_imm(w);
    }
    if (w >> 24) & 0x1F == 0x10 {
        return decode_pcrel(w, addr);
    }
    if (w >> 23) & 0x3F == 0x26 {
        return decode_bitfield(w);
    }
    if (w >> 23) & 0x3F == 0x27 {
        return decode_extract(w);
    }
    // What remains is the add/subtract-with-tags row (memory tagging),
    // not allocated in the base architecture decoded here.
    unknown_inst(w)
}

} // verus!
