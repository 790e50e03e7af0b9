//! The decoder's data model: opcodes, operand enumerations, auxiliary
//! payloads and the instruction record itself.

use vstd::prelude::*;

verus! {

/// A register operand after decoding.
///
/// The architecture overloads register number 31: depending on the
/// instruction it reads as zero / discards writes (ZR/WZR), or it names the
/// stack pointer (SP/WSP). The decoder resolves this once, so a consumer can
/// tell the two roles apart without knowing which instruction the operand
/// came from. Ordinary indices (0..=30 for general-purpose registers,
/// 0..=31 for SIMD&FP registers) pass through unchanged.
#[derive(Clone, Copy, Debug, PartialEq, Eq, Structural)]
pub enum Reg {
    Ordinary(u8),
    ZeroRegister,
    StackPointer,
}

/// Canonical opcodes, ordered and grouped by the A64 top-level encoding
/// classes. Immediate and register variants carry a marker suffix only
/// where both exist (`A64_ADD_IMM` vs. `A64_ADD_SHIFTED`). Architectural
/// aliases are first-class opcodes of their own; regular families (the
/// conditional branches, the addressing modes of loads and stores) are
/// collapsed into one opcode with the variation stored in the record.
#[allow(non_camel_case_types)]
#[derive(Clone, Copy, Debug, PartialEq, Eq, Structural)]
pub enum Op {
    /// No defined instruction: `Inst.imm` holds the raw word.
    A64_UNKNOWN,
    /// Recognized encoding the decoder does not resolve further:
    /// the payload holds the reason.
    A64_ERROR,
    /// Permanently undefined instruction; executing it raises an exception.
    A64_UDF,

    // Data processing -- immediate
    A64_ADR,
    A64_ADRP,
    A64_ADD_IMM,
    A64_CMN_IMM,
    /// ADD (immediate) alias: shift == 0, imm12 == 0, Rd or Rn is SP.
    A64_MOV_SP,
    A64_SUB_IMM,
    A64_CMP_IMM,
    A64_AND_IMM,
    A64_ORR_IMM,
    A64_EOR_IMM,
    /// ANDS (immediate) alias: Rd == ZR.
    A64_TST_IMM,
    A64_MOVK,
    /// One canonical move-immediate comprising MOVZ, MOVN and the
    /// bitmask-immediate MOV: `imm` holds the value the move produces.
    A64_MOV_IMM,
    A64_SBFM,
    A64_ASR_IMM,
    A64_SBFIZ,
    A64_SBFX,
    A64_BFM,
    A64_BFC,
    A64_BFI,
    A64_BFXIL,
    A64_UBFM,
    A64_LSL_IMM,
    A64_LSR_IMM,
    A64_UBFIZ,
    A64_UBFX,
    /// The SXTB/SXTH/SXTW/UXTB/UXTH aliases of SBFM and UBFM; the kind of
    /// extension is stored in the `Extend` payload.
    A64_EXTEND,
    A64_EXTR,
    /// EXTR alias: Rm == Rn.
    A64_ROR_IMM,

    // Branches, exception generation and system instructions
    A64_BCOND,
    A64_SVC,
    A64_HVC,
    A64_SMC,
    A64_BRK,
    A64_HLT,
    A64_DCPS1,
    A64_DCPS2,
    A64_DCPS3,
    /// All allocated hints (NOP, YIELD, WFE, ...) canonicalize here.
    A64_HINT,
    A64_CLREX,
    A64_DMB,
    A64_ISB,
    A64_SB,
    A64_DSB,
    A64_SSBB,
    A64_PSSBB,
    A64_MSR_IMM,
    A64_CFINV,
    A64_XAFlag,
    A64_AXFlag,
    A64_SYS,
    A64_SYSL,
    A64_MSR_REG,
    A64_MRS,
    A64_BR,
    A64_BLR,
    A64_RET,
    A64_B,
    A64_BL,
    A64_CBZ,
    A64_CBNZ,
    A64_TBZ,
    A64_TBNZ,

    // Data processing -- register
    A64_UDIV,
    A64_SDIV,
    A64_LSLV,
    A64_LSRV,
    A64_ASRV,
    A64_RORV,
    A64_CRC32B,
    A64_CRC32H,
    A64_CRC32W,
    A64_CRC32X,
    A64_CRC32CB,
    A64_CRC32CH,
    A64_CRC32CW,
    A64_CRC32CX,
    A64_SUBP,
    A64_RBIT,
    A64_REV16,
    A64_REV,
    A64_REV32,
    A64_CLZ,
    A64_CLS,
    A64_AND_SHIFTED,
    /// ANDS (shifted register) alias: Rd == ZR.
    A64_TST_SHIFTED,
    A64_BIC,
    A64_ORR_SHIFTED,
    /// ORR (shifted register) alias: shift == 0, amount == 0, Rn == ZR.
    A64_MOV_REG,
    A64_ORN,
    /// ORN alias: Rn == ZR.
    A64_MVN,
    A64_EOR_SHIFTED,
    A64_EON,
    A64_ADD_SHIFTED,
    /// ADDS (shifted register) alias: Rd == ZR.
    A64_CMN_SHIFTED,
    A64_SUB_SHIFTED,
    /// SUB (shifted register) alias: Rn == ZR.
    A64_NEG,
    /// SUBS (shifted register) alias: Rd == ZR.
    A64_CMP_SHIFTED,
    A64_ADD_EXT,
    A64_CMN_EXT,
    A64_SUB_EXT,
    A64_CMP_EXT,
    A64_ADC,
    A64_SBC,
    /// SBC alias: Rn == ZR.
    A64_NGC,
    A64_RMIF,
    A64_SETF8,
    A64_SETF16,
    A64_CCMN_REG,
    A64_CCMP_REG,
    A64_CCMN_IMM,
    A64_CCMP_IMM,
    A64_CSEL,
    A64_CSINC,
    /// CSINC alias: Rm == Rn != ZR; the stored condition is inverted.
    A64_CINC,
    /// CSINC alias: Rm == Rn == ZR; the stored condition is inverted.
    A64_CSET,
    A64_CSINV,
    /// CSINV alias: Rm == Rn != ZR; the stored condition is inverted.
    A64_CINV,
    /// CSINV alias: Rm == Rn == ZR; the stored condition is inverted.
    A64_CSETM,
    A64_CSNEG,
    /// CSNEG alias: Rm == Rn; the stored condition is inverted.
    A64_CNEG,
    A64_MADD,
    /// MADD alias: Ra == ZR.
    A64_MUL,
    A64_MSUB,
    /// MSUB alias: Ra == ZR.
    A64_MNEG,
    A64_SMADDL,
    /// SMADDL alias: Ra == ZR.
    A64_SMULL,
    A64_SMSUBL,
    /// SMSUBL alias: Ra == ZR.
    A64_SMNEGL,
    A64_SMULH,
    A64_UMADDL,
    /// UMADDL alias: Ra == ZR.
    A64_UMULL,
    A64_UMSUBL,
    /// UMSUBL alias: Ra == ZR.
    A64_UMNEGL,
    A64_UMULH,

    // Loads and stores. Access size, sign extension and addressing mode are
    // stored in the record rather than split over per-variant opcodes.
    A64_LD1_MULT,
    A64_ST1_MULT,
    A64_LD2_MULT,
    A64_ST2_MULT,
    A64_LD3_MULT,
    A64_ST3_MULT,
    A64_LD4_MULT,
    A64_ST4_MULT,
    A64_LD1_SINGLE,
    A64_ST1_SINGLE,
    A64_LD2_SINGLE,
    A64_ST2_SINGLE,
    A64_LD3_SINGLE,
    A64_ST3_SINGLE,
    A64_LD4_SINGLE,
    A64_ST4_SINGLE,
    A64_LD1R,
    A64_LD2R,
    A64_LD3R,
    A64_LD4R,
    A64_LDXR,
    A64_STXR,
    A64_LDXP,
    A64_STXP,
    A64_LDAPR,
    A64_LDNP,
    A64_STNP,
    A64_LDNP_FP,
    A64_STNP_FP,
    A64_LDP,
    A64_STP,
    A64_LDP_FP,
    A64_STP_FP,
    A64_LDR,
    A64_STR,
    A64_LDR_FP,
    A64_STR_FP,
    /// Prefetch; the prefetch operation number is stored as the Rt operand.
    A64_PRFM,
    A64_LDADD,
    A64_LDCLR,
    A64_LDEOR,
    A64_LDSET,
    A64_LDSMAX,
    A64_LDSMIN,
    A64_LDUMAX,
    A64_LDUMIN,
    A64_SWP,
    A64_CAS,
    A64_CASP,

    // Scalar floating-point and SIMD
    A64_FCVT_GPR,
    A64_FCVT_VEC,
    A64_CVTF,
    A64_CVTF_VEC,
    A64_FJCVTZS,
    A64_FRINT,
    A64_FRINT_VEC,
    A64_FRINTX,
    A64_FRINTX_VEC,
    A64_FCVT_H,
    A64_FCVT_S,
    A64_FCVT_D,
    A64_FCVTL,
    A64_FCVTN,
    A64_FCVTXN,
    A64_FABS,
    A64_FNEG,
    A64_FSQRT,
    A64_FMUL,
    A64_FMULX,
    A64_FDIV,
    A64_FADD,
    A64_FSUB,
    A64_FMAX,
    A64_FMAXNM,
    A64_FMIN,
    A64_FMINNM,
    A64_FRECPE,
    A64_FRECPS,
    A64_FRECPX,
    A64_FRSQRTE,
    A64_FRSQRTS,
    A64_FNMUL,
    A64_FMADD,
    A64_FMSUB,
    A64_FNMADD,
    A64_FNMSUB,
    A64_FCMP_REG,
    A64_FCMP_ZERO,
    A64_FCMPE_REG,
    A64_FCMPE_ZERO,
    A64_FCCMP,
    A64_FCCMPE,
    A64_FCSEL,
    A64_FMOV_VEC2GPR,
    A64_FMOV_GPR2VEC,
    A64_FMOV_TOP2GPR,
    A64_FMOV_GPR2TOP,
    A64_FMOV_REG,
    /// SIMD&FP register from an 8-bit float immediate; `fimm` holds the
    /// expanded value as an IEEE 754 double-precision bit pattern.
    A64_FMOV_IMM,
    A64_FMOV_VEC,
    A64_FCMEQ_REG,
    A64_FCMEQ_ZERO,
    A64_FCMGE_REG,
    A64_FCMGE_ZERO,
    A64_FCMGT_REG,
    A64_FCMGT_ZERO,
    A64_FCMLE_ZERO,
    A64_FCMLT_ZERO,
    A64_FACGE,
    A64_FACGT,
    A64_FABS_VEC,
    A64_FABD_VEC,
    A64_FNEG_VEC,
    A64_FSQRT_VEC,
    A64_FMUL_ELEM,
    A64_FMUL_VEC,
    A64_FMULX_ELEM,
    A64_FMULX_VEC,
    A64_FDIV_VEC,
    A64_FADD_VEC,
    A64_FCADD,
    A64_FSUB_VEC,
    A64_FMAX_VEC,
    A64_FMAXNM_VEC,
    A64_FMIN_VEC,
    A64_FMINNM_VEC,
    A64_FRECPE_VEC,
    A64_FRECPS_VEC,
    A64_FRSQRTE_VEC,
    A64_FRSQRTS_VEC,
    A64_FMLA_ELEM,
    A64_FMLA_VEC,
    A64_FMLAL_ELEM,
    A64_FMLAL_VEC,
    A64_FMLAL2_ELEM,
    A64_FMLAL2_VEC,
    A64_FCMLA_ELEM,
    A64_FCMLA_VEC,
    A64_FMLS_ELEM,
    A64_FMLS_VEC,
    A64_FMLSL_ELEM,
    A64_FMLSL_VEC,
    A64_FMLSL2_ELEM,
    A64_FMLSL2_VEC,
    A64_FADDP,
    A64_FADDP_VEC,
    A64_FMAXP,
    A64_FMAXP_VEC,
    A64_FMAXV,
    A64_FMAXNMP,
    A64_FMAXNMP_VEC,
    A64_FMAXNMV,
    A64_FMINP,
    A64_FMINP_VEC,
    A64_FMINV,
    A64_FMINNMP,
    A64_FMINNMP_VEC,
    A64_FMINNMV,
    A64_AND_VEC,
    A64_BCAX,
    A64_BIC_VEC_IMM,
    A64_BIC_VEC_REG,
    A64_BIF,
    A64_BIT,
    A64_BSL,
    A64_CLS_VEC,
    A64_CLZ_VEC,
    A64_CNT,
    A64_EOR_VEC,
    A64_EOR3,
    A64_NOT_VEC,
    A64_ORN_VEC,
    A64_ORR_VEC_IMM,
    A64_ORR_VEC_REG,
    /// ORR (vector, register) alias: Rm == Rn.
    A64_MOV_VEC,
    A64_RAX1,
    A64_RBIT_VEC,
    A64_REV16_VEC,
    A64_REV32_VEC,
    A64_REV64_VEC,
    A64_SHL_IMM,
    A64_SHL_REG,
    A64_SHLL,
    A64_SHR,
    A64_SHRN,
    A64_SRA,
    A64_SLI,
    A64_SRI,
    A64_XAR,
    A64_DUP_ELEM,
    A64_DUP_GPR,
    A64_EXT,
    A64_INS_ELEM,
    A64_INS_GPR,
    A64_MOVI,
    A64_SMOV,
    A64_UMOV,
    A64_TBL,
    A64_TBX,
    A64_TRN1,
    A64_TRN2,
    A64_UZP1,
    A64_UZP2,
    A64_XTN,
    A64_ZIP1,
    A64_ZIP2,
    A64_CMEQ_REG,
    A64_CMEQ_ZERO,
    A64_CMGE_REG,
    A64_CMGE_ZERO,
    A64_CMGT_REG,
    A64_CMGT_ZERO,
    A64_CMHI_REG,
    A64_CMHS_REG,
    A64_CMLE_ZERO,
    A64_CMLT_ZERO,
    A64_CMTST,
    A64_ABS_VEC,
    A64_ABD,
    A64_ABDL,
    A64_ABA,
    A64_ABAL,
    A64_NEG_VEC,
    A64_MUL_ELEM,
    A64_MUL_VEC,
    A64_MULL_ELEM,
    A64_MULL_VEC,
    A64_ADD_VEC,
    A64_ADDHN,
    A64_ADDL,
    A64_ADDW,
    A64_HADD,
    A64_SUB_VEC,
    A64_SUBHN,
    A64_SUBL,
    A64_SUBW,
    A64_HSUB,
    A64_MAX_VEC,
    A64_MIN_VEC,
    A64_DOT_ELEM,
    A64_DOT_VEC,
    A64_URECPE,
    A64_URSQRTE,
    A64_MLA_ELEM,
    A64_MLA_VEC,
    A64_MLS_ELEM,
    A64_MLS_VEC,
    A64_MLAL_ELEM,
    A64_MLAL_VEC,
    A64_MLSL_ELEM,
    A64_MLSL_VEC,
    A64_ADDP,
    A64_ADDP_VEC,
    A64_ADDV,
    A64_ADALP,
    A64_ADDLP,
    A64_ADDLV,
    A64_MAXP,
    A64_MAXV,
    A64_MINP,
    A64_MINV,
    A64_QADD,
    A64_QABS,
    A64_SUQADD,
    A64_USQADD,
    A64_QSHL_IMM,
    A64_QSHL_REG,
    A64_QSHRN,
    A64_QSUB,
    A64_QXTN,
    A64_SQABS,
    A64_SQADD,
    A64_SQDMLAL_ELEM,
    A64_SQDMLAL_VEC,
    A64_SQDMLSL_ELEM,
    A64_SQDMLSL_VEC,
    A64_SQDMULH_ELEM,
    A64_SQDMULH_VEC,
    A64_SQDMULL_ELEM,
    A64_SQDMULL_VEC,
    A64_SQNEG,
    A64_SQRDMLAH_ELEM,
    A64_SQRDMLAH_VEC,
    A64_SQRDMLSH_ELEM,
    A64_SQRDMLSH_VEC,
    A64_SQSHLU,
    A64_SQSHRUN,
    A64_SQXTUN,
    A64_PMUL,
    A64_PMULL,
}

/// Condition codes for predicated instructions, stored in the upper four
/// bits of `Inst.flags`. The low bit of the encoding inverts the condition.
#[allow(non_camel_case_types)]
#[derive(Clone, Copy, Debug, PartialEq, Eq, Structural)]
pub enum Cond {
    COND_EQ,
    COND_NE,
    COND_CS,
    COND_CC,
    COND_MI,
    COND_PL,
    COND_VS,
    COND_VC,
    COND_HI,
    COND_LS,
    COND_GE,
    COND_LT,
    COND_GT,
    COND_LE,
    COND_AL,
    COND_NV,
}

/// Shift kinds for shifted-register operands and immediate shifts.
#[allow(non_camel_case_types)]
#[derive(Clone, Copy, Debug, PartialEq, Eq, Structural)]
pub enum Shift {
    SH_LSL,
    SH_LSR,
    SH_ASR,
    SH_ROR,
}

/// Addressing modes for loads and stores, stored in the top three bits of
/// `Inst.flags` (the bits that hold the condition code for predicated
/// instructions; which reading applies is fixed by the opcode's class).
#[allow(non_camel_case_types)]
#[derive(Clone, Copy, Debug, PartialEq, Eq, Structural)]
pub enum AddrMode {
    /// `[base]`; exclusive/ordered/atomic accesses, see the order payload.
    AM_SIMPLE,
    /// `[base, #imm]` (scaled-unsigned and unscaled immediates both land here).
    AM_OFF_IMM,
    /// `[base, Xm, {LSL #n}]`
    AM_OFF_REG,
    /// `[base, Wm, {S|U}XT{W|X} {#n}]`
    AM_OFF_EXT,
    /// `[base, #imm]!`
    AM_PRE,
    /// `[base], #imm`
    AM_POST,
    /// PC-relative literal; `offset` is the byte offset from the word.
    AM_LITERAL,
}

/// Memory-ordering semantics of atomic, exclusive and ordered accesses.
#[allow(non_camel_case_types)]
#[derive(Clone, Copy, Debug, PartialEq, Eq, Structural)]
pub enum MemOrdering {
    MO_NONE,
    MO_ACQUIRE,
    MO_LO_ACQUIRE,
    MO_ACQUIRE_PC,
    MO_RELEASE,
    MO_LO_RELEASE,
}

/// Access size of a memory operand or element.
#[allow(non_camel_case_types)]
#[derive(Clone, Copy, Debug, PartialEq, Eq, Structural)]
pub enum Size {
    SZ_B,
    SZ_H,
    SZ_W,
    SZ_X,
}

/// Floating-point operand precision.
#[allow(non_camel_case_types)]
#[derive(Clone, Copy, Debug, PartialEq, Eq, Structural)]
pub enum FPSize {
    FSZ_B,
    FSZ_H,
    FSZ_S,
    FSZ_D,
    FSZ_Q,
}

/// Vector arrangement: per-lane element width times total vector width,
/// decoded once into a single value.
#[allow(non_camel_case_types)]
#[derive(Clone, Copy, Debug, PartialEq, Eq, Structural)]
pub enum VectorArrangement {
    VA_8B,
    VA_16B,
    VA_4H,
    VA_8H,
    VA_2S,
    VA_4S,
    VA_1D,
    VA_2D,
}

/// Floating-point rounding mode.
#[allow(non_camel_case_types)]
#[derive(Clone, Copy, Debug, PartialEq, Eq, Structural)]
pub enum FPRounding {
    FPR_CURRENT,
    FPR_TIE_EVEN,
    FPR_TIE_AWAY,
    FPR_NEG_INF,
    FPR_ZERO,
    FPR_POS_INF,
    FPR_ODD,
}

/// Extension applied to a narrow register operand: signedness and source size.
#[allow(non_camel_case_types)]
#[derive(Clone, Copy, Debug, PartialEq, Eq, Structural)]
pub enum ExtendType {
    UXTB,
    UXTH,
    UXTW,
    UXTX,
    SXTB,
    SXTH,
    SXTW,
    SXTX,
}

/// PSTATE field written by the immediate form of MSR.
#[allow(non_camel_case_types)]
#[derive(Clone, Copy, Debug, PartialEq, Eq, Structural)]
pub enum PStateField {
    PSF_UAO,
    PSF_PAN,
    PSF_SPSel,
    PSF_SSBS,
    PSF_DIT,
    PSF_DAIFSet,
    PSF_DAIFClr,
}

/// The orthogonal single-bit attributes of `Inst.flags`; `bit` gives the mask.
#[allow(non_camel_case_types)]
#[derive(Clone, Copy, Debug, PartialEq, Eq, Structural)]
pub enum FlagMasks {
    /// Operands use the 32-bit W register view.
    W32,
    /// The instruction sets the NZCV condition flags.
    SET_FLAGS,
    /// SIMD: scalar form; the arrangement bits hold an FPSize instead.
    SIMD_SCALAR,
    /// Integer SIMD: operands are signed.
    SIMD_SIGNED,
    /// Integer SIMD: rounding instead of truncating behaviour.
    SIMD_ROUND,
}

pub const FLAG_W32: u8 = 0x01;
pub const FLAG_SET_FLAGS: u8 = 0x02;
/// Load/store opcodes only: the loaded value is sign-extended.
pub const FLAG_LDST_SEXT: u8 = 0x10;
pub const FLAG_SIMD_SCALAR: u8 = 0x20;
pub const FLAG_SIMD_SIGNED: u8 = 0x40;
pub const FLAG_SIMD_ROUND: u8 = 0x80;

impl FlagMasks {
    pub open spec fn spec_bit(self) -> u8 {
        match self {
            FlagMasks::W32 => FLAG_W32,
            FlagMasks::SET_FLAGS => FLAG_SET_FLAGS,
            FlagMasks::SIMD_SCALAR => FLAG_SIMD_SCALAR,
            FlagMasks::SIMD_SIGNED => FLAG_SIMD_SIGNED,
            FlagMasks::SIMD_ROUND => FLAG_SIMD_ROUND,
        }
    }

    /// The mask this attribute occupies in `Inst.flags`.
    pub fn bit(self) -> (m: u8)
        ensures
            m == self.spec_bit(),
    {
        match self {
            FlagMasks::W32 => FLAG_W32,
            FlagMasks::SET_FLAGS => FLAG_SET_FLAGS,
            FlagMasks::SIMD_SCALAR => FLAG_SIMD_SCALAR,
            FlagMasks::SIMD_SIGNED => FLAG_SIMD_SIGNED,
            FlagMasks::SIMD_ROUND => FLAG_SIMD_ROUND,
        }
    }
}

/// Move-wide payload: the 16-bit chunk and its left shift.
#[derive(Clone, Copy, Debug, PartialEq, Eq, Structural)]
pub struct Movk {
    pub imm16: u32,
    pub lsl: u32,
}

/// Bitfield-move payload: least significant bit position and field width.
#[derive(Clone, Copy, Debug, PartialEq, Eq, Structural)]
pub struct Bfm {
    pub lsb: u32,
    pub width: u32,
}

/// Conditional-compare payload: the NZCV value used when the condition
/// fails, and the raw immediate for the immediate form.
#[derive(Clone, Copy, Debug, PartialEq, Eq, Structural)]
pub struct Ccmp {
    pub nzcv: u32,
    pub imm5: u32,
}

/// Generic system-instruction operand fields.
#[derive(Clone, Copy, Debug, PartialEq, Eq, Structural)]
pub struct Sys {
    pub op1: u16,
    pub op2: u16,
    pub crn: u16,
    pub crm: u16,
}

/// Immediate MSR payload: which PSTATE field, and the value written.
#[derive(Clone, Copy, Debug, PartialEq, Eq, Structural)]
pub struct MsrImm {
    pub psfld: PStateField,
    pub imm: u32,
}

/// Test-and-branch payload: byte-granular branch offset and the tested bit.
#[derive(Clone, Copy, Debug, PartialEq, Eq, Structural)]
pub struct Tbz {
    pub offset: i32,
    pub bit: u32,
}

/// Shift payload for shifted-register operands and immediate shifts.
#[derive(Clone, Copy, Debug, PartialEq, Eq, Structural)]
pub struct InstShift {
    pub typ: Shift,
    pub amount: u32,
}

/// Rotate-right-into-flags payload.
#[derive(Clone, Copy, Debug, PartialEq, Eq, Structural)]
pub struct Rmif {
    pub mask: u32,
    pub ror: u32,
}

/// Extended-register operand payload: extension kind and left shift.
#[derive(Clone, Copy, Debug, PartialEq, Eq, Structural)]
pub struct Extend {
    pub typ: ExtendType,
    pub lsl: u32,
}

/// Memory-ordering payload of atomic, exclusive and ordered loads/stores.
/// A single access may carry acquire and release semantics independently.
#[derive(Clone, Copy, Debug, PartialEq, Eq, Structural)]
pub struct LdstOrder {
    pub load: MemOrdering,
    pub store: MemOrdering,
    pub rs: Reg,
}

/// SIMD structured load/store payload: number of registers, element index,
/// and the post-index offset.
#[derive(Clone, Copy, Debug, PartialEq, Eq, Structural)]
pub struct SimdLdst {
    pub nreg: u32,
    pub index: u16,
    pub offset: i16,
}

/// Float/integer conversion payload: rounding mode, fixed-point fraction
/// bits (0 for pure integer conversions), and signedness.
#[derive(Clone, Copy, Debug, PartialEq, Eq, Structural)]
pub struct Fcvt {
    pub mode: FPRounding,
    pub fbits: u16,
    pub sgn: u16,
}

/// Round-to-integral payload: rounding mode and an exact result width
/// (0 when any size, otherwise 32 or 64).
#[derive(Clone, Copy, Debug, PartialEq, Eq, Structural)]
pub struct Frint {
    pub mode: FPRounding,
    pub bits: u32,
}

/// Element-insert payload: destination and source lane indices.
#[derive(Clone, Copy, Debug, PartialEq, Eq, Structural)]
pub struct InsElem {
    pub dst: u32,
    pub src: u32,
}

/// Complex-multiply payload: lane index and rotation in degrees.
#[derive(Clone, Copy, Debug, PartialEq, Eq, Structural)]
pub struct FcmlaElem {
    pub idx: u32,
    pub rot: u32,
}

/// Why a recognized encoding was not resolved to an instruction.
#[derive(Clone, Copy, Debug, PartialEq, Eq, Structural)]
pub enum DecodeReason {
    /// The word lies in the SVE encoding space.
    SveUnsupported,
    /// Unprivileged load/store forms (LDTR/STTR family).
    UnprivilegedLoadStore,
    /// An allocated SIMD encoding outside the families resolved here.
    UnresolvedSimd,
}

impl DecodeReason {
    /// A short human-readable description of the reason; never empty.
    pub fn text(self) -> (s: &'static str)
        ensures
            s@.len() > 0,
    {
        match self {
            DecodeReason::SveUnsupported => {
                proof {
                    reveal_strlit("SVE encodings are not supported");
                }
                "SVE encodings are not supported"
            },
            DecodeReason::UnprivilegedLoadStore => {
                proof {
                    reveal_strlit("unprivileged load/store is not supported");
                }
                "unprivileged load/store is not supported"
            },
            DecodeReason::UnresolvedSimd => {
                proof {
                    reveal_strlit("SIMD encoding not resolved");
                }
                "SIMD encoding not resolved"
            },
        }
    }
}

/// The opcode-class-specific auxiliary payload. Exactly the sub-record
/// matching the opcode's class is populated; a consumer cannot reach into a
/// payload that does not apply to the decoded opcode.
#[derive(Clone, Copy, Debug, PartialEq, Eq, Structural)]
pub enum Payload {
    Empty,
    Movk(Movk),
    Bfm(Bfm),
    Ccmp(Ccmp),
    Sys(Sys),
    MsrImm(MsrImm),
    Tbz(Tbz),
    Shift(InstShift),
    Rmif(Rmif),
    Extend(Extend),
    LdstOrder(LdstOrder),
    SimdLdst(SimdLdst),
    Fcvt(Fcvt),
    Frint(Frint),
    InsElem(InsElem),
    FcmlaElem(FcmlaElem),
    Reason(DecodeReason),
}

/// One decoded instruction. Constructed fresh per decode call, fully owned
/// by the caller. Register fields the opcode does not use stay at their
/// `ZeroRegister` default; `fimm` is the IEEE 754 double-precision bit
/// pattern of an expanded 8-bit float immediate.
///
/// The `flags` attributes word reuses its bits across opcode classes on
/// purpose; which reading applies is fixed entirely by the opcode:
/// - bit 0: 32-bit register view ([`FLAG_W32`]); bit 1: sets the condition
///   flags ([`FLAG_SET_FLAGS`]);
/// - bits 4..=7: the condition code of a predicated opcode (conditional
///   branch, select, compare), see [`get_cond`];
/// - bits 5..=7: the addressing mode of a load/store opcode, see
///   [`get_addrmode`]; bits 2..=3 its access size ([`get_size`]) and bit 4
///   its sign-extension ([`FLAG_LDST_SEXT`]);
/// - bits 2..=4: the scalar precision of a floating-point opcode
///   ([`get_prec`]) or the arrangement of a vector opcode ([`get_va`]);
///   bits 5..=7: the scalar/signed/rounding attributes of a SIMD opcode.
#[derive(Clone, Copy, Debug, PartialEq, Eq, Structural)]
pub struct Inst {
    pub op: Op,
    pub flags: u8,
    pub rd: Reg,
    pub rn: Reg,
    pub rm: Reg,
    pub rt2: Reg,
    pub rs: Reg,
    pub ra: Reg,
    pub imm: u64,
    pub fimm: u64,
    pub offset: i64,
    pub aux: Payload,
}

pub open spec fn empty_inst_spec() -> Inst {
    Inst {
        op: Op::A64_UNKNOWN,
        flags: 0,
        rd: Reg::ZeroRegister,
        rn: Reg::ZeroRegister,
        rm: Reg::ZeroRegister,
        rt2: Reg::ZeroRegister,
        rs: Reg::ZeroRegister,
        ra: Reg::ZeroRegister,
        imm: 0,
        fimm: 0,
        offset: 0,
        aux: Payload::Empty,
    }
}

/// A fresh record with every field at its default.
pub fn empty_inst() -> (r: Inst)
    ensures
        r == empty_inst_spec(),
{
    Inst {
        op: Op::A64_UNKNOWN,
        flags: 0,
        rd: Reg::ZeroRegister,
        rn: Reg::ZeroRegister,
        rm: Reg::ZeroRegister,
        rt2: Reg::ZeroRegister,
        rs: Reg::ZeroRegister,
        ra: Reg::ZeroRegister,
        imm: 0,
        fimm: 0,
        offset: 0,
        aux: Payload::Empty,
    }
}

impl Inst {
    /// A fresh record with every field at its default.
    pub fn empty() -> (r: Inst)
        ensures
            r == empty_inst_spec(),
    {
        empty_inst()
    }
}

pub open spec fn unknown_inst_spec(w: u32) -> Inst {
    Inst { imm: w as u64, ..empty_inst_spec() }
}

pub open spec fn error_inst_spec(why: DecodeReason) -> Inst {
    Inst { op: Op::A64_ERROR, aux: Payload::Reason(why), ..empty_inst_spec() }
}

/// The no-defined-instruction record; it carries the raw word in `imm`.
pub fn unknown_inst(w: u32) -> (r: Inst)
    ensures
        r == unknown_inst_spec(w),
        r.op == Op::A64_UNKNOWN,
{
    let mut r = empty_inst();
    r.imm = w as u64;
    r
}

/// A recognized-but-unresolved record carrying the reason.
pub fn error_inst(why: DecodeReason) -> (r: Inst)
    ensures
        r == error_inst_spec(why),
{
    let mut r = empty_inst();
    r.op = Op::A64_ERROR;
    r.aux = Payload::Reason(why);
    r
}

pub open spec fn spec_gpr_zr(n: u32) -> Reg {
    if n == 31 {
        Reg::ZeroRegister
    } else {
        Reg::Ordinary(n as u8)
    }
}

pub open spec fn spec_gpr_sp(n: u32) -> Reg {
    if n == 31 {
        Reg::StackPointer
    } else {
        Reg::Ordinary(n as u8)
    }
}

/// A general-purpose register operand where number 31 reads as zero.
pub fn gpr_zr(n: u32) -> (r: Reg)
    requires
        n <= 31,
    ensures
        r == spec_gpr_zr(n),
{
    if n == 31 {
        Reg::ZeroRegister
    } else {
        Reg::Ordinary(n as u8)
    }
}

/// A general-purpose register operand where number 31 names the stack pointer.
pub fn gpr_sp(n: u32) -> (r: Reg)
    requires
        n <= 31,
    ensures
        r == spec_gpr_sp(n),
{
    if n == 31 {
        Reg::StackPointer
    } else {
        Reg::Ordinary(n as u8)
    }
}

/// A SIMD&FP register operand; all 32 numbers name ordinary registers.
pub fn simd_reg(n: u32) -> (r: Reg)
    requires
        n <= 31,
    ensures
        r == Reg::Ordinary(n as u8),
{
    Reg::Ordinary(n as u8)
}

pub open spec fn cond_val(c: Cond) -> u8 {
    match c {
        Cond::COND_EQ => 0,
        Cond::COND_NE => 1,
        Cond::COND_CS => 2,
        Cond::COND_CC => 3,
        Cond::COND_MI => 4,
        Cond::COND_PL => 5,
        Cond::COND_VS => 6,
        Cond::COND_VC => 7,
        Cond::COND_HI => 8,
        Cond::COND_LS => 9,
        Cond::COND_GE => 10,
        Cond::COND_LT => 11,
        Cond::COND_GT => 12,
        Cond::COND_LE => 13,
        Cond::COND_AL => 14,
        Cond::COND_NV => 15,
    }
}

pub open spec fn cond_of(v: u32) -> Cond {
    if v == 0 {
        Cond::COND_EQ
    } else if v == 1 {
        Cond::COND_NE
    } else if v == 2 {
        Cond::COND_CS
    } else if v == 3 {
        Cond::COND_CC
    } else if v == 4 {
        Cond::COND_MI
    } else if v == 5 {
        Cond::COND_PL
    } else if v == 6 {
        Cond::COND_VS
    } else if v == 7 {
        Cond::COND_VC
    } else if v == 8 {
        Cond::COND_HI
    } else if v == 9 {
        Cond::COND_LS
    } else if v == 10 {
        Cond::COND_GE
    } else if v == 11 {
        Cond::COND_LT
    } else if v == 12 {
        Cond::COND_GT
    } else if v == 13 {
        Cond::COND_LE
    } else if v == 14 {
        Cond::COND_AL
    } else {
        Cond::COND_NV
    }
}

/// The condition encoded by a 4-bit field.
pub fn cond_from_bits(v: u32) -> (c: Cond)
    requires
        v <= 15,
    ensures
        c == cond_of(v),
{
    if v == 0 {
        Cond::COND_EQ
    } else if v == 1 {
        Cond::COND_NE
    } else if v == 2 {
        Cond::COND_CS
    } else if v == 3 {
        Cond::COND_CC
    } else if v == 4 {
        Cond::COND_MI
    } else if v == 5 {
        Cond::COND_PL
    } else if v == 6 {
        Cond::COND_VS
    } else if v == 7 {
        Cond::COND_VC
    } else if v == 8 {
        Cond::COND_HI
    } else if v == 9 {
        Cond::COND_LS
    } else if v == 10 {
        Cond::COND_GE
    } else if v == 11 {
        Cond::COND_LT
    } else if v == 12 {
        Cond::COND_GT
    } else if v == 13 {
        Cond::COND_LE
    } else if v == 14 {
        Cond::COND_AL
    } else {
        Cond::COND_NV
    }
}

/// A condition and its inverse differ in the low bit of the encoding;
/// AL and NV (both "always") invert into each other as well.
pub open spec fn spec_invert_cond(c: Cond) -> Cond {
    match c {
        Cond::COND_EQ => Cond::COND_NE,
        Cond::COND_NE => Cond::COND_EQ,
        Cond::COND_CS => Cond::COND_CC,
        Cond::COND_CC => Cond::COND_CS,
        Cond::COND_MI => Cond::COND_PL,
        Cond::COND_PL => Cond::COND_MI,
        Cond::COND_VS => Cond::COND_VC,
        Cond::COND_VC => Cond::COND_VS,
        Cond::COND_HI => Cond::COND_LS,
        Cond::COND_LS => Cond::COND_HI,
        Cond::COND_GE => Cond::COND_LT,
        Cond::COND_LT => Cond::COND_GE,
        Cond::COND_GT => Cond::COND_LE,
        Cond::COND_LE => Cond::COND_GT,
        Cond::COND_AL => Cond::COND_NV,
        Cond::COND_NV => Cond::COND_AL,
    }
}

/// Invert a condition (EQ <-> NE, GE <-> LT, ...).
pub fn invert_cond(c: Cond) -> (r: Cond)
    ensures
        r == spec_invert_cond(c),
{
    match c {
        Cond::COND_EQ => Cond::COND_NE,
        Cond::COND_NE => Cond::COND_EQ,
        Cond::COND_CS => Cond::COND_CC,
        Cond::COND_CC => Cond::COND_CS,
        Cond::COND_MI => Cond::COND_PL,
        Cond::COND_PL => Cond::COND_MI,
        Cond::COND_VS => Cond::COND_VC,
        Cond::COND_VC => Cond::COND_VS,
        Cond::COND_HI => Cond::COND_LS,
        Cond::COND_LS => Cond::COND_HI,
        Cond::COND_GE => Cond::COND_LT,
        Cond::COND_LT => Cond::COND_GE,
        Cond::COND_GT => Cond::COND_LE,
        Cond::COND_LE => Cond::COND_GT,
        Cond::COND_AL => Cond::COND_NV,
        Cond::COND_NV => Cond::COND_AL,
    }
}

pub open spec fn am_val(m: AddrMode) -> u8 {
    match m {
        AddrMode::AM_SIMPLE => 0,
        AddrMode::AM_OFF_IMM => 1,
        AddrMode::AM_OFF_REG => 2,
        AddrMode::AM_OFF_EXT => 3,
        AddrMode::AM_PRE => 4,
        AddrMode::AM_POST => 5,
        AddrMode::AM_LITERAL => 6,
    }
}

pub open spec fn am_of(v: u8) -> AddrMode {
    if v == 0 {
        AddrMode::AM_SIMPLE
    } else if v == 1 {
        AddrMode::AM_OFF_IMM
    } else if v == 2 {
        AddrMode::AM_OFF_REG
    } else if v == 3 {
        AddrMode::AM_OFF_EXT
    } else if v == 4 {
        AddrMode::AM_PRE
    } else if v == 5 {
        AddrMode::AM_POST
    } else {
        AddrMode::AM_LITERAL
    }
}

pub open spec fn spec_shift_of(v: u32) -> Shift {
    if v == 0 {
        Shift::SH_LSL
    } else if v == 1 {
        Shift::SH_LSR
    } else if v == 2 {
        Shift::SH_ASR
    } else {
        Shift::SH_ROR
    }
}

/// The shift kind encoded by a 2-bit field.
pub fn shift_of(v: u32) -> (s: Shift)
    requires
        v <= 3,
    ensures
        s == spec_shift_of(v),
{
    if v == 0 {
        Shift::SH_LSL
    } else if v == 1 {
        Shift::SH_LSR
    } else if v == 2 {
        Shift::SH_ASR
    } else {
        Shift::SH_ROR
    }
}

pub open spec fn spec_extend_of(v: u32) -> ExtendType {
    if v == 0 {
        ExtendType::UXTB
    } else if v == 1 {
        ExtendType::UXTH
    } else if v == 2 {
        ExtendType::UXTW
    } else if v == 3 {
        ExtendType::UXTX
    } else if v == 4 {
        ExtendType::SXTB
    } else if v == 5 {
        ExtendType::SXTH
    } else if v == 6 {
        ExtendType::SXTW
    } else {
        ExtendType::SXTX
    }
}

/// The extension kind encoded by a 3-bit option field (signedness and size).
pub fn extend_of(v: u32) -> (e: ExtendType)
    requires
        v <= 7,
    ensures
        e == spec_extend_of(v),
{
    if v == 0 {
        ExtendType::UXTB
    } else if v == 1 {
        ExtendType::UXTH
    } else if v == 2 {
        ExtendType::UXTW
    } else if v == 3 {
        ExtendType::UXTX
    } else if v == 4 {
        ExtendType::SXTB
    } else if v == 5 {
        ExtendType::SXTH
    } else if v == 6 {
        ExtendType::SXTW
    } else {
        ExtendType::SXTX
    }
}

pub open spec fn spec_size_of(v: u32) -> Size {
    if v == 0 {
        Size::SZ_B
    } else if v == 1 {
        Size::SZ_H
    } else if v == 2 {
        Size::SZ_W
    } else {
        Size::SZ_X
    }
}

/// The access size encoded by a 2-bit field.
pub fn size_of_bits(v: u32) -> (s: Size)
    requires
        v <= 3,
    ensures
        s == spec_size_of(v),
{
    if v == 0 {
        Size::SZ_B
    } else if v == 1 {
        Size::SZ_H
    } else if v == 2 {
        Size::SZ_W
    } else {
        Size::SZ_X
    }
}

pub open spec fn spec_va_of(size: u32, q: u32) -> VectorArrangement {
    if size == 0 {
        if q == 0 {
            VectorArrangement::VA_8B
        } else {
            VectorArrangement::VA_16B
        }
    } else if size == 1 {
        if q == 0 {
            VectorArrangement::VA_4H
        } else {
            VectorArrangement::VA_8H
        }
    } else if size == 2 {
        if q == 0 {
            VectorArrangement::VA_2S
        } else {
            VectorArrangement::VA_4S
        }
    } else {
        if q == 0 {
            VectorArrangement::VA_1D
        } else {
            VectorArrangement::VA_2D
        }
    }
}

/// The vector arrangement encoded by the size and Q fields.
pub fn va_of(size: u32, q: u32) -> (a: VectorArrangement)
    requires
        size <= 3,
        q <= 1,
    ensures
        a == spec_va_of(size, q),
{
    if size == 0 {
        if q == 0 {
            VectorArrangement::VA_8B
        } else {
            VectorArrangement::VA_16B
        }
    } else if size == 1 {
        if q == 0 {
            VectorArrangement::VA_4H
        } else {
            VectorArrangement::VA_8H
        }
    } else if size == 2 {
        if q == 0 {
            VectorArrangement::VA_2S
        } else {
            VectorArrangement::VA_4S
        }
    } else {
        if q == 0 {
            VectorArrangement::VA_1D
        } else {
            VectorArrangement::VA_2D
        }
    }
}

pub open spec fn size_val(s: Size) -> u8 {
    match s {
        Size::SZ_B => 0,
        Size::SZ_H => 1,
        Size::SZ_W => 2,
        Size::SZ_X => 3,
    }
}

pub open spec fn spec_with_size(flags: u8, s: Size) -> u8 {
    (flags & 0xF3) | ((size_val(s) << 2) as u8)
}

/// Store a memory access size in bits 2..=3 of a flags value (load/store
/// opcodes on general registers only).
pub fn with_size(flags: u8, s: Size) -> (f: u8)
    ensures
        f == spec_with_size(flags, s),
{
    let v: u8 = match s {
        Size::SZ_B => 0,
        Size::SZ_H => 1,
        Size::SZ_W => 2,
        Size::SZ_X => 3,
    };
    (flags & 0xF3) | (v << 2)
}

pub open spec fn spec_get_size(flags: u8) -> Size {
    spec_size_of(((flags >> 2) & 3) as u32)
}

/// Read the access size stored in bits 2..=3 of `flags`.
pub fn get_size(flags: u8) -> (s: Size)
    ensures
        s == spec_get_size(flags),
{
    let v = (flags >> 2) & 3;
    proof {
        crate::bits::lemma_and_mask_le_u8(flags >> 2, 3);
    }
    size_of_bits(v as u32)
}

pub open spec fn fpsize_val(s: FPSize) -> u8 {
    match s {
        FPSize::FSZ_B => 0,
        FPSize::FSZ_H => 1,
        FPSize::FSZ_S => 2,
        FPSize::FSZ_D => 3,
        FPSize::FSZ_Q => 4,
    }
}

pub open spec fn spec_fpsize_of(v: u32) -> FPSize {
    if v == 0 {
        FPSize::FSZ_B
    } else if v == 1 {
        FPSize::FSZ_H
    } else if v == 2 {
        FPSize::FSZ_S
    } else if v == 3 {
        FPSize::FSZ_D
    } else {
        FPSize::FSZ_Q
    }
}

/// The scalar precision encoded by a size field.
pub fn fpsize_of(v: u32) -> (s: FPSize)
    requires
        v <= 4,
    ensures
        s == spec_fpsize_of(v),
{
    if v == 0 {
        FPSize::FSZ_B
    } else if v == 1 {
        FPSize::FSZ_H
    } else if v == 2 {
        FPSize::FSZ_S
    } else if v == 3 {
        FPSize::FSZ_D
    } else {
        FPSize::FSZ_Q
    }
}

pub open spec fn spec_with_prec(flags: u8, s: FPSize) -> u8 {
    (flags & 0xE3) | ((fpsize_val(s) << 2) as u8)
}

/// Store a scalar floating-point precision in bits 2..=4 of a flags value
/// (floating-point opcodes only).
pub fn with_prec(flags: u8, s: FPSize) -> (f: u8)
    ensures
        f == spec_with_prec(flags, s),
{
    let v: u8 = match s {
        FPSize::FSZ_B => 0,
        FPSize::FSZ_H => 1,
        FPSize::FSZ_S => 2,
        FPSize::FSZ_D => 3,
        FPSize::FSZ_Q => 4,
    };
    (flags & 0xE3) | (v << 2)
}

pub open spec fn spec_get_prec(flags: u8) -> FPSize {
    spec_fpsize_of(((flags >> 2) & 7) as u32)
}

/// Read the scalar precision stored in bits 2..=4 of `flags`.
pub fn get_prec(flags: u8) -> (s: FPSize)
    ensures
        s == spec_get_prec(flags),
{
    let v = (flags >> 2) & 7;
    proof {
        crate::bits::lemma_and_mask_le_u8(flags >> 2, 7);
    }
    if v == 0 {
        FPSize::FSZ_B
    } else if v == 1 {
        FPSize::FSZ_H
    } else if v == 2 {
        FPSize::FSZ_S
    } else if v == 3 {
        FPSize::FSZ_D
    } else {
        FPSize::FSZ_Q
    }
}

pub open spec fn va_val(a: VectorArrangement) -> u8 {
    match a {
        VectorArrangement::VA_8B => 0,
        VectorArrangement::VA_16B => 1,
        VectorArrangement::VA_4H => 2,
        VectorArrangement::VA_8H => 3,
        VectorArrangement::VA_2S => 4,
        VectorArrangement::VA_4S => 5,
        VectorArrangement::VA_1D => 6,
        VectorArrangement::VA_2D => 7,
    }
}

pub open spec fn spec_with_va(flags: u8, a: VectorArrangement) -> u8 {
    (flags & 0xE3) | ((va_val(a) << 2) as u8)
}

/// Store a vector arrangement in bits 2..=4 of a flags value (vector SIMD
/// opcodes only).
pub fn with_va(flags: u8, a: VectorArrangement) -> (f: u8)
    ensures
        f == spec_with_va(flags, a),
{
    let v: u8 = match a {
        VectorArrangement::VA_8B => 0,
        VectorArrangement::VA_16B => 1,
        VectorArrangement::VA_4H => 2,
        VectorArrangement::VA_8H => 3,
        VectorArrangement::VA_2S => 4,
        VectorArrangement::VA_4S => 5,
        VectorArrangement::VA_1D => 6,
        VectorArrangement::VA_2D => 7,
    };
    (flags & 0xE3) | (v << 2)
}

pub open spec fn spec_get_va(flags: u8) -> VectorArrangement {
    let v = (flags >> 2) & 7;
    spec_va_of(((v >> 1) & 3) as u32, (v & 1) as u32)
}

/// Read the vector arrangement stored in bits 2..=4 of `flags`.
pub fn get_va(flags: u8) -> (a: VectorArrangement)
    ensures
        a == spec_get_va(flags),
{
    let v = (flags >> 2) & 7;
    proof {
        crate::bits::lemma_and_mask_le_u8(flags >> 2, 7);
        crate::bits::lemma_and_mask_le_u8(v >> 1, 3);
        crate::bits::lemma_and_mask_le_u8(v, 1);
    }
    va_of(((v >> 1) & 3) as u32, (v & 1) as u32)
}

pub open spec fn spec_flags_w32(sf: u32) -> u8 {
    if sf == 0 {
        FLAG_W32
    } else {
        0
    }
}

/// The width attribute: 32-bit register view when the sf bit is clear.
pub fn flags_w32(sf: u32) -> (f: u8)
    ensures
        f == spec_flags_w32(sf),
{
    if sf == 0 {
        FLAG_W32
    } else {
        0
    }
}

pub open spec fn spec_with_cond(flags: u8, c: Cond) -> u8 {
    (flags & 0x0F) | ((cond_val(c) << 4) as u8)
}

/// Store a condition code in the upper four bits of a flags value.
pub fn with_cond(flags: u8, c: Cond) -> (f: u8)
    ensures
        f == spec_with_cond(flags, c),
{
    let v: u8 = match c {
        Cond::COND_EQ => 0,
        Cond::COND_NE => 1,
        Cond::COND_CS => 2,
        Cond::COND_CC => 3,
        Cond::COND_MI => 4,
        Cond::COND_PL => 5,
        Cond::COND_VS => 6,
        Cond::COND_VC => 7,
        Cond::COND_HI => 8,
        Cond::COND_LS => 9,
        Cond::COND_GE => 10,
        Cond::COND_LT => 11,
        Cond::COND_GT => 12,
        Cond::COND_LE => 13,
        Cond::COND_AL => 14,
        Cond::COND_NV => 15,
    };
    (flags & 0x0F) | (v << 4)
}

pub open spec fn spec_get_cond(flags: u8) -> Cond {
    cond_of(((flags >> 4) & 0xF) as u32)
}

/// Storing a condition in a flags value and reading it back yields that
/// condition, whatever the other flag bits hold.
pub proof fn lemma_cond_roundtrip(f: u8, c: Cond)
    ensures
        spec_get_cond(spec_with_cond(f, c)) == c,
{
    let v = cond_val(c);
    assert(v <= 15);
    assert((((f & 0x0F) | (v << 4)) >> 4) & 0xF == v) by (bit_vector)
        requires
            v <= 15,
    ;
}

/// Read the condition code stored in the upper four bits of `flags`.
/// Meaningful only for predicated opcodes (conditional branch, select,
/// compare); load/store opcodes reuse these bits for the addressing mode.
pub fn get_cond(flags: u8) -> (c: Cond)
    ensures
        c == spec_get_cond(flags),
{
    let v = (flags >> 4) & 0xF;
    proof {
        crate::bits::lemma_and_mask_le_u8(flags >> 4, 0xF);
    }
    cond_from_bits(v as u32)
}

pub open spec fn spec_with_addrmode(flags: u8, m: AddrMode) -> u8 {
    (flags & 0x1F) | ((am_val(m) << 5) as u8)
}

/// Store an addressing mode in the top three bits of a flags value.
pub fn with_addrmode(flags: u8, m: AddrMode) -> (f: u8)
    ensures
        f == spec_with_addrmode(flags, m),
{
    let v: u8 = match m {
        AddrMode::AM_SIMPLE => 0,
        AddrMode::AM_OFF_IMM => 1,
        AddrMode::AM_OFF_REG => 2,
        AddrMode::AM_OFF_EXT => 3,
        AddrMode::AM_PRE => 4,
        AddrMode::AM_POST => 5,
        AddrMode::AM_LITERAL => 6,
    };
    (flags & 0x1F) | (v << 5)
}

pub open spec fn spec_get_addrmode(flags: u8) -> AddrMode {
    am_of((flags >> 5) & 0x7)
}

/// Storing an access size and then an addressing mode in a flags value
/// keeps the size readable and leaves the width and sign-extension bits of
/// the base value unchanged.
pub proof fn lemma_ldst_flag_bits(f: u8, s: Size, m: AddrMode)
    ensures
        spec_get_size(spec_with_addrmode(spec_with_size(f, s), m)) == s,
        spec_with_addrmode(spec_with_size(f, s), m) & FLAG_LDST_SEXT == f & FLAG_LDST_SEXT,
        spec_with_addrmode(spec_with_size(f, s), m) & FLAG_W32 == f & FLAG_W32,
{
    let sv = size_val(s);
    let av = am_val(m);
    assert(sv <= 3);
    assert(av <= 6);
    assert(((((((f & 0xF3) | (sv << 2)) & 0x1F) | (av << 5)) >> 2) & 3 == sv) && (((((f & 0xF3) | (
    sv << 2)) & 0x1F) | (av << 5)) & 0x10 == f & 0x10) && (((((f & 0xF3) | (sv << 2)) & 0x1F) | (av
        << 5)) & 0x01 == f & 0x01)) by (bit_vector)
        requires
            sv <= 3,
            av <= 6,
    ;
}

/// Storing an addressing mode in a flags value and reading it back yields
/// that mode, whatever the other flag bits hold.
pub proof fn lemma_addrmode_roundtrip(f: u8, m: AddrMode)
    ensures
        spec_get_addrmode(spec_with_addrmode(f, m)) == m,
{
    let v = am_val(m);
    assert(v <= 6);
    assert((((f & 0x1F) | (v << 5)) >> 5) & 0x7 == v) by (bit_vector)
        requires
            v <= 6,
    ;
}

/// Read the addressing mode stored in the top three bits of `flags`.
/// Meaningful only for load/store opcodes.
pub fn get_addrmode(flags: u8) -> (m: AddrMode)
    ensures
        m == spec_get_addrmode(flags),
{
    let v = (flags >> 5) & 0x7;
    proof {
        crate::bits::lemma_and_mask_le_u8(flags >> 5, 0x7);
    }
    if v == 0 {
        AddrMode::AM_SIMPLE
    } else if v == 1 {
        AddrMode::AM_OFF_IMM
    } else if v == 2 {
        AddrMode::AM_OFF_REG
    } else if v == 3 {
        AddrMode::AM_OFF_EXT
    } else if v == 4 {
        AddrMode::AM_PRE
    } else if v == 5 {
        AddrMode::AM_POST
    } else {
        AddrMode::AM_LITERAL
    }
}

} // verus!
