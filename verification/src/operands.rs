//! Operand value types: the closed 16-value enumerations validated from
//! 4-bit fields, the shifter operand, addressing modes and register lists.

use vstd::prelude::*;

use crate::errors::ParseError;
use crate::bitfield::lemma_field_bound;
use crate::bitfield::lemma_mask_bound;

verus! {

/// One of the 16 general-purpose registers.
#[derive(Debug, Clone, Copy, PartialEq, Eq, Structural)]
pub enum Register {
    R0,
    R1,
    R2,
    R3,
    R4,
    R5,
    R6,
    R7,
    R8,
    R9,
    R10,
    R11,
    R12,
    R13,
    R14,
    R15,
}

/// One of the 16 coprocessor registers.
#[derive(Debug, Clone, Copy, PartialEq, Eq, Structural)]
pub enum CRegister {
    Cr0,
    Cr1,
    Cr2,
    Cr3,
    Cr4,
    Cr5,
    Cr6,
    Cr7,
    Cr8,
    Cr9,
    Cr10,
    Cr11,
    Cr12,
    Cr13,
    Cr14,
    Cr15,
}

/// One of the 16 coprocessor units.
#[derive(Debug, Clone, Copy, PartialEq, Eq, Structural)]
pub enum Coprocessor {
    P0,
    P1,
    P2,
    P3,
    P4,
    P5,
    P6,
    P7,
    P8,
    P9,
    P10,
    P11,
    P12,
    P13,
    P14,
    P15,
}

/// The condition field of a word: when the instruction executes, or, for
/// the value 15, that the word belongs to the unconditional extension
/// space rather than carrying a true condition.
#[derive(Debug, Clone, Copy, PartialEq, Eq, Structural)]
pub enum Cond {
    /// 0000 EQ
    Equal,
    /// 0001 NE
    NotEqual,
    /// 0010 CS/HS
    CarrySet,
    /// 0011 CC/LO
    CarryClear,
    /// 0100 MI
    Minus,
    /// 0101 PL
    Plus,
    /// 0110 VS
    Overflow,
    /// 0111 VC
    NoOverflow,
    /// 1000 HI
    Higher,
    /// 1001 LS
    LowerOrSame,
    /// 1010 GE
    SignedGreaterOrEqual,
    /// 1011 LT
    SignedLessThan,
    /// 1100 GT
    SignedGreaterThan,
    /// 1101 LE
    SignedLessThanOrEqual,
    /// 1110 AL
    Allways,
    /// 1111: the unconditional extension space marker.
    Unconditional,
}

/// The register named by a 4-bit field (values above 15 fall back to `R0`;
/// validated constructors reject them first).
pub open spec fn reg_of(v: u32) -> Register {
    if v == 0 {
        Register::R0
    } else if v == 1 {
        Register::R1
    } else if v == 2 {
        Register::R2
    } else if v == 3 {
        Register::R3
    } else if v == 4 {
        Register::R4
    } else if v == 5 {
        Register::R5
    } else if v == 6 {
        Register::R6
    } else if v == 7 {
        Register::R7
    } else if v == 8 {
        Register::R8
    } else if v == 9 {
        Register::R9
    } else if v == 10 {
        Register::R10
    } else if v == 11 {
        Register::R11
    } else if v == 12 {
        Register::R12
    } else if v == 13 {
        Register::R13
    } else if v == 14 {
        Register::R14
    } else {
        Register::R15
    }
}

/// The coprocessor register named by a 4-bit field.
pub open spec fn creg_of(v: u32) -> CRegister {
    if v == 0 {
        CRegister::Cr0
    } else if v == 1 {
        CRegister::Cr1
    } else if v == 2 {
        CRegister::Cr2
    } else if v == 3 {
        CRegister::Cr3
    } else if v == 4 {
        CRegister::Cr4
    } else if v == 5 {
        CRegister::Cr5
    } else if v == 6 {
        CRegister::Cr6
    } else if v == 7 {
        CRegister::Cr7
    } else if v == 8 {
        CRegister::Cr8
    } else if v == 9 {
        CRegister::Cr9
    } else if v == 10 {
        CRegister::Cr10
    } else if v == 11 {
        CRegister::Cr11
    } else if v == 12 {
        CRegister::Cr12
    } else if v == 13 {
        CRegister::Cr13
    } else if v == 14 {
        CRegister::Cr14
    } else {
        CRegister::Cr15
    }
}

/// The coprocessor unit named by a 4-bit field.
pub open spec fn coproc_of(v: u32) -> Coprocessor {
    if v == 0 {
        Coprocessor::P0
    } else if v == 1 {
        Coprocessor::P1
    } else if v == 2 {
        Coprocessor::P2
    } else if v == 3 {
        Coprocessor::P3
    } else if v == 4 {
        Coprocessor::P4
    } else if v == 5 {
        Coprocessor::P5
    } else if v == 6 {
        Coprocessor::P6
    } else if v == 7 {
        Coprocessor::P7
    } else if v == 8 {
        Coprocessor::P8
    } else if v == 9 {
        Coprocessor::P9
    } else if v == 10 {
        Coprocessor::P10
    } else if v == 11 {
        Coprocessor::P11
    } else if v == 12 {
        Coprocessor::P12
    } else if v == 13 {
        Coprocessor::P13
    } else if v == 14 {
        Coprocessor::P14
    } else {
        Coprocessor::P15
    }
}

/// The documented 16-entry table for the condition field.
pub open spec fn cond_of(v: u32) -> Cond {
    if v == 0 {
        Cond::Equal
    } else if v == 1 {
        Cond::NotEqual
    } else if v == 2 {
        Cond::CarrySet
    } else if v == 3 {
        Cond::CarryClear
    } else if v == 4 {
        Cond::Minus
    } else if v == 5 {
        Cond::Plus
    } else if v == 6 {
        Cond::Overflow
    } else if v == 7 {
        Cond::NoOverflow
    } else if v == 8 {
        Cond::Higher
    } else if v == 9 {
        Cond::LowerOrSame
    } else if v == 10 {
        Cond::SignedGreaterOrEqual
    } else if v == 11 {
        Cond::SignedLessThan
    } else if v == 12 {
        Cond::SignedGreaterThan
    } else if v == 13 {
        Cond::SignedLessThanOrEqual
    } else if v == 14 {
        Cond::Allways
    } else {
        Cond::Unconditional
    }
}

impl Register {
    /// Validated conversion from a 4-bit field: any value above 15 is a
    /// decode error, never a silently clamped register.
    pub fn new(value: u8) -> (r: Result<Register, ParseError>)
        ensures
            value < 16 ==> r == Ok::<Register, ParseError>(reg_of(value as u32)),
            value >= 16 ==> r == Err::<Register, ParseError>(
                ParseError::InvalidMask { invalid_set_bytes: (value & !0xf) as u32 },
            ),
    {
        if value < 16 {
            Ok(reg_table(value as u32))
        } else {
            Err(ParseError::InvalidMask { invalid_set_bytes: (value & !0xf) as u32 })
        }
    }
}

impl CRegister {
    /// Validated conversion from a 4-bit field.
    pub fn new(value: u8) -> (r: Result<CRegister, ParseError>)
        ensures
            value < 16 ==> r == Ok::<CRegister, ParseError>(creg_of(value as u32)),
            value >= 16 ==> r == Err::<CRegister, ParseError>(
                ParseError::InvalidMask { invalid_set_bytes: (value & !0xf) as u32 },
            ),
    {
        if value < 16 {
            Ok(creg_table(value as u32))
        } else {
            Err(ParseError::InvalidMask { invalid_set_bytes: (value & !0xf) as u32 })
        }
    }
}

impl Coprocessor {
    /// Validated conversion from a 4-bit field.
    pub fn new(value: u8) -> (r: Result<Coprocessor, ParseError>)
        ensures
            value < 16 ==> r == Ok::<Coprocessor, ParseError>(coproc_of(value as u32)),
            value >= 16 ==> r == Err::<Coprocessor, ParseError>(
                ParseError::InvalidMask { invalid_set_bytes: (value & !0xf) as u32 },
            ),
    {
        if value < 16 {
            Ok(coproc_table(value as u32))
        } else {
            Err(ParseError::InvalidMask { invalid_set_bytes: (value & !0xf) as u32 })
        }
    }
}

impl Cond {
    /// Validated conversion from the condition field; the documented
    /// 16-entry table, value 15 giving the extension-space marker.
    pub fn new(value: u32) -> (r: Result<Cond, ParseError>)
        ensures
            value < 16 ==> r == Ok::<Cond, ParseError>(cond_of(value)),
            value >= 16 ==> r == Err::<Cond, ParseError>(
                ParseError::InvalidMask { invalid_set_bytes: value & !0xf },
            ),
    {
        if value < 16 {
            Ok(cond_table(value))
        } else {
            Err(ParseError::InvalidMask { invalid_set_bytes: value & !0xf })
        }
    }
}

/// Total table lookup for a register field already known to be 4 bits.
pub(crate) fn reg_table(v: u32) -> (r: Register)
    requires
        v < 16,
    ensures
        r == reg_of(v),
{
    if v == 0 {
        Register::R0
    } else if v == 1 {
        Register::R1
    } else if v == 2 {
        Register::R2
    } else if v == 3 {
        Register::R3
    } else if v == 4 {
        Register::R4
    } else if v == 5 {
        Register::R5
    } else if v == 6 {
        Register::R6
    } else if v == 7 {
        Register::R7
    } else if v == 8 {
        Register::R8
    } else if v == 9 {
        Register::R9
    } else if v == 10 {
        Register::R10
    } else if v == 11 {
        Register::R11
    } else if v == 12 {
        Register::R12
    } else if v == 13 {
        Register::R13
    } else if v == 14 {
        Register::R14
    } else {
        Register::R15
    }
}

pub(crate) fn creg_table(v: u32) -> (r: CRegister)
    requires
        v < 16,
    ensures
        r == creg_of(v),
{
    if v == 0 {
        CRegister::Cr0
    } else if v == 1 {
        CRegister::Cr1
    } else if v == 2 {
        CRegister::Cr2
    } else if v == 3 {
        CRegister::Cr3
    } else if v == 4 {
        CRegister::Cr4
    } else if v == 5 {
        CRegister::Cr5
    } else if v == 6 {
        CRegister::Cr6
    } else if v == 7 {
        CRegister::Cr7
    } else if v == 8 {
        CRegister::Cr8
    } else if v == 9 {
        CRegister::Cr9
    } else if v == 10 {
        CRegister::Cr10
    } else if v == 11 {
        CRegister::Cr11
    } else if v == 12 {
        CRegister::Cr12
    } else if v == 13 {
        CRegister::Cr13
    } else if v == 14 {
        CRegister::Cr14
    } else {
        CRegister::Cr15
    }
}

pub(crate) fn coproc_table(v: u32) -> (r: Coprocessor)
    requires
        v < 16,
    ensures
        r == coproc_of(v),
{
    if v == 0 {
        Coprocessor::P0
    } else if v == 1 {
        Coprocessor::P1
    } else if v == 2 {
        Coprocessor::P2
    } else if v == 3 {
        Coprocessor::P3
    } else if v == 4 {
        Coprocessor::P4
    } else if v == 5 {
        Coprocessor::P5
    } else if v == 6 {
        Coprocessor::P6
    } else if v == 7 {
        Coprocessor::P7
    } else if v == 8 {
        Coprocessor::P8
    } else if v == 9 {
        Coprocessor::P9
    } else if v == 10 {
        Coprocessor::P10
    } else if v == 11 {
        Coprocessor::P11
    } else if v == 12 {
        Coprocessor::P12
    } else if v == 13 {
        Coprocessor::P13
    } else if v == 14 {
        Coprocessor::P14
    } else {
        Coprocessor::P15
    }
}

pub(crate) fn cond_table(v: u32) -> (r: Cond)
    requires
        v < 16,
    ensures
        r == cond_of(v),
{
    if v == 0 {
        Cond::Equal
    } else if v == 1 {
        Cond::NotEqual
    } else if v == 2 {
        Cond::CarrySet
    } else if v == 3 {
        Cond::CarryClear
    } else if v == 4 {
        Cond::Minus
    } else if v == 5 {
        Cond::Plus
    } else if v == 6 {
        Cond::Overflow
    } else if v == 7 {
        Cond::NoOverflow
    } else if v == 8 {
        Cond::Higher
    } else if v == 9 {
        Cond::LowerOrSame
    } else if v == 10 {
        Cond::SignedGreaterOrEqual
    } else if v == 11 {
        Cond::SignedLessThan
    } else if v == 12 {
        Cond::SignedGreaterThan
    } else if v == 13 {
        Cond::SignedLessThanOrEqual
    } else if v == 14 {
        Cond::Allways
    } else {
        Cond::Unconditional
    }
}

/// Extracts the 4-bit register field of `value` at bit `lo`.
pub(crate) fn reg_at(value: u32, lo: u32) -> (r: Register)
    requires
        lo <= 28,
    ensures
        r == reg_of((value >> lo) & 0xf),
{
    proof {
        lemma_field_bound(value, lo, 0xf);
    }
    reg_table((value >> lo) & 0xf)
}

/// Extracts the 4-bit coprocessor-register field of `value` at bit `lo`.
pub(crate) fn creg_at(value: u32, lo: u32) -> (r: CRegister)
    requires
        lo <= 28,
    ensures
        r == creg_of((value >> lo) & 0xf),
{
    proof {
        lemma_field_bound(value, lo, 0xf);
    }
    creg_table((value >> lo) & 0xf)
}

/// Extracts the 4-bit coprocessor-unit field of `value` at bit `lo`.
pub(crate) fn coproc_at(value: u32, lo: u32) -> (r: Coprocessor)
    requires
        lo <= 28,
    ensures
        r == coproc_of((value >> lo) & 0xf),
{
    proof {
        lemma_field_bound(value, lo, 0xf);
    }
    coproc_table((value >> lo) & 0xf)
}

/// A signed byte distance from the decoded instruction's successor.
#[derive(Debug, Clone, Copy, PartialEq, Eq, Structural)]
pub struct RelativeAdress(pub i32);

/// An absolute byte position in the input image.
#[derive(Debug, Clone, Copy, PartialEq, Eq, Structural)]
pub struct Adress(pub u32);

/// The 16-bit set of general registers moved by a block transfer, one bit
/// per register, bit i for register i.
#[derive(Debug, Clone, Copy, PartialEq, Eq, Structural)]
pub struct RegisterList(pub u16);

impl RegisterList {
    /// Whether register `i` is in the set.
    pub open spec fn spec_contains(self, i: u32) -> bool {
        (self.0 >> i) & 1 == 1
    }

    /// Tests whether register `i` is in the set.
    pub fn contains(self, i: u32) -> (r: bool)
        requires
            i < 16,
        ensures
            r == self.spec_contains(i),
    {
        (self.0 >> i) & 1 == 1
    }
}

/// Which fields of a program status register an MSR writes: control,
/// extension, status and condition-flag bytes.
#[derive(Debug, Clone, Copy, PartialEq, Eq, Structural)]
pub struct PSRFlags {
    pub c: bool,
    pub x: bool,
    pub s: bool,
    pub f: bool,
}

/// The shift operation applied to the register form of a shifter operand
/// or to a scaled register offset.
#[derive(Debug, Clone, Copy, PartialEq, Eq, Structural)]
pub enum ShiftKind {
    LogicalLeft,
    LogicalRight,
    ArithmeticRight,
    RotateRight,
    /// Rotate right with extend: the zero-amount rotate encoding, a one-bit
    /// rotate through the carry flag.
    RotateRightExtend,
}

/// The second operand of a data-processing instruction: a rotated 8-bit
/// immediate resolved to its 32-bit value, a plain register, a register
/// shifted by an immediate amount, or a register shifted by the low byte
/// of another register.
#[derive(Debug, Clone, Copy, PartialEq, Eq, Structural)]
pub enum ShifterOperand {
    /// The resolved value of the rotated immediate.
    Immediate(u32),
    /// A register with no shift (logical left by zero).
    Register(Register),
    /// A register shifted by a fixed amount.  A logical-right or
    /// arithmetic-right amount of 32 comes from the zero-amount encoding;
    /// rotate-right-with-extend always has amount 1.
    ImmediateShift { rm: Register, kind: ShiftKind, amount: u32 },
    /// A register shifted by the low byte of `rs`.
    RegisterShift { rm: Register, kind: ShiftKind, rs: Register },
}

/// The 8-bit immediate `imm8` rotated right by twice `rot` bit positions.
pub open spec fn rotated_imm(imm8: u32, rot: u32) -> u32 {
    if rot == 0 {
        imm8
    } else {
        (imm8 >> ((2 * rot) as u32)) | (imm8 << ((32 - 2 * rot) as u32))
    }
}

/// Computes the rotated-immediate value.
pub(crate) fn rotate_imm_exec(imm8: u32, rot: u32) -> (r: u32)
    requires
        rot < 16,
    ensures
        r == rotated_imm(imm8, rot),
{
    if rot == 0 {
        imm8
    } else {
        let sh: u32 = 2 * rot;
        (imm8 >> sh) | (imm8 << (32 - sh))
    }
}

/// The shift named by the two shift-type bits.
pub open spec fn shift_kind_of(typ: u32) -> ShiftKind {
    if typ == 0 {
        ShiftKind::LogicalLeft
    } else if typ == 1 {
        ShiftKind::LogicalRight
    } else if typ == 2 {
        ShiftKind::ArithmeticRight
    } else {
        ShiftKind::RotateRight
    }
}

pub(crate) fn shift_kind_table(typ: u32) -> (r: ShiftKind)
    requires
        typ < 4,
    ensures
        r == shift_kind_of(typ),
{
    if typ == 0 {
        ShiftKind::LogicalLeft
    } else if typ == 1 {
        ShiftKind::LogicalRight
    } else if typ == 2 {
        ShiftKind::ArithmeticRight
    } else {
        ShiftKind::RotateRight
    }
}

/// The register shifted by an immediate amount, as decoded from the
/// shift-type bits and the 5-bit amount: a zero amount means no shift for
/// logical left, a 32-position shift for the right shifts, and
/// rotate-right-with-extend for rotate right.
pub open spec fn shifted_register(rm: Register, typ: u32, amount: u32) -> ShifterOperand {
    if typ == 0 {
        if amount == 0 {
            ShifterOperand::Register(rm)
        } else {
            ShifterOperand::ImmediateShift { rm, kind: ShiftKind::LogicalLeft, amount }
        }
    } else if typ == 1 {
        if amount == 0 {
            ShifterOperand::ImmediateShift { rm, kind: ShiftKind::LogicalRight, amount: 32 }
        } else {
            ShifterOperand::ImmediateShift { rm, kind: ShiftKind::LogicalRight, amount }
        }
    } else if typ == 2 {
        if amount == 0 {
            ShifterOperand::ImmediateShift { rm, kind: ShiftKind::ArithmeticRight, amount: 32 }
        } else {
            ShifterOperand::ImmediateShift { rm, kind: ShiftKind::ArithmeticRight, amount }
        }
    } else {
        if amount == 0 {
            ShifterOperand::ImmediateShift { rm, kind: ShiftKind::RotateRightExtend, amount: 1 }
        } else {
            ShifterOperand::ImmediateShift { rm, kind: ShiftKind::RotateRight, amount }
        }
    }
}

pub(crate) fn shifted_register_exec(rm: Register, typ: u32, amount: u32) -> (r: ShifterOperand)
    requires
        typ < 4,
    ensures
        r == shifted_register(rm, typ, amount),
{
    if typ == 0 {
        if amount == 0 {
            ShifterOperand::Register(rm)
        } else {
            ShifterOperand::ImmediateShift { rm, kind: ShiftKind::LogicalLeft, amount }
        }
    } else if typ == 1 {
        if amount == 0 {
            ShifterOperand::ImmediateShift { rm, kind: ShiftKind::LogicalRight, amount: 32 }
        } else {
            ShifterOperand::ImmediateShift { rm, kind: ShiftKind::LogicalRight, amount }
        }
    } else if typ == 2 {
        if amount == 0 {
            ShifterOperand::ImmediateShift { rm, kind: ShiftKind::ArithmeticRight, amount: 32 }
        } else {
            ShifterOperand::ImmediateShift { rm, kind: ShiftKind::ArithmeticRight, amount }
        }
    } else {
        if amount == 0 {
            ShifterOperand::ImmediateShift { rm, kind: ShiftKind::RotateRightExtend, amount: 1 }
        } else {
            ShifterOperand::ImmediateShift { rm, kind: ShiftKind::RotateRight, amount }
        }
    }
}

/// Decode of the low 12 bits of a data-processing word as a shifter
/// operand.  With `immediate` the word's bit 25 was set: the 12 bits hold
/// a rotate amount and an 8-bit immediate.  Otherwise they hold a
/// register and a shift; bit 4 selects an immediate shift amount or a
/// shift by register, and a shift by register requires bit 7 to be zero.
pub open spec fn shifter_decode(value: u32, immediate: bool) -> Result<
    ShifterOperand,
    ParseError,
> {
    if immediate {
        Ok(ShifterOperand::Immediate(rotated_imm(value & 0xff, (value >> 8) & 0xf)))
    } else {
        let rm = reg_of(value & 0xf);
        let typ = (value >> 5) & 3;
        if (value >> 4) & 1 == 0 {
            Ok(shifted_register(rm, typ, (value >> 7) & 0x1f))
        } else if (value >> 7) & 1 == 1 {
            Err(ParseError::InvalidMask { invalid_set_bytes: value & 0x80 })
        } else {
            Ok(
                ShifterOperand::RegisterShift {
                    rm,
                    kind: shift_kind_of(typ),
                    rs: reg_of((value >> 8) & 0xf),
                },
            )
        }
    }
}

impl ShifterOperand {
    /// Decodes the low 12 bits of a data-processing word, in the immediate
    /// or the register form; bits of `value` above bit 11 are ignored.
    pub fn new(value: u32, immediate: bool) -> (r: Result<ShifterOperand, ParseError>)
        ensures
            r == shifter_decode(value, immediate),
    {
        proof {
            lemma_field_bound(value, 8, 0xf);
            lemma_field_bound(value, 5, 3);
            lemma_field_bound(value, 7, 0x1f);
            lemma_mask_bound(value, 0xf);
        }
        if immediate {
            Ok(ShifterOperand::Immediate(rotate_imm_exec(value & 0xff, (value >> 8) & 0xf)))
        } else {
            let rm = reg_table(value & 0xf);
            let typ: u32 = (value >> 5) & 3;
            if (value >> 4) & 1 == 0 {
                Ok(shifted_register_exec(rm, typ, (value >> 7) & 0x1f))
            } else if (value >> 7) & 1 == 1 {
                Err(ParseError::InvalidMask { invalid_set_bytes: value & 0x80 })
            } else {
                Ok(
                    ShifterOperand::RegisterShift {
                        rm,
                        kind: shift_kind_table(typ),
                        rs: reg_at(value, 8),
                    },
                )
            }
        }
    }
}

/// The offset part of an addressing mode: a plain immediate, a plain
/// register, or a register scaled by an immediate shift.
#[derive(Debug, Clone, Copy, PartialEq, Eq, Structural)]
pub enum Offset {
    Immediate(u32),
    Register(Register),
    /// A register scaled as the shift says; the right shifts take a zero
    /// encoded amount as 32, and rotate-right-with-extend has amount 1.
    Scaled { rm: Register, kind: ShiftKind, amount: u32 },
}

/// Whether the offset is added to or subtracted from the base.
#[derive(Debug, Clone, Copy, PartialEq, Eq, Structural)]
pub enum Sign {
    Add,
    Subtract,
}

/// Whether the base is modified before or after the transfer.
#[derive(Debug, Clone, Copy, PartialEq, Eq, Structural)]
pub enum Indexing {
    PreIndexed,
    PostIndexed,
}

/// Base register plus offset, with indexing and optional base writeback.
#[derive(Debug, Clone, Copy, PartialEq, Eq, Structural)]
pub struct AddressingMode {
    pub base: Register,
    pub offset: Offset,
    pub sign: Sign,
    pub indexing: Indexing,
    pub writeback: bool,
}

/// The restricted addressing mode of the user-mode-privileged transfers:
/// always post-indexed, with base writeback implicit.
#[derive(Debug, Clone, Copy, PartialEq, Eq, Structural)]
pub struct PostIndexedAddressingMode {
    pub base: Register,
    pub offset: Offset,
    pub sign: Sign,
}

/// The addressing-mode sign named by the U bit.
pub open spec fn sign_of(u: bool) -> Sign {
    if u {
        Sign::Add
    } else {
        Sign::Subtract
    }
}

/// The indexing named by the P bit.
pub open spec fn indexing_of(p: bool) -> Indexing {
    if p {
        Indexing::PreIndexed
    } else {
        Indexing::PostIndexed
    }
}

pub(crate) fn sign_exec(u: bool) -> (r: Sign)
    ensures
        r == sign_of(u),
{
    if u {
        Sign::Add
    } else {
        Sign::Subtract
    }
}

pub(crate) fn indexing_exec(p: bool) -> (r: Indexing)
    ensures
        r == indexing_of(p),
{
    if p {
        Indexing::PreIndexed
    } else {
        Indexing::PostIndexed
    }
}

} // verus!
