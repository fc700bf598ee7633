//! Register-access instructions: moves between a program status register
//! and a general register, and the processor-state change.

use vstd::prelude::*;

use crate::bitfield::{bit, lemma_field_bound, lemma_mask_bound};
use crate::errors::ParseError;
use crate::operands::{
    reg_at, reg_of, reg_table, rotate_imm_exec, rotated_imm, PSRFlags, Register, ShifterOperand,
};

verus! {

/// The interrupt-mask flags a processor-state change touches.
#[derive(Debug, Clone, Copy, PartialEq, Eq, Structural)]
pub struct IFlags {
    pub a: bool,
    pub i: bool,
    pub f: bool,
}

/// The register-access instructions.
#[derive(Debug, Clone, Copy, PartialEq, Eq, Structural)]
#[allow(inconsistent_fields)]
pub enum RegisterAccessInstruction {
    ///Move PSR to General-purpose Register.
    MRS { destination: Register, is_spsr: bool },
    ///Move General-purpose Register (or a rotated immediate) to PSR.
    MSR { flags: PSRFlags, shifter_operand: ShifterOperand, is_spsr: bool },
    ///Change Processor State: optional interrupt-mask flags and/or an
    ///optional 5-bit processor mode; at least one of the two is present.
    CPS { flags: Option<IFlags>, mode: Option<u8> },
}

/// The PSR field mask at bits 19 to 16: control, extension, status and
/// condition-flag bytes.
pub open spec fn psr_flags(value: u32) -> PSRFlags {
    PSRFlags { c: bit(value, 16), x: bit(value, 17), s: bit(value, 18), f: bit(value, 19) }
}

pub(crate) fn psr_flags_exec(value: u32) -> (r: PSRFlags)
    ensures
        r == psr_flags(value),
{
    PSRFlags {
        c: (value >> 16) & 1 == 1,
        x: (value >> 17) & 1 == 1,
        s: (value >> 18) & 1 == 1,
        f: (value >> 19) & 1 == 1,
    }
}

/// Decode of a processor-state change: bit 19 says whether the
/// interrupt-mask flags are touched and bit 17 whether a mode is set; at
/// least one must be, the fields of an absent part must be zero, and
/// bits 16, 5 and 15 to 9 are reserved.
pub open spec fn cps_decode(value: u32) -> Result<RegisterAccessInstruction, ParseError> {
    if (value >> 16) & 1 == 1 {
        Err(ParseError::InvalidMask { invalid_set_bytes: value & 0x10000 })
    } else if (value >> 9) & 0x7f != 0 {
        Err(ParseError::InvalidMask { invalid_set_bytes: value & 0xfe00 })
    } else if (value >> 5) & 1 == 1 {
        Err(ParseError::InvalidMask { invalid_set_bytes: value & 0x20 })
    } else if (value >> 19) & 1 == 0 && (value >> 18) & 1 == 1 {
        Err(ParseError::InvalidMask { invalid_set_bytes: value & 0x40000 })
    } else if (value >> 19) & 1 == 0 && (value >> 6) & 7 != 0 {
        Err(ParseError::InvalidMask { invalid_set_bytes: value & 0x1c0 })
    } else if (value >> 17) & 1 == 0 && value & 0x1f != 0 {
        Err(ParseError::InvalidMask { invalid_set_bytes: value & 0x1f })
    } else if (value >> 19) & 1 == 0 && (value >> 17) & 1 == 0 {
        Err(ParseError::InvalidMask { invalid_set_bytes: value })
    } else {
        let flags = if bit(value, 19) {
            Some(IFlags { a: bit(value, 8), i: bit(value, 7), f: bit(value, 6) })
        } else {
            None
        };
        let mode = if bit(value, 17) {
            Some((value & 0x1f) as u8)
        } else {
            None
        };
        Ok(RegisterAccessInstruction::CPS { flags, mode })
    }
}

/// Decode of the status-register access cell of the group-000
/// fixed-pattern space (bits 7 to 4 zero).  Bit 21 tells a register-form
/// MSR from an MRS; an MRS wants all ones in the first-operand field, all
/// zeros below the destination, and anything else there is a
/// processor-state change; bit 22 picks the saved status register.
pub open spec fn psr_reg_decode(value: u32) -> Result<RegisterAccessInstruction, ParseError> {
    if (value >> 21) & 1 == 0 {
        if (value >> 16) & 0xf == 0xf {
            if value & 0xfff != 0 {
                Err(ParseError::InvalidMask { invalid_set_bytes: value & 0xfff })
            } else {
                Ok(
                    RegisterAccessInstruction::MRS {
                        destination: reg_of((value >> 12) & 0xf),
                        is_spsr: bit(value, 22),
                    },
                )
            }
        } else if bit(value, 22) {
            Err(ParseError::InvalidMask { invalid_set_bytes: value })
        } else {
            cps_decode(value)
        }
    } else {
        if (value >> 12) & 0xf != 0xf {
            Err(ParseError::InvalidMask { invalid_set_bytes: (value ^ 0xf000) & 0xf000 })
        } else if (value >> 4) & 0xff != 0 {
            Err(ParseError::InvalidMask { invalid_set_bytes: value & 0xff0 })
        } else {
            Ok(
                RegisterAccessInstruction::MSR {
                    flags: psr_flags(value),
                    shifter_operand: ShifterOperand::Register(reg_of(value & 0xf)),
                    is_spsr: bit(value, 22),
                },
            )
        }
    }
}

/// Decode of an immediate-form MSR (group 001 with a compare-class opcode
/// and a clear S bit).  Bit 21 must be set: the immediate form has no
/// MRS.  The destination field wants all ones, and the 12 low bits hold a
/// rotated immediate.
pub open spec fn msr_imm_decode(value: u32) -> Result<RegisterAccessInstruction, ParseError> {
    if (value >> 21) & 1 == 0 {
        Err(ParseError::InvalidMask { invalid_set_bytes: value })
    } else if (value >> 12) & 0xf != 0xf {
        Err(ParseError::InvalidMask { invalid_set_bytes: (value ^ 0xf000) & 0xf000 })
    } else {
        Ok(
            RegisterAccessInstruction::MSR {
                flags: psr_flags(value),
                shifter_operand: ShifterOperand::Immediate(
                    rotated_imm(value & 0xff, (value >> 8) & 0xf),
                ),
                is_spsr: bit(value, 22),
            },
        )
    }
}

/// Reserved-bit sensitivity of the MRS decoder: a set bit among the
/// twelve must-be-zero low bits makes decoding fail.
pub proof fn lemma_mrs_reserved(value: u32)
    requires
        (value >> 21) & 1 == 0,
        (value >> 16) & 0xf == 0xf,
        value & 0xfff != 0,
    ensures
        psr_reg_decode(value) is Err,
{
}

/// Reserved-bit sensitivity of the register-form MSR decoder: a set bit
/// in the must-be-zero field at bits 11 to 4 makes decoding fail.
pub proof fn lemma_msr_reserved(value: u32)
    requires
        (value >> 21) & 1 == 1,
        (value >> 12) & 0xf == 0xf,
        (value >> 4) & 0xff != 0,
    ensures
        psr_reg_decode(value) is Err,
{
}

impl RegisterAccessInstruction {
    /// Decodes a processor-state-change word.
    pub fn new_cps(value: u32) -> (r: Result<RegisterAccessInstruction, ParseError>)
        ensures
            r == cps_decode(value),
    {
        if (value >> 16) & 1 == 1 {
            Err(ParseError::InvalidMask { invalid_set_bytes: value & 0x10000 })
        } else if (value >> 9) & 0x7f != 0 {
            Err(ParseError::InvalidMask { invalid_set_bytes: value & 0xfe00 })
        } else if (value >> 5) & 1 == 1 {
            Err(ParseError::InvalidMask { invalid_set_bytes: value & 0x20 })
        } else if (value >> 19) & 1 == 0 && (value >> 18) & 1 == 1 {
            Err(ParseError::InvalidMask { invalid_set_bytes: value & 0x40000 })
        } else if (value >> 19) & 1 == 0 && (value >> 6) & 7 != 0 {
            Err(ParseError::InvalidMask { invalid_set_bytes: value & 0x1c0 })
        } else if (value >> 17) & 1 == 0 && value & 0x1f != 0 {
            Err(ParseError::InvalidMask { invalid_set_bytes: value & 0x1f })
        } else if (value >> 19) & 1 == 0 && (value >> 17) & 1 == 0 {
            Err(ParseError::InvalidMask { invalid_set_bytes: value })
        } else {
            proof {
                lemma_mask_bound(value, 0x1f);
            }
            let flags = if (value >> 19) & 1 == 1 {
                Some(
                    IFlags {
                        a: (value >> 8) & 1 == 1,
                        i: (value >> 7) & 1 == 1,
                        f: (value >> 6) & 1 == 1,
                    },
                )
            } else {
                None
            };
            let mode = if (value >> 17) & 1 == 1 {
                Some((value & 0x1f) as u8)
            } else {
                None
            };
            Ok(RegisterAccessInstruction::CPS { flags, mode })
        }
    }

    /// Decodes a status-register access word of the group-000
    /// fixed-pattern space.
    pub fn new_psr(value: u32) -> (r: Result<RegisterAccessInstruction, ParseError>)
        ensures
            r == psr_reg_decode(value),
    {
        if (value >> 21) & 1 == 0 {
            if (value >> 16) & 0xf == 0xf {
                if value & 0xfff != 0 {
                    Err(ParseError::InvalidMask { invalid_set_bytes: value & 0xfff })
                } else {
                    Ok(
                        RegisterAccessInstruction::MRS {
                            destination: reg_at(value, 12),
                            is_spsr: (value >> 22) & 1 == 1,
                        },
                    )
                }
            } else if (value >> 22) & 1 == 1 {
                Err(ParseError::InvalidMask { invalid_set_bytes: value })
            } else {
                RegisterAccessInstruction::new_cps(value)
            }
        } else {
            if (value >> 12) & 0xf != 0xf {
                Err(ParseError::InvalidMask { invalid_set_bytes: (value ^ 0xf000) & 0xf000 })
            } else if (value >> 4) & 0xff != 0 {
                Err(ParseError::InvalidMask { invalid_set_bytes: value & 0xff0 })
            } else {
                proof {
                    lemma_mask_bound(value, 0xf);
                }
                Ok(
                    RegisterAccessInstruction::MSR {
                        flags: psr_flags_exec(value),
                        shifter_operand: ShifterOperand::Register(reg_table(value & 0xf)),
                        is_spsr: (value >> 22) & 1 == 1,
                    },
                )
            }
        }
    }

    /// Decodes an immediate-form MSR word.
    pub fn new_msr_immediate(value: u32) -> (r: Result<RegisterAccessInstruction, ParseError>)
        ensures
            r == msr_imm_decode(value),
    {
        if (value >> 21) & 1 == 0 {
            Err(ParseError::InvalidMask { invalid_set_bytes: value })
        } else if (value >> 12) & 0xf != 0xf {
            Err(ParseError::InvalidMask { invalid_set_bytes: (value ^ 0xf000) & 0xf000 })
        } else {
            proof {
                lemma_field_bound(value, 8, 0xf);
            }
            Ok(
                RegisterAccessInstruction::MSR {
                    flags: psr_flags_exec(value),
                    shifter_operand: ShifterOperand::Immediate(
                        rotate_imm_exec(value & 0xff, (value >> 8) & 0xf),
                    ),
                    is_spsr: (value >> 22) & 1 == 1,
                },
            )
        }
    }
}

} // verus!
