//! Coprocessor instructions: data operations, one- and two-register
//! transfers, and coprocessor memory transfers.

use vstd::prelude::*;

use crate::bitfield::{bit, lemma_field_bound, lemma_mask_bound};
use crate::errors::ParseError;
use crate::operands::{
    coproc_at, coproc_of, creg_at, creg_of, creg_table, indexing_exec, indexing_of, reg_at, reg_of,
    sign_exec, sign_of, AddressingMode, Coprocessor, CRegister, Offset, Register,
};

verus! {

///Coprocessor Data Operations.
#[derive(Debug, Clone, Copy, PartialEq, Eq, Structural)]
pub struct CDP {
    pub coprocessor: Coprocessor,
    pub destination: CRegister,
    pub first_operand: CRegister,
    pub second_operand: CRegister,
    pub opcode_1: u8,
    pub opcode_2: u8,
}

///Load Coprocessor Register.
#[derive(Debug, Clone, Copy, PartialEq, Eq, Structural)]
pub struct LDC {
    pub coprocessor: Coprocessor,
    pub long_load: bool,
    pub destination: CRegister,
    pub addressing_mode: AddressingMode,
}

///Move to Coprocessor from ARM Register.
#[derive(Debug, Clone, Copy, PartialEq, Eq, Structural)]
pub struct MCR {
    pub coprocessor: Coprocessor,
    pub value: Register,
    pub destination: CRegister,
    pub additional_destination: CRegister,
    pub opcode_1: u8,
    pub opcode_2: u8,
}

///Move to Coprocessor from two ARM Registers.
#[derive(Debug, Clone, Copy, PartialEq, Eq, Structural)]
pub struct MCRR {
    pub coprocessor: Coprocessor,
    pub opcode: u8,
    pub first_register: Register,
    pub second_register: Register,
    pub destination: CRegister,
}

///Move to ARM Register from Coprocessor.
#[derive(Debug, Clone, Copy, PartialEq, Eq, Structural)]
pub struct MRC {
    pub coprocessor: Coprocessor,
    pub value: Register,
    pub destination: CRegister,
    pub additional_destination: CRegister,
    pub opcode_1: u8,
    pub opcode_2: u8,
}

///Move to two ARM Registers from Coprocessor.
#[derive(Debug, Clone, Copy, PartialEq, Eq, Structural)]
pub struct MRRC {
    pub coprocessor: Coprocessor,
    pub opcode: u8,
    pub first_register: Register,
    pub second_register: Register,
    pub destination: CRegister,
}

///Store Coprocessor Register.
#[derive(Debug, Clone, Copy, PartialEq, Eq, Structural)]
pub struct STC {
    pub coprocessor: Coprocessor,
    pub long_store: bool,
    pub source: CRegister,
    pub addressing_mode: AddressingMode,
}

/// The coprocessor instructions.
#[derive(Debug, Clone, Copy, PartialEq, Eq, Structural)]
pub enum CoprocessorInstruction {
    CDP(CDP),
    LDC(LDC),
    MCR(MCR),
    MCRR(MCRR),
    MRC(MRC),
    MRRC(MRRC),
    STC(STC),
}

/// Decode of a coprocessor data operation (group 111, bits 24 and 4
/// clear): two 4-bit opcode-sized fields, three coprocessor registers and
/// the unit.
pub open spec fn cdp_decode(value: u32) -> CDP {
    CDP {
        coprocessor: coproc_of((value >> 8) & 0xf),
        destination: creg_of((value >> 12) & 0xf),
        first_operand: creg_of((value >> 16) & 0xf),
        second_operand: creg_of(value & 0xf),
        opcode_1: (((value >> 20) & 0xf) as u8),
        opcode_2: (((value >> 5) & 7) as u8),
    }
}

/// Decode of the register-transfer fields shared by `MCR` and `MRC`
/// (group 111, bit 24 clear, bit 4 set).
pub open spec fn mcr_fields(value: u32) -> MCR {
    MCR {
        coprocessor: coproc_of((value >> 8) & 0xf),
        value: reg_of((value >> 12) & 0xf),
        destination: creg_of((value >> 16) & 0xf),
        additional_destination: creg_of(value & 0xf),
        opcode_1: (((value >> 21) & 7) as u8),
        opcode_2: (((value >> 5) & 7) as u8),
    }
}

/// Decode of the register-transfer fields, read as the load direction.
pub open spec fn mrc_fields(value: u32) -> MRC {
    MRC {
        coprocessor: coproc_of((value >> 8) & 0xf),
        value: reg_of((value >> 12) & 0xf),
        destination: creg_of((value >> 16) & 0xf),
        additional_destination: creg_of(value & 0xf),
        opcode_1: (((value >> 21) & 7) as u8),
        opcode_2: (((value >> 5) & 7) as u8),
    }
}

/// Decode of the two-register-transfer fields shared by `MCRR` and `MRRC`
/// (group 110 with bits 24 to 21 being `0010`).
pub open spec fn mcrr_fields(value: u32) -> MCRR {
    MCRR {
        coprocessor: coproc_of((value >> 8) & 0xf),
        opcode: (((value >> 4) & 0xf) as u8),
        first_register: reg_of((value >> 12) & 0xf),
        second_register: reg_of((value >> 16) & 0xf),
        destination: creg_of(value & 0xf),
    }
}

/// Decode of the two-register-transfer fields, read as the load direction.
pub open spec fn mrrc_fields(value: u32) -> MRRC {
    MRRC {
        coprocessor: coproc_of((value >> 8) & 0xf),
        opcode: (((value >> 4) & 0xf) as u8),
        first_register: reg_of((value >> 12) & 0xf),
        second_register: reg_of((value >> 16) & 0xf),
        destination: creg_of(value & 0xf),
    }
}

/// Decode of the memory-transfer addressing of `LDC` and `STC`: the 8-bit
/// immediate counts words, and the P, U and W bits read as in the
/// single-register transfers.
pub open spec fn coprocessor_addressing(value: u32) -> AddressingMode {
    AddressingMode {
        base: reg_of((value >> 16) & 0xf),
        offset: Offset::Immediate((((value & 0xff) * 4) as u32)),
        sign: sign_of(bit(value, 23)),
        indexing: indexing_of(bit(value, 24)),
        writeback: bit(value, 21),
    }
}

/// Decode of the coprocessor-load fields.
pub open spec fn ldc_fields(value: u32) -> LDC {
    LDC {
        coprocessor: coproc_of((value >> 8) & 0xf),
        long_load: bit(value, 22),
        destination: creg_of((value >> 12) & 0xf),
        addressing_mode: coprocessor_addressing(value),
    }
}

/// Decode of the coprocessor-store fields.
pub open spec fn stc_fields(value: u32) -> STC {
    STC {
        coprocessor: coproc_of((value >> 8) & 0xf),
        long_store: bit(value, 22),
        source: creg_of((value >> 12) & 0xf),
        addressing_mode: coprocessor_addressing(value),
    }
}

/// Decode of a coprocessor word of group 111 with bit 24 clear: bit 4
/// picks a register transfer over a data operation, and bit 20 the
/// transfer's direction.
pub open spec fn coprocessor_decode(value: u32, is_transfer: bool) -> Result<
    CoprocessorInstruction,
    ParseError,
> {
    if is_transfer {
        if (value >> 20) & 1 == 1 {
            Ok(CoprocessorInstruction::MRC(mrc_fields(value)))
        } else {
            Ok(CoprocessorInstruction::MCR(mcr_fields(value)))
        }
    } else {
        Ok(CoprocessorInstruction::CDP(cdp_decode(value)))
    }
}

/// Decode of a coprocessor word of group 110: the `0010` pattern at
/// bits 24 to 21 gives the two-register transfers, anything else a memory
/// transfer, with bit 20 picking the direction either way.
pub open spec fn coprocessor_mem_decode(value: u32) -> Result<CoprocessorInstruction, ParseError> {
    if (value >> 21) & 0xf == 2 {
        if (value >> 20) & 1 == 1 {
            Ok(CoprocessorInstruction::MRRC(mrrc_fields(value)))
        } else {
            Ok(CoprocessorInstruction::MCRR(mcrr_fields(value)))
        }
    } else if (value >> 20) & 1 == 1 {
        Ok(CoprocessorInstruction::LDC(ldc_fields(value)))
    } else {
        Ok(CoprocessorInstruction::STC(stc_fields(value)))
    }
}

impl CDP {
    /// Decodes the data-operation fields.
    pub fn new(value: u32) -> (r: Result<CDP, ParseError>)
        ensures
            r == Ok::<CDP, ParseError>(cdp_decode(value)),
    {
        proof {
            lemma_field_bound(value, 20, 0xf);
            lemma_field_bound(value, 5, 7);
            lemma_mask_bound(value, 0xf);
        }
        Ok(
            CDP {
                coprocessor: coproc_at(value, 8),
                destination: creg_at(value, 12),
                first_operand: creg_at(value, 16),
                second_operand: creg_table(value & 0xf),
                opcode_1: ((value >> 20) & 0xf) as u8,
                opcode_2: ((value >> 5) & 7) as u8,
            },
        )
    }
}

impl MCR {
    /// Decodes the register-transfer fields.
    pub fn new(value: u32) -> (r: Result<MCR, ParseError>)
        ensures
            r == Ok::<MCR, ParseError>(mcr_fields(value)),
    {
        proof {
            lemma_field_bound(value, 21, 7);
            lemma_field_bound(value, 5, 7);
            lemma_mask_bound(value, 0xf);
        }
        Ok(
            MCR {
                coprocessor: coproc_at(value, 8),
                value: reg_at(value, 12),
                destination: creg_at(value, 16),
                additional_destination: creg_table(value & 0xf),
                opcode_1: ((value >> 21) & 7) as u8,
                opcode_2: ((value >> 5) & 7) as u8,
            },
        )
    }
}

impl MRC {
    /// Decodes the register-transfer fields, read as the load direction.
    pub fn new(value: u32) -> (r: Result<MRC, ParseError>)
        ensures
            r == Ok::<MRC, ParseError>(mrc_fields(value)),
    {
        proof {
            lemma_field_bound(value, 21, 7);
            lemma_field_bound(value, 5, 7);
            lemma_mask_bound(value, 0xf);
        }
        Ok(
            MRC {
                coprocessor: coproc_at(value, 8),
                value: reg_at(value, 12),
                destination: creg_at(value, 16),
                additional_destination: creg_table(value & 0xf),
                opcode_1: ((value >> 21) & 7) as u8,
                opcode_2: ((value >> 5) & 7) as u8,
            },
        )
    }
}

impl MCRR {
    /// Decodes the two-register-transfer fields.
    pub fn new(value: u32) -> (r: Result<MCRR, ParseError>)
        ensures
            r == Ok::<MCRR, ParseError>(mcrr_fields(value)),
    {
        proof {
            lemma_field_bound(value, 4, 0xf);
            lemma_mask_bound(value, 0xf);
        }
        Ok(
            MCRR {
                coprocessor: coproc_at(value, 8),
                opcode: ((value >> 4) & 0xf) as u8,
                first_register: reg_at(value, 12),
                second_register: reg_at(value, 16),
                destination: creg_table(value & 0xf),
            },
        )
    }
}

impl MRRC {
    /// Decodes the two-register-transfer fields, read as the load
    /// direction.
    pub fn new(value: u32) -> (r: Result<MRRC, ParseError>)
        ensures
            r == Ok::<MRRC, ParseError>(mrrc_fields(value)),
    {
        proof {
            lemma_field_bound(value, 4, 0xf);
            lemma_mask_bound(value, 0xf);
        }
        Ok(
            MRRC {
                coprocessor: coproc_at(value, 8),
                opcode: ((value >> 4) & 0xf) as u8,
                first_register: reg_at(value, 12),
                second_register: reg_at(value, 16),
                destination: creg_table(value & 0xf),
            },
        )
    }
}

/// Computes the memory-transfer addressing mode.
pub(crate) fn coprocessor_addressing_exec(value: u32) -> (r: AddressingMode)
    ensures
        r == coprocessor_addressing(value),
{
    proof {
        lemma_mask_bound(value, 0xff);
    }
    AddressingMode {
        base: reg_at(value, 16),
        offset: Offset::Immediate((value & 0xff) * 4),
        sign: sign_exec((value >> 23) & 1 == 1),
        indexing: indexing_exec((value >> 24) & 1 == 1),
        writeback: (value >> 21) & 1 == 1,
    }
}

impl LDC {
    /// Decodes the coprocessor-load fields.
    pub fn new(value: u32) -> (r: Result<LDC, ParseError>)
        ensures
            r == Ok::<LDC, ParseError>(ldc_fields(value)),
    {
        Ok(
            LDC {
                coprocessor: coproc_at(value, 8),
                long_load: (value >> 22) & 1 == 1,
                destination: creg_at(value, 12),
                addressing_mode: coprocessor_addressing_exec(value),
            },
        )
    }
}

impl STC {
    /// Decodes the coprocessor-store fields.
    pub fn new(value: u32) -> (r: Result<STC, ParseError>)
        ensures
            r == Ok::<STC, ParseError>(stc_fields(value)),
    {
        Ok(
            STC {
                coprocessor: coproc_at(value, 8),
                long_store: (value >> 22) & 1 == 1,
                source: creg_at(value, 12),
                addressing_mode: coprocessor_addressing_exec(value),
            },
        )
    }
}

impl CoprocessorInstruction {
    /// Decodes a coprocessor word of group 111 with bit 24 clear;
    /// `is_transfer` carries the dispatcher's bit-4 test.
    pub fn new(value: u32, is_transfer: bool) -> (r: Result<CoprocessorInstruction, ParseError>)
        ensures
            r == coprocessor_decode(value, is_transfer),
    {
        if is_transfer {
            if (value >> 20) & 1 == 1 {
                match MRC::new(value) {
                    Ok(m) => Ok(CoprocessorInstruction::MRC(m)),
                    Err(e) => Err(e),
                }
            } else {
                match MCR::new(value) {
                    Ok(m) => Ok(CoprocessorInstruction::MCR(m)),
                    Err(e) => Err(e),
                }
            }
        } else {
            match CDP::new(value) {
                Ok(c) => Ok(CoprocessorInstruction::CDP(c)),
                Err(e) => Err(e),
            }
        }
    }

    /// Decodes a coprocessor word of group 110: a two-register transfer
    /// or a memory transfer.
    pub fn new_mem(value: u32) -> (r: Result<CoprocessorInstruction, ParseError>)
        ensures
            r == coprocessor_mem_decode(value),
    {
        proof {
            lemma_field_bound(value, 21, 0xf);
        }
        if (value >> 21) & 0xf == 2 {
            if (value >> 20) & 1 == 1 {
                match MRRC::new(value) {
                    Ok(m) => Ok(CoprocessorInstruction::MRRC(m)),
                    Err(e) => Err(e),
                }
            } else {
                match MCRR::new(value) {
                    Ok(m) => Ok(CoprocessorInstruction::MCRR(m)),
                    Err(e) => Err(e),
                }
            }
        } else if (value >> 20) & 1 == 1 {
            match LDC::new(value) {
                Ok(l) => Ok(CoprocessorInstruction::LDC(l)),
                Err(e) => Err(e),
            }
        } else {
            match STC::new(value) {
                Ok(s) => Ok(CoprocessorInstruction::STC(s)),
                Err(e) => Err(e),
            }
        }
    }
}

} // verus!
