//! The decode engine's trunk: the category dispatcher over the major
//! opcode group and its disambiguating bits, and the top-level decoder
//! over the condition field.

use vstd::prelude::*;

use crate::arithmetic::{
    clz_decode, dsp_decode, media_decode, AritmaticInstruction, AritmeticInstruction,
};
use crate::bitfield::{bit, extract, lemma_field_bound};
use crate::branch::{b_bl_decode, bx_blx_decode, BranchInstruction};
use crate::coprocessor::{coprocessor_decode, coprocessor_mem_decode, CoprocessorInstruction};
use crate::dataprocessing::{dp_decode, DataProssessingInstruction};
use crate::errors::ParseError;
use crate::exception::{bkpt_imm, swi_decode, ExceptiongeneratingInstruction};
use crate::loadstore::{
    exclusive_decode, extra_ls_decode, multiple_decode, single_ls_decode, LoadAndStoreInstruction,
    LoadAndStoreMultiple,
};
use crate::multiply::{halfword_mul_decode, mul_decode, MultiplyInstruction};
use crate::operands::{cond_of, cond_table, Cond};
use crate::register_access::{msr_imm_decode, psr_reg_decode, RegisterAccessInstruction};
use crate::semaphore::{swp_decode, SemaphoreInstruction};
use crate::unconditional::{uncond_decode, UnconditionalInstruction};

verus! {

/// One decoded instruction body: exactly one category is populated.
#[derive(Debug, Clone, Copy, PartialEq, Eq, Structural)]
pub enum PartialInstruction {
    Branch(BranchInstruction),
    DataProssessing(DataProssessingInstruction),
    Multiply(MultiplyInstruction),
    Aritmetic(AritmeticInstruction),
    Media(AritmaticInstruction),
    LoadAndStore(LoadAndStoreInstruction),
    Semaphore(SemaphoreInstruction),
    Exceptiongenerating(ExceptiongeneratingInstruction),
    Coprocessor(CoprocessorInstruction),
    RegisterAccess(RegisterAccessInstruction),
}

/// A decoded conditional instruction: its condition and its body.
#[derive(Debug, Clone, Copy, PartialEq, Eq, Structural)]
pub struct Instruction {
    pub cond: Cond,
    pub partial: PartialInstruction,
}

/// A decoded word: a conditional instruction, or an instruction of the
/// unconditional extension space.
#[derive(Debug, Clone, Copy, PartialEq, Eq, Structural)]
pub enum ArmInstruction {
    Conditional(Instruction),
    Unconditional(UnconditionalInstruction),
}

/// Decode of the fixed-pattern space of group 000 outside the
/// multiply/extra-transfer patterns: bits 24 and 23 are `10` and the S
/// bit is clear.  The field at bits 7 to 4 picks the family.
pub open spec fn misc_decode(value: u32) -> Result<PartialInstruction, ParseError> {
    let op74 = (value >> 4) & 0xf;
    let sub = (value >> 21) & 3;
    if op74 == 0 {
        match psr_reg_decode(value) {
            Ok(i) => Ok(PartialInstruction::RegisterAccess(i)),
            Err(e) => Err(e),
        }
    } else if op74 == 1 {
        if sub == 1 {
            match bx_blx_decode(value, false) {
                Ok(i) => Ok(PartialInstruction::Branch(i)),
                Err(e) => Err(e),
            }
        } else if sub == 3 {
            match clz_decode(value) {
                Ok(i) => Ok(PartialInstruction::Aritmetic(i)),
                Err(e) => Err(e),
            }
        } else {
            Err(ParseError::InvalidMask { invalid_set_bytes: value })
        }
    } else if op74 == 3 {
        if sub == 1 {
            match bx_blx_decode(value, true) {
                Ok(i) => Ok(PartialInstruction::Branch(i)),
                Err(e) => Err(e),
            }
        } else {
            Err(ParseError::InvalidMask { invalid_set_bytes: value })
        }
    } else if op74 == 5 {
        match dsp_decode(value) {
            Ok(i) => Ok(PartialInstruction::Aritmetic(i)),
            Err(e) => Err(e),
        }
    } else if op74 == 7 {
        if sub == 1 {
            Ok(
                PartialInstruction::Exceptiongenerating(
                    ExceptiongeneratingInstruction::BKPT(bkpt_imm(value)),
                ),
            )
        } else {
            Err(ParseError::InvalidMask { invalid_set_bytes: value })
        }
    } else if bit(value, 7) && !bit(value, 4) {
        match halfword_mul_decode(value) {
            Ok(i) => Ok(PartialInstruction::Multiply(i)),
            Err(e) => Err(e),
        }
    } else {
        Err(ParseError::InvalidMask { invalid_set_bytes: value })
    }
}

/// Decode of major group 000: the `1001` pattern at bit 4 gives the
/// multiplies, swaps and exclusives, the other set-bit-7-and-4 patterns
/// the halfword and doubleword transfers; the compare-class opcodes with
/// a clear S bit give the fixed-pattern space; the rest is register-form
/// data processing.
pub open spec fn group0_decode(value: u32) -> Result<PartialInstruction, ParseError> {
    if bit(value, 4) && bit(value, 7) {
        if (value >> 5) & 3 == 0 {
            let hi2 = (value >> 23) & 3;
            if hi2 == 2 {
                match swp_decode(value) {
                    Ok(i) => Ok(PartialInstruction::Semaphore(i)),
                    Err(e) => Err(e),
                }
            } else if hi2 == 3 {
                match exclusive_decode(value) {
                    Ok(i) => Ok(PartialInstruction::LoadAndStore(i)),
                    Err(e) => Err(e),
                }
            } else {
                match mul_decode(value) {
                    Ok(i) => Ok(PartialInstruction::Multiply(i)),
                    Err(e) => Err(e),
                }
            }
        } else {
            match extra_ls_decode(value) {
                Ok(i) => Ok(PartialInstruction::LoadAndStore(i)),
                Err(e) => Err(e),
            }
        }
    } else if (value >> 23) & 3 == 2 && (value >> 20) & 1 == 0 {
        misc_decode(value)
    } else {
        match dp_decode(value, false) {
            Ok(i) => Ok(PartialInstruction::DataProssessing(i)),
            Err(e) => Err(e),
        }
    }
}

/// Decode of major group 001: the compare-class opcodes with a clear S
/// bit give the immediate MSR; the rest is immediate-form data
/// processing.
pub open spec fn group1_decode(value: u32) -> Result<PartialInstruction, ParseError> {
    if (value >> 23) & 3 == 2 && (value >> 20) & 1 == 0 {
        match msr_imm_decode(value) {
            Ok(i) => Ok(PartialInstruction::RegisterAccess(i)),
            Err(e) => Err(e),
        }
    } else {
        match dp_decode(value, true) {
            Ok(i) => Ok(PartialInstruction::DataProssessing(i)),
            Err(e) => Err(e),
        }
    }
}

/// Decode of the low 28 bits of a conditional word: dispatch over the
/// 3-bit major group and the secondary disambiguating bits.  Bits above
/// bit 27 must already be clear.
pub open spec fn partial_decode(value: u32) -> Result<PartialInstruction, ParseError> {
    if value & 0xf0000000 != 0 {
        Err(ParseError::InvalidMask { invalid_set_bytes: value & 0xf0000000 })
    } else {
        let group = (value >> 25) & 7;
        if group == 0 {
            group0_decode(value)
        } else if group == 1 {
            group1_decode(value)
        } else if group == 2 {
            match single_ls_decode(value) {
                Ok(i) => Ok(PartialInstruction::LoadAndStore(i)),
                Err(e) => Err(e),
            }
        } else if group == 3 {
            if bit(value, 4) {
                match media_decode(value) {
                    Ok(i) => Ok(PartialInstruction::Media(i)),
                    Err(e) => Err(e),
                }
            } else {
                match single_ls_decode(value) {
                    Ok(i) => Ok(PartialInstruction::LoadAndStore(i)),
                    Err(e) => Err(e),
                }
            }
        } else if group == 4 {
            match multiple_decode(value) {
                Ok(i) => Ok(
                    PartialInstruction::LoadAndStore(LoadAndStoreInstruction::Multiple(i)),
                ),
                Err(e) => Err(e),
            }
        } else if group == 5 {
            Ok(PartialInstruction::Branch(b_bl_decode(value)))
        } else if group == 6 {
            match coprocessor_mem_decode(value) {
                Ok(i) => Ok(PartialInstruction::Coprocessor(i)),
                Err(e) => Err(e),
            }
        } else {
            if bit(value, 24) {
                match swi_decode(value) {
                    Ok(i) => Ok(PartialInstruction::Exceptiongenerating(i)),
                    Err(e) => Err(e),
                }
            } else {
                match coprocessor_decode(value, bit(value, 4)) {
                    Ok(i) => Ok(PartialInstruction::Coprocessor(i)),
                    Err(e) => Err(e),
                }
            }
        }
    }
}

/// Decode of a whole 32-bit word: the condition field routes either into
/// the unconditional extension space or through the category dispatcher,
/// whose result it wraps.
pub open spec fn arm_decode(w: u32) -> Result<ArmInstruction, ParseError> {
    let c = (w >> 28) & 0xf;
    if c == 15 {
        match uncond_decode(w & 0xfffffff) {
            Ok(u) => Ok(ArmInstruction::Unconditional(u)),
            Err(e) => Err(e),
        }
    } else {
        match partial_decode(w & 0xfffffff) {
            Ok(p) => Ok(
                ArmInstruction::Conditional(Instruction { cond: cond_of(c), partial: p }),
            ),
            Err(e) => Err(e),
        }
    }
}

/// Decodes the fixed-pattern space of group 000.
fn misc_exec(value: u32) -> (r: Result<PartialInstruction, ParseError>)
    ensures
        r == misc_decode(value),
{
    proof {
        lemma_field_bound(value, 4, 0xf);
    }
    let op74: u32 = (value >> 4) & 0xf;
    let sub: u32 = (value >> 21) & 3;
    if op74 == 0 {
        match RegisterAccessInstruction::new_psr(value) {
            Ok(i) => Ok(PartialInstruction::RegisterAccess(i)),
            Err(e) => Err(e),
        }
    } else if op74 == 1 {
        if sub == 1 {
            match BranchInstruction::new_exchange(value, false) {
                Ok(i) => Ok(PartialInstruction::Branch(i)),
                Err(e) => Err(e),
            }
        } else if sub == 3 {
            match AritmeticInstruction::new_clz(value) {
                Ok(i) => Ok(PartialInstruction::Aritmetic(i)),
                Err(e) => Err(e),
            }
        } else {
            Err(ParseError::InvalidMask { invalid_set_bytes: value })
        }
    } else if op74 == 3 {
        if sub == 1 {
            match BranchInstruction::new_exchange(value, true) {
                Ok(i) => Ok(PartialInstruction::Branch(i)),
                Err(e) => Err(e),
            }
        } else {
            Err(ParseError::InvalidMask { invalid_set_bytes: value })
        }
    } else if op74 == 5 {
        match AritmeticInstruction::new(value) {
            Ok(i) => Ok(PartialInstruction::Aritmetic(i)),
            Err(e) => Err(e),
        }
    } else if op74 == 7 {
        if sub == 1 {
            Ok(
                PartialInstruction::Exceptiongenerating(
                    ExceptiongeneratingInstruction::new_breakpoint(value),
                ),
            )
        } else {
            Err(ParseError::InvalidMask { invalid_set_bytes: value })
        }
    } else if (value >> 7) & 1 == 1 && !((value >> 4) & 1 == 1) {
        match MultiplyInstruction::new_halfword(value) {
            Ok(i) => Ok(PartialInstruction::Multiply(i)),
            Err(e) => Err(e),
        }
    } else {
        Err(ParseError::InvalidMask { invalid_set_bytes: value })
    }
}

/// Decodes major group 000.
fn group0_exec(value: u32) -> (r: Result<PartialInstruction, ParseError>)
    ensures
        r == group0_decode(value),
{
    if (value >> 4) & 1 == 1 && (value >> 7) & 1 == 1 {
        if (value >> 5) & 3 == 0 {
            let hi2: u32 = (value >> 23) & 3;
            if hi2 == 2 {
                match SemaphoreInstruction::new(value) {
                    Ok(i) => Ok(PartialInstruction::Semaphore(i)),
                    Err(e) => Err(e),
                }
            } else if hi2 == 3 {
                match LoadAndStoreInstruction::new_exclusive(value) {
                    Ok(i) => Ok(PartialInstruction::LoadAndStore(i)),
                    Err(e) => Err(e),
                }
            } else {
                match MultiplyInstruction::new(value) {
                    Ok(i) => Ok(PartialInstruction::Multiply(i)),
                    Err(e) => Err(e),
                }
            }
        } else {
            match LoadAndStoreInstruction::new_extra(value) {
                Ok(i) => Ok(PartialInstruction::LoadAndStore(i)),
                Err(e) => Err(e),
            }
        }
    } else if (value >> 23) & 3 == 2 && (value >> 20) & 1 == 0 {
        misc_exec(value)
    } else {
        match DataProssessingInstruction::new(value, false) {
            Ok(i) => Ok(PartialInstruction::DataProssessing(i)),
            Err(e) => Err(e),
        }
    }
}

/// Decodes major group 001.
fn group1_exec(value: u32) -> (r: Result<PartialInstruction, ParseError>)
    ensures
        r == group1_decode(value),
{
    if (value >> 23) & 3 == 2 && (value >> 20) & 1 == 0 {
        match RegisterAccessInstruction::new_msr_immediate(value) {
            Ok(i) => Ok(PartialInstruction::RegisterAccess(i)),
            Err(e) => Err(e),
        }
    } else {
        match DataProssessingInstruction::new(value, true) {
            Ok(i) => Ok(PartialInstruction::DataProssessing(i)),
            Err(e) => Err(e),
        }
    }
}

impl PartialInstruction {
    /// Decodes the low 28 bits of a conditional word; bits above bit 27
    /// must be clear, else the decode fails with exactly those bits.
    pub fn decode(value: u32) -> (r: Result<PartialInstruction, ParseError>)
        ensures
            r == partial_decode(value),
    {
        if value & 0xf0000000 != 0 {
            return Err(ParseError::InvalidMask { invalid_set_bytes: value & 0xf0000000 });
        }
        proof {
            lemma_field_bound(value, 25, 7);
        }
        let group: u32 = (value >> 25) & 7;
        if group == 0 {
            group0_exec(value)
        } else if group == 1 {
            group1_exec(value)
        } else if group == 2 {
            match LoadAndStoreInstruction::new(value) {
                Ok(i) => Ok(PartialInstruction::LoadAndStore(i)),
                Err(e) => Err(e),
            }
        } else if group == 3 {
            if (value >> 4) & 1 == 1 {
                match AritmaticInstruction::new(value) {
                    Ok(i) => Ok(PartialInstruction::Media(i)),
                    Err(e) => Err(e),
                }
            } else {
                match LoadAndStoreInstruction::new(value) {
                    Ok(i) => Ok(PartialInstruction::LoadAndStore(i)),
                    Err(e) => Err(e),
                }
            }
        } else if group == 4 {
            match LoadAndStoreMultiple::new(value) {
                Ok(i) => Ok(PartialInstruction::LoadAndStore(LoadAndStoreInstruction::Multiple(i))),
                Err(e) => Err(e),
            }
        } else if group == 5 {
            Ok(PartialInstruction::Branch(BranchInstruction::new(value)))
        } else if group == 6 {
            match CoprocessorInstruction::new_mem(value) {
                Ok(i) => Ok(PartialInstruction::Coprocessor(i)),
                Err(e) => Err(e),
            }
        } else {
            if (value >> 24) & 1 == 1 {
                match ExceptiongeneratingInstruction::new(value) {
                    Ok(i) => Ok(PartialInstruction::Exceptiongenerating(i)),
                    Err(e) => Err(e),
                }
            } else {
                match CoprocessorInstruction::new(value, (value >> 4) & 1 == 1) {
                    Ok(i) => Ok(PartialInstruction::Coprocessor(i)),
                    Err(e) => Err(e),
                }
            }
        }
    }
}

impl ArmInstruction {
    /// Decodes one 32-bit word.  The result is a function of the word
    /// alone: decoding the same word again yields the same result.
    pub fn decode(w: u32) -> (r: Result<ArmInstruction, ParseError>)
        ensures
            r == arm_decode(w),
    {
        let c: u32 = extract(w, 28, 0xf);
        if c == 15 {
            match UnconditionalInstruction::new(w & 0xfffffff) {
                Ok(u) => Ok(ArmInstruction::Unconditional(u)),
                Err(e) => Err(e),
            }
        } else {
            match PartialInstruction::decode(w & 0xfffffff) {
                Ok(p) => Ok(
                    ArmInstruction::Conditional(Instruction { cond: cond_table(c), partial: p }),
                ),
                Err(e) => Err(e),
            }
        }
    }
}

/// Decoding is deterministic: the decode of a word is a function of the
/// word alone, so equal words decode to equal results.
pub proof fn lemma_decode_deterministic(w1: u32, w2: u32)
    requires
        w1 == w2,
    ensures
        arm_decode(w1) == arm_decode(w2),
{
}

/// For a word whose condition field is not 15, a successful decode
/// carries exactly the documented table entry for that field as its
/// condition.
pub proof fn lemma_condition_table(w: u32)
    requires
        (w >> 28) & 0xf != 15,
    ensures
        arm_decode(w) matches Ok(i) ==> i matches ArmInstruction::Conditional(inst) && inst.cond
            == cond_of((w >> 28) & 0xf),
{
}

} // verus!
