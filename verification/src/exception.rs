//! Exception-generating instructions: software interrupt and breakpoint.

use vstd::prelude::*;

use crate::bitfield::{lemma_field_bound, lemma_mask_bound};
use crate::errors::ParseError;

verus! {

/// The exception-generating instructions.
#[derive(Debug, Clone, Copy, PartialEq, Eq, Structural)]
pub enum ExceptiongeneratingInstruction {
    ///Breakpoint, with its 16-bit immediate, split in the encoding across
    ///two fields.
    BKPT(u16),
    ///Software Interrupt, with its 24-bit comment field, not further
    ///interpreted.
    SWI(u32),
}

/// The breakpoint immediate: twelve high bits at bit 8 and four low bits
/// at bit 0.
pub open spec fn bkpt_imm(value: u32) -> u16 {
    ((((value >> 8) & 0xfff) * 16) + (value & 0xf)) as u16
}

/// Decode of a software-interrupt word (group 111 with bit 24 set): the
/// low 24 bits are the comment.
pub open spec fn swi_decode(value: u32) -> Result<ExceptiongeneratingInstruction, ParseError> {
    Ok(ExceptiongeneratingInstruction::SWI(value & 0xffffff))
}

impl ExceptiongeneratingInstruction {
    /// Decodes a software-interrupt word.
    pub fn new(value: u32) -> (r: Result<ExceptiongeneratingInstruction, ParseError>)
        ensures
            r == swi_decode(value),
    {
        Ok(ExceptiongeneratingInstruction::SWI(value & 0xffffff))
    }

    /// Decodes a breakpoint word's split 16-bit immediate.
    pub fn new_breakpoint(value: u32) -> (r: ExceptiongeneratingInstruction)
        ensures
            r == ExceptiongeneratingInstruction::BKPT(bkpt_imm(value)),
    {
        proof {
            lemma_field_bound(value, 8, 0xfff);
            lemma_mask_bound(value, 0xf);
        }
        let hi: u32 = (value >> 8) & 0xfff;
        let lo: u32 = value & 0xf;
        ExceptiongeneratingInstruction::BKPT((hi * 16 + lo) as u16)
    }
}

} // verus!
