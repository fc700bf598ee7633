//! Semaphore instructions: the word and byte swaps.

use vstd::prelude::*;

use crate::bitfield::lemma_mask_bound;
use crate::errors::ParseError;
use crate::operands::{reg_at, reg_of, reg_table, Register};

verus! {

/// The semaphore instructions: atomic swaps between a register and
/// memory, with three pairwise-distinct register roles.
#[derive(Debug, Clone, Copy, PartialEq, Eq, Structural)]
pub enum SemaphoreInstruction {
    ///Swap a word.
    SWP { destination: Register, value: Register, mem: Register },
    ///Swap a byte.
    SWPB { destination: Register, value: Register, mem: Register },
}

/// Decode of a swap word (group 000, fixed `1001` pattern at bit 4,
/// bits 24 and 23 being `10`): the byte bit picks `SWPB`; bits 21, 20 and
/// the field at bits 11 to 8 must be zero.
pub open spec fn swp_decode(value: u32) -> Result<SemaphoreInstruction, ParseError> {
    if (value >> 20) & 3 != 0 {
        Err(ParseError::InvalidMask { invalid_set_bytes: value & 0x300000 })
    } else if (value >> 8) & 0xf != 0 {
        Err(ParseError::InvalidMask { invalid_set_bytes: value & 0xf00 })
    } else {
        let destination = reg_of((value >> 12) & 0xf);
        let moved = reg_of(value & 0xf);
        let mem = reg_of((value >> 16) & 0xf);
        if (value >> 22) & 1 == 1 {
            Ok(SemaphoreInstruction::SWPB { destination, value: moved, mem })
        } else {
            Ok(SemaphoreInstruction::SWP { destination, value: moved, mem })
        }
    }
}

/// Reserved-bit sensitivity of the swap decoder: a set bit in the
/// must-be-zero field at bits 11 to 8 (all other bits held fixed) makes
/// decoding fail, never a silently wrong swap.
pub proof fn lemma_swp_reserved(value: u32)
    requires
        (value >> 20) & 3 == 0,
        (value >> 8) & 0xf != 0,
    ensures
        swp_decode(value) is Err,
{
}

impl SemaphoreInstruction {
    /// Decodes a swap word.
    pub fn new(value: u32) -> (r: Result<SemaphoreInstruction, ParseError>)
        ensures
            r == swp_decode(value),
    {
        if (value >> 20) & 3 != 0 {
            Err(ParseError::InvalidMask { invalid_set_bytes: value & 0x300000 })
        } else if (value >> 8) & 0xf != 0 {
            Err(ParseError::InvalidMask { invalid_set_bytes: value & 0xf00 })
        } else {
            proof {
                lemma_mask_bound(value, 0xf);
            }
            let destination = reg_at(value, 12);
            let moved = reg_table(value & 0xf);
            let mem = reg_at(value, 16);
            if (value >> 22) & 1 == 1 {
                Ok(SemaphoreInstruction::SWPB { destination, value: moved, mem })
            } else {
                Ok(SemaphoreInstruction::SWP { destination, value: moved, mem })
            }
        }
    }
}

} // verus!
