//! Branch instructions: PC-relative branches with a signed 24-bit word
//! offset, and the register-target exchange branches.

use vstd::prelude::*;

use crate::bitfield::lemma_mask_bound;
use crate::errors::ParseError;
use crate::operands::{reg_of, reg_table, Register, RelativeAdress};

verus! {

/// The branch instructions.
#[derive(Debug, Clone, Copy, PartialEq, Eq, Structural)]
pub enum BranchInstruction {
    ///Branch: a signed byte offset relative to the following instruction's
    ///address plus one word.
    B(RelativeAdress),
    ///Branch with Link: as `B`, and the return address is kept.
    BL(RelativeAdress),
    ///Branch with Link and Exchange: the target address is in a register.
    BLX(Register),
    ///Branch and Exchange Instruction Set: the target address is in a
    ///register.
    BX(Register),
}

/// The 24-bit branch immediate sign-extended and shifted left by two:
/// a byte offset in whole words.
pub open spec fn branch_offset(imm24: u32) -> int {
    if imm24 < 0x800000 {
        imm24 * 4
    } else {
        (imm24 - 0x1000000) * 4
    }
}

/// Decode of a branch word (group 101): the link bit picks `BL` over `B`,
/// and the low 24 bits give the signed word offset.
pub open spec fn b_bl_decode(value: u32) -> BranchInstruction {
    let off = RelativeAdress(branch_offset(value & 0xffffff) as i32);
    if (value >> 24) & 1 == 1 {
        BranchInstruction::BL(off)
    } else {
        BranchInstruction::B(off)
    }
}

/// Decode of a register-target branch out of the group-000 fixed-pattern
/// space: `link` picks `BLX` over `BX`; the twelve bits between the fixed
/// pattern and the register must all be one.
pub open spec fn bx_blx_decode(value: u32, link: bool) -> Result<BranchInstruction, ParseError> {
    if (value >> 8) & 0xfff != 0xfff {
        Err(ParseError::InvalidMask { invalid_set_bytes: (value ^ 0xfff00) & 0xfff00 })
    } else if link {
        Ok(BranchInstruction::BLX(reg_of(value & 0xf)))
    } else {
        Ok(BranchInstruction::BX(reg_of(value & 0xf)))
    }
}

/// Reserved-bit sensitivity of the exchange-branch decoder: the twelve
/// bits above the register field must hold all ones, and any other value
/// there makes decoding fail.
pub proof fn lemma_bx_reserved(value: u32, link: bool)
    requires
        (value >> 8) & 0xfff != 0xfff,
    ensures
        bx_blx_decode(value, link) is Err,
{
}

/// Computes the signed byte offset of the 24-bit branch immediate.
pub(crate) fn branch_offset_exec(imm24: u32) -> (r: i32)
    requires
        imm24 < 0x1000000,
    ensures
        r as int == branch_offset(imm24),
{
    if imm24 < 0x800000 {
        (imm24 * 4) as i32
    } else {
        let magnitude: u32 = (0x1000000 - imm24) * 4;
        -(magnitude as i32)
    }
}

impl BranchInstruction {
    /// Decodes a `B`/`BL` word.
    pub fn new(value: u32) -> (r: BranchInstruction)
        ensures
            r == b_bl_decode(value),
    {
        proof {
            lemma_mask_bound(value, 0xffffff);
        }
        let off = RelativeAdress(branch_offset_exec(value & 0xffffff));
        if (value >> 24) & 1 == 1 {
            BranchInstruction::BL(off)
        } else {
            BranchInstruction::B(off)
        }
    }

    /// Decodes a `BX`/`BLX` word out of the group-000 fixed-pattern space.
    pub fn new_exchange(value: u32, link: bool) -> (r: Result<BranchInstruction, ParseError>)
        ensures
            r == bx_blx_decode(value, link),
    {
        proof {
            lemma_mask_bound(value, 0xf);
        }
        if (value >> 8) & 0xfff != 0xfff {
            Err(ParseError::InvalidMask { invalid_set_bytes: (value ^ 0xfff00) & 0xfff00 })
        } else if link {
            Ok(BranchInstruction::BLX(reg_table(value & 0xf)))
        } else {
            Ok(BranchInstruction::BX(reg_table(value & 0xf)))
        }
    }
}

} // verus!
