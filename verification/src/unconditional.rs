//! The unconditional extension space: the encodings reachable only
//! through the condition value 15.  It recognizes the immediate-offset
//! `BLX`, the preload hint, and the coprocessor instructions available
//! unconditionally; every other pattern is a decode error.

use vstd::prelude::*;

use crate::bitfield::{bit, lemma_field_bound, lemma_mask_bound};
use crate::branch::{branch_offset, branch_offset_exec};
use crate::coprocessor::{ldc_fields, mcr_fields, mrc_fields, mrrc_fields, LDC, MCR, MRC, MRRC};
use crate::errors::ParseError;
use crate::loadstore::{scaled_offset, scaled_offset_exec};
use crate::operands::{
    reg_at, reg_of, reg_table, sign_exec, sign_of, AddressingMode, Indexing, Offset,
};

verus! {

/// The instructions of the unconditional extension space.
#[derive(Debug, Clone, Copy, PartialEq, Eq, Structural)]
pub enum UnconditionalInstruction {
    ///Branch with Link and Exchange, immediate form: a signed byte offset
    ///with halfword precision.
    BLX(i32),
    ///Load Coprocessor Register, available unconditionally.
    LDC(LDC),
    ///Move to Coprocessor from ARM Register, available unconditionally.
    MCR(MCR),
    ///Move to ARM Register from Coprocessor, available unconditionally.
    MRC(MRC),
    ///Move to two ARM Registers from Coprocessor, available
    ///unconditionally.
    MRRC(MRRC),
    ///Pre-load data: an addressing-mode hint with no register effects.
    PLD { addressing_mode: AddressingMode },
}

/// The immediate `BLX` target offset: the 24-bit signed word offset plus
/// two bytes when the halfword bit is set.
pub open spec fn blx_offset(value: u32) -> int {
    branch_offset(value & 0xffffff) + if bit(value, 24) {
        2int
    } else {
        0int
    }
}

/// Decode of a word whose condition field is 15, given its low 28 bits.
pub open spec fn uncond_decode(value: u32) -> Result<UnconditionalInstruction, ParseError> {
    let group = (value >> 25) & 7;
    if group == 5 {
        Ok(UnconditionalInstruction::BLX(blx_offset(value) as i32))
    } else if group == 2 || group == 3 {
        if (value >> 20) & 0x17 != 0x15 {
            Err(ParseError::InvalidMask { invalid_set_bytes: (value ^ 0x1500000) & 0x1700000 })
        } else if (value >> 12) & 0xf != 0xf {
            Err(ParseError::InvalidMask { invalid_set_bytes: (value ^ 0xf000) & 0xf000 })
        } else if group == 3 && bit(value, 4) {
            Err(ParseError::InvalidMask { invalid_set_bytes: value & 0x10 })
        } else {
            let offset = if group == 2 {
                Offset::Immediate(value & 0xfff)
            } else {
                scaled_offset(reg_of(value & 0xf), (value >> 5) & 3, (value >> 7) & 0x1f)
            };
            Ok(
                UnconditionalInstruction::PLD {
                    addressing_mode: AddressingMode {
                        base: reg_of((value >> 16) & 0xf),
                        offset,
                        sign: sign_of(bit(value, 23)),
                        indexing: Indexing::PreIndexed,
                        writeback: false,
                    },
                },
            )
        }
    } else if group == 6 {
        if (value >> 21) & 0xf == 2 {
            if (value >> 20) & 1 == 1 {
                Ok(UnconditionalInstruction::MRRC(mrrc_fields(value)))
            } else {
                Err(ParseError::InvalidMask { invalid_set_bytes: value })
            }
        } else if (value >> 20) & 1 == 1 {
            Ok(UnconditionalInstruction::LDC(ldc_fields(value)))
        } else {
            Err(ParseError::InvalidMask { invalid_set_bytes: value })
        }
    } else if group == 7 {
        if bit(value, 24) {
            Err(ParseError::InvalidMask { invalid_set_bytes: value })
        } else if bit(value, 4) {
            if (value >> 20) & 1 == 1 {
                Ok(UnconditionalInstruction::MRC(mrc_fields(value)))
            } else {
                Ok(UnconditionalInstruction::MCR(mcr_fields(value)))
            }
        } else {
            Err(ParseError::InvalidMask { invalid_set_bytes: value })
        }
    } else {
        Err(ParseError::InvalidMask { invalid_set_bytes: value })
    }
}

impl UnconditionalInstruction {
    /// Decodes the low 28 bits of a word whose condition field is 15.
    pub fn new(value: u32) -> (r: Result<UnconditionalInstruction, ParseError>)
        ensures
            r == uncond_decode(value),
    {
        proof {
            lemma_field_bound(value, 25, 7);
            lemma_mask_bound(value, 0xffffff);
            lemma_mask_bound(value, 0xf);
            lemma_field_bound(value, 5, 3);
        }
        let group: u32 = (value >> 25) & 7;
        if group == 5 {
            let base: i32 = branch_offset_exec(value & 0xffffff);
            let off: i32 = if (value >> 24) & 1 == 1 {
                base + 2
            } else {
                base
            };
            Ok(UnconditionalInstruction::BLX(off))
        } else if group == 2 || group == 3 {
            if (value >> 20) & 0x17 != 0x15 {
                Err(ParseError::InvalidMask { invalid_set_bytes: (value ^ 0x1500000) & 0x1700000 })
            } else if (value >> 12) & 0xf != 0xf {
                Err(ParseError::InvalidMask { invalid_set_bytes: (value ^ 0xf000) & 0xf000 })
            } else if group == 3 && (value >> 4) & 1 == 1 {
                Err(ParseError::InvalidMask { invalid_set_bytes: value & 0x10 })
            } else {
                let offset = if group == 2 {
                    Offset::Immediate(value & 0xfff)
                } else {
                    scaled_offset_exec(reg_table(value & 0xf), (value >> 5) & 3, (value >> 7)
                        & 0x1f)
                };
                Ok(
                    UnconditionalInstruction::PLD {
                        addressing_mode: AddressingMode {
                            base: reg_at(value, 16),
                            offset,
                            sign: sign_exec((value >> 23) & 1 == 1),
                            indexing: Indexing::PreIndexed,
                            writeback: false,
                        },
                    },
                )
            }
        } else if group == 6 {
            if (value >> 21) & 0xf == 2 {
                if (value >> 20) & 1 == 1 {
                    match MRRC::new(value) {
                        Ok(m) => Ok(UnconditionalInstruction::MRRC(m)),
                        Err(e) => Err(e),
                    }
                } else {
                    Err(ParseError::InvalidMask { invalid_set_bytes: value })
                }
            } else if (value >> 20) & 1 == 1 {
                match LDC::new(value) {
                    Ok(l) => Ok(UnconditionalInstruction::LDC(l)),
                    Err(e) => Err(e),
                }
            } else {
                Err(ParseError::InvalidMask { invalid_set_bytes: value })
            }
        } else if group == 7 {
            if (value >> 24) & 1 == 1 {
                Err(ParseError::InvalidMask { invalid_set_bytes: value })
            } else if (value >> 4) & 1 == 1 {
                if (value >> 20) & 1 == 1 {
                    match MRC::new(value) {
                        Ok(m) => Ok(UnconditionalInstruction::MRC(m)),
                        Err(e) => Err(e),
                    }
                } else {
                    match MCR::new(value) {
                        Ok(m) => Ok(UnconditionalInstruction::MCR(m)),
                        Err(e) => Err(e),
                    }
                }
            } else {
                Err(ParseError::InvalidMask { invalid_set_bytes: value })
            }
        } else {
            Err(ParseError::InvalidMask { invalid_set_bytes: value })
        }
    }
}

} // verus!
