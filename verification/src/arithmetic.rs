//! Arithmetic extensions: the saturating add/subtract family and
//! count-leading-zeros out of the group-000 fixed-pattern space, and the
//! parallel (media) add/subtract table of group 011.

use vstd::prelude::*;

use crate::bitfield::{lemma_field_bound, lemma_mask_bound};
use crate::errors::ParseError;
use crate::operands::{reg_at, reg_of, reg_table, Register};

verus! {

/// Saturating arithmetic and count-leading-zeros.
#[derive(Debug, Clone, Copy, PartialEq, Eq, Structural)]
pub enum AritmeticInstruction {
    ///Signed saturating addition.
    QADD { destination: Register, first_operand: Register, second_operand: Register },
    ///Signed saturating double-and-add.
    QDADD { destination: Register, first_operand: Register, second_operand: Register },
    ///Signed saturating double-and-subtract.
    QDSUB { destination: Register, first_operand: Register, second_operand: Register },
    ///Signed saturating subtraction.
    QSUB { destination: Register, first_operand: Register, second_operand: Register },
    ///Count Leading Zeros.
    CLZ { destination: Register, source: Register },
}

/// Decode of a saturating add/subtract word (group-000 fixed-pattern
/// space, `0101` at bit 4).  Bits 22 and 21 select the operation and the
/// field at bits 11 to 8 must be zero.
pub open spec fn dsp_decode(value: u32) -> Result<AritmeticInstruction, ParseError> {
    if (value >> 8) & 0xf != 0 {
        Err(ParseError::InvalidMask { invalid_set_bytes: value & 0xf00 })
    } else {
        let sub = (value >> 21) & 3;
        let destination = reg_of((value >> 12) & 0xf);
        let first_operand = reg_of(value & 0xf);
        let second_operand = reg_of((value >> 16) & 0xf);
        if sub == 0 {
            Ok(AritmeticInstruction::QADD { destination, first_operand, second_operand })
        } else if sub == 1 {
            Ok(AritmeticInstruction::QSUB { destination, first_operand, second_operand })
        } else if sub == 2 {
            Ok(AritmeticInstruction::QDADD { destination, first_operand, second_operand })
        } else {
            Ok(AritmeticInstruction::QDSUB { destination, first_operand, second_operand })
        }
    }
}

/// Decode of a count-leading-zeros word (its single fixed pattern): the
/// two should-be-one fields must hold all ones.
pub open spec fn clz_decode(value: u32) -> Result<AritmeticInstruction, ParseError> {
    if (value ^ 0xf0f00) & 0xf0f00 != 0 {
        Err(ParseError::InvalidMask { invalid_set_bytes: (value ^ 0xf0f00) & 0xf0f00 })
    } else {
        Ok(
            AritmeticInstruction::CLZ {
                destination: reg_of((value >> 12) & 0xf),
                source: reg_of(value & 0xf),
            },
        )
    }
}

/// Reserved-bit sensitivity of the saturating-arithmetic decoder: a set
/// bit in the must-be-zero field at bits 11 to 8 makes decoding fail.
pub proof fn lemma_dsp_reserved(value: u32)
    requires
        (value >> 8) & 0xf != 0,
    ensures
        dsp_decode(value) is Err,
{
}

/// Reserved-bit sensitivity of the count-leading-zeros decoder: a hole in
/// either should-be-one field makes decoding fail.
pub proof fn lemma_clz_reserved(value: u32)
    requires
        (value >> 16) & 0xf != 0xf || (value >> 8) & 0xf != 0xf,
    ensures
        clz_decode(value) is Err,
{
    assert((value ^ 0xf0f00) & 0xf0f00 != 0) by (bit_vector)
        requires
            (value >> 16) & 0xf != 0xf || (value >> 8) & 0xf != 0xf,
    ;
}

/// Reserved-bit sensitivity of the parallel add/subtract decoder: a hole
/// in the should-be-one field at bits 11 to 8, or a set bit at bit 24 or
/// 23, makes decoding fail.
pub proof fn lemma_media_reserved(value: u32)
    requires
        (value >> 23) & 3 != 0 || (value >> 8) & 0xf != 0xf,
    ensures
        media_decode(value) is Err,
{
}

impl AritmeticInstruction {
    /// Decodes a saturating add/subtract word.
    pub fn new(value: u32) -> (r: Result<AritmeticInstruction, ParseError>)
        ensures
            r == dsp_decode(value),
    {
        if (value >> 8) & 0xf != 0 {
            Err(ParseError::InvalidMask { invalid_set_bytes: value & 0xf00 })
        } else {
            proof {
                lemma_mask_bound(value, 0xf);
            }
            let sub: u32 = (value >> 21) & 3;
            let destination = reg_at(value, 12);
            let first_operand = reg_table(value & 0xf);
            let second_operand = reg_at(value, 16);
            if sub == 0 {
                Ok(AritmeticInstruction::QADD { destination, first_operand, second_operand })
            } else if sub == 1 {
                Ok(AritmeticInstruction::QSUB { destination, first_operand, second_operand })
            } else if sub == 2 {
                Ok(AritmeticInstruction::QDADD { destination, first_operand, second_operand })
            } else {
                Ok(AritmeticInstruction::QDSUB { destination, first_operand, second_operand })
            }
        }
    }

    /// Decodes a count-leading-zeros word.
    pub fn new_clz(value: u32) -> (r: Result<AritmeticInstruction, ParseError>)
        ensures
            r == clz_decode(value),
    {
        if (value ^ 0xf0f00) & 0xf0f00 != 0 {
            Err(ParseError::InvalidMask { invalid_set_bytes: (value ^ 0xf0f00) & 0xf0f00 })
        } else {
            proof {
                lemma_mask_bound(value, 0xf);
            }
            Ok(
                AritmeticInstruction::CLZ {
                    destination: reg_at(value, 12),
                    source: reg_table(value & 0xf),
                },
            )
        }
    }
}

/// The register operands shared by every parallel add/subtract.
#[derive(Debug, Clone, Copy, PartialEq, Eq, Structural)]
pub struct MediaOperands {
    pub destination: Register,
    pub first_operand: Register,
    pub second_operand: Register,
}

/// The parallel (media) add/subtract table: dual-16-bit and quad-8-bit
/// operations in the signed, signed-saturating, signed-halving, unsigned,
/// unsigned-saturating and unsigned-halving classes.
#[derive(Debug, Clone, Copy, PartialEq, Eq, Structural)]
pub enum AritmaticInstruction {
    QADD16(MediaOperands),
    QADD8(MediaOperands),
    QADDSUBX(MediaOperands),
    QSUB16(MediaOperands),
    QSUB8(MediaOperands),
    QSUBADDX(MediaOperands),
    SADD16(MediaOperands),
    SADD8(MediaOperands),
    SADDSUBX(MediaOperands),
    SSUB16(MediaOperands),
    SSUB8(MediaOperands),
    SSUBADDX(MediaOperands),
    SHADD16(MediaOperands),
    SHADD8(MediaOperands),
    SHADDSUBX(MediaOperands),
    SHSUB16(MediaOperands),
    SHSUB8(MediaOperands),
    SHSUBADDX(MediaOperands),
    UADD16(MediaOperands),
    UADD8(MediaOperands),
    UADDSUBX(MediaOperands),
    USUB16(MediaOperands),
    USUB8(MediaOperands),
    USUBADDX(MediaOperands),
    UHADD16(MediaOperands),
    UHADD8(MediaOperands),
    UHADDSUBX(MediaOperands),
    UHSUB16(MediaOperands),
    UHSUB8(MediaOperands),
    UHSUBADDX(MediaOperands),
    UQADD16(MediaOperands),
    UQADD8(MediaOperands),
    UQADDSUBX(MediaOperands),
    UQSUB16(MediaOperands),
    UQSUB8(MediaOperands),
    UQSUBADDX(MediaOperands),
}

/// The parallel operation named by its class (bits 22 to 20) and
/// operation (bits 7 to 5) selectors, over already-decoded operands.
pub open spec fn media_variant(class: u32, op: u32, operands: MediaOperands, whole: u32) -> Result<
    AritmaticInstruction,
    ParseError,
> {
    if class == 1 {
        if op == 0 {
            Ok(AritmaticInstruction::SADD16(operands))
        } else if op == 1 {
            Ok(AritmaticInstruction::SADDSUBX(operands))
        } else if op == 2 {
            Ok(AritmaticInstruction::SSUBADDX(operands))
        } else if op == 3 {
            Ok(AritmaticInstruction::SSUB16(operands))
        } else if op == 4 {
            Ok(AritmaticInstruction::SADD8(operands))
        } else if op == 7 {
            Ok(AritmaticInstruction::SSUB8(operands))
        } else {
            Err(ParseError::InvalidMask { invalid_set_bytes: whole })
        }
    } else if class == 2 {
        if op == 0 {
            Ok(AritmaticInstruction::QADD16(operands))
        } else if op == 1 {
            Ok(AritmaticInstruction::QADDSUBX(operands))
        } else if op == 2 {
            Ok(AritmaticInstruction::QSUBADDX(operands))
        } else if op == 3 {
            Ok(AritmaticInstruction::QSUB16(operands))
        } else if op == 4 {
            Ok(AritmaticInstruction::QADD8(operands))
        } else if op == 7 {
            Ok(AritmaticInstruction::QSUB8(operands))
        } else {
            Err(ParseError::InvalidMask { invalid_set_bytes: whole })
        }
    } else if class == 3 {
        if op == 0 {
            Ok(AritmaticInstruction::SHADD16(operands))
        } else if op == 1 {
            Ok(AritmaticInstruction::SHADDSUBX(operands))
        } else if op == 2 {
            Ok(AritmaticInstruction::SHSUBADDX(operands))
        } else if op == 3 {
            Ok(AritmaticInstruction::SHSUB16(operands))
        } else if op == 4 {
            Ok(AritmaticInstruction::SHADD8(operands))
        } else if op == 7 {
            Ok(AritmaticInstruction::SHSUB8(operands))
        } else {
            Err(ParseError::InvalidMask { invalid_set_bytes: whole })
        }
    } else if class == 5 {
        if op == 0 {
            Ok(AritmaticInstruction::UADD16(operands))
        } else if op == 1 {
            Ok(AritmaticInstruction::UADDSUBX(operands))
        } else if op == 2 {
            Ok(AritmaticInstruction::USUBADDX(operands))
        } else if op == 3 {
            Ok(AritmaticInstruction::USUB16(operands))
        } else if op == 4 {
            Ok(AritmaticInstruction::UADD8(operands))
        } else if op == 7 {
            Ok(AritmaticInstruction::USUB8(operands))
        } else {
            Err(ParseError::InvalidMask { invalid_set_bytes: whole })
        }
    } else if class == 6 {
        if op == 0 {
            Ok(AritmaticInstruction::UQADD16(operands))
        } else if op == 1 {
            Ok(AritmaticInstruction::UQADDSUBX(operands))
        } else if op == 2 {
            Ok(AritmaticInstruction::UQSUBADDX(operands))
        } else if op == 3 {
            Ok(AritmaticInstruction::UQSUB16(operands))
        } else if op == 4 {
            Ok(AritmaticInstruction::UQADD8(operands))
        } else if op == 7 {
            Ok(AritmaticInstruction::UQSUB8(operands))
        } else {
            Err(ParseError::InvalidMask { invalid_set_bytes: whole })
        }
    } else if class == 7 {
        if op == 0 {
            Ok(AritmaticInstruction::UHADD16(operands))
        } else if op == 1 {
            Ok(AritmaticInstruction::UHADDSUBX(operands))
        } else if op == 2 {
            Ok(AritmaticInstruction::UHSUBADDX(operands))
        } else if op == 3 {
            Ok(AritmaticInstruction::UHSUB16(operands))
        } else if op == 4 {
            Ok(AritmaticInstruction::UHADD8(operands))
        } else if op == 7 {
            Ok(AritmaticInstruction::UHSUB8(operands))
        } else {
            Err(ParseError::InvalidMask { invalid_set_bytes: whole })
        }
    } else {
        Err(ParseError::InvalidMask { invalid_set_bytes: whole })
    }
}

/// Decode of a parallel add/subtract word (group 011 with bit 4 set):
/// bits 24 and 23 must be zero, the field at bits 11 to 8 must hold all
/// ones, and the class and operation selectors must name a table entry.
pub open spec fn media_decode(value: u32) -> Result<AritmaticInstruction, ParseError> {
    if (value >> 23) & 3 != 0 {
        Err(ParseError::InvalidMask { invalid_set_bytes: value & 0x1800000 })
    } else if (value >> 8) & 0xf != 0xf {
        Err(ParseError::InvalidMask { invalid_set_bytes: (value ^ 0xf00) & 0xf00 })
    } else {
        let operands = MediaOperands {
            destination: reg_of((value >> 12) & 0xf),
            first_operand: reg_of((value >> 16) & 0xf),
            second_operand: reg_of(value & 0xf),
        };
        media_variant((value >> 20) & 7, (value >> 5) & 7, operands, value)
    }
}

/// Selects the parallel operation from its decoded selectors.
fn media_variant_exec(class: u32, op: u32, operands: MediaOperands, whole: u32) -> (r: Result<
    AritmaticInstruction,
    ParseError,
>)
    ensures
        r == media_variant(class, op, operands, whole),
{
    if class == 1 {
        if op == 0 {
            Ok(AritmaticInstruction::SADD16(operands))
        } else if op == 1 {
            Ok(AritmaticInstruction::SADDSUBX(operands))
        } else if op == 2 {
            Ok(AritmaticInstruction::SSUBADDX(operands))
        } else if op == 3 {
            Ok(AritmaticInstruction::SSUB16(operands))
        } else if op == 4 {
            Ok(AritmaticInstruction::SADD8(operands))
        } else if op == 7 {
            Ok(AritmaticInstruction::SSUB8(operands))
        } else {
            Err(ParseError::InvalidMask { invalid_set_bytes: whole })
        }
    } else if class == 2 {
        if op == 0 {
            Ok(AritmaticInstruction::QADD16(operands))
        } else if op == 1 {
            Ok(AritmaticInstruction::QADDSUBX(operands))
        } else if op == 2 {
            Ok(AritmaticInstruction::QSUBADDX(operands))
        } else if op == 3 {
            Ok(AritmaticInstruction::QSUB16(operands))
        } else if op == 4 {
            Ok(AritmaticInstruction::QADD8(operands))
        } else if op == 7 {
            Ok(AritmaticInstruction::QSUB8(operands))
        } else {
            Err(ParseError::InvalidMask { invalid_set_bytes: whole })
        }
    } else if class == 3 {
        if op == 0 {
            Ok(AritmaticInstruction::SHADD16(operands))
        } else if op == 1 {
            Ok(AritmaticInstruction::SHADDSUBX(operands))
        } else if op == 2 {
            Ok(AritmaticInstruction::SHSUBADDX(operands))
        } else if op == 3 {
            Ok(AritmaticInstruction::SHSUB16(operands))
        } else if op == 4 {
            Ok(AritmaticInstruction::SHADD8(operands))
        } else if op == 7 {
            Ok(AritmaticInstruction::SHSUB8(operands))
        } else {
            Err(ParseError::InvalidMask { invalid_set_bytes: whole })
        }
    } else if class == 5 {
        if op == 0 {
            Ok(AritmaticInstruction::UADD16(operands))
        } else if op == 1 {
            Ok(AritmaticInstruction::UADDSUBX(operands))
        } else if op == 2 {
            Ok(AritmaticInstruction::USUBADDX(operands))
        } else if op == 3 {
            Ok(AritmaticInstruction::USUB16(operands))
        } else if op == 4 {
            Ok(AritmaticInstruction::UADD8(operands))
        } else if op == 7 {
            Ok(AritmaticInstruction::USUB8(operands))
        } else {
            Err(ParseError::InvalidMask { invalid_set_bytes: whole })
        }
    } else if class == 6 {
        if op == 0 {
            Ok(AritmaticInstruction::UQADD16(operands))
        } else if op == 1 {
            Ok(AritmaticInstruction::UQADDSUBX(operands))
        } else if op == 2 {
            Ok(AritmaticInstruction::UQSUBADDX(operands))
        } else if op == 3 {
            Ok(AritmaticInstruction::UQSUB16(operands))
        } else if op == 4 {
            Ok(AritmaticInstruction::UQADD8(operands))
        } else if op == 7 {
            Ok(AritmaticInstruction::UQSUB8(operands))
        } else {
            Err(ParseError::InvalidMask { invalid_set_bytes: whole })
        }
    } else if class == 7 {
        if op == 0 {
            Ok(AritmaticInstruction::UHADD16(operands))
        } else if op == 1 {
            Ok(AritmaticInstruction::UHADDSUBX(operands))
        } else if op == 2 {
            Ok(AritmaticInstruction::UHSUBADDX(operands))
        } else if op == 3 {
            Ok(AritmaticInstruction::UHSUB16(operands))
        } else if op == 4 {
            Ok(AritmaticInstruction::UHADD8(operands))
        } else if op == 7 {
            Ok(AritmaticInstruction::UHSUB8(operands))
        } else {
            Err(ParseError::InvalidMask { invalid_set_bytes: whole })
        }
    } else {
        Err(ParseError::InvalidMask { invalid_set_bytes: whole })
    }
}

impl AritmaticInstruction {
    /// Decodes a parallel add/subtract word.
    pub fn new(value: u32) -> (r: Result<AritmaticInstruction, ParseError>)
        ensures
            r == media_decode(value),
    {
        if (value >> 23) & 3 != 0 {
            Err(ParseError::InvalidMask { invalid_set_bytes: value & 0x1800000 })
        } else if (value >> 8) & 0xf != 0xf {
            Err(ParseError::InvalidMask { invalid_set_bytes: (value ^ 0xf00) & 0xf00 })
        } else {
            proof {
                lemma_mask_bound(value, 0xf);
                lemma_field_bound(value, 20, 7);
                lemma_field_bound(value, 5, 7);
            }
            let operands = MediaOperands {
                destination: reg_at(value, 12),
                first_operand: reg_at(value, 16),
                second_operand: reg_table(value & 0xf),
            };
            media_variant_exec((value >> 20) & 7, (value >> 5) & 7, operands, value)
        }
    }
}

} // verus!
