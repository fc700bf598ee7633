//! Multiply instructions: the ordinary and long forms selected by the
//! fixed `1001` pattern at bit 4, and the signed-halfword family out of
//! the group-000 fixed-pattern space, where two bits pick the top or
//! bottom halfword of each source.

use vstd::prelude::*;

use crate::bitfield::{bit, lemma_field_bound, lemma_mask_bound};
use crate::errors::ParseError;
use crate::operands::{reg_at, reg_of, reg_table, Register};

verus! {

/// The multiply instructions.  Long forms carry a register pair in place
/// of a single destination; `x` and `y` pick the top or bottom halfword
/// of the first and second source.
#[derive(Debug, Clone, Copy, PartialEq, Eq, Structural)]
pub enum MultiplyInstruction {
    ///Multiply Accumulate.
    MLA {
        destination: Register,
        s: bool,
        first_operand: Register,
        second_operand: Register,
        add_operand: Register,
    },
    ///Multiply.
    MUL { destination: Register, s: bool, first_operand: Register, second_operand: Register },
    ///Signed halfword Multiply Accumulate.
    SMLA {
        x: bool,
        y: bool,
        destination: Register,
        first_operand: Register,
        second_operand: Register,
        add_operand: Register,
    },
    ///Signed Multiply Accumulate Long.
    SMLAL {
        s: bool,
        high: Register,
        low: Register,
        first_operand: Register,
        second_operand: Register,
    },
    ///Signed halfword Multiply Accumulate Long.
    SMLAL2 {
        x: bool,
        y: bool,
        high: Register,
        low: Register,
        first_operand: Register,
        second_operand: Register,
    },
    ///Signed halfword by word Multiply Accumulate.
    SMLAW {
        y: bool,
        destination: Register,
        first_operand: Register,
        second_operand: Register,
        add_operand: Register,
    },
    ///Signed halfword Multiply.
    SMUL {
        x: bool,
        y: bool,
        destination: Register,
        first_operand: Register,
        second_operand: Register,
    },
    ///Signed Multiply Long.
    SMULL {
        s: bool,
        high: Register,
        low: Register,
        first_operand: Register,
        second_operand: Register,
    },
    ///Signed halfword by word Multiply.
    SMULW { y: bool, destination: Register, first_operand: Register, second_operand: Register },
    ///Unsigned Multiply Accumulate Long.
    UMLAL {
        s: bool,
        high: Register,
        low: Register,
        first_operand: Register,
        second_operand: Register,
    },
    ///Unsigned Multiply Long.
    UMULL {
        s: bool,
        high: Register,
        low: Register,
        first_operand: Register,
        second_operand: Register,
    },
}

/// Decode of the ordinary and long multiplies (group 000, `1001` at bit 4,
/// bit 24 clear).  Bits 24 to 21 select the form; a plain multiply must
/// carry a zero accumulate field, and other values of the selector are
/// unrecognized.
pub open spec fn mul_decode(value: u32) -> Result<MultiplyInstruction, ParseError> {
    let hi4 = (value >> 21) & 0xf;
    let s = (value >> 20) & 1 == 1;
    let first_operand = reg_of(value & 0xf);
    let second_operand = reg_of((value >> 8) & 0xf);
    if hi4 == 0 {
        if (value >> 12) & 0xf != 0 {
            Err(ParseError::InvalidMask { invalid_set_bytes: value & 0xf000 })
        } else {
            Ok(
                MultiplyInstruction::MUL {
                    destination: reg_of((value >> 16) & 0xf),
                    s,
                    first_operand,
                    second_operand,
                },
            )
        }
    } else if hi4 == 1 {
        Ok(
            MultiplyInstruction::MLA {
                destination: reg_of((value >> 16) & 0xf),
                s,
                first_operand,
                second_operand,
                add_operand: reg_of((value >> 12) & 0xf),
            },
        )
    } else if hi4 == 4 {
        Ok(
            MultiplyInstruction::UMULL {
                s,
                high: reg_of((value >> 16) & 0xf),
                low: reg_of((value >> 12) & 0xf),
                first_operand,
                second_operand,
            },
        )
    } else if hi4 == 5 {
        Ok(
            MultiplyInstruction::UMLAL {
                s,
                high: reg_of((value >> 16) & 0xf),
                low: reg_of((value >> 12) & 0xf),
                first_operand,
                second_operand,
            },
        )
    } else if hi4 == 6 {
        Ok(
            MultiplyInstruction::SMULL {
                s,
                high: reg_of((value >> 16) & 0xf),
                low: reg_of((value >> 12) & 0xf),
                first_operand,
                second_operand,
            },
        )
    } else if hi4 == 7 {
        Ok(
            MultiplyInstruction::SMLAL {
                s,
                high: reg_of((value >> 16) & 0xf),
                low: reg_of((value >> 12) & 0xf),
                first_operand,
                second_operand,
            },
        )
    } else {
        Err(ParseError::InvalidMask { invalid_set_bytes: value })
    }
}

/// Decode of the signed-halfword multiplies (group-000 fixed-pattern
/// space, bit 7 set and bit 4 clear).  Bits 22 and 21 select the form;
/// bits 5 and 6 pick the halfwords; the plain multiplies must carry a
/// zero accumulate field.
pub open spec fn halfword_mul_decode(value: u32) -> Result<MultiplyInstruction, ParseError> {
    let sub = (value >> 21) & 3;
    let x = bit(value, 5);
    let y = bit(value, 6);
    let destination = reg_of((value >> 16) & 0xf);
    let first_operand = reg_of(value & 0xf);
    let second_operand = reg_of((value >> 8) & 0xf);
    if sub == 0 {
        Ok(
            MultiplyInstruction::SMLA {
                x,
                y,
                destination,
                first_operand,
                second_operand,
                add_operand: reg_of((value >> 12) & 0xf),
            },
        )
    } else if sub == 1 {
        if !x {
            Ok(
                MultiplyInstruction::SMLAW {
                    y,
                    destination,
                    first_operand,
                    second_operand,
                    add_operand: reg_of((value >> 12) & 0xf),
                },
            )
        } else if (value >> 12) & 0xf != 0 {
            Err(ParseError::InvalidMask { invalid_set_bytes: value & 0xf000 })
        } else {
            Ok(MultiplyInstruction::SMULW { y, destination, first_operand, second_operand })
        }
    } else if sub == 2 {
        Ok(
            MultiplyInstruction::SMLAL2 {
                x,
                y,
                high: destination,
                low: reg_of((value >> 12) & 0xf),
                first_operand,
                second_operand,
            },
        )
    } else {
        if (value >> 12) & 0xf != 0 {
            Err(ParseError::InvalidMask { invalid_set_bytes: value & 0xf000 })
        } else {
            Ok(MultiplyInstruction::SMUL { x, y, destination, first_operand, second_operand })
        }
    }
}

impl MultiplyInstruction {
    /// Decodes an ordinary or long multiply word.
    pub fn new(value: u32) -> (r: Result<MultiplyInstruction, ParseError>)
        ensures
            r == mul_decode(value),
    {
        proof {
            lemma_field_bound(value, 21, 0xf);
            lemma_mask_bound(value, 0xf);
        }
        let hi4: u32 = (value >> 21) & 0xf;
        let s: bool = (value >> 20) & 1 == 1;
        let first_operand = reg_table(value & 0xf);
        let second_operand = reg_at(value, 8);
        if hi4 == 0 {
            if (value >> 12) & 0xf != 0 {
                Err(ParseError::InvalidMask { invalid_set_bytes: value & 0xf000 })
            } else {
                Ok(
                    MultiplyInstruction::MUL {
                        destination: reg_at(value, 16),
                        s,
                        first_operand,
                        second_operand,
                    },
                )
            }
        } else if hi4 == 1 {
            Ok(
                MultiplyInstruction::MLA {
                    destination: reg_at(value, 16),
                    s,
                    first_operand,
                    second_operand,
                    add_operand: reg_at(value, 12),
                },
            )
        } else if hi4 == 4 {
            Ok(
                MultiplyInstruction::UMULL {
                    s,
                    high: reg_at(value, 16),
                    low: reg_at(value, 12),
                    first_operand,
                    second_operand,
                },
            )
        } else if hi4 == 5 {
            Ok(
                MultiplyInstruction::UMLAL {
                    s,
                    high: reg_at(value, 16),
                    low: reg_at(value, 12),
                    first_operand,
                    second_operand,
                },
            )
        } else if hi4 == 6 {
            Ok(
                MultiplyInstruction::SMULL {
                    s,
                    high: reg_at(value, 16),
                    low: reg_at(value, 12),
                    first_operand,
                    second_operand,
                },
            )
        } else if hi4 == 7 {
            Ok(
                MultiplyInstruction::SMLAL {
                    s,
                    high: reg_at(value, 16),
                    low: reg_at(value, 12),
                    first_operand,
                    second_operand,
                },
            )
        } else {
            Err(ParseError::InvalidMask { invalid_set_bytes: value })
        }
    }

    /// Decodes a signed-halfword multiply word.
    pub fn new_halfword(value: u32) -> (r: Result<MultiplyInstruction, ParseError>)
        ensures
            r == halfword_mul_decode(value),
    {
        proof {
            lemma_mask_bound(value, 0xf);
        }
        let sub: u32 = (value >> 21) & 3;
        let x: bool = (value >> 5) & 1 == 1;
        let y: bool = (value >> 6) & 1 == 1;
        let destination = reg_at(value, 16);
        let first_operand = reg_table(value & 0xf);
        let second_operand = reg_at(value, 8);
        if sub == 0 {
            Ok(
                MultiplyInstruction::SMLA {
                    x,
                    y,
                    destination,
                    first_operand,
                    second_operand,
                    add_operand: reg_at(value, 12),
                },
            )
        } else if sub == 1 {
            if !x {
                Ok(
                    MultiplyInstruction::SMLAW {
                        y,
                        destination,
                        first_operand,
                        second_operand,
                        add_operand: reg_at(value, 12),
                    },
                )
            } else if (value >> 12) & 0xf != 0 {
                Err(ParseError::InvalidMask { invalid_set_bytes: value & 0xf000 })
            } else {
                Ok(MultiplyInstruction::SMULW { y, destination, first_operand, second_operand })
            }
        } else if sub == 2 {
            Ok(
                MultiplyInstruction::SMLAL2 {
                    x,
                    y,
                    high: destination,
                    low: reg_at(value, 12),
                    first_operand,
                    second_operand,
                },
            )
        } else {
            if (value >> 12) & 0xf != 0 {
                Err(ParseError::InvalidMask { invalid_set_bytes: value & 0xf000 })
            } else {
                Ok(MultiplyInstruction::SMUL { x, y, destination, first_operand, second_operand })
            }
        }
    }
}

} // verus!
