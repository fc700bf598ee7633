//! Data-processing instructions: the 16-entry opcode table over a first
//! operand, an optional destination and a shifter operand.

use vstd::prelude::*;

use crate::bitfield::lemma_field_bound;
use crate::errors::ParseError;
use crate::operands::{reg_at, reg_of, shifter_decode, Register, ShifterOperand};

verus! {

/// A data-processing instruction with a destination and a first operand.
#[derive(Debug, Clone, Copy, PartialEq, Eq, Structural)]
pub struct GenericDataInstruction {
    pub destination: Register,
    pub first_operand: Register,
    pub s: bool,
    pub shifter: ShifterOperand,
}

/// A compare or test: no destination register; its field must be zero.
#[derive(Debug, Clone, Copy, PartialEq, Eq, Structural)]
pub struct NoDestinationDataInstruction {
    pub first_operand: Register,
    pub s: bool,
    pub shifter: ShifterOperand,
}

/// A move: no first operand; its field must be zero.
#[derive(Debug, Clone, Copy, PartialEq, Eq, Structural)]
pub struct MOVLikeDataInstruction {
    pub destination: Register,
    pub s: bool,
    pub shifter: ShifterOperand,
}

/// The data-processing instructions, one variant per opcode.
#[derive(Debug, Clone, Copy, PartialEq, Eq, Structural)]
pub enum DataProssessingInstruction {
    ///Add with Carry.
    ADC(GenericDataInstruction),
    ///Add.
    ADD(GenericDataInstruction),
    ///Logical AND.
    AND(GenericDataInstruction),
    ///Logical Bit Clear.
    BIC(GenericDataInstruction),
    ///Compare Negative.
    CMN(NoDestinationDataInstruction),
    ///Compare.
    CMP(NoDestinationDataInstruction),
    ///Logical EOR.
    EOR(GenericDataInstruction),
    ///Move.
    MOV(MOVLikeDataInstruction),
    ///Move Not.
    MVN(MOVLikeDataInstruction),
    ///Logical OR.
    ORR(GenericDataInstruction),
    ///Reverse Subtract.
    RSB(GenericDataInstruction),
    ///Reverse Subtract with Carry.
    RSC(GenericDataInstruction),
    ///Subtract with Carry.
    SBC(GenericDataInstruction),
    ///Subtract.
    SUB(GenericDataInstruction),
    ///Test Equivalence.
    TEQ(NoDestinationDataInstruction),
    ///Test.
    TST(NoDestinationDataInstruction),
}

/// Decode of a data-processing word (condition field cleared), with
/// `immediate` telling the shifter-operand form apart.  The 4-bit opcode
/// at bit 21 selects the operation; compares and tests must carry a set S
/// bit (a clear one belongs to other instruction families) and a zero
/// destination field; moves must carry a zero first-operand field.
pub open spec fn dp_decode(value: u32, immediate: bool) -> Result<
    DataProssessingInstruction,
    ParseError,
> {
    let opcode = (value >> 21) & 0xf;
    let s = (value >> 20) & 1 == 1;
    let rn = reg_of((value >> 16) & 0xf);
    let rd = reg_of((value >> 12) & 0xf);
    match shifter_decode(value, immediate) {
        Err(e) => Err(e),
        Ok(shifter) => {
            if opcode == 0 {
                Ok(
                    DataProssessingInstruction::AND(
                        GenericDataInstruction { destination: rd, first_operand: rn, s, shifter },
                    ),
                )
            } else if opcode == 1 {
                Ok(
                    DataProssessingInstruction::EOR(
                        GenericDataInstruction { destination: rd, first_operand: rn, s, shifter },
                    ),
                )
            } else if opcode == 2 {
                Ok(
                    DataProssessingInstruction::SUB(
                        GenericDataInstruction { destination: rd, first_operand: rn, s, shifter },
                    ),
                )
            } else if opcode == 3 {
                Ok(
                    DataProssessingInstruction::RSB(
                        GenericDataInstruction { destination: rd, first_operand: rn, s, shifter },
                    ),
                )
            } else if opcode == 4 {
                Ok(
                    DataProssessingInstruction::ADD(
                        GenericDataInstruction { destination: rd, first_operand: rn, s, shifter },
                    ),
                )
            } else if opcode == 5 {
                Ok(
                    DataProssessingInstruction::ADC(
                        GenericDataInstruction { destination: rd, first_operand: rn, s, shifter },
                    ),
                )
            } else if opcode == 6 {
                Ok(
                    DataProssessingInstruction::SBC(
                        GenericDataInstruction { destination: rd, first_operand: rn, s, shifter },
                    ),
                )
            } else if opcode == 7 {
                Ok(
                    DataProssessingInstruction::RSC(
                        GenericDataInstruction { destination: rd, first_operand: rn, s, shifter },
                    ),
                )
            } else if opcode == 8 {
                if !s {
                    Err(ParseError::InvalidMask { invalid_set_bytes: 0x100000 })
                } else if (value >> 12) & 0xf != 0 {
                    Err(ParseError::InvalidMask { invalid_set_bytes: value & 0xf000 })
                } else {
                    Ok(
                        DataProssessingInstruction::TST(
                            NoDestinationDataInstruction { first_operand: rn, s, shifter },
                        ),
                    )
                }
            } else if opcode == 9 {
                if !s {
                    Err(ParseError::InvalidMask { invalid_set_bytes: 0x100000 })
                } else if (value >> 12) & 0xf != 0 {
                    Err(ParseError::InvalidMask { invalid_set_bytes: value & 0xf000 })
                } else {
                    Ok(
                        DataProssessingInstruction::TEQ(
                            NoDestinationDataInstruction { first_operand: rn, s, shifter },
                        ),
                    )
                }
            } else if opcode == 10 {
                if !s {
                    Err(ParseError::InvalidMask { invalid_set_bytes: 0x100000 })
                } else if (value >> 12) & 0xf != 0 {
                    Err(ParseError::InvalidMask { invalid_set_bytes: value & 0xf000 })
                } else {
                    Ok(
                        DataProssessingInstruction::CMP(
                            NoDestinationDataInstruction { first_operand: rn, s, shifter },
                        ),
                    )
                }
            } else if opcode == 11 {
                if !s {
                    Err(ParseError::InvalidMask { invalid_set_bytes: 0x100000 })
                } else if (value >> 12) & 0xf != 0 {
                    Err(ParseError::InvalidMask { invalid_set_bytes: value & 0xf000 })
                } else {
                    Ok(
                        DataProssessingInstruction::CMN(
                            NoDestinationDataInstruction { first_operand: rn, s, shifter },
                        ),
                    )
                }
            } else if opcode == 12 {
                Ok(
                    DataProssessingInstruction::ORR(
                        GenericDataInstruction { destination: rd, first_operand: rn, s, shifter },
                    ),
                )
            } else if opcode == 13 {
                if (value >> 16) & 0xf != 0 {
                    Err(ParseError::InvalidMask { invalid_set_bytes: value & 0xf0000 })
                } else {
                    Ok(
                        DataProssessingInstruction::MOV(
                            MOVLikeDataInstruction { destination: rd, s, shifter },
                        ),
                    )
                }
            } else if opcode == 14 {
                Ok(
                    DataProssessingInstruction::BIC(
                        GenericDataInstruction { destination: rd, first_operand: rn, s, shifter },
                    ),
                )
            } else {
                if (value >> 16) & 0xf != 0 {
                    Err(ParseError::InvalidMask { invalid_set_bytes: value & 0xf0000 })
                } else {
                    Ok(
                        DataProssessingInstruction::MVN(
                            MOVLikeDataInstruction { destination: rd, s, shifter },
                        ),
                    )
                }
            }
        },
    }
}

/// Reserved-bit sensitivity of the data-processing decoder: a compare or
/// test carrying a nonzero destination field fails to decode, as does a
/// move carrying a nonzero first-operand field.
pub proof fn lemma_dp_reserved(value: u32, immediate: bool)
    requires
        ((value >> 21) & 0xf == 8 || (value >> 21) & 0xf == 9 || (value >> 21) & 0xf == 10 || (
        value >> 21) & 0xf == 11) && (value >> 12) & 0xf != 0 || ((value >> 21) & 0xf == 13 || (
        value >> 21) & 0xf == 15) && (value >> 16) & 0xf != 0,
    ensures
        dp_decode(value, immediate) is Err,
{
}

impl DataProssessingInstruction {
    /// Decodes a data-processing word, `immediate` selecting the
    /// immediate-form shifter operand.
    pub fn new(value: u32, immediate: bool) -> (r: Result<DataProssessingInstruction, ParseError>)
        ensures
            r == dp_decode(value, immediate),
    {
        proof {
            lemma_field_bound(value, 21, 0xf);
        }
        let opcode: u32 = (value >> 21) & 0xf;
        let s: bool = (value >> 20) & 1 == 1;
        let rn = reg_at(value, 16);
        let rd = reg_at(value, 12);
        let shifter = match ShifterOperand::new(value, immediate) {
            Err(e) => {
                return Err(e);
            },
            Ok(shifter) => shifter,
        };
        if opcode == 0 {
            Ok(
                DataProssessingInstruction::AND(
                    GenericDataInstruction { destination: rd, first_operand: rn, s, shifter },
                ),
            )
        } else if opcode == 1 {
            Ok(
                DataProssessingInstruction::EOR(
                    GenericDataInstruction { destination: rd, first_operand: rn, s, shifter },
                ),
            )
        } else if opcode == 2 {
            Ok(
                DataProssessingInstruction::SUB(
                    GenericDataInstruction { destination: rd, first_operand: rn, s, shifter },
                ),
            )
        } else if opcode == 3 {
            Ok(
                DataProssessingInstruction::RSB(
                    GenericDataInstruction { destination: rd, first_operand: rn, s, shifter },
                ),
            )
        } else if opcode == 4 {
            Ok(
                DataProssessingInstruction::ADD(
                    GenericDataInstruction { destination: rd, first_operand: rn, s, shifter },
                ),
            )
        } else if opcode == 5 {
            Ok(
                DataProssessingInstruction::ADC(
                    GenericDataInstruction { destination: rd, first_operand: rn, s, shifter },
                ),
            )
        } else if opcode == 6 {
            Ok(
                DataProssessingInstruction::SBC(
                    GenericDataInstruction { destination: rd, first_operand: rn, s, shifter },
                ),
            )
        } else if opcode == 7 {
            Ok(
                DataProssessingInstruction::RSC(
                    GenericDataInstruction { destination: rd, first_operand: rn, s, shifter },
                ),
            )
        } else if opcode == 8 {
            if !s {
                Err(ParseError::InvalidMask { invalid_set_bytes: 0x100000 })
            } else if (value >> 12) & 0xf != 0 {
                Err(ParseError::InvalidMask { invalid_set_bytes: value & 0xf000 })
            } else {
                Ok(
                    DataProssessingInstruction::TST(
                        NoDestinationDataInstruction { first_operand: rn, s, shifter },
                    ),
                )
            }
        } else if opcode == 9 {
            if !s {
                Err(ParseError::InvalidMask { invalid_set_bytes: 0x100000 })
            } else if (value >> 12) & 0xf != 0 {
                Err(ParseError::InvalidMask { invalid_set_bytes: value & 0xf000 })
            } else {
                Ok(
                    DataProssessingInstruction::TEQ(
                        NoDestinationDataInstruction { first_operand: rn, s, shifter },
                    ),
                )
            }
        } else if opcode == 10 {
            if !s {
                Err(ParseError::InvalidMask { invalid_set_bytes: 0x100000 })
            } else if (value >> 12) & 0xf != 0 {
                Err(ParseError::InvalidMask { invalid_set_bytes: value & 0xf000 })
            } else {
                Ok(
                    DataProssessingInstruction::CMP(
                        NoDestinationDataInstruction { first_operand: rn, s, shifter },
                    ),
                )
            }
        } else if opcode == 11 {
            if !s {
                Err(ParseError::InvalidMask { invalid_set_bytes: 0x100000 })
            } else if (value >> 12) & 0xf != 0 {
                Err(ParseError::InvalidMask { invalid_set_bytes: value & 0xf000 })
            } else {
                Ok(
                    DataProssessingInstruction::CMN(
                        NoDestinationDataInstruction { first_operand: rn, s, shifter },
                    ),
                )
            }
        } else if opcode == 12 {
            Ok(
                DataProssessingInstruction::ORR(
                    GenericDataInstruction { destination: rd, first_operand: rn, s, shifter },
                ),
            )
        } else if opcode == 13 {
            if (value >> 16) & 0xf != 0 {
                Err(ParseError::InvalidMask { invalid_set_bytes: value & 0xf0000 })
            } else {
                Ok(
                    DataProssessingInstruction::MOV(
                        MOVLikeDataInstruction { destination: rd, s, shifter },
                    ),
                )
            }
        } else if opcode == 14 {
            Ok(
                DataProssessingInstruction::BIC(
                    GenericDataInstruction { destination: rd, first_operand: rn, s, shifter },
                ),
            )
        } else {
            if (value >> 16) & 0xf != 0 {
                Err(ParseError::InvalidMask { invalid_set_bytes: value & 0xf0000 })
            } else {
                Ok(
                    DataProssessingInstruction::MVN(
                        MOVLikeDataInstruction { destination: rd, s, shifter },
                    ),
                )
            }
        }
    }
}

} // verus!
