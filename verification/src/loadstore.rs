//! Load and store instructions: single-register transfers with their
//! addressing modes, the halfword/signed/doubleword forms with their own
//! fixed-pattern encoding, the exclusive pair, and block transfers.

use vstd::prelude::*;

use crate::bitfield::{bit, lemma_field_bound, lemma_mask_bound};
use crate::errors::ParseError;
use crate::operands::{
    indexing_exec, indexing_of, reg_at, reg_of, reg_table, sign_exec, sign_of, AddressingMode,
    Offset, PostIndexedAddressingMode, Register, RegisterList, ShiftKind,
};

verus! {

/// A single-register transfer: destination (or source) register and
/// addressing mode.
#[derive(Debug, Clone, Copy, PartialEq, Eq, Structural)]
pub struct LoadAndStoreGenericInsturction {
    pub destination: Register,
    pub addressing_mode: AddressingMode,
}

/// A user-mode-privileged transfer: always post-indexed.
#[derive(Debug, Clone, Copy, PartialEq, Eq, Structural)]
pub struct LoadAndStorePostIndexInstruction {
    pub destination: Register,
    pub addressing_mode: PostIndexedAddressingMode,
}

/// A load-exclusive: destination register and the register holding the
/// address.
#[derive(Debug, Clone, Copy, PartialEq, Eq, Structural)]
pub struct LDREX {
    pub destination: Register,
    pub adress: Register,
}

/// The block-transfer addressing modes named by the P and U bits.
#[derive(Debug, Clone, Copy, PartialEq, Eq, Structural)]
pub enum MultipleAddressingMode {
    IncrementAfter,
    IncrementBefore,
    DecrementAfter,
    DecrementBefore,
}

/// A block transfer that may write the base back.
#[derive(Debug, Clone, Copy, PartialEq, Eq, Structural)]
pub struct LoadAndStoreMultipleWriteGeneric {
    pub addressing_mode: MultipleAddressingMode,
    pub base: Register,
    pub write: bool,
    pub registers: RegisterList,
}

/// A block transfer whose encoding forbids base writeback.
#[derive(Debug, Clone, Copy, PartialEq, Eq, Structural)]
pub struct LoadAndStoreMultipleGeneric {
    pub addressing_mode: MultipleAddressingMode,
    pub base: Register,
    pub registers: RegisterList,
}

/// The block transfers.
#[derive(Debug, Clone, Copy, PartialEq, Eq, Structural)]
pub enum LoadAndStoreMultiple {
    ///Load Multiple.
    LDM(LoadAndStoreMultipleWriteGeneric),
    ///User Registers Load Multiple.
    LDMR(LoadAndStoreMultipleGeneric),
    ///Load Multiple with Restore CPSR.
    LDMC(LoadAndStoreMultipleWriteGeneric),
    ///Store Multiple.
    STM(LoadAndStoreMultipleWriteGeneric),
    ///User Registers Store Multiple.
    STM2(LoadAndStoreMultipleGeneric),
}

/// The load and store instructions.
#[derive(Debug, Clone, Copy, PartialEq, Eq, Structural)]
pub enum LoadAndStoreInstruction {
    ///Load Word.
    LDR(LoadAndStoreGenericInsturction),
    ///Load Byte.
    LDRB(LoadAndStoreGenericInsturction),
    ///Load Byte with User Mode Privilege.
    LDRBT(LoadAndStorePostIndexInstruction),
    ///Load Doubleword.
    LDRD(LoadAndStoreGenericInsturction),
    ///Load Exclusive.
    LDREX(LDREX),
    ///Load Unsigned Halfword.
    LDRH(LoadAndStoreGenericInsturction),
    ///Load Signed Byte.
    LDRSB(LoadAndStoreGenericInsturction),
    ///Load Signed Halfword.
    LDRSH(LoadAndStoreGenericInsturction),
    ///Load Word with User Mode Privilege.
    LDRT(LoadAndStorePostIndexInstruction),
    ///Store Word.
    STR(LoadAndStoreGenericInsturction),
    ///Store Byte.
    STRB(LoadAndStoreGenericInsturction),
    ///Store Byte with User Mode Privilege.
    STRBT(LoadAndStorePostIndexInstruction),
    ///Store Doubleword.
    STRD(LoadAndStoreGenericInsturction),
    ///Store Exclusive.
    STREX { destination: Register, value: Register, adress: Register },
    ///Store Halfword.
    STRH(LoadAndStoreGenericInsturction),
    ///Store Word with User Mode Privilege.
    STRT(LoadAndStorePostIndexInstruction),
    ///A block transfer.
    Multiple(LoadAndStoreMultiple),
}

impl From<LoadAndStoreMultiple> for LoadAndStoreInstruction {
    fn from(value: LoadAndStoreMultiple) -> Self {
        LoadAndStoreInstruction::Multiple(value)
    }
}

impl vstd::std_specs::convert::FromSpecImpl<LoadAndStoreMultiple> for LoadAndStoreInstruction {
    open spec fn obeys_from_spec() -> bool {
        true
    }

    open spec fn from_spec(value: LoadAndStoreMultiple) -> Self {
        LoadAndStoreInstruction::Multiple(value)
    }
}

/// The scaled register offset decoded from the shift-type bits and the
/// 5-bit amount, with the same zero-amount rules as the shifter operand.
pub open spec fn scaled_offset(rm: Register, typ: u32, amount: u32) -> Offset {
    if typ == 0 {
        if amount == 0 {
            Offset::Register(rm)
        } else {
            Offset::Scaled { rm, kind: ShiftKind::LogicalLeft, amount }
        }
    } else if typ == 1 {
        if amount == 0 {
            Offset::Scaled { rm, kind: ShiftKind::LogicalRight, amount: 32 }
        } else {
            Offset::Scaled { rm, kind: ShiftKind::LogicalRight, amount }
        }
    } else if typ == 2 {
        if amount == 0 {
            Offset::Scaled { rm, kind: ShiftKind::ArithmeticRight, amount: 32 }
        } else {
            Offset::Scaled { rm, kind: ShiftKind::ArithmeticRight, amount }
        }
    } else {
        if amount == 0 {
            Offset::Scaled { rm, kind: ShiftKind::RotateRightExtend, amount: 1 }
        } else {
            Offset::Scaled { rm, kind: ShiftKind::RotateRight, amount }
        }
    }
}

pub(crate) fn scaled_offset_exec(rm: Register, typ: u32, amount: u32) -> (r: Offset)
    requires
        typ < 4,
    ensures
        r == scaled_offset(rm, typ, amount),
{
    if typ == 0 {
        if amount == 0 {
            Offset::Register(rm)
        } else {
            Offset::Scaled { rm, kind: ShiftKind::LogicalLeft, amount }
        }
    } else if typ == 1 {
        if amount == 0 {
            Offset::Scaled { rm, kind: ShiftKind::LogicalRight, amount: 32 }
        } else {
            Offset::Scaled { rm, kind: ShiftKind::LogicalRight, amount }
        }
    } else if typ == 2 {
        if amount == 0 {
            Offset::Scaled { rm, kind: ShiftKind::ArithmeticRight, amount: 32 }
        } else {
            Offset::Scaled { rm, kind: ShiftKind::ArithmeticRight, amount }
        }
    } else {
        if amount == 0 {
            Offset::Scaled { rm, kind: ShiftKind::RotateRightExtend, amount: 1 }
        } else {
            Offset::Scaled { rm, kind: ShiftKind::RotateRight, amount }
        }
    }
}

/// Decode of a single-register transfer word (major groups 010 and 011
/// with bit 4 clear).  Bit 25 picks an immediate or a scaled register
/// offset; a clear P bit with a set W bit gives the user-mode-privileged
/// post-indexed forms.
pub open spec fn single_ls_decode(value: u32) -> Result<LoadAndStoreInstruction, ParseError> {
    let i = bit(value, 25);
    let p = bit(value, 24);
    let u = bit(value, 23);
    let b = bit(value, 22);
    let w = bit(value, 21);
    let l = bit(value, 20);
    if i && bit(value, 4) {
        Err(ParseError::InvalidMask { invalid_set_bytes: value & 0x10 })
    } else {
        let base = reg_of((value >> 16) & 0xf);
        let destination = reg_of((value >> 12) & 0xf);
        let offset = if !i {
            Offset::Immediate(value & 0xfff)
        } else {
            scaled_offset(reg_of(value & 0xf), (value >> 5) & 3, (value >> 7) & 0x1f)
        };
        if !p && w {
            let inst = LoadAndStorePostIndexInstruction {
                destination,
                addressing_mode: PostIndexedAddressingMode { base, offset, sign: sign_of(u) },
            };
            if l {
                if b {
                    Ok(LoadAndStoreInstruction::LDRBT(inst))
                } else {
                    Ok(LoadAndStoreInstruction::LDRT(inst))
                }
            } else {
                if b {
                    Ok(LoadAndStoreInstruction::STRBT(inst))
                } else {
                    Ok(LoadAndStoreInstruction::STRT(inst))
                }
            }
        } else {
            let inst = LoadAndStoreGenericInsturction {
                destination,
                addressing_mode: AddressingMode {
                    base,
                    offset,
                    sign: sign_of(u),
                    indexing: indexing_of(p),
                    writeback: w,
                },
            };
            if l {
                if b {
                    Ok(LoadAndStoreInstruction::LDRB(inst))
                } else {
                    Ok(LoadAndStoreInstruction::LDR(inst))
                }
            } else {
                if b {
                    Ok(LoadAndStoreInstruction::STRB(inst))
                } else {
                    Ok(LoadAndStoreInstruction::STR(inst))
                }
            }
        }
    }
}

/// Decode of a halfword, signed or doubleword transfer word (group 000,
/// fixed patterns `1011`, `1101` and `1111` at bit 4).  Bit 22 picks the
/// split immediate or a plain register offset; these forms have no
/// user-mode-privileged variant, so a clear P bit with a set W bit is an
/// error.
pub open spec fn extra_ls_decode(value: u32) -> Result<LoadAndStoreInstruction, ParseError> {
    let p = bit(value, 24);
    let u = bit(value, 23);
    let i = bit(value, 22);
    let w = bit(value, 21);
    let l = bit(value, 20);
    let sh = (value >> 5) & 3;
    if !p && w {
        Err(ParseError::InvalidMask { invalid_set_bytes: value & 0x200000 })
    } else if !i && (value >> 8) & 0xf != 0 {
        Err(ParseError::InvalidMask { invalid_set_bytes: value & 0xf00 })
    } else {
        let offset = if i {
            Offset::Immediate((((value >> 8) & 0xf) * 16 + (value & 0xf)) as u32)
        } else {
            Offset::Register(reg_of(value & 0xf))
        };
        let inst = LoadAndStoreGenericInsturction {
            destination: reg_of((value >> 12) & 0xf),
            addressing_mode: AddressingMode {
                base: reg_of((value >> 16) & 0xf),
                offset,
                sign: sign_of(u),
                indexing: indexing_of(p),
                writeback: w,
            },
        };
        if l {
            if sh == 1 {
                Ok(LoadAndStoreInstruction::LDRH(inst))
            } else if sh == 2 {
                Ok(LoadAndStoreInstruction::LDRSB(inst))
            } else {
                Ok(LoadAndStoreInstruction::LDRSH(inst))
            }
        } else {
            if sh == 1 {
                Ok(LoadAndStoreInstruction::STRH(inst))
            } else if sh == 2 {
                Ok(LoadAndStoreInstruction::LDRD(inst))
            } else {
                Ok(LoadAndStoreInstruction::STRD(inst))
            }
        }
    }
}

/// Decode of an exclusive transfer word (group 000, `1001` at bit 4,
/// bits 24 and 23 being `11`): bits 22 and 21 must be zero, the field at
/// bits 11 to 8 must hold all ones, and a load's low field must too.
pub open spec fn exclusive_decode(value: u32) -> Result<LoadAndStoreInstruction, ParseError> {
    if (value >> 21) & 3 != 0 {
        Err(ParseError::InvalidMask { invalid_set_bytes: value & 0x600000 })
    } else if (value >> 8) & 0xf != 0xf {
        Err(ParseError::InvalidMask { invalid_set_bytes: (value ^ 0xf00) & 0xf00 })
    } else if (value >> 20) & 1 == 1 {
        if value & 0xf != 0xf {
            Err(ParseError::InvalidMask { invalid_set_bytes: (value ^ 0xf) & 0xf })
        } else {
            Ok(
                LoadAndStoreInstruction::LDREX(
                    LDREX {
                        destination: reg_of((value >> 12) & 0xf),
                        adress: reg_of((value >> 16) & 0xf),
                    },
                ),
            )
        }
    } else {
        Ok(
            LoadAndStoreInstruction::STREX {
                destination: reg_of((value >> 12) & 0xf),
                value: reg_of(value & 0xf),
                adress: reg_of((value >> 16) & 0xf),
            },
        )
    }
}

/// The block-transfer addressing mode named by the P and U bits:
/// increment or decrement, after or before.
pub open spec fn multiple_mode(p: bool, u: bool) -> MultipleAddressingMode {
    if p {
        if u {
            MultipleAddressingMode::IncrementBefore
        } else {
            MultipleAddressingMode::DecrementBefore
        }
    } else {
        if u {
            MultipleAddressingMode::IncrementAfter
        } else {
            MultipleAddressingMode::DecrementAfter
        }
    }
}

pub(crate) fn multiple_mode_exec(p: bool, u: bool) -> (r: MultipleAddressingMode)
    ensures
        r == multiple_mode(p, u),
{
    if p {
        if u {
            MultipleAddressingMode::IncrementBefore
        } else {
            MultipleAddressingMode::DecrementBefore
        }
    } else {
        if u {
            MultipleAddressingMode::IncrementAfter
        } else {
            MultipleAddressingMode::DecrementAfter
        }
    }
}

/// Decode of a block-transfer word (major group 100).  The S bit selects
/// the user-register and restore-CPSR sub-variants: a user-register form
/// forbids base writeback, and the restore-CPSR load is told apart by the
/// PC being in the register list.
pub open spec fn multiple_decode(value: u32) -> Result<LoadAndStoreMultiple, ParseError> {
    let p = bit(value, 24);
    let u = bit(value, 23);
    let s = bit(value, 22);
    let w = bit(value, 21);
    let l = bit(value, 20);
    let mode = multiple_mode(p, u);
    let base = reg_of((value >> 16) & 0xf);
    let registers = RegisterList((value & 0xffff) as u16);
    if !s {
        if l {
            Ok(
                LoadAndStoreMultiple::LDM(
                    LoadAndStoreMultipleWriteGeneric {
                        addressing_mode: mode,
                        base,
                        write: w,
                        registers,
                    },
                ),
            )
        } else {
            Ok(
                LoadAndStoreMultiple::STM(
                    LoadAndStoreMultipleWriteGeneric {
                        addressing_mode: mode,
                        base,
                        write: w,
                        registers,
                    },
                ),
            )
        }
    } else if !l {
        if w {
            Err(ParseError::InvalidMask { invalid_set_bytes: value & 0x200000 })
        } else {
            Ok(
                LoadAndStoreMultiple::STM2(
                    LoadAndStoreMultipleGeneric { addressing_mode: mode, base, registers },
                ),
            )
        }
    } else {
        if (value >> 15) & 1 == 1 {
            Ok(
                LoadAndStoreMultiple::LDMC(
                    LoadAndStoreMultipleWriteGeneric {
                        addressing_mode: mode,
                        base,
                        write: w,
                        registers,
                    },
                ),
            )
        } else if w {
            Err(ParseError::InvalidMask { invalid_set_bytes: value & 0x200000 })
        } else {
            Ok(
                LoadAndStoreMultiple::LDMR(
                    LoadAndStoreMultipleGeneric { addressing_mode: mode, base, registers },
                ),
            )
        }
    }
}

/// Reserved-bit sensitivity of the halfword and doubleword transfers: a
/// clear P bit with a set W bit, or a set bit in the register form's
/// must-be-zero field, makes decoding fail.
pub proof fn lemma_extra_ls_reserved(value: u32)
    requires
        !bit(value, 24) && bit(value, 21) || !bit(value, 22) && (value >> 8) & 0xf != 0,
    ensures
        extra_ls_decode(value) is Err,
{
}

/// Reserved-bit sensitivity of the exclusive transfers: set bits at
/// bits 22 or 21, or a hole in a should-be-one field, makes decoding
/// fail.
pub proof fn lemma_exclusive_reserved(value: u32)
    requires
        (value >> 21) & 3 != 0 || (value >> 8) & 0xf != 0xf || (value >> 20) & 1 == 1 && value
            & 0xf != 0xf,
    ensures
        exclusive_decode(value) is Err,
{
}

/// Reserved-bit sensitivity of the block transfers: a user-register form
/// (S bit set, and for a load the PC out of the list) with base writeback
/// requested fails to decode.
pub proof fn lemma_multiple_user_writeback(value: u32)
    requires
        bit(value, 22),
        bit(value, 21),
        !bit(value, 20) || (value >> 15) & 1 == 0,
    ensures
        multiple_decode(value) is Err,
{
}

impl LoadAndStoreInstruction {
    /// Decodes a single-register transfer word.
    pub fn new(value: u32) -> (r: Result<LoadAndStoreInstruction, ParseError>)
        ensures
            r == single_ls_decode(value),
    {
        let i: bool = (value >> 25) & 1 == 1;
        let p: bool = (value >> 24) & 1 == 1;
        let u: bool = (value >> 23) & 1 == 1;
        let b: bool = (value >> 22) & 1 == 1;
        let w: bool = (value >> 21) & 1 == 1;
        let l: bool = (value >> 20) & 1 == 1;
        if i && (value >> 4) & 1 == 1 {
            return Err(ParseError::InvalidMask { invalid_set_bytes: value & 0x10 });
        }
        proof {
            lemma_mask_bound(value, 0xf);
            lemma_field_bound(value, 5, 3);
        }
        let base = reg_at(value, 16);
        let destination = reg_at(value, 12);
        let offset = if !i {
            Offset::Immediate(value & 0xfff)
        } else {
            scaled_offset_exec(reg_table(value & 0xf), (value >> 5) & 3, (value >> 7) & 0x1f)
        };
        if !p && w {
            let inst = LoadAndStorePostIndexInstruction {
                destination,
                addressing_mode: PostIndexedAddressingMode { base, offset, sign: sign_exec(u) },
            };
            if l {
                if b {
                    Ok(LoadAndStoreInstruction::LDRBT(inst))
                } else {
                    Ok(LoadAndStoreInstruction::LDRT(inst))
                }
            } else {
                if b {
                    Ok(LoadAndStoreInstruction::STRBT(inst))
                } else {
                    Ok(LoadAndStoreInstruction::STRT(inst))
                }
            }
        } else {
            let inst = LoadAndStoreGenericInsturction {
                destination,
                addressing_mode: AddressingMode {
                    base,
                    offset,
                    sign: sign_exec(u),
                    indexing: indexing_exec(p),
                    writeback: w,
                },
            };
            if l {
                if b {
                    Ok(LoadAndStoreInstruction::LDRB(inst))
                } else {
                    Ok(LoadAndStoreInstruction::LDR(inst))
                }
            } else {
                if b {
                    Ok(LoadAndStoreInstruction::STRB(inst))
                } else {
                    Ok(LoadAndStoreInstruction::STR(inst))
                }
            }
        }
    }

    /// Decodes a halfword, signed or doubleword transfer word.
    pub fn new_extra(value: u32) -> (r: Result<LoadAndStoreInstruction, ParseError>)
        ensures
            r == extra_ls_decode(value),
    {
        let p: bool = (value >> 24) & 1 == 1;
        let u: bool = (value >> 23) & 1 == 1;
        let i: bool = (value >> 22) & 1 == 1;
        let w: bool = (value >> 21) & 1 == 1;
        let l: bool = (value >> 20) & 1 == 1;
        let sh: u32 = (value >> 5) & 3;
        if !p && w {
            Err(ParseError::InvalidMask { invalid_set_bytes: value & 0x200000 })
        } else if !i && (value >> 8) & 0xf != 0 {
            Err(ParseError::InvalidMask { invalid_set_bytes: value & 0xf00 })
        } else {
            proof {
                lemma_mask_bound(value, 0xf);
                lemma_field_bound(value, 8, 0xf);
            }
            let offset = if i {
                Offset::Immediate(((value >> 8) & 0xf) * 16 + (value & 0xf))
            } else {
                Offset::Register(reg_table(value & 0xf))
            };
            let inst = LoadAndStoreGenericInsturction {
                destination: reg_at(value, 12),
                addressing_mode: AddressingMode {
                    base: reg_at(value, 16),
                    offset,
                    sign: sign_exec(u),
                    indexing: indexing_exec(p),
                    writeback: w,
                },
            };
            if l {
                if sh == 1 {
                    Ok(LoadAndStoreInstruction::LDRH(inst))
                } else if sh == 2 {
                    Ok(LoadAndStoreInstruction::LDRSB(inst))
                } else {
                    Ok(LoadAndStoreInstruction::LDRSH(inst))
                }
            } else {
                if sh == 1 {
                    Ok(LoadAndStoreInstruction::STRH(inst))
                } else if sh == 2 {
                    Ok(LoadAndStoreInstruction::LDRD(inst))
                } else {
                    Ok(LoadAndStoreInstruction::STRD(inst))
                }
            }
        }
    }

    /// Decodes an exclusive transfer word.
    pub fn new_exclusive(value: u32) -> (r: Result<LoadAndStoreInstruction, ParseError>)
        ensures
            r == exclusive_decode(value),
    {
        if (value >> 21) & 3 != 0 {
            Err(ParseError::InvalidMask { invalid_set_bytes: value & 0x600000 })
        } else if (value >> 8) & 0xf != 0xf {
            Err(ParseError::InvalidMask { invalid_set_bytes: (value ^ 0xf00) & 0xf00 })
        } else if (value >> 20) & 1 == 1 {
            if value & 0xf != 0xf {
                Err(ParseError::InvalidMask { invalid_set_bytes: (value ^ 0xf) & 0xf })
            } else {
                Ok(
                    LoadAndStoreInstruction::LDREX(
                        LDREX { destination: reg_at(value, 12), adress: reg_at(value, 16) },
                    ),
                )
            }
        } else {
            proof {
                lemma_mask_bound(value, 0xf);
            }
            Ok(
                LoadAndStoreInstruction::STREX {
                    destination: reg_at(value, 12),
                    value: reg_table(value & 0xf),
                    adress: reg_at(value, 16),
                },
            )
        }
    }
}

impl LoadAndStoreMultiple {
    /// Decodes a block-transfer word.
    pub fn new(value: u32) -> (r: Result<LoadAndStoreMultiple, ParseError>)
        ensures
            r == multiple_decode(value),
    {
        let p: bool = (value >> 24) & 1 == 1;
        let u: bool = (value >> 23) & 1 == 1;
        let s: bool = (value >> 22) & 1 == 1;
        let w: bool = (value >> 21) & 1 == 1;
        let l: bool = (value >> 20) & 1 == 1;
        proof {
            lemma_mask_bound(value, 0xffff);
        }
        let mode = multiple_mode_exec(p, u);
        let base = reg_at(value, 16);
        let registers = RegisterList((value & 0xffff) as u16);
        if !s {
            if l {
                Ok(
                    LoadAndStoreMultiple::LDM(
                        LoadAndStoreMultipleWriteGeneric {
                            addressing_mode: mode,
                            base,
                            write: w,
                            registers,
                        },
                    ),
                )
            } else {
                Ok(
                    LoadAndStoreMultiple::STM(
                        LoadAndStoreMultipleWriteGeneric {
                            addressing_mode: mode,
                            base,
                            write: w,
                            registers,
                        },
                    ),
                )
            }
        } else if !l {
            if w {
                Err(ParseError::InvalidMask { invalid_set_bytes: value & 0x200000 })
            } else {
                Ok(
                    LoadAndStoreMultiple::STM2(
                        LoadAndStoreMultipleGeneric { addressing_mode: mode, base, registers },
                    ),
                )
            }
        } else {
            if (value >> 15) & 1 == 1 {
                Ok(
                    LoadAndStoreMultiple::LDMC(
                        LoadAndStoreMultipleWriteGeneric {
                            addressing_mode: mode,
                            base,
                            write: w,
                            registers,
                        },
                    ),
                )
            } else if w {
                Err(ParseError::InvalidMask { invalid_set_bytes: value & 0x200000 })
            } else {
                Ok(
                    LoadAndStoreMultiple::LDMR(
                        LoadAndStoreMultipleGeneric { addressing_mode: mode, base, registers },
                    ),
                )
            }
        }
    }
}

} // verus!
