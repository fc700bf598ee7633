//! End-to-end decode scenarios: one canonical word per instruction form,
//! the documented condition table, reserved-bit sensitivity, and the
//! architecture's shifter-operand special cases.

use arm_decode::arithmetic::{AritmaticInstruction, AritmeticInstruction, MediaOperands};
use arm_decode::branch::BranchInstruction;
use arm_decode::coprocessor::{CoprocessorInstruction, CDP, LDC, MCR, MCRR, MRC, MRRC, STC};
use arm_decode::dataprocessing::{
    DataProssessingInstruction, GenericDataInstruction, MOVLikeDataInstruction,
    NoDestinationDataInstruction,
};
use arm_decode::errors::ParseError;
use arm_decode::exception::ExceptiongeneratingInstruction;
use arm_decode::instruction::{ArmInstruction, Instruction, PartialInstruction};
use arm_decode::loadstore::{
    LoadAndStoreGenericInsturction, LoadAndStoreInstruction, LoadAndStoreMultiple,
    LoadAndStoreMultipleGeneric, LoadAndStoreMultipleWriteGeneric, LoadAndStorePostIndexInstruction,
    MultipleAddressingMode, LDREX,
};
use arm_decode::multiply::MultiplyInstruction;
use arm_decode::operands::{
    AddressingMode, Cond, Coprocessor, CRegister, Indexing, Offset, PostIndexedAddressingMode,
    PSRFlags, Register, RegisterList, RelativeAdress, ShiftKind, ShifterOperand, Sign,
};
use arm_decode::register_access::{IFlags, RegisterAccessInstruction};
use arm_decode::semaphore::SemaphoreInstruction;
use arm_decode::unconditional::UnconditionalInstruction;

fn dec(w: u32) -> ArmInstruction {
    ArmInstruction::decode(w).unwrap()
}

fn conditional(cond: Cond, partial: PartialInstruction) -> ArmInstruction {
    ArmInstruction::Conditional(Instruction { cond, partial })
}

fn always(partial: PartialInstruction) -> ArmInstruction {
    conditional(Cond::Allways, partial)
}

#[test]
fn decoding_is_deterministic() {
    let words = [
        0xE0821003u32,
        0xEB000005,
        0xE12FFF1E,
        0xEF000011,
        0xF1234567,
        0x00000000,
        0xFFFFFFFF,
    ];
    for &w in words.iter() {
        assert_eq!(ArmInstruction::decode(w), ArmInstruction::decode(w));
    }
}

#[test]
fn condition_field_maps_by_the_table() {
    // MOV R0, R0 under every ordinary condition value.
    let conds = [
        Cond::Equal,
        Cond::NotEqual,
        Cond::CarrySet,
        Cond::CarryClear,
        Cond::Minus,
        Cond::Plus,
        Cond::Overflow,
        Cond::NoOverflow,
        Cond::Higher,
        Cond::LowerOrSame,
        Cond::SignedGreaterOrEqual,
        Cond::SignedLessThan,
        Cond::SignedGreaterThan,
        Cond::SignedLessThanOrEqual,
        Cond::Allways,
    ];
    for c in 0..15u32 {
        let w = (c << 28) | 0x01A00000;
        match dec(w) {
            ArmInstruction::Conditional(inst) => assert_eq!(inst.cond, conds[c as usize]),
            _ => panic!("condition {} did not stay conditional", c),
        }
    }
    // The value 15 routes into the extension space instead.
    assert!(matches!(dec(0xF5D1F004), ArmInstruction::Unconditional(_)));
}

#[test]
fn add_register_scenario() {
    // The documented end-to-end scenario.
    assert_eq!(
        dec(0xE0821003),
        always(PartialInstruction::DataProssessing(DataProssessingInstruction::ADD(
            GenericDataInstruction {
                destination: Register::R1,
                first_operand: Register::R2,
                s: false,
                shifter: ShifterOperand::Register(Register::R3),
            }
        )))
    );
}

#[test]
fn mov_immediate() {
    assert_eq!(
        dec(0xE3A00001),
        always(PartialInstruction::DataProssessing(DataProssessingInstruction::MOV(
            MOVLikeDataInstruction {
                destination: Register::R0,
                s: false,
                shifter: ShifterOperand::Immediate(1),
            }
        )))
    );
}

#[test]
fn rotated_immediate_resolves_in_decode() {
    // rotate_imm = 4, imm8 = 0xFF resolves to 0xFF000000.
    assert_eq!(
        dec(0xE3A004FF),
        always(PartialInstruction::DataProssessing(DataProssessingInstruction::MOV(
            MOVLikeDataInstruction {
                destination: Register::R0,
                s: false,
                shifter: ShifterOperand::Immediate(0xFF00_0000),
            }
        )))
    );
}

#[test]
fn lsr_zero_amount_reads_as_thirty_two() {
    assert_eq!(
        dec(0xE0010022),
        always(PartialInstruction::DataProssessing(DataProssessingInstruction::AND(
            GenericDataInstruction {
                destination: Register::R0,
                first_operand: Register::R1,
                s: false,
                shifter: ShifterOperand::ImmediateShift {
                    rm: Register::R2,
                    kind: ShiftKind::LogicalRight,
                    amount: 32,
                },
            }
        )))
    );
}

#[test]
fn cmp_immediate() {
    assert_eq!(
        dec(0xE3510000),
        always(PartialInstruction::DataProssessing(DataProssessingInstruction::CMP(
            NoDestinationDataInstruction {
                first_operand: Register::R1,
                s: true,
                shifter: ShifterOperand::Immediate(0),
            }
        )))
    );
}

#[test]
fn branch_scenarios() {
    assert_eq!(
        dec(0xEB000005),
        always(PartialInstruction::Branch(BranchInstruction::BL(RelativeAdress(20))))
    );
    assert_eq!(
        dec(0xEA000000),
        always(PartialInstruction::Branch(BranchInstruction::B(RelativeAdress(0))))
    );
    assert_eq!(
        dec(0xEAFFFFFE),
        always(PartialInstruction::Branch(BranchInstruction::B(RelativeAdress(-8))))
    );
}

#[test]
fn exchange_branch_scenarios() {
    assert_eq!(
        dec(0xE12FFF1E),
        always(PartialInstruction::Branch(BranchInstruction::BX(Register::R14)))
    );
    assert_eq!(
        dec(0x012FFF1E),
        conditional(
            Cond::Equal,
            PartialInstruction::Branch(BranchInstruction::BX(Register::R14))
        )
    );
    assert_eq!(
        dec(0xE12FFF33),
        always(PartialInstruction::Branch(BranchInstruction::BLX(Register::R3)))
    );
}

#[test]
fn multiply_forms() {
    assert_eq!(
        dec(0xE0010392),
        always(PartialInstruction::Multiply(MultiplyInstruction::MUL {
            destination: Register::R1,
            s: false,
            first_operand: Register::R2,
            second_operand: Register::R3,
        }))
    );
    assert_eq!(
        dec(0xE0214392),
        always(PartialInstruction::Multiply(MultiplyInstruction::MLA {
            destination: Register::R1,
            s: false,
            first_operand: Register::R2,
            second_operand: Register::R3,
            add_operand: Register::R4,
        }))
    );
    assert_eq!(
        dec(0xE0821493),
        always(PartialInstruction::Multiply(MultiplyInstruction::UMULL {
            s: false,
            high: Register::R2,
            low: Register::R1,
            first_operand: Register::R3,
            second_operand: Register::R4,
        }))
    );
    assert_eq!(
        dec(0xE0C21493),
        always(PartialInstruction::Multiply(MultiplyInstruction::SMULL {
            s: false,
            high: Register::R2,
            low: Register::R1,
            first_operand: Register::R3,
            second_operand: Register::R4,
        }))
    );
    assert_eq!(
        dec(0xE1014382),
        always(PartialInstruction::Multiply(MultiplyInstruction::SMLA {
            x: false,
            y: false,
            destination: Register::R1,
            first_operand: Register::R2,
            second_operand: Register::R3,
            add_operand: Register::R4,
        }))
    );
}

#[test]
fn multiply_halfword_variants() {
    assert_eq!(
        dec(0xE0A21493),
        always(PartialInstruction::Multiply(MultiplyInstruction::UMLAL {
            s: false,
            high: Register::R2,
            low: Register::R1,
            first_operand: Register::R3,
            second_operand: Register::R4,
        }))
    );
    assert_eq!(
        dec(0xE0E21493),
        always(PartialInstruction::Multiply(MultiplyInstruction::SMLAL {
            s: false,
            high: Register::R2,
            low: Register::R1,
            first_operand: Register::R3,
            second_operand: Register::R4,
        }))
    );
    assert_eq!(
        dec(0xE1214382),
        always(PartialInstruction::Multiply(MultiplyInstruction::SMLAW {
            y: false,
            destination: Register::R1,
            first_operand: Register::R2,
            second_operand: Register::R3,
            add_operand: Register::R4,
        }))
    );
    assert_eq!(
        dec(0xE12103A2),
        always(PartialInstruction::Multiply(MultiplyInstruction::SMULW {
            y: false,
            destination: Register::R1,
            first_operand: Register::R2,
            second_operand: Register::R3,
        }))
    );
    assert_eq!(
        dec(0xE16103A2),
        always(PartialInstruction::Multiply(MultiplyInstruction::SMUL {
            x: true,
            y: false,
            destination: Register::R1,
            first_operand: Register::R2,
            second_operand: Register::R3,
        }))
    );
    assert_eq!(
        dec(0xE1421384),
        always(PartialInstruction::Multiply(MultiplyInstruction::SMLAL2 {
            x: false,
            y: false,
            high: Register::R2,
            low: Register::R1,
            first_operand: Register::R4,
            second_operand: Register::R3,
        }))
    );
}

#[test]
fn saturating_arithmetic_and_clz() {
    assert_eq!(
        dec(0xE1012055),
        always(PartialInstruction::Aritmetic(AritmeticInstruction::QADD {
            destination: Register::R2,
            first_operand: Register::R5,
            second_operand: Register::R1,
        }))
    );
    assert_eq!(
        dec(0xE16F1F12),
        always(PartialInstruction::Aritmetic(AritmeticInstruction::CLZ {
            destination: Register::R1,
            source: Register::R2,
        }))
    );
}

#[test]
fn parallel_arithmetic() {
    assert_eq!(
        dec(0xE6121F13),
        always(PartialInstruction::Media(AritmaticInstruction::SADD16(MediaOperands {
            destination: Register::R1,
            first_operand: Register::R2,
            second_operand: Register::R3,
        })))
    );
    // The unsigned-halving class keys off the same operation bits.
    assert_eq!(
        dec(0xE6721FF3),
        always(PartialInstruction::Media(AritmaticInstruction::UHSUB8(MediaOperands {
            destination: Register::R1,
            first_operand: Register::R2,
            second_operand: Register::R3,
        })))
    );
}

#[test]
fn parallel_arithmetic_table_is_complete() {
    // Every assigned (class, operation) pair of the parallel add/subtract
    // table, over fixed operands.
    let operands = MediaOperands {
        destination: Register::R1,
        first_operand: Register::R2,
        second_operand: Register::R3,
    };
    let table: [(u32, u32, AritmaticInstruction); 36] = [
        (1, 0, AritmaticInstruction::SADD16(operands)),
        (1, 1, AritmaticInstruction::SADDSUBX(operands)),
        (1, 2, AritmaticInstruction::SSUBADDX(operands)),
        (1, 3, AritmaticInstruction::SSUB16(operands)),
        (1, 4, AritmaticInstruction::SADD8(operands)),
        (1, 7, AritmaticInstruction::SSUB8(operands)),
        (2, 0, AritmaticInstruction::QADD16(operands)),
        (2, 1, AritmaticInstruction::QADDSUBX(operands)),
        (2, 2, AritmaticInstruction::QSUBADDX(operands)),
        (2, 3, AritmaticInstruction::QSUB16(operands)),
        (2, 4, AritmaticInstruction::QADD8(operands)),
        (2, 7, AritmaticInstruction::QSUB8(operands)),
        (3, 0, AritmaticInstruction::SHADD16(operands)),
        (3, 1, AritmaticInstruction::SHADDSUBX(operands)),
        (3, 2, AritmaticInstruction::SHSUBADDX(operands)),
        (3, 3, AritmaticInstruction::SHSUB16(operands)),
        (3, 4, AritmaticInstruction::SHADD8(operands)),
        (3, 7, AritmaticInstruction::SHSUB8(operands)),
        (5, 0, AritmaticInstruction::UADD16(operands)),
        (5, 1, AritmaticInstruction::UADDSUBX(operands)),
        (5, 2, AritmaticInstruction::USUBADDX(operands)),
        (5, 3, AritmaticInstruction::USUB16(operands)),
        (5, 4, AritmaticInstruction::UADD8(operands)),
        (5, 7, AritmaticInstruction::USUB8(operands)),
        (6, 0, AritmaticInstruction::UQADD16(operands)),
        (6, 1, AritmaticInstruction::UQADDSUBX(operands)),
        (6, 2, AritmaticInstruction::UQSUBADDX(operands)),
        (6, 3, AritmaticInstruction::UQSUB16(operands)),
        (6, 4, AritmaticInstruction::UQADD8(operands)),
        (6, 7, AritmaticInstruction::UQSUB8(operands)),
        (7, 0, AritmaticInstruction::UHADD16(operands)),
        (7, 1, AritmaticInstruction::UHADDSUBX(operands)),
        (7, 2, AritmaticInstruction::UHSUBADDX(operands)),
        (7, 3, AritmaticInstruction::UHSUB16(operands)),
        (7, 4, AritmaticInstruction::UHADD8(operands)),
        (7, 7, AritmaticInstruction::UHSUB8(operands)),
    ];
    for &(class, op, expected) in table.iter() {
        let w = 0xE6000000 | (class << 20) | (2 << 16) | (1 << 12) | 0xF00 | (op << 5) | 0x10 | 3;
        assert_eq!(
            dec(w),
            always(PartialInstruction::Media(expected)),
            "class {} op {}",
            class,
            op
        );
    }
    // The unassigned classes fail.
    assert!(ArmInstruction::decode(0xE6021F13).is_err());
    assert!(ArmInstruction::decode(0xE6421F13).is_err());
}

#[test]
fn single_register_transfers() {
    assert_eq!(
        dec(0xE5921004),
        always(PartialInstruction::LoadAndStore(LoadAndStoreInstruction::LDR(
            LoadAndStoreGenericInsturction {
                destination: Register::R1,
                addressing_mode: AddressingMode {
                    base: Register::R2,
                    offset: Offset::Immediate(4),
                    sign: Sign::Add,
                    indexing: Indexing::PreIndexed,
                    writeback: false,
                },
            }
        )))
    );
    assert_eq!(
        dec(0xE5821004),
        always(PartialInstruction::LoadAndStore(LoadAndStoreInstruction::STR(
            LoadAndStoreGenericInsturction {
                destination: Register::R1,
                addressing_mode: AddressingMode {
                    base: Register::R2,
                    offset: Offset::Immediate(4),
                    sign: Sign::Add,
                    indexing: Indexing::PreIndexed,
                    writeback: false,
                },
            }
        )))
    );
    assert_eq!(
        dec(0xE5D21004),
        always(PartialInstruction::LoadAndStore(LoadAndStoreInstruction::LDRB(
            LoadAndStoreGenericInsturction {
                destination: Register::R1,
                addressing_mode: AddressingMode {
                    base: Register::R2,
                    offset: Offset::Immediate(4),
                    sign: Sign::Add,
                    indexing: Indexing::PreIndexed,
                    writeback: false,
                },
            }
        )))
    );
    // The user-mode-privileged form: post-indexed implicit.
    assert_eq!(
        dec(0xE4B21004),
        always(PartialInstruction::LoadAndStore(LoadAndStoreInstruction::LDRT(
            LoadAndStorePostIndexInstruction {
                destination: Register::R1,
                addressing_mode: PostIndexedAddressingMode {
                    base: Register::R2,
                    offset: Offset::Immediate(4),
                    sign: Sign::Add,
                },
            }
        )))
    );
    // A scaled register offset.
    assert_eq!(
        dec(0xE7921103),
        always(PartialInstruction::LoadAndStore(LoadAndStoreInstruction::LDR(
            LoadAndStoreGenericInsturction {
                destination: Register::R1,
                addressing_mode: AddressingMode {
                    base: Register::R2,
                    offset: Offset::Scaled {
                        rm: Register::R3,
                        kind: ShiftKind::LogicalLeft,
                        amount: 2,
                    },
                    sign: Sign::Add,
                    indexing: Indexing::PreIndexed,
                    writeback: false,
                },
            }
        )))
    );
}

#[test]
fn transfer_addressing_edge_cases() {
    // A subtracted offset.
    match dec(0xE5121004) {
        ArmInstruction::Conditional(inst) => match inst.partial {
            PartialInstruction::LoadAndStore(LoadAndStoreInstruction::LDR(ldr)) => {
                assert_eq!(ldr.addressing_mode.sign, Sign::Subtract);
            }
            other => panic!("expected a load, got {:?}", other),
        },
        other => panic!("expected a conditional word, got {:?}", other),
    }
    // Post-indexed without writeback.
    match dec(0xE4921004) {
        ArmInstruction::Conditional(inst) => match inst.partial {
            PartialInstruction::LoadAndStore(LoadAndStoreInstruction::LDR(ldr)) => {
                assert_eq!(ldr.addressing_mode.indexing, Indexing::PostIndexed);
                assert!(!ldr.addressing_mode.writeback);
            }
            other => panic!("expected a load, got {:?}", other),
        },
        other => panic!("expected a conditional word, got {:?}", other),
    }
    // A scaled offset with a zero right-shift amount reads as 32.
    match dec(0xE7821023) {
        ArmInstruction::Conditional(inst) => match inst.partial {
            PartialInstruction::LoadAndStore(LoadAndStoreInstruction::STR(str_inst)) => {
                assert_eq!(
                    str_inst.addressing_mode.offset,
                    Offset::Scaled {
                        rm: Register::R3,
                        kind: ShiftKind::LogicalRight,
                        amount: 32,
                    }
                );
            }
            other => panic!("expected a store, got {:?}", other),
        },
        other => panic!("expected a conditional word, got {:?}", other),
    }
    // The remaining user-mode-privileged forms.
    assert!(matches!(
        dec(0xE4A21004),
        ArmInstruction::Conditional(Instruction {
            partial: PartialInstruction::LoadAndStore(LoadAndStoreInstruction::STRT(_)),
            ..
        })
    ));
    assert!(matches!(
        dec(0xE4E21004),
        ArmInstruction::Conditional(Instruction {
            partial: PartialInstruction::LoadAndStore(LoadAndStoreInstruction::STRBT(_)),
            ..
        })
    ));
    assert!(matches!(
        dec(0xE4F21004),
        ArmInstruction::Conditional(Instruction {
            partial: PartialInstruction::LoadAndStore(LoadAndStoreInstruction::LDRBT(_)),
            ..
        })
    ));
}

#[test]
fn halfword_and_doubleword_transfers() {
    assert_eq!(
        dec(0xE1D210B6),
        always(PartialInstruction::LoadAndStore(LoadAndStoreInstruction::LDRH(
            LoadAndStoreGenericInsturction {
                destination: Register::R1,
                addressing_mode: AddressingMode {
                    base: Register::R2,
                    offset: Offset::Immediate(6),
                    sign: Sign::Add,
                    indexing: Indexing::PreIndexed,
                    writeback: false,
                },
            }
        )))
    );
    assert_eq!(
        dec(0xE1C210B6),
        always(PartialInstruction::LoadAndStore(LoadAndStoreInstruction::STRH(
            LoadAndStoreGenericInsturction {
                destination: Register::R1,
                addressing_mode: AddressingMode {
                    base: Register::R2,
                    offset: Offset::Immediate(6),
                    sign: Sign::Add,
                    indexing: Indexing::PreIndexed,
                    writeback: false,
                },
            }
        )))
    );
    assert_eq!(
        dec(0xE1C120D4),
        always(PartialInstruction::LoadAndStore(LoadAndStoreInstruction::LDRD(
            LoadAndStoreGenericInsturction {
                destination: Register::R2,
                addressing_mode: AddressingMode {
                    base: Register::R1,
                    offset: Offset::Immediate(4),
                    sign: Sign::Add,
                    indexing: Indexing::PreIndexed,
                    writeback: false,
                },
            }
        )))
    );
}

#[test]
fn exclusive_transfers() {
    assert_eq!(
        dec(0xE1921F9F),
        always(PartialInstruction::LoadAndStore(LoadAndStoreInstruction::LDREX(LDREX {
            destination: Register::R1,
            adress: Register::R2,
        })))
    );
    assert_eq!(
        dec(0xE1821F93),
        always(PartialInstruction::LoadAndStore(LoadAndStoreInstruction::STREX {
            destination: Register::R1,
            value: Register::R3,
            adress: Register::R2,
        }))
    );
}

#[test]
fn block_transfers() {
    assert_eq!(
        dec(0xE8B20003),
        always(PartialInstruction::LoadAndStore(LoadAndStoreInstruction::Multiple(
            LoadAndStoreMultiple::LDM(LoadAndStoreMultipleWriteGeneric {
                addressing_mode: MultipleAddressingMode::IncrementAfter,
                base: Register::R2,
                write: true,
                registers: RegisterList(0b11),
            })
        )))
    );
    assert_eq!(
        dec(0xE8820003),
        always(PartialInstruction::LoadAndStore(LoadAndStoreInstruction::Multiple(
            LoadAndStoreMultiple::STM(LoadAndStoreMultipleWriteGeneric {
                addressing_mode: MultipleAddressingMode::IncrementAfter,
                base: Register::R2,
                write: false,
                registers: RegisterList(0b11),
            })
        )))
    );
    assert_eq!(
        dec(0xE8C20003),
        always(PartialInstruction::LoadAndStore(LoadAndStoreInstruction::Multiple(
            LoadAndStoreMultiple::STM2(LoadAndStoreMultipleGeneric {
                addressing_mode: MultipleAddressingMode::IncrementAfter,
                base: Register::R2,
                registers: RegisterList(0b11),
            })
        )))
    );
    assert_eq!(
        dec(0xE8D20003),
        always(PartialInstruction::LoadAndStore(LoadAndStoreInstruction::Multiple(
            LoadAndStoreMultiple::LDMR(LoadAndStoreMultipleGeneric {
                addressing_mode: MultipleAddressingMode::IncrementAfter,
                base: Register::R2,
                registers: RegisterList(0b11),
            })
        )))
    );
    // The PC in the register list picks the restore-CPSR load.
    assert_eq!(
        dec(0xE8D28003),
        always(PartialInstruction::LoadAndStore(LoadAndStoreInstruction::Multiple(
            LoadAndStoreMultiple::LDMC(LoadAndStoreMultipleWriteGeneric {
                addressing_mode: MultipleAddressingMode::IncrementAfter,
                base: Register::R2,
                write: false,
                registers: RegisterList(0x8003),
            })
        )))
    );
}

#[test]
fn swaps() {
    assert_eq!(
        dec(0xE1031092),
        always(PartialInstruction::Semaphore(SemaphoreInstruction::SWP {
            destination: Register::R1,
            value: Register::R2,
            mem: Register::R3,
        }))
    );
    assert_eq!(
        dec(0xE1431092),
        always(PartialInstruction::Semaphore(SemaphoreInstruction::SWPB {
            destination: Register::R1,
            value: Register::R2,
            mem: Register::R3,
        }))
    );
}

#[test]
fn exception_generating() {
    assert_eq!(
        dec(0xEF000011),
        always(PartialInstruction::Exceptiongenerating(ExceptiongeneratingInstruction::SWI(
            0x11
        )))
    );
    assert_eq!(
        dec(0xE1212374),
        always(PartialInstruction::Exceptiongenerating(ExceptiongeneratingInstruction::BKPT(
            0x1234
        )))
    );
}

#[test]
fn psr_access() {
    assert_eq!(
        dec(0xE10F1000),
        always(PartialInstruction::RegisterAccess(RegisterAccessInstruction::MRS {
            destination: Register::R1,
            is_spsr: false,
        }))
    );
    assert_eq!(
        dec(0xE14F1000),
        always(PartialInstruction::RegisterAccess(RegisterAccessInstruction::MRS {
            destination: Register::R1,
            is_spsr: true,
        }))
    );
    assert_eq!(
        dec(0xE129F002),
        always(PartialInstruction::RegisterAccess(RegisterAccessInstruction::MSR {
            flags: PSRFlags {
                c: true,
                x: false,
                s: false,
                f: true
            },
            shifter_operand: ShifterOperand::Register(Register::R2),
            is_spsr: false,
        }))
    );
    assert_eq!(
        dec(0xE328F20F),
        always(PartialInstruction::RegisterAccess(RegisterAccessInstruction::MSR {
            flags: PSRFlags {
                c: false,
                x: false,
                s: false,
                f: true
            },
            shifter_operand: ShifterOperand::Immediate(0xF000_0000),
            is_spsr: false,
        }))
    );
}

#[test]
fn processor_state_change() {
    assert_eq!(
        dec(0xE1020003),
        always(PartialInstruction::RegisterAccess(RegisterAccessInstruction::CPS {
            flags: None,
            mode: Some(3),
        }))
    );
    assert_eq!(
        dec(0xE10C0100),
        always(PartialInstruction::RegisterAccess(RegisterAccessInstruction::CPS {
            flags: Some(IFlags {
                a: true,
                i: false,
                f: false
            }),
            mode: None,
        }))
    );
}

#[test]
fn coprocessor_forms() {
    assert_eq!(
        dec(0xEE221583),
        always(PartialInstruction::Coprocessor(CoprocessorInstruction::CDP(CDP {
            coprocessor: Coprocessor::P5,
            destination: CRegister::Cr1,
            first_operand: CRegister::Cr2,
            second_operand: CRegister::Cr3,
            opcode_1: 2,
            opcode_2: 4,
        })))
    );
    assert_eq!(
        dec(0xEE021F93),
        always(PartialInstruction::Coprocessor(CoprocessorInstruction::MCR(MCR {
            coprocessor: Coprocessor::P15,
            value: Register::R1,
            destination: CRegister::Cr2,
            additional_destination: CRegister::Cr3,
            opcode_1: 0,
            opcode_2: 4,
        })))
    );
    assert_eq!(
        dec(0xEE121F93),
        always(PartialInstruction::Coprocessor(CoprocessorInstruction::MRC(MRC {
            coprocessor: Coprocessor::P15,
            value: Register::R1,
            destination: CRegister::Cr2,
            additional_destination: CRegister::Cr3,
            opcode_1: 0,
            opcode_2: 4,
        })))
    );
    assert_eq!(
        dec(0xEC421534),
        always(PartialInstruction::Coprocessor(CoprocessorInstruction::MCRR(MCRR {
            coprocessor: Coprocessor::P5,
            opcode: 3,
            first_register: Register::R1,
            second_register: Register::R2,
            destination: CRegister::Cr4,
        })))
    );
    assert_eq!(
        dec(0xEC521534),
        always(PartialInstruction::Coprocessor(CoprocessorInstruction::MRRC(MRRC {
            coprocessor: Coprocessor::P5,
            opcode: 3,
            first_register: Register::R1,
            second_register: Register::R2,
            destination: CRegister::Cr4,
        })))
    );
    assert_eq!(
        dec(0xED921504),
        always(PartialInstruction::Coprocessor(CoprocessorInstruction::LDC(LDC {
            coprocessor: Coprocessor::P5,
            long_load: false,
            destination: CRegister::Cr1,
            addressing_mode: AddressingMode {
                base: Register::R2,
                offset: Offset::Immediate(16),
                sign: Sign::Add,
                indexing: Indexing::PreIndexed,
                writeback: false,
            },
        })))
    );
    assert_eq!(
        dec(0xED821504),
        always(PartialInstruction::Coprocessor(CoprocessorInstruction::STC(STC {
            coprocessor: Coprocessor::P5,
            long_store: false,
            source: CRegister::Cr1,
            addressing_mode: AddressingMode {
                base: Register::R2,
                offset: Offset::Immediate(16),
                sign: Sign::Add,
                indexing: Indexing::PreIndexed,
                writeback: false,
            },
        })))
    );
}

#[test]
fn unconditional_space() {
    assert_eq!(
        dec(0xFA000005),
        ArmInstruction::Unconditional(UnconditionalInstruction::BLX(20))
    );
    assert_eq!(
        dec(0xFB000005),
        ArmInstruction::Unconditional(UnconditionalInstruction::BLX(22))
    );
    assert_eq!(
        dec(0xF5D1F004),
        ArmInstruction::Unconditional(UnconditionalInstruction::PLD {
            addressing_mode: AddressingMode {
                base: Register::R1,
                offset: Offset::Immediate(4),
                sign: Sign::Add,
                indexing: Indexing::PreIndexed,
                writeback: false,
            },
        })
    );
    assert_eq!(
        dec(0xF7D1F103),
        ArmInstruction::Unconditional(UnconditionalInstruction::PLD {
            addressing_mode: AddressingMode {
                base: Register::R1,
                offset: Offset::Scaled {
                    rm: Register::R3,
                    kind: ShiftKind::LogicalLeft,
                    amount: 2,
                },
                sign: Sign::Add,
                indexing: Indexing::PreIndexed,
                writeback: false,
            },
        })
    );
    assert!(matches!(
        dec(0xFD921504),
        ArmInstruction::Unconditional(UnconditionalInstruction::LDC(_))
    ));
    assert!(matches!(
        dec(0xFE021F93),
        ArmInstruction::Unconditional(UnconditionalInstruction::MCR(_))
    ));
    assert!(matches!(
        dec(0xFE121F93),
        ArmInstruction::Unconditional(UnconditionalInstruction::MRC(_))
    ));
    assert!(matches!(
        dec(0xFC521534),
        ArmInstruction::Unconditional(UnconditionalInstruction::MRRC(_))
    ));
}

#[test]
fn unconditional_space_rejects_everything_else() {
    // No silent fallback: the error identifies the pattern.
    assert_eq!(
        ArmInstruction::decode(0xF1234567),
        Err(ParseError::InvalidMask {
            invalid_set_bytes: 0x1234567
        })
    );
    // A coprocessor store or data operation is not available here.
    assert!(ArmInstruction::decode(0xFD821504).is_err());
    assert!(ArmInstruction::decode(0xFE221583).is_err());
}

#[test]
fn reserved_bits_fail_never_misdecode() {
    // A swap with a set bit in its must-be-zero field.
    assert_eq!(
        ArmInstruction::decode(0xE1031192),
        Err(ParseError::InvalidMask {
            invalid_set_bytes: 0x100
        })
    );
    // An MRS with a set low bit.
    assert_eq!(
        ArmInstruction::decode(0xE10F1001),
        Err(ParseError::InvalidMask {
            invalid_set_bytes: 0x1
        })
    );
    // A register-form MSR with a set bit between the pattern fields.
    assert_eq!(
        ArmInstruction::decode(0xE129F102),
        Err(ParseError::InvalidMask {
            invalid_set_bytes: 0x100
        })
    );
    // An exchange branch whose should-be-one field has a hole.
    assert_eq!(
        ArmInstruction::decode(0xE12FF11E),
        Err(ParseError::InvalidMask {
            invalid_set_bytes: 0xE00
        })
    );
    // A test with a nonzero destination field.
    assert_eq!(
        ArmInstruction::decode(0xE1121003),
        Err(ParseError::InvalidMask {
            invalid_set_bytes: 0x1000
        })
    );
    // A move with a nonzero first-operand field.
    assert_eq!(
        ArmInstruction::decode(0xE3A20001),
        Err(ParseError::InvalidMask {
            invalid_set_bytes: 0x20000
        })
    );
    // A multiply with a nonzero accumulate field.
    assert_eq!(
        ArmInstruction::decode(0xE0014392),
        Err(ParseError::InvalidMask {
            invalid_set_bytes: 0x4000
        })
    );
    // A register-offset halfword load with a set bit in its zero field.
    assert_eq!(
        ArmInstruction::decode(0xE19211B6),
        Err(ParseError::InvalidMask {
            invalid_set_bytes: 0x100
        })
    );
    // A halfword transfer cannot be post-indexed with writeback.
    assert_eq!(
        ArmInstruction::decode(0xE0F210B6),
        Err(ParseError::InvalidMask {
            invalid_set_bytes: 0x200000
        })
    );
    // A load-exclusive whose should-be-one low field has a hole.
    assert_eq!(
        ArmInstruction::decode(0xE1921F91),
        Err(ParseError::InvalidMask {
            invalid_set_bytes: 0xE
        })
    );
    // A parallel addition with a hole in its should-be-one field.
    assert_eq!(
        ArmInstruction::decode(0xE6121013),
        Err(ParseError::InvalidMask {
            invalid_set_bytes: 0xF00
        })
    );
    // A parallel operation selector outside the table.
    assert_eq!(
        ArmInstruction::decode(0xE6121FB3),
        Err(ParseError::InvalidMask {
            invalid_set_bytes: 0x6121FB3
        })
    );
    // A processor-state change touching nothing.
    assert_eq!(
        ArmInstruction::decode(0xE1000000),
        Err(ParseError::InvalidMask {
            invalid_set_bytes: 0x1000000
        })
    );
    // An unassigned fixed-pattern cell.
    assert_eq!(
        ArmInstruction::decode(0xE1000020),
        Err(ParseError::InvalidMask {
            invalid_set_bytes: 0x1000020
        })
    );
}

#[test]
fn data_processing_opcode_table_is_complete() {
    // Every entry of the 16-entry opcode table, register form, with
    // destination R1, first operand R2 and a plain R3 shifter.  Compares
    // and tests carry the S bit and a zero destination field; moves carry
    // a zero first-operand field.
    let generic = GenericDataInstruction {
        destination: Register::R1,
        first_operand: Register::R2,
        s: false,
        shifter: ShifterOperand::Register(Register::R3),
    };
    let no_dest = NoDestinationDataInstruction {
        first_operand: Register::R2,
        s: true,
        shifter: ShifterOperand::Register(Register::R3),
    };
    let mov_like = MOVLikeDataInstruction {
        destination: Register::R1,
        s: false,
        shifter: ShifterOperand::Register(Register::R3),
    };
    for opcode in 0..16u32 {
        let compare = (8..12).contains(&opcode);
        let mov = opcode == 13 || opcode == 15;
        let mut w = 0xE0000000 | (opcode << 21) | (1 << 12) | 3;
        if compare {
            // The S bit set, the destination field zero.
            w = (w | (1 << 20)) & !(0xf << 12);
        }
        if !mov {
            w |= 2 << 16;
        }
        let expected = match opcode {
            0 => DataProssessingInstruction::AND(generic),
            1 => DataProssessingInstruction::EOR(generic),
            2 => DataProssessingInstruction::SUB(generic),
            3 => DataProssessingInstruction::RSB(generic),
            4 => DataProssessingInstruction::ADD(generic),
            5 => DataProssessingInstruction::ADC(generic),
            6 => DataProssessingInstruction::SBC(generic),
            7 => DataProssessingInstruction::RSC(generic),
            8 => DataProssessingInstruction::TST(no_dest),
            9 => DataProssessingInstruction::TEQ(no_dest),
            10 => DataProssessingInstruction::CMP(no_dest),
            11 => DataProssessingInstruction::CMN(no_dest),
            12 => DataProssessingInstruction::ORR(generic),
            13 => DataProssessingInstruction::MOV(mov_like),
            14 => DataProssessingInstruction::BIC(generic),
            _ => DataProssessingInstruction::MVN(mov_like),
        };
        assert_eq!(
            dec(w),
            always(PartialInstruction::DataProssessing(expected)),
            "opcode {}",
            opcode
        );
    }
}

#[test]
fn partial_decode_rejects_condition_bits() {
    assert_eq!(
        PartialInstruction::decode(0x10000000),
        Err(ParseError::InvalidMask {
            invalid_set_bytes: 0x10000000
        })
    );
}
