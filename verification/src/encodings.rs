//! Round-trip laws: for each instruction family, the canonical bit
//! pattern of a form, built from its operands, decodes to exactly the
//! typed instruction with those operands.

use vstd::prelude::*;

use crate::arithmetic::{AritmaticInstruction, AritmeticInstruction, MediaOperands};
use crate::branch::{branch_offset, BranchInstruction};
use crate::coprocessor::{CoprocessorInstruction, CDP, LDC, MCR, MCRR};
use crate::dataprocessing::{DataProssessingInstruction, GenericDataInstruction};
use crate::errors::ParseError;
use crate::exception::ExceptiongeneratingInstruction;
use crate::instruction::{arm_decode, ArmInstruction, Instruction, PartialInstruction};
use crate::loadstore::{
    multiple_mode, LoadAndStoreGenericInsturction, LoadAndStoreInstruction, LoadAndStoreMultiple,
    LoadAndStoreMultipleWriteGeneric,
};
use crate::multiply::MultiplyInstruction;
use crate::operands::{
    cond_of, coproc_of, creg_of, indexing_of, reg_of, rotated_imm, shifted_register, sign_of,
    AddressingMode, Indexing, Offset, PSRFlags, RegisterList, RelativeAdress, ShifterOperand,
};
use crate::register_access::RegisterAccessInstruction;
use crate::semaphore::SemaphoreInstruction;
use crate::unconditional::UnconditionalInstruction;

verus! {

/// The canonical pattern of an immediate-form data-processing word.
pub open spec fn encode_dp_imm(
    cond: u32,
    opcode: u32,
    sbit: u32,
    rn: u32,
    rd: u32,
    rot: u32,
    imm8: u32,
) -> u32 {
    (cond << 28) | (1u32 << 25) | (opcode << 21) | (sbit << 20) | (rn << 16) | (rd << 12) | (rot
        << 8) | imm8
}

/// Round trip of an immediate-form ADD: decoding its canonical pattern
/// yields an ADD with exactly the given operands, the shifter resolved to
/// the rotated immediate.
pub proof fn lemma_roundtrip_add_imm(cond: u32, s: bool, rn: u32, rd: u32, rot: u32, imm8: u32)
    requires
        cond < 15,
        rn < 16,
        rd < 16,
        rot < 16,
        imm8 < 256,
    ensures
        arm_decode(encode_dp_imm(cond, 4, if s { 1u32 } else { 0u32 }, rn, rd, rot, imm8)) == Ok::<
            ArmInstruction,
            ParseError,
        >(
            ArmInstruction::Conditional(
                Instruction {
                    cond: cond_of(cond),
                    partial: PartialInstruction::DataProssessing(
                        DataProssessingInstruction::ADD(
                            GenericDataInstruction {
                                destination: reg_of(rd),
                                first_operand: reg_of(rn),
                                s,
                                shifter: ShifterOperand::Immediate(rotated_imm(imm8, rot)),
                            },
                        ),
                    ),
                },
            ),
        ),
{
    let sbit: u32 = if s {
        1u32
    } else {
        0u32
    };
    let w = encode_dp_imm(cond, 4, sbit, rn, rd, rot, imm8);
    let v = w & 0xfffffff;
    assert((w >> 28) & 0xf == cond && v & 0xf0000000 == 0 && (v >> 25) & 7 == 1 && (v >> 23) & 3
        == 1 && (v >> 21) & 0xf == 4 && (v >> 20) & 1 == sbit && (v >> 16) & 0xf == rn && (v >> 12)
        & 0xf == rd && (v >> 8) & 0xf == rot && v & 0xff == imm8) by (bit_vector)
        requires
            w == (cond << 28) | (1u32 << 25) | (4u32 << 21) | (sbit << 20) | (rn << 16) | (rd
                << 12) | (rot << 8) | imm8,
            v == w & 0xfffffff,
            cond < 15,
            sbit < 2,
            rn < 16,
            rd < 16,
            rot < 16,
            imm8 < 256,
    ;
}

/// The canonical pattern of a PC-relative branch word.
pub open spec fn encode_branch(cond: u32, link: bool, imm24: u32) -> u32 {
    (cond << 28) | (5u32 << 25) | ((if link {
        1u32
    } else {
        0u32
    }) << 24) | imm24
}

/// Round trip of `B` and `BL`: decoding the canonical pattern yields the
/// branch with the sign-extended word offset, the link bit telling the
/// two apart.
pub proof fn lemma_roundtrip_branch(cond: u32, link: bool, imm24: u32)
    requires
        cond < 15,
        imm24 < 0x1000000,
    ensures
        arm_decode(encode_branch(cond, link, imm24)) == Ok::<ArmInstruction, ParseError>(
            ArmInstruction::Conditional(
                Instruction {
                    cond: cond_of(cond),
                    partial: PartialInstruction::Branch(
                        if link {
                            BranchInstruction::BL(
                                RelativeAdress(branch_offset(imm24) as i32),
                            )
                        } else {
                            BranchInstruction::B(RelativeAdress(branch_offset(imm24) as i32))
                        },
                    ),
                },
            ),
        ),
{
    let lbit: u32 = if link {
        1u32
    } else {
        0u32
    };
    let w = encode_branch(cond, link, imm24);
    let v = w & 0xfffffff;
    assert((w >> 28) & 0xf == cond && v & 0xf0000000 == 0 && (v >> 25) & 7 == 5 && (v >> 24) & 1
        == lbit && v & 0xffffff == imm24) by (bit_vector)
        requires
            w == (cond << 28) | (5u32 << 25) | (lbit << 24) | imm24,
            v == w & 0xfffffff,
            cond < 15,
            lbit < 2,
            imm24 < 0x1000000,
    ;
}

/// The canonical pattern of an exchange branch to a register.
pub open spec fn encode_bx(cond: u32, link: bool, rm: u32) -> u32 {
    (cond << 28) | (0x12u32 << 20) | 0xfff00u32 | ((if link {
        3u32
    } else {
        1u32
    }) << 4) | rm
}

/// Round trip of `BX` and `BLX` register form: decoding the canonical
/// pattern yields the exchange branch to exactly that register.
pub proof fn lemma_roundtrip_bx(cond: u32, link: bool, rm: u32)
    requires
        cond < 15,
        rm < 16,
    ensures
        arm_decode(encode_bx(cond, link, rm)) == Ok::<ArmInstruction, ParseError>(
            ArmInstruction::Conditional(
                Instruction {
                    cond: cond_of(cond),
                    partial: PartialInstruction::Branch(
                        if link {
                            BranchInstruction::BLX(reg_of(rm))
                        } else {
                            BranchInstruction::BX(reg_of(rm))
                        },
                    ),
                },
            ),
        ),
{
    let op4: u32 = if link {
        3u32
    } else {
        1u32
    };
    let w = encode_bx(cond, link, rm);
    let v = w & 0xfffffff;
    assert((w >> 28) & 0xf == cond && v & 0xf0000000 == 0 && (v >> 25) & 7 == 0 && (v >> 4) & 1
        == 1 && (v >> 7) & 1 == 0 && (v >> 23) & 3 == 2 && (v >> 20) & 1 == 0 && (v >> 4) & 0xf
        == op4 && (v >> 21) & 3 == 1 && (v >> 8) & 0xfff == 0xfff && v & 0xf == rm) by (bit_vector)
        requires
            w == (cond << 28) | (0x12u32 << 20) | 0xfff00u32 | (op4 << 4) | rm,
            v == w & 0xfffffff,
            cond < 15,
            op4 == 1 || op4 == 3,
            rm < 16,
    ;
}

/// The canonical pattern of a software interrupt.
pub open spec fn encode_swi(cond: u32, comment: u32) -> u32 {
    (cond << 28) | (0xfu32 << 24) | comment
}

/// Round trip of `SWI`: decoding the canonical pattern yields the
/// software interrupt with exactly that comment.
pub proof fn lemma_roundtrip_swi(cond: u32, comment: u32)
    requires
        cond < 15,
        comment < 0x1000000,
    ensures
        arm_decode(encode_swi(cond, comment)) == Ok::<ArmInstruction, ParseError>(
            ArmInstruction::Conditional(
                Instruction {
                    cond: cond_of(cond),
                    partial: PartialInstruction::Exceptiongenerating(
                        ExceptiongeneratingInstruction::SWI(comment),
                    ),
                },
            ),
        ),
{
    let w = encode_swi(cond, comment);
    let v = w & 0xfffffff;
    assert((w >> 28) & 0xf == cond && v & 0xf0000000 == 0 && (v >> 25) & 7 == 7 && (v >> 24) & 1
        == 1 && v & 0xffffff == comment) by (bit_vector)
        requires
            w == (cond << 28) | (0xfu32 << 24) | comment,
            v == w & 0xfffffff,
            cond < 15,
            comment < 0x1000000,
    ;
}

/// The canonical pattern of a swap.
pub open spec fn encode_swp(cond: u32, byte: bool, rn: u32, rd: u32, rm: u32) -> u32 {
    (cond << 28) | (2u32 << 23) | ((if byte {
        1u32
    } else {
        0u32
    }) << 22) | (rn << 16) | (rd << 12) | (9u32 << 4) | rm
}

/// Round trip of `SWP` and `SWPB`: decoding the canonical pattern yields
/// the swap with exactly the given destination, value and memory
/// registers.
pub proof fn lemma_roundtrip_swp(cond: u32, byte: bool, rn: u32, rd: u32, rm: u32)
    requires
        cond < 15,
        rn < 16,
        rd < 16,
        rm < 16,
    ensures
        arm_decode(encode_swp(cond, byte, rn, rd, rm)) == Ok::<ArmInstruction, ParseError>(
            ArmInstruction::Conditional(
                Instruction {
                    cond: cond_of(cond),
                    partial: PartialInstruction::Semaphore(
                        if byte {
                            SemaphoreInstruction::SWPB {
                                destination: reg_of(rd),
                                value: reg_of(rm),
                                mem: reg_of(rn),
                            }
                        } else {
                            SemaphoreInstruction::SWP {
                                destination: reg_of(rd),
                                value: reg_of(rm),
                                mem: reg_of(rn),
                            }
                        },
                    ),
                },
            ),
        ),
{
    let bbit: u32 = if byte {
        1u32
    } else {
        0u32
    };
    let w = encode_swp(cond, byte, rn, rd, rm);
    let v = w & 0xfffffff;
    assert((w >> 28) & 0xf == cond && v & 0xf0000000 == 0 && (v >> 25) & 7 == 0 && (v >> 4) & 1
        == 1 && (v >> 7) & 1 == 1 && (v >> 5) & 3 == 0 && (v >> 23) & 3 == 2 && (v >> 20) & 3 == 0
        && (v >> 8) & 0xf == 0 && (v >> 22) & 1 == bbit && (v >> 16) & 0xf == rn && (v >> 12) & 0xf
        == rd && v & 0xf == rm) by (bit_vector)
        requires
            w == (cond << 28) | (2u32 << 23) | (bbit << 22) | (rn << 16) | (rd << 12) | (9u32 << 4)
                | rm,
            v == w & 0xfffffff,
            cond < 15,
            bbit < 2,
            rn < 16,
            rd < 16,
            rm < 16,
    ;
}

/// The canonical pattern of a plain multiply.
pub open spec fn encode_mul(cond: u32, sbit: u32, rd: u32, rs: u32, rm: u32) -> u32 {
    (cond << 28) | (sbit << 20) | (rd << 16) | (rs << 8) | (9u32 << 4) | rm
}

/// Round trip of `MUL`: decoding the canonical pattern yields the
/// multiply with exactly the given destination and sources.
pub proof fn lemma_roundtrip_mul(cond: u32, s: bool, rd: u32, rs: u32, rm: u32)
    requires
        cond < 15,
        rd < 16,
        rs < 16,
        rm < 16,
    ensures
        arm_decode(
            encode_mul(
                cond,
                if s {
                    1u32
                } else {
                    0u32
                },
                rd,
                rs,
                rm,
            ),
        ) == Ok::<ArmInstruction, ParseError>(
            ArmInstruction::Conditional(
                Instruction {
                    cond: cond_of(cond),
                    partial: PartialInstruction::Multiply(
                        MultiplyInstruction::MUL {
                            destination: reg_of(rd),
                            s,
                            first_operand: reg_of(rm),
                            second_operand: reg_of(rs),
                        },
                    ),
                },
            ),
        ),
{
    let sbit: u32 = if s {
        1u32
    } else {
        0u32
    };
    let w = encode_mul(cond, sbit, rd, rs, rm);
    let v = w & 0xfffffff;
    assert((w >> 28) & 0xf == cond && v & 0xf0000000 == 0 && (v >> 25) & 7 == 0 && (v >> 4) & 1
        == 1 && (v >> 7) & 1 == 1 && (v >> 5) & 3 == 0 && (v >> 23) & 3 == 0 && (v >> 21) & 0xf
        == 0 && (v >> 20) & 1 == sbit && (v >> 12) & 0xf == 0 && (v >> 16) & 0xf == rd && (v >> 8)
        & 0xf == rs && v & 0xf == rm) by (bit_vector)
        requires
            w == (cond << 28) | (sbit << 20) | (rd << 16) | (rs << 8) | (9u32 << 4) | rm,
            v == w & 0xfffffff,
            cond < 15,
            sbit < 2,
            rd < 16,
            rs < 16,
            rm < 16,
    ;
}

/// The canonical pattern of a register-form data-processing word with an
/// immediate shift amount.
pub open spec fn encode_dp_reg(
    cond: u32,
    opcode: u32,
    sbit: u32,
    rn: u32,
    rd: u32,
    amount: u32,
    typ: u32,
    rm: u32,
) -> u32 {
    (cond << 28) | (opcode << 21) | (sbit << 20) | (rn << 16) | (rd << 12) | (amount << 7) | (typ
        << 5) | rm
}

/// Round trip of a register-form AND: decoding its canonical pattern
/// yields an AND whose shifter operand is the given register under the
/// given shift, with the architecture's zero-amount reading.
pub proof fn lemma_roundtrip_and_reg(
    cond: u32,
    s: bool,
    rn: u32,
    rd: u32,
    amount: u32,
    typ: u32,
    rm: u32,
)
    requires
        cond < 15,
        rn < 16,
        rd < 16,
        amount < 32,
        typ < 4,
        rm < 16,
    ensures
        arm_decode(
            encode_dp_reg(
                cond,
                0,
                if s {
                    1u32
                } else {
                    0u32
                },
                rn,
                rd,
                amount,
                typ,
                rm,
            ),
        ) == Ok::<ArmInstruction, ParseError>(
            ArmInstruction::Conditional(
                Instruction {
                    cond: cond_of(cond),
                    partial: PartialInstruction::DataProssessing(
                        DataProssessingInstruction::AND(
                            GenericDataInstruction {
                                destination: reg_of(rd),
                                first_operand: reg_of(rn),
                                s,
                                shifter: shifted_register(reg_of(rm), typ, amount),
                            },
                        ),
                    ),
                },
            ),
        ),
{
    let sbit: u32 = if s {
        1u32
    } else {
        0u32
    };
    let w = encode_dp_reg(cond, 0, sbit, rn, rd, amount, typ, rm);
    let v = w & 0xfffffff;
    assert((w >> 28) & 0xf == cond && v & 0xf0000000 == 0 && (v >> 25) & 7 == 0 && (v >> 4) & 1
        == 0 && (v >> 23) & 3 == 0 && (v >> 21) & 0xf == 0 && (v >> 20) & 1 == sbit && (v >> 16)
        & 0xf == rn && (v >> 12) & 0xf == rd && (v >> 7) & 0x1f == amount && (v >> 5) & 3 == typ
        && v & 0xf == rm) by (bit_vector)
        requires
            w == (cond << 28) | (0u32 << 21) | (sbit << 20) | (rn << 16) | (rd << 12) | (amount
                << 7) | (typ << 5) | rm,
            v == w & 0xfffffff,
            cond < 15,
            sbit < 2,
            rn < 16,
            rd < 16,
            amount < 32,
            typ < 4,
            rm < 16,
    ;
}

/// The canonical pattern of a pre-indexed immediate-offset load word.
pub open spec fn encode_ldr_imm(
    cond: u32,
    ubit: u32,
    wbit: u32,
    rn: u32,
    rd: u32,
    imm12: u32,
) -> u32 {
    (cond << 28) | (2u32 << 25) | (1u32 << 24) | (ubit << 23) | (wbit << 21) | (1u32 << 20) | (rn
        << 16) | (rd << 12) | imm12
}

/// Round trip of a pre-indexed immediate-offset `LDR`: decoding its
/// canonical pattern yields the load with exactly that addressing mode.
pub proof fn lemma_roundtrip_ldr_imm(cond: u32, u: bool, wb: bool, rn: u32, rd: u32, imm12: u32)
    requires
        cond < 15,
        rn < 16,
        rd < 16,
        imm12 < 0x1000,
    ensures
        arm_decode(
            encode_ldr_imm(
                cond,
                if u {
                    1u32
                } else {
                    0u32
                },
                if wb {
                    1u32
                } else {
                    0u32
                },
                rn,
                rd,
                imm12,
            ),
        ) == Ok::<ArmInstruction, ParseError>(
            ArmInstruction::Conditional(
                Instruction {
                    cond: cond_of(cond),
                    partial: PartialInstruction::LoadAndStore(
                        LoadAndStoreInstruction::LDR(
                            LoadAndStoreGenericInsturction {
                                destination: reg_of(rd),
                                addressing_mode: AddressingMode {
                                    base: reg_of(rn),
                                    offset: Offset::Immediate(imm12),
                                    sign: sign_of(u),
                                    indexing: Indexing::PreIndexed,
                                    writeback: wb,
                                },
                            },
                        ),
                    ),
                },
            ),
        ),
{
    let ubit: u32 = if u {
        1u32
    } else {
        0u32
    };
    let wbit: u32 = if wb {
        1u32
    } else {
        0u32
    };
    let w = encode_ldr_imm(cond, ubit, wbit, rn, rd, imm12);
    let v = w & 0xfffffff;
    assert((w >> 28) & 0xf == cond && v & 0xf0000000 == 0 && (v >> 25) & 7 == 2 && (v >> 25) & 1
        == 0 && (v >> 24) & 1 == 1 && (v >> 23) & 1 == ubit && (v >> 22) & 1 == 0 && (v >> 21) & 1
        == wbit && (v >> 20) & 1 == 1 && (v >> 16) & 0xf == rn && (v >> 12) & 0xf == rd && v & 0xfff
        == imm12) by (bit_vector)
        requires
            w == (cond << 28) | (2u32 << 25) | (1u32 << 24) | (ubit << 23) | (wbit << 21) | (1u32
                << 20) | (rn << 16) | (rd << 12) | imm12,
            v == w & 0xfffffff,
            cond < 15,
            ubit < 2,
            wbit < 2,
            rn < 16,
            rd < 16,
            imm12 < 0x1000,
    ;
}

/// The canonical pattern of a plain load-multiple word.
pub open spec fn encode_ldm(
    cond: u32,
    pbit: u32,
    ubit: u32,
    wbit: u32,
    rn: u32,
    list: u32,
) -> u32 {
    (cond << 28) | (4u32 << 25) | (pbit << 24) | (ubit << 23) | (wbit << 21) | (1u32 << 20) | (rn
        << 16) | list
}

/// Round trip of a plain `LDM`: decoding its canonical pattern yields the
/// block load with exactly that addressing mode, base and register set.
pub proof fn lemma_roundtrip_ldm(cond: u32, p: bool, u: bool, wb: bool, rn: u32, list: u32)
    requires
        cond < 15,
        rn < 16,
        list < 0x10000,
    ensures
        arm_decode(
            encode_ldm(
                cond,
                if p {
                    1u32
                } else {
                    0u32
                },
                if u {
                    1u32
                } else {
                    0u32
                },
                if wb {
                    1u32
                } else {
                    0u32
                },
                rn,
                list,
            ),
        ) == Ok::<ArmInstruction, ParseError>(
            ArmInstruction::Conditional(
                Instruction {
                    cond: cond_of(cond),
                    partial: PartialInstruction::LoadAndStore(
                        LoadAndStoreInstruction::Multiple(
                            LoadAndStoreMultiple::LDM(
                                LoadAndStoreMultipleWriteGeneric {
                                    addressing_mode: multiple_mode(p, u),
                                    base: reg_of(rn),
                                    write: wb,
                                    registers: RegisterList(list as u16),
                                },
                            ),
                        ),
                    ),
                },
            ),
        ),
{
    let pbit: u32 = if p {
        1u32
    } else {
        0u32
    };
    let ubit: u32 = if u {
        1u32
    } else {
        0u32
    };
    let wbit: u32 = if wb {
        1u32
    } else {
        0u32
    };
    let w = encode_ldm(cond, pbit, ubit, wbit, rn, list);
    let v = w & 0xfffffff;
    assert((w >> 28) & 0xf == cond && v & 0xf0000000 == 0 && (v >> 25) & 7 == 4 && (v >> 24) & 1
        == pbit && (v >> 23) & 1 == ubit && (v >> 22) & 1 == 0 && (v >> 21) & 1 == wbit && (v >> 20)
        & 1 == 1 && (v >> 16) & 0xf == rn && v & 0xffff == list) by (bit_vector)
        requires
            w == (cond << 28) | (4u32 << 25) | (pbit << 24) | (ubit << 23) | (wbit << 21) | (1u32
                << 20) | (rn << 16) | list,
            v == w & 0xfffffff,
            cond < 15,
            pbit < 2,
            ubit < 2,
            wbit < 2,
            rn < 16,
            list < 0x10000,
    ;
}

/// The canonical pattern of a coprocessor register transfer into the
/// coprocessor.
pub open spec fn encode_mcr(
    cond: u32,
    opc1: u32,
    crn: u32,
    rd: u32,
    cp: u32,
    opc2: u32,
    crm: u32,
) -> u32 {
    (cond << 28) | (7u32 << 25) | (opc1 << 21) | (crn << 16) | (rd << 12) | (cp << 8) | (opc2 << 5)
        | (1u32 << 4) | crm
}

/// Round trip of `MCR`: decoding its canonical pattern yields the
/// transfer with exactly the given unit, registers and opcode fields.
pub proof fn lemma_roundtrip_mcr(
    cond: u32,
    opc1: u32,
    crn: u32,
    rd: u32,
    cp: u32,
    opc2: u32,
    crm: u32,
)
    requires
        cond < 15,
        opc1 < 8,
        crn < 16,
        rd < 16,
        cp < 16,
        opc2 < 8,
        crm < 16,
    ensures
        arm_decode(encode_mcr(cond, opc1, crn, rd, cp, opc2, crm)) == Ok::<
            ArmInstruction,
            ParseError,
        >(
            ArmInstruction::Conditional(
                Instruction {
                    cond: cond_of(cond),
                    partial: PartialInstruction::Coprocessor(
                        CoprocessorInstruction::MCR(
                            MCR {
                                coprocessor: coproc_of(cp),
                                value: reg_of(rd),
                                destination: creg_of(crn),
                                additional_destination: creg_of(crm),
                                opcode_1: opc1 as u8,
                                opcode_2: opc2 as u8,
                            },
                        ),
                    ),
                },
            ),
        ),
{
    let w = encode_mcr(cond, opc1, crn, rd, cp, opc2, crm);
    let v = w & 0xfffffff;
    assert((w >> 28) & 0xf == cond && v & 0xf0000000 == 0 && (v >> 25) & 7 == 7 && (v >> 24) & 1
        == 0 && (v >> 4) & 1 == 1 && (v >> 20) & 1 == 0 && (v >> 21) & 7 == opc1 && (v >> 16) & 0xf
        == crn && (v >> 12) & 0xf == rd && (v >> 8) & 0xf == cp && (v >> 5) & 7 == opc2 && v & 0xf
        == crm) by (bit_vector)
        requires
            w == (cond << 28) | (7u32 << 25) | (opc1 << 21) | (crn << 16) | (rd << 12) | (cp << 8)
                | (opc2 << 5) | (1u32 << 4) | crm,
            v == w & 0xfffffff,
            cond < 15,
            opc1 < 8,
            crn < 16,
            rd < 16,
            cp < 16,
            opc2 < 8,
            crm < 16,
    ;
}

/// The canonical pattern of a PSR read.
pub open spec fn encode_mrs(cond: u32, rbit: u32, rd: u32) -> u32 {
    (cond << 28) | (2u32 << 23) | (rbit << 22) | (0xfu32 << 16) | (rd << 12)
}

/// Round trip of `MRS`: decoding its canonical pattern yields the PSR
/// read into exactly that register, the R bit picking the saved status
/// register.
pub proof fn lemma_roundtrip_mrs(cond: u32, spsr: bool, rd: u32)
    requires
        cond < 15,
        rd < 16,
    ensures
        arm_decode(
            encode_mrs(
                cond,
                if spsr {
                    1u32
                } else {
                    0u32
                },
                rd,
            ),
        ) == Ok::<ArmInstruction, ParseError>(
            ArmInstruction::Conditional(
                Instruction {
                    cond: cond_of(cond),
                    partial: PartialInstruction::RegisterAccess(
                        RegisterAccessInstruction::MRS { destination: reg_of(rd), is_spsr: spsr },
                    ),
                },
            ),
        ),
{
    let rbit: u32 = if spsr {
        1u32
    } else {
        0u32
    };
    let w = encode_mrs(cond, rbit, rd);
    let v = w & 0xfffffff;
    assert((w >> 28) & 0xf == cond && v & 0xf0000000 == 0 && (v >> 25) & 7 == 0 && (v >> 4) & 1
        == 0 && (v >> 23) & 3 == 2 && (v >> 20) & 1 == 0 && (v >> 4) & 0xf == 0 && (v >> 21) & 1
        == 0 && (v >> 16) & 0xf == 0xf && v & 0xfff == 0 && (v >> 12) & 0xf == rd && (v >> 22) & 1
        == rbit) by (bit_vector)
        requires
            w == (cond << 28) | (2u32 << 23) | (rbit << 22) | (0xfu32 << 16) | (rd << 12),
            v == w & 0xfffffff,
            cond < 15,
            rbit < 2,
            rd < 16,
    ;
}

/// The canonical pattern of a dual-16-bit signed parallel addition.
pub open spec fn encode_sadd16(cond: u32, rn: u32, rd: u32, rm: u32) -> u32 {
    (cond << 28) | (3u32 << 25) | (1u32 << 20) | (rn << 16) | (rd << 12) | (0xfu32 << 8) | (1u32
        << 4) | rm
}

/// Round trip of `SADD16`: decoding its canonical pattern yields the
/// parallel addition with exactly the given operands.
pub proof fn lemma_roundtrip_sadd16(cond: u32, rn: u32, rd: u32, rm: u32)
    requires
        cond < 15,
        rn < 16,
        rd < 16,
        rm < 16,
    ensures
        arm_decode(encode_sadd16(cond, rn, rd, rm)) == Ok::<ArmInstruction, ParseError>(
            ArmInstruction::Conditional(
                Instruction {
                    cond: cond_of(cond),
                    partial: PartialInstruction::Media(
                        AritmaticInstruction::SADD16(
                            MediaOperands {
                                destination: reg_of(rd),
                                first_operand: reg_of(rn),
                                second_operand: reg_of(rm),
                            },
                        ),
                    ),
                },
            ),
        ),
{
    let w = encode_sadd16(cond, rn, rd, rm);
    let v = w & 0xfffffff;
    assert((w >> 28) & 0xf == cond && v & 0xf0000000 == 0 && (v >> 25) & 7 == 3 && (v >> 4) & 1
        == 1 && (v >> 23) & 3 == 0 && (v >> 8) & 0xf == 0xf && (v >> 20) & 7 == 1 && (v >> 5) & 7
        == 0 && (v >> 16) & 0xf == rn && (v >> 12) & 0xf == rd && v & 0xf == rm) by (bit_vector)
        requires
            w == (cond << 28) | (3u32 << 25) | (1u32 << 20) | (rn << 16) | (rd << 12) | (0xfu32
                << 8) | (1u32 << 4) | rm,
            v == w & 0xfffffff,
            cond < 15,
            rn < 16,
            rd < 16,
            rm < 16,
    ;
}

/// The canonical pattern of the immediate-form `BLX` of the unconditional
/// extension space.
pub open spec fn encode_blx_imm(hbit: u32, imm24: u32) -> u32 {
    (0xfu32 << 28) | (5u32 << 25) | (hbit << 24) | imm24
}

/// Round trip of the immediate `BLX`: decoding its canonical pattern
/// yields the unconditional branch whose offset is the sign-extended word
/// offset plus two bytes when the halfword bit is set.
pub proof fn lemma_roundtrip_blx_imm(h: bool, imm24: u32)
    requires
        imm24 < 0x1000000,
    ensures
        arm_decode(
            encode_blx_imm(
                if h {
                    1u32
                } else {
                    0u32
                },
                imm24,
            ),
        ) == Ok::<ArmInstruction, ParseError>(
            ArmInstruction::Unconditional(
                UnconditionalInstruction::BLX(
                    ((branch_offset(imm24) + if h {
                        2int
                    } else {
                        0int
                    }) as i32),
                ),
            ),
        ),
{
    let hbit: u32 = if h {
        1u32
    } else {
        0u32
    };
    let w = encode_blx_imm(hbit, imm24);
    let v = w & 0xfffffff;
    assert((w >> 28) & 0xf == 15 && (v >> 25) & 7 == 5 && (v >> 24) & 1 == hbit && v & 0xffffff
        == imm24) by (bit_vector)
        requires
            w == (0xfu32 << 28) | (5u32 << 25) | (hbit << 24) | imm24,
            v == w & 0xfffffff,
            hbit < 2,
            imm24 < 0x1000000,
    ;
}

/// The canonical pattern of an unsigned long multiply.
pub open spec fn encode_umull(cond: u32, sbit: u32, rdhi: u32, rdlo: u32, rs: u32, rm: u32) -> u32 {
    (cond << 28) | (4u32 << 21) | (sbit << 20) | (rdhi << 16) | (rdlo << 12) | (rs << 8) | (9u32
        << 4) | rm
}

/// Round trip of `UMULL`: decoding its canonical pattern yields the long
/// multiply with exactly the given register pair and sources.
pub proof fn lemma_roundtrip_umull(cond: u32, s: bool, rdhi: u32, rdlo: u32, rs: u32, rm: u32)
    requires
        cond < 15,
        rdhi < 16,
        rdlo < 16,
        rs < 16,
        rm < 16,
    ensures
        arm_decode(
            encode_umull(
                cond,
                if s {
                    1u32
                } else {
                    0u32
                },
                rdhi,
                rdlo,
                rs,
                rm,
            ),
        ) == Ok::<ArmInstruction, ParseError>(
            ArmInstruction::Conditional(
                Instruction {
                    cond: cond_of(cond),
                    partial: PartialInstruction::Multiply(
                        MultiplyInstruction::UMULL {
                            s,
                            high: reg_of(rdhi),
                            low: reg_of(rdlo),
                            first_operand: reg_of(rm),
                            second_operand: reg_of(rs),
                        },
                    ),
                },
            ),
        ),
{
    let sbit: u32 = if s {
        1u32
    } else {
        0u32
    };
    let w = encode_umull(cond, sbit, rdhi, rdlo, rs, rm);
    let v = w & 0xfffffff;
    assert((w >> 28) & 0xf == cond && v & 0xf0000000 == 0 && (v >> 25) & 7 == 0 && (v >> 4) & 1
        == 1 && (v >> 7) & 1 == 1 && (v >> 5) & 3 == 0 && (v >> 23) & 3 == 1 && (v >> 21) & 0xf
        == 4 && (v >> 20) & 1 == sbit && (v >> 16) & 0xf == rdhi && (v >> 12) & 0xf == rdlo && (v
        >> 8) & 0xf == rs && v & 0xf == rm) by (bit_vector)
        requires
            w == (cond << 28) | (4u32 << 21) | (sbit << 20) | (rdhi << 16) | (rdlo << 12) | (rs
                << 8) | (9u32 << 4) | rm,
            v == w & 0xfffffff,
            cond < 15,
            sbit < 2,
            rdhi < 16,
            rdlo < 16,
            rs < 16,
            rm < 16,
    ;
}

/// The canonical pattern of a signed halfword multiply-accumulate.
pub open spec fn encode_smla(
    cond: u32,
    xbit: u32,
    ybit: u32,
    rd: u32,
    rn: u32,
    rs: u32,
    rm: u32,
) -> u32 {
    (cond << 28) | (2u32 << 23) | (rd << 16) | (rn << 12) | (rs << 8) | (1u32 << 7) | (ybit << 6)
        | (xbit << 5) | rm
}

/// Round trip of `SMLA<x><y>`: decoding its canonical pattern yields the
/// halfword multiply-accumulate with exactly the given halfword picks and
/// registers.
pub proof fn lemma_roundtrip_smla(cond: u32, x: bool, y: bool, rd: u32, rn: u32, rs: u32, rm: u32)
    requires
        cond < 15,
        rd < 16,
        rn < 16,
        rs < 16,
        rm < 16,
    ensures
        arm_decode(
            encode_smla(
                cond,
                if x {
                    1u32
                } else {
                    0u32
                },
                if y {
                    1u32
                } else {
                    0u32
                },
                rd,
                rn,
                rs,
                rm,
            ),
        ) == Ok::<ArmInstruction, ParseError>(
            ArmInstruction::Conditional(
                Instruction {
                    cond: cond_of(cond),
                    partial: PartialInstruction::Multiply(
                        MultiplyInstruction::SMLA {
                            x,
                            y,
                            destination: reg_of(rd),
                            first_operand: reg_of(rm),
                            second_operand: reg_of(rs),
                            add_operand: reg_of(rn),
                        },
                    ),
                },
            ),
        ),
{
    let xbit: u32 = if x {
        1u32
    } else {
        0u32
    };
    let ybit: u32 = if y {
        1u32
    } else {
        0u32
    };
    let w = encode_smla(cond, xbit, ybit, rd, rn, rs, rm);
    let v = w & 0xfffffff;
    assert((w >> 28) & 0xf == cond && v & 0xf0000000 == 0 && (v >> 25) & 7 == 0 && (v >> 4) & 1
        == 0 && (v >> 7) & 1 == 1 && (v >> 23) & 3 == 2 && (v >> 20) & 1 == 0 && (v >> 4) & 0xf
        != 0 && (v >> 4) & 0xf != 1 && (v >> 4) & 0xf != 3 && (v >> 4) & 0xf != 5 && (v >> 4) & 0xf
        != 7 && (v >> 21) & 3 == 0 && (v >> 5) & 1 == xbit && (v >> 6) & 1 == ybit && (v >> 16)
        & 0xf == rd && (v >> 12) & 0xf == rn && (v >> 8) & 0xf == rs && v & 0xf == rm) by (
    bit_vector)
        requires
            w == (cond << 28) | (2u32 << 23) | (rd << 16) | (rn << 12) | (rs << 8) | (1u32 << 7) | (
            ybit << 6) | (xbit << 5) | rm,
            v == w & 0xfffffff,
            cond < 15,
            xbit < 2,
            ybit < 2,
            rd < 16,
            rn < 16,
            rs < 16,
            rm < 16,
    ;
}

/// The canonical pattern of a signed saturating addition.
pub open spec fn encode_qadd(cond: u32, rn: u32, rd: u32, rm: u32) -> u32 {
    (cond << 28) | (2u32 << 23) | (rn << 16) | (rd << 12) | (5u32 << 4) | rm
}

/// Round trip of `QADD`: decoding its canonical pattern yields the
/// saturating addition with exactly the given operands.
pub proof fn lemma_roundtrip_qadd(cond: u32, rn: u32, rd: u32, rm: u32)
    requires
        cond < 15,
        rn < 16,
        rd < 16,
        rm < 16,
    ensures
        arm_decode(encode_qadd(cond, rn, rd, rm)) == Ok::<ArmInstruction, ParseError>(
            ArmInstruction::Conditional(
                Instruction {
                    cond: cond_of(cond),
                    partial: PartialInstruction::Aritmetic(
                        AritmeticInstruction::QADD {
                            destination: reg_of(rd),
                            first_operand: reg_of(rm),
                            second_operand: reg_of(rn),
                        },
                    ),
                },
            ),
        ),
{
    let w = encode_qadd(cond, rn, rd, rm);
    let v = w & 0xfffffff;
    assert((w >> 28) & 0xf == cond && v & 0xf0000000 == 0 && (v >> 25) & 7 == 0 && (v >> 4) & 1
        == 1 && (v >> 7) & 1 == 0 && (v >> 23) & 3 == 2 && (v >> 20) & 1 == 0 && (v >> 4) & 0xf
        == 5 && (v >> 21) & 3 == 0 && (v >> 8) & 0xf == 0 && (v >> 16) & 0xf == rn && (v >> 12)
        & 0xf == rd && v & 0xf == rm) by (bit_vector)
        requires
            w == (cond << 28) | (2u32 << 23) | (rn << 16) | (rd << 12) | (5u32 << 4) | rm,
            v == w & 0xfffffff,
            cond < 15,
            rn < 16,
            rd < 16,
            rm < 16,
    ;
}

/// The canonical pattern of a count-leading-zeros word.
pub open spec fn encode_clz(cond: u32, rd: u32, rm: u32) -> u32 {
    (cond << 28) | (0x16u32 << 20) | (0xfu32 << 16) | (rd << 12) | (0xfu32 << 8) | (1u32 << 4) | rm
}

/// Round trip of `CLZ`: decoding its canonical pattern yields the count
/// with exactly the given destination and source.
pub proof fn lemma_roundtrip_clz(cond: u32, rd: u32, rm: u32)
    requires
        cond < 15,
        rd < 16,
        rm < 16,
    ensures
        arm_decode(encode_clz(cond, rd, rm)) == Ok::<ArmInstruction, ParseError>(
            ArmInstruction::Conditional(
                Instruction {
                    cond: cond_of(cond),
                    partial: PartialInstruction::Aritmetic(
                        AritmeticInstruction::CLZ { destination: reg_of(rd), source: reg_of(rm) },
                    ),
                },
            ),
        ),
{
    let w = encode_clz(cond, rd, rm);
    let v = w & 0xfffffff;
    assert((w >> 28) & 0xf == cond && v & 0xf0000000 == 0 && (v >> 25) & 7 == 0 && (v >> 4) & 1
        == 1 && (v >> 7) & 1 == 0 && (v >> 23) & 3 == 2 && (v >> 20) & 1 == 0 && (v >> 4) & 0xf
        == 1 && (v >> 21) & 3 == 3 && (v ^ 0xf0f00) & 0xf0f00 == 0 && (v >> 12) & 0xf == rd && v
        & 0xf == rm) by (bit_vector)
        requires
            w == (cond << 28) | (0x16u32 << 20) | (0xfu32 << 16) | (rd << 12) | (0xfu32 << 8) | (
            1u32 << 4) | rm,
            v == w & 0xfffffff,
            cond < 15,
            rd < 16,
            rm < 16,
    ;
}

/// The canonical pattern of a breakpoint.
pub open spec fn encode_bkpt(cond: u32, hi12: u32, lo4: u32) -> u32 {
    (cond << 28) | (0x12u32 << 20) | (hi12 << 8) | (7u32 << 4) | lo4
}

/// Round trip of `BKPT`: decoding its canonical pattern yields the
/// breakpoint with the 16-bit immediate reassembled from its two fields.
pub proof fn lemma_roundtrip_bkpt(cond: u32, hi12: u32, lo4: u32)
    requires
        cond < 15,
        hi12 < 0x1000,
        lo4 < 16,
    ensures
        arm_decode(encode_bkpt(cond, hi12, lo4)) == Ok::<ArmInstruction, ParseError>(
            ArmInstruction::Conditional(
                Instruction {
                    cond: cond_of(cond),
                    partial: PartialInstruction::Exceptiongenerating(
                        ExceptiongeneratingInstruction::BKPT(((hi12 * 16 + lo4) as u16)),
                    ),
                },
            ),
        ),
{
    let w = encode_bkpt(cond, hi12, lo4);
    let v = w & 0xfffffff;
    assert((w >> 28) & 0xf == cond && v & 0xf0000000 == 0 && (v >> 25) & 7 == 0 && (v >> 4) & 1
        == 1 && (v >> 7) & 1 == 0 && (v >> 23) & 3 == 2 && (v >> 20) & 1 == 0 && (v >> 4) & 0xf
        == 7 && (v >> 21) & 3 == 1 && (v >> 8) & 0xfff == hi12 && v & 0xf == lo4) by (bit_vector)
        requires
            w == (cond << 28) | (0x12u32 << 20) | (hi12 << 8) | (7u32 << 4) | lo4,
            v == w & 0xfffffff,
            cond < 15,
            hi12 < 0x1000,
            lo4 < 16,
    ;
}

/// The canonical pattern of a pre-indexed immediate-offset halfword load.
pub open spec fn encode_ldrh_imm(
    cond: u32,
    ubit: u32,
    wbit: u32,
    rn: u32,
    rd: u32,
    hi4: u32,
    lo4: u32,
) -> u32 {
    (cond << 28) | (1u32 << 24) | (ubit << 23) | (1u32 << 22) | (wbit << 21) | (1u32 << 20) | (rn
        << 16) | (rd << 12) | (hi4 << 8) | (0xbu32 << 4) | lo4
}

/// Round trip of a pre-indexed immediate-offset `LDRH`: decoding its
/// canonical pattern yields the halfword load with the split immediate
/// reassembled.
pub proof fn lemma_roundtrip_ldrh_imm(
    cond: u32,
    u: bool,
    wb: bool,
    rn: u32,
    rd: u32,
    hi4: u32,
    lo4: u32,
)
    requires
        cond < 15,
        rn < 16,
        rd < 16,
        hi4 < 16,
        lo4 < 16,
    ensures
        arm_decode(
            encode_ldrh_imm(
                cond,
                if u {
                    1u32
                } else {
                    0u32
                },
                if wb {
                    1u32
                } else {
                    0u32
                },
                rn,
                rd,
                hi4,
                lo4,
            ),
        ) == Ok::<ArmInstruction, ParseError>(
            ArmInstruction::Conditional(
                Instruction {
                    cond: cond_of(cond),
                    partial: PartialInstruction::LoadAndStore(
                        LoadAndStoreInstruction::LDRH(
                            LoadAndStoreGenericInsturction {
                                destination: reg_of(rd),
                                addressing_mode: AddressingMode {
                                    base: reg_of(rn),
                                    offset: Offset::Immediate(((hi4 * 16 + lo4) as u32)),
                                    sign: sign_of(u),
                                    indexing: Indexing::PreIndexed,
                                    writeback: wb,
                                },
                            },
                        ),
                    ),
                },
            ),
        ),
{
    let ubit: u32 = if u {
        1u32
    } else {
        0u32
    };
    let wbit: u32 = if wb {
        1u32
    } else {
        0u32
    };
    let w = encode_ldrh_imm(cond, ubit, wbit, rn, rd, hi4, lo4);
    let v = w & 0xfffffff;
    assert((w >> 28) & 0xf == cond && v & 0xf0000000 == 0 && (v >> 25) & 7 == 0 && (v >> 4) & 1
        == 1 && (v >> 7) & 1 == 1 && (v >> 5) & 3 == 1 && (v >> 24) & 1 == 1 && (v >> 23) & 1
        == ubit && (v >> 22) & 1 == 1 && (v >> 21) & 1 == wbit && (v >> 20) & 1 == 1 && (v >> 16)
        & 0xf == rn && (v >> 12) & 0xf == rd && (v >> 8) & 0xf == hi4 && v & 0xf == lo4) by (
    bit_vector)
        requires
            w == (cond << 28) | (1u32 << 24) | (ubit << 23) | (1u32 << 22) | (wbit << 21) | (1u32
                << 20) | (rn << 16) | (rd << 12) | (hi4 << 8) | (0xbu32 << 4) | lo4,
            v == w & 0xfffffff,
            cond < 15,
            ubit < 2,
            wbit < 2,
            rn < 16,
            rd < 16,
            hi4 < 16,
            lo4 < 16,
    ;
}

/// The canonical pattern of a store-exclusive.
pub open spec fn encode_strex(cond: u32, rn: u32, rd: u32, rm: u32) -> u32 {
    (cond << 28) | (0x18u32 << 20) | (rn << 16) | (rd << 12) | (0xfu32 << 8) | (9u32 << 4) | rm
}

/// Round trip of `STREX`: decoding its canonical pattern yields the
/// store-exclusive with exactly the given registers.
pub proof fn lemma_roundtrip_strex(cond: u32, rn: u32, rd: u32, rm: u32)
    requires
        cond < 15,
        rn < 16,
        rd < 16,
        rm < 16,
    ensures
        arm_decode(encode_strex(cond, rn, rd, rm)) == Ok::<ArmInstruction, ParseError>(
            ArmInstruction::Conditional(
                Instruction {
                    cond: cond_of(cond),
                    partial: PartialInstruction::LoadAndStore(
                        LoadAndStoreInstruction::STREX {
                            destination: reg_of(rd),
                            value: reg_of(rm),
                            adress: reg_of(rn),
                        },
                    ),
                },
            ),
        ),
{
    let w = encode_strex(cond, rn, rd, rm);
    let v = w & 0xfffffff;
    assert((w >> 28) & 0xf == cond && v & 0xf0000000 == 0 && (v >> 25) & 7 == 0 && (v >> 4) & 1
        == 1 && (v >> 7) & 1 == 1 && (v >> 5) & 3 == 0 && (v >> 23) & 3 == 3 && (v >> 21) & 3 == 0
        && (v >> 8) & 0xf == 0xf && (v >> 20) & 1 == 0 && (v >> 16) & 0xf == rn && (v >> 12) & 0xf
        == rd && v & 0xf == rm) by (bit_vector)
        requires
            w == (cond << 28) | (0x18u32 << 20) | (rn << 16) | (rd << 12) | (0xfu32 << 8) | (9u32
                << 4) | rm,
            v == w & 0xfffffff,
            cond < 15,
            rn < 16,
            rd < 16,
            rm < 16,
    ;
}

/// The canonical pattern of a coprocessor data operation.
pub open spec fn encode_cdp(
    cond: u32,
    opc1: u32,
    crn: u32,
    crd: u32,
    cp: u32,
    opc2: u32,
    crm: u32,
) -> u32 {
    (cond << 28) | (7u32 << 25) | (opc1 << 20) | (crn << 16) | (crd << 12) | (cp << 8) | (opc2
        << 5) | crm
}

/// Round trip of `CDP`: decoding its canonical pattern yields the data
/// operation with exactly the given unit, registers and opcode fields.
pub proof fn lemma_roundtrip_cdp(
    cond: u32,
    opc1: u32,
    crn: u32,
    crd: u32,
    cp: u32,
    opc2: u32,
    crm: u32,
)
    requires
        cond < 15,
        opc1 < 16,
        crn < 16,
        crd < 16,
        cp < 16,
        opc2 < 8,
        crm < 16,
    ensures
        arm_decode(encode_cdp(cond, opc1, crn, crd, cp, opc2, crm)) == Ok::<
            ArmInstruction,
            ParseError,
        >(
            ArmInstruction::Conditional(
                Instruction {
                    cond: cond_of(cond),
                    partial: PartialInstruction::Coprocessor(
                        CoprocessorInstruction::CDP(
                            CDP {
                                coprocessor: coproc_of(cp),
                                destination: creg_of(crd),
                                first_operand: creg_of(crn),
                                second_operand: creg_of(crm),
                                opcode_1: opc1 as u8,
                                opcode_2: opc2 as u8,
                            },
                        ),
                    ),
                },
            ),
        ),
{
    let w = encode_cdp(cond, opc1, crn, crd, cp, opc2, crm);
    let v = w & 0xfffffff;
    assert((w >> 28) & 0xf == cond && v & 0xf0000000 == 0 && (v >> 25) & 7 == 7 && (v >> 24) & 1
        == 0 && (v >> 4) & 1 == 0 && (v >> 20) & 0xf == opc1 && (v >> 16) & 0xf == crn && (v >> 12)
        & 0xf == crd && (v >> 8) & 0xf == cp && (v >> 5) & 7 == opc2 && v & 0xf == crm) by (
    bit_vector)
        requires
            w == (cond << 28) | (7u32 << 25) | (opc1 << 20) | (crn << 16) | (crd << 12) | (cp << 8)
                | (opc2 << 5) | crm,
            v == w & 0xfffffff,
            cond < 15,
            opc1 < 16,
            crn < 16,
            crd < 16,
            cp < 16,
            opc2 < 8,
            crm < 16,
    ;
}

/// The canonical pattern of a pre-indexed coprocessor load.
pub open spec fn encode_ldc(
    cond: u32,
    ubit: u32,
    nbit: u32,
    wbit: u32,
    rn: u32,
    crd: u32,
    cp: u32,
    imm8: u32,
) -> u32 {
    (cond << 28) | (6u32 << 25) | (1u32 << 24) | (ubit << 23) | (nbit << 22) | (wbit << 21) | (1u32
        << 20) | (rn << 16) | (crd << 12) | (cp << 8) | imm8
}

/// Round trip of a pre-indexed `LDC`: decoding its canonical pattern
/// yields the coprocessor load whose immediate counts words.
pub proof fn lemma_roundtrip_ldc(
    cond: u32,
    u: bool,
    long: bool,
    wb: bool,
    rn: u32,
    crd: u32,
    cp: u32,
    imm8: u32,
)
    requires
        cond < 15,
        rn < 16,
        crd < 16,
        cp < 16,
        imm8 < 256,
    ensures
        arm_decode(
            encode_ldc(
                cond,
                if u {
                    1u32
                } else {
                    0u32
                },
                if long {
                    1u32
                } else {
                    0u32
                },
                if wb {
                    1u32
                } else {
                    0u32
                },
                rn,
                crd,
                cp,
                imm8,
            ),
        ) == Ok::<ArmInstruction, ParseError>(
            ArmInstruction::Conditional(
                Instruction {
                    cond: cond_of(cond),
                    partial: PartialInstruction::Coprocessor(
                        CoprocessorInstruction::LDC(
                            LDC {
                                coprocessor: coproc_of(cp),
                                long_load: long,
                                destination: creg_of(crd),
                                addressing_mode: AddressingMode {
                                    base: reg_of(rn),
                                    offset: Offset::Immediate(((imm8 * 4) as u32)),
                                    sign: sign_of(u),
                                    indexing: Indexing::PreIndexed,
                                    writeback: wb,
                                },
                            },
                        ),
                    ),
                },
            ),
        ),
{
    let ubit: u32 = if u {
        1u32
    } else {
        0u32
    };
    let nbit: u32 = if long {
        1u32
    } else {
        0u32
    };
    let wbit: u32 = if wb {
        1u32
    } else {
        0u32
    };
    let w = encode_ldc(cond, ubit, nbit, wbit, rn, crd, cp, imm8);
    let v = w & 0xfffffff;
    assert((w >> 28) & 0xf == cond && v & 0xf0000000 == 0 && (v >> 25) & 7 == 6 && (v >> 21) & 0xf
        != 2 && (v >> 20) & 1 == 1 && (v >> 24) & 1 == 1 && (v >> 23) & 1 == ubit && (v >> 22) & 1
        == nbit && (v >> 21) & 1 == wbit && (v >> 16) & 0xf == rn && (v >> 12) & 0xf == crd && (v
        >> 8) & 0xf == cp && v & 0xff == imm8) by (bit_vector)
        requires
            w == (cond << 28) | (6u32 << 25) | (1u32 << 24) | (ubit << 23) | (nbit << 22) | (wbit
                << 21) | (1u32 << 20) | (rn << 16) | (crd << 12) | (cp << 8) | imm8,
            v == w & 0xfffffff,
            cond < 15,
            ubit < 2,
            nbit < 2,
            wbit < 2,
            rn < 16,
            crd < 16,
            cp < 16,
            imm8 < 256,
    ;
}

/// The canonical pattern of a two-register transfer into the coprocessor.
pub open spec fn encode_mcrr(cond: u32, rn: u32, rd: u32, cp: u32, opc: u32, crm: u32) -> u32 {
    (cond << 28) | (6u32 << 25) | (2u32 << 21) | (rn << 16) | (rd << 12) | (cp << 8) | (opc << 4)
        | crm
}

/// Round trip of `MCRR`: decoding its canonical pattern yields the
/// two-register transfer with exactly the given unit and registers.
pub proof fn lemma_roundtrip_mcrr(cond: u32, rn: u32, rd: u32, cp: u32, opc: u32, crm: u32)
    requires
        cond < 15,
        rn < 16,
        rd < 16,
        cp < 16,
        opc < 16,
        crm < 16,
    ensures
        arm_decode(encode_mcrr(cond, rn, rd, cp, opc, crm)) == Ok::<ArmInstruction, ParseError>(
            ArmInstruction::Conditional(
                Instruction {
                    cond: cond_of(cond),
                    partial: PartialInstruction::Coprocessor(
                        CoprocessorInstruction::MCRR(
                            MCRR {
                                coprocessor: coproc_of(cp),
                                opcode: opc as u8,
                                first_register: reg_of(rd),
                                second_register: reg_of(rn),
                                destination: creg_of(crm),
                            },
                        ),
                    ),
                },
            ),
        ),
{
    let w = encode_mcrr(cond, rn, rd, cp, opc, crm);
    let v = w & 0xfffffff;
    assert((w >> 28) & 0xf == cond && v & 0xf0000000 == 0 && (v >> 25) & 7 == 6 && (v >> 21) & 0xf
        == 2 && (v >> 20) & 1 == 0 && (v >> 16) & 0xf == rn && (v >> 12) & 0xf == rd && (v >> 8)
        & 0xf == cp && (v >> 4) & 0xf == opc && v & 0xf == crm) by (bit_vector)
        requires
            w == (cond << 28) | (6u32 << 25) | (2u32 << 21) | (rn << 16) | (rd << 12) | (cp << 8)
                | (opc << 4) | crm,
            v == w & 0xfffffff,
            cond < 15,
            rn < 16,
            rd < 16,
            cp < 16,
            opc < 16,
            crm < 16,
    ;
}

/// The canonical pattern of an immediate-offset preload hint.
pub open spec fn encode_pld_imm(ubit: u32, rn: u32, imm12: u32) -> u32 {
    (0xfu32 << 28) | (2u32 << 25) | (1u32 << 24) | (ubit << 23) | (5u32 << 20) | (rn << 16) | (
    0xfu32 << 12) | imm12
}

/// Round trip of the immediate-offset `PLD`: decoding its canonical
/// pattern yields the preload hint with exactly that addressing mode.
pub proof fn lemma_roundtrip_pld_imm(u: bool, rn: u32, imm12: u32)
    requires
        rn < 16,
        imm12 < 0x1000,
    ensures
        arm_decode(
            encode_pld_imm(
                if u {
                    1u32
                } else {
                    0u32
                },
                rn,
                imm12,
            ),
        ) == Ok::<ArmInstruction, ParseError>(
            ArmInstruction::Unconditional(
                UnconditionalInstruction::PLD {
                    addressing_mode: AddressingMode {
                        base: reg_of(rn),
                        offset: Offset::Immediate(imm12),
                        sign: sign_of(u),
                        indexing: Indexing::PreIndexed,
                        writeback: false,
                    },
                },
            ),
        ),
{
    let ubit: u32 = if u {
        1u32
    } else {
        0u32
    };
    let w = encode_pld_imm(ubit, rn, imm12);
    let v = w & 0xfffffff;
    assert((w >> 28) & 0xf == 15 && (v >> 25) & 7 == 2 && (v >> 20) & 0x17 == 0x15 && (v >> 12)
        & 0xf == 0xf && (v >> 23) & 1 == ubit && (v >> 16) & 0xf == rn && v & 0xfff == imm12) by (
    bit_vector)
        requires
            w == (0xfu32 << 28) | (2u32 << 25) | (1u32 << 24) | (ubit << 23) | (5u32 << 20) | (rn
                << 16) | (0xfu32 << 12) | imm12,
            v == w & 0xfffffff,
            ubit < 2,
            rn < 16,
            imm12 < 0x1000,
    ;
}

/// The canonical pattern of an immediate-form MSR.
pub open spec fn encode_msr_imm(cond: u32, rbit: u32, mask4: u32, rot: u32, imm8: u32) -> u32 {
    (cond << 28) | (1u32 << 25) | (2u32 << 23) | (rbit << 22) | (1u32 << 21) | (mask4 << 16) | (
    0xfu32 << 12) | (rot << 8) | imm8
}

/// Round trip of the immediate-form `MSR`: decoding its canonical pattern
/// yields the PSR write with exactly the given field mask and the rotated
/// immediate resolved.
pub proof fn lemma_roundtrip_msr_imm(cond: u32, spsr: bool, mask4: u32, rot: u32, imm8: u32)
    requires
        cond < 15,
        mask4 < 16,
        rot < 16,
        imm8 < 256,
    ensures
        arm_decode(
            encode_msr_imm(
                cond,
                if spsr {
                    1u32
                } else {
                    0u32
                },
                mask4,
                rot,
                imm8,
            ),
        ) == Ok::<ArmInstruction, ParseError>(
            ArmInstruction::Conditional(
                Instruction {
                    cond: cond_of(cond),
                    partial: PartialInstruction::RegisterAccess(
                        RegisterAccessInstruction::MSR {
                            flags: PSRFlags {
                                c: mask4 & 1 == 1,
                                x: (mask4 >> 1) & 1 == 1,
                                s: (mask4 >> 2) & 1 == 1,
                                f: (mask4 >> 3) & 1 == 1,
                            },
                            shifter_operand: ShifterOperand::Immediate(rotated_imm(imm8, rot)),
                            is_spsr: spsr,
                        },
                    ),
                },
            ),
        ),
{
    let rbit: u32 = if spsr {
        1u32
    } else {
        0u32
    };
    let w = encode_msr_imm(cond, rbit, mask4, rot, imm8);
    let v = w & 0xfffffff;
    assert((w >> 28) & 0xf == cond && v & 0xf0000000 == 0 && (v >> 25) & 7 == 1 && (v >> 23) & 3
        == 2 && (v >> 20) & 1 == 0 && (v >> 21) & 1 == 1 && (v >> 12) & 0xf == 0xf && (v >> 22) & 1
        == rbit && (v >> 16) & 1 == mask4 & 1 && (v >> 17) & 1 == (mask4 >> 1) & 1 && (v >> 18) & 1
        == (mask4 >> 2) & 1 && (v >> 19) & 1 == (mask4 >> 3) & 1 && (v >> 8) & 0xf == rot && v
        & 0xff == imm8) by (bit_vector)
        requires
            w == (cond << 28) | (1u32 << 25) | (2u32 << 23) | (rbit << 22) | (1u32 << 21) | (mask4
                << 16) | (0xfu32 << 12) | (rot << 8) | imm8,
            v == w & 0xfffffff,
            cond < 15,
            rbit < 2,
            mask4 < 16,
            rot < 16,
            imm8 < 256,
    ;
}

/// The canonical pattern of a mode-only processor-state change.
pub open spec fn encode_cps_mode(cond: u32, mode: u32) -> u32 {
    (cond << 28) | (1u32 << 24) | (1u32 << 17) | mode
}

/// Round trip of a mode-only `CPS`: decoding its canonical pattern yields
/// the state change setting exactly that mode and touching no flags.
pub proof fn lemma_roundtrip_cps_mode(cond: u32, mode: u32)
    requires
        cond < 15,
        mode < 16,
    ensures
        arm_decode(encode_cps_mode(cond, mode)) == Ok::<ArmInstruction, ParseError>(
            ArmInstruction::Conditional(
                Instruction {
                    cond: cond_of(cond),
                    partial: PartialInstruction::RegisterAccess(
                        RegisterAccessInstruction::CPS { flags: None, mode: Some(mode as u8) },
                    ),
                },
            ),
        ),
{
    let w = encode_cps_mode(cond, mode);
    let v = w & 0xfffffff;
    assert((w >> 28) & 0xf == cond && v & 0xf0000000 == 0 && (v >> 25) & 7 == 0 && (v >> 4) & 1
        == 0 && (v >> 23) & 3 == 2 && (v >> 20) & 1 == 0 && (v >> 4) & 0xf == 0 && (v >> 21) & 1
        == 0 && (v >> 16) & 0xf == 2 && (v >> 22) & 1 == 0 && (v >> 16) & 1 == 0 && (v >> 9) & 0x7f
        == 0 && (v >> 5) & 1 == 0 && (v >> 19) & 1 == 0 && (v >> 18) & 1 == 0 && (v >> 6) & 7 == 0
        && (v >> 17) & 1 == 1 && v & 0x1f == mode) by (bit_vector)
        requires
            w == (cond << 28) | (1u32 << 24) | (1u32 << 17) | mode,
            v == w & 0xfffffff,
            cond < 15,
            mode < 16,
    ;
}

} // verus!
