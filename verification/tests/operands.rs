//! Operand-level behaviour: validated enumerations, bitfield primitives
//! and the shifter operand.

use arm_decode::bitfield::{check_bit, check_rest_null_mask, extract, split_with_mask};
use arm_decode::errors::ParseError;
use arm_decode::operands::{
    Cond, Coprocessor, CRegister, Register, RegisterList, ShiftKind, ShifterOperand,
};

#[test]
fn register_new_accepts_all_sixteen() {
    let expected = [
        Register::R0,
        Register::R1,
        Register::R2,
        Register::R3,
        Register::R4,
        Register::R5,
        Register::R6,
        Register::R7,
        Register::R8,
        Register::R9,
        Register::R10,
        Register::R11,
        Register::R12,
        Register::R13,
        Register::R14,
        Register::R15,
    ];
    for v in 0..16u8 {
        assert_eq!(Register::new(v), Ok(expected[v as usize]));
    }
}

#[test]
fn register_new_rejects_out_of_range() {
    assert_eq!(
        Register::new(16),
        Err(ParseError::InvalidMask {
            invalid_set_bytes: 0x10
        })
    );
    assert_eq!(
        Register::new(0xff),
        Err(ParseError::InvalidMask {
            invalid_set_bytes: 0xf0
        })
    );
}

#[test]
fn cregister_new_validates() {
    assert_eq!(CRegister::new(0), Ok(CRegister::Cr0));
    assert_eq!(CRegister::new(15), Ok(CRegister::Cr15));
    assert_eq!(
        CRegister::new(32),
        Err(ParseError::InvalidMask {
            invalid_set_bytes: 0x20
        })
    );
}

#[test]
fn coprocessor_new_validates() {
    assert_eq!(Coprocessor::new(5), Ok(Coprocessor::P5));
    assert_eq!(Coprocessor::new(15), Ok(Coprocessor::P15));
    assert_eq!(
        Coprocessor::new(200),
        Err(ParseError::InvalidMask {
            invalid_set_bytes: 0xc0
        })
    );
}

#[test]
fn condition_table_is_the_documented_one() {
    let expected = [
        Cond::Equal,
        Cond::NotEqual,
        Cond::CarrySet,
        Cond::CarryClear,
        Cond::Minus,
        Cond::Plus,
        Cond::Overflow,
        Cond::NoOverflow,
        Cond::Higher,
        Cond::LowerOrSame,
        Cond::SignedGreaterOrEqual,
        Cond::SignedLessThan,
        Cond::SignedGreaterThan,
        Cond::SignedLessThanOrEqual,
        Cond::Allways,
        Cond::Unconditional,
    ];
    for v in 0..16u32 {
        assert_eq!(Cond::new(v), Ok(expected[v as usize]));
    }
    assert_eq!(
        Cond::new(17),
        Err(ParseError::InvalidMask {
            invalid_set_bytes: 0x10
        })
    );
}

#[test]
fn bitfield_primitives() {
    assert!(check_bit(0b100, 2));
    assert!(!check_bit(0b100, 3));
    assert_eq!(extract(0xABCD_1234, 12, 0xfff), 0xCD1);
    assert_eq!(split_with_mask(0xFF00FF00, 0x0000FF00), (0x0000FF00, 0xFF000000));
    assert_eq!(check_rest_null_mask(0x00F0, 0x00FF), Ok(0x00F0));
    assert_eq!(
        check_rest_null_mask(0x10F0, 0x00FF),
        Err(ParseError::InvalidMask {
            invalid_set_bytes: 0x1000
        })
    );
}

#[test]
fn register_list_membership() {
    let list = RegisterList(0b1000_0000_0000_0101);
    assert!(list.contains(0));
    assert!(!list.contains(1));
    assert!(list.contains(2));
    assert!(list.contains(15));
}

#[test]
fn shifter_rotated_immediate_resolves() {
    // rotate_imm = 4, imm8 = 0xFF: 0xFF rotated right by 8 bits.
    let r = ShifterOperand::new(0x4FF, true);
    assert_eq!(r, Ok(ShifterOperand::Immediate(0xFF00_0000)));
    // No rotation: the immediate itself.
    assert_eq!(ShifterOperand::new(0x0AB, true), Ok(ShifterOperand::Immediate(0xAB)));
}

#[test]
fn shifter_register_forms() {
    // Register with no shift.
    assert_eq!(ShifterOperand::new(0x003, false), Ok(ShifterOperand::Register(Register::R3)));
    // LSR with a zero immediate amount reads as LSR #32, not a no-op.
    assert_eq!(
        ShifterOperand::new(0x022, false),
        Ok(ShifterOperand::ImmediateShift {
            rm: Register::R2,
            kind: ShiftKind::LogicalRight,
            amount: 32
        })
    );
    // ASR #32 the same way.
    assert_eq!(
        ShifterOperand::new(0x042, false),
        Ok(ShifterOperand::ImmediateShift {
            rm: Register::R2,
            kind: ShiftKind::ArithmeticRight,
            amount: 32
        })
    );
    // ROR #0 reads as rotate-right-with-extend.
    assert_eq!(
        ShifterOperand::new(0x062, false),
        Ok(ShifterOperand::ImmediateShift {
            rm: Register::R2,
            kind: ShiftKind::RotateRightExtend,
            amount: 1
        })
    );
    // An ordinary LSL amount.
    assert_eq!(
        ShifterOperand::new(0x102, false),
        Ok(ShifterOperand::ImmediateShift {
            rm: Register::R2,
            kind: ShiftKind::LogicalLeft,
            amount: 2
        })
    );
    // Shift by register.
    assert_eq!(
        ShifterOperand::new(0x312, false),
        Ok(ShifterOperand::RegisterShift {
            rm: Register::R2,
            kind: ShiftKind::LogicalLeft,
            rs: Register::R3
        })
    );
    // A register shift with bit 7 set is no shifter operand.
    assert_eq!(
        ShifterOperand::new(0x392, false),
        Err(ParseError::InvalidMask {
            invalid_set_bytes: 0x80
        })
    );
}
