use lc3_vm::instruction::{DecodedInstruction, RawInstruction};
use lc3_vm::operation::and::AndOp;
use lc3_vm::operation::{BinaryOp, BinaryOpMode};
use lc3_vm::register::{ConditionCode, Register};
use lc3_vm::vm::VirtualMachine;

#[test]
fn create_and_op() {
    let decoded = DecodedInstruction::from(RawInstruction::from(0x5FFF));

    let and_op = AndOp::decode(decoded);

    assert!(and_op.is_ok());
}

#[test]
fn register_mode_and() {
    // AND R2, R3, R4
    let decoded = DecodedInstruction::from(RawInstruction::from(0x54C4));
    let mut vm = VirtualMachine::default();
    let dr = Register::R2;

    vm.write_register(Register::R3, 0x0001);
    vm.write_register(Register::R4, 0x0001);

    let and_op = AndOp::decode(decoded).unwrap();
    and_op.execute(&mut vm);

    assert_eq!(vm.read_register(dr), 0x0001);
    assert!(matches!(vm.read_cond(), ConditionCode::Pos));
}

#[test]
fn immediate_mode_and() {
    // AND R2, R3, #7
    let decoded = DecodedInstruction::from(RawInstruction::from(0x54E7));
    let mut vm = VirtualMachine::default();
    let dr = Register::R2;

    vm.write_register(Register::R3, 0x0001);

    let and_op = AndOp::decode(decoded).unwrap();
    and_op.execute(&mut vm);

    assert_eq!(vm.read_register(dr), 1);
    assert!(matches!(vm.read_cond(), ConditionCode::Pos));
}

#[test]
fn and_with_zero_clears_and_sets_zero() {
    // AND R1, R1, #0
    let mut vm = VirtualMachine::default();
    vm.write_register(Register::R1, 0xBEEF);
    vm.set_cond(0xBEEF);
    let op = AndOp::from_parts(Register::R1, Register::R1, BinaryOpMode::Immediate(0));
    op.execute(&mut vm);
    assert_eq!(vm.read_register(Register::R1), 0);
    assert_eq!(vm.read_cond(), ConditionCode::Zro);
    // AND with an immediate of -1 keeps every bit.
    let op = AndOp::from_parts(Register::R2, Register::R3, BinaryOpMode::Immediate(0x1F));
    vm.write_register(Register::R3, 0x8421);
    op.execute(&mut vm);
    assert_eq!(vm.read_register(Register::R2), 0x8421);
    assert_eq!(vm.read_cond(), ConditionCode::Neg);
}
