use lc3_vm::instruction::{DecodedInstruction, RawInstruction};
use lc3_vm::operation::add::AddOp;
use lc3_vm::operation::{BinaryOp, BinaryOpMode};
use lc3_vm::register::{ConditionCode, Register};
use lc3_vm::vm::VirtualMachine;

#[test]
fn create_add_op() {
    let decoded = DecodedInstruction::from(RawInstruction::from(0x1FFF));

    let add_op = AddOp::decode(decoded);

    assert!(add_op.is_ok());
}

#[test]
fn register_mode_add() {
    // ADD R2, R3, R4
    let decoded = DecodedInstruction::from(RawInstruction::from(0x14C4));
    let mut vm = VirtualMachine::default();
    let dr = Register::R2;

    vm.write_register(Register::R3, 0x0001);
    vm.write_register(Register::R4, 0x0001);

    let add_op = AddOp::decode(decoded).unwrap();
    add_op.execute(&mut vm);

    assert_eq!(vm.read_register(dr), 0x0002);
    assert!(matches!(vm.read_cond(), ConditionCode::Pos));
}

#[test]
fn immediate_mode_add() {
    // ADD R2, R3, #7
    let decoded = DecodedInstruction::from(RawInstruction::from(0x14E7));
    let mut vm = VirtualMachine::default();
    let dr = Register::R2;

    vm.write_register(Register::R3, 0x0001);

    let add_op = AddOp::decode(decoded).unwrap();
    add_op.execute(&mut vm);

    assert_eq!(vm.read_register(dr), 0x008);
    assert!(matches!(vm.read_cond(), ConditionCode::Pos));
}

#[test]
fn immediate_add_negative() {
    // ADD R2, R3, #-1
    let decoded = DecodedInstruction::from(RawInstruction::from(0x14FF));
    let mut vm = VirtualMachine::default();
    let dr = Register::R2;

    vm.write_register(Register::R3, 0x0005);

    let add_op = AddOp::decode(decoded).unwrap();
    add_op.execute(&mut vm);

    assert_eq!(vm.read_register(dr), 0x0004);
    assert!(matches!(vm.read_cond(), ConditionCode::Pos));
}

#[test]
fn immediate_add_overflow_to_negative() {
    // ADD R2, R3, #1
    let decoded = DecodedInstruction::from(RawInstruction::from(0x14E1));
    let mut vm = VirtualMachine::default();
    let dr = Register::R2;

    vm.write_register(Register::R3, 0x7FFF);

    let add_op = AddOp::decode(decoded).unwrap();
    add_op.execute(&mut vm);

    assert_eq!(vm.read_register(dr), 0x8000);
    assert!(matches!(vm.read_cond(), ConditionCode::Neg));
}

#[test]
fn add_decodes_its_fields() {
    let op = AddOp::decode(DecodedInstruction::from(RawInstruction::from(0x14C4))).unwrap();
    assert_eq!(op.dr, Register::R2);
    assert_eq!(op.sr1, Register::R3);
    assert_eq!(op.mode, BinaryOpMode::Register(Register::R4));
    let op = AddOp::decode(DecodedInstruction::from(RawInstruction::from(0x14FF))).unwrap();
    assert_eq!(op.mode, BinaryOpMode::Immediate(0x1F));
}

#[test]
fn add_wraps_to_zero() {
    // ADD R0, R0, #1 with R0 = 0xFFFF
    let mut vm = VirtualMachine::default();
    vm.write_register(Register::R0, 0xFFFF);
    let op = AddOp::from_parts(Register::R0, Register::R0, BinaryOpMode::Immediate(1));
    op.execute(&mut vm);
    assert_eq!(vm.read_register(Register::R0), 0x0000);
    assert_eq!(vm.read_cond(), ConditionCode::Zro);
    assert_eq!(AddOp::operate(0xFFFF, 0x0002), 0x0001);
}
