use lc3_vm::instruction::{DecodedInstruction, RawInstruction};
use lc3_vm::operation::not::NotOp;
use lc3_vm::operation::UnaryOp;
use lc3_vm::register::{ConditionCode, Register};
use lc3_vm::vm::VirtualMachine;

#[test]
fn create_not_op() {
    let decoded = DecodedInstruction::from(RawInstruction::from(0x9FFF));

    let not_op = NotOp::decode(decoded);

    assert!(not_op.is_ok());
}

#[test]
fn execute_not_op() {
    let decoded = DecodedInstruction::from(RawInstruction::from(0x98BF));
    let mut vm = VirtualMachine::default();
    let dr = Register::R4;
    let sr = Register::R2;

    vm.write_register(sr, 0x0001);

    let not_op = NotOp::decode(decoded).unwrap();

    not_op.execute(&mut vm);

    assert_eq!(vm.read_register(dr), !vm.read_register(sr));
    assert_eq!(vm.read_cond(), ConditionCode::Neg);
}

#[test]
fn not_twice_restores_the_register() {
    let mut vm = VirtualMachine::default();
    vm.write_register(Register::R5, 0x1234);
    NotOp::from_parts(Register::R5, Register::R5).execute(&mut vm);
    assert_eq!(vm.read_register(Register::R5), 0xEDCB);
    NotOp::from_parts(Register::R5, Register::R5).execute(&mut vm);
    assert_eq!(vm.read_register(Register::R5), 0x1234);
    assert_eq!(vm.read_cond(), ConditionCode::Pos);
    vm.write_register(Register::R6, 0xFFFF);
    NotOp::from_parts(Register::R6, Register::R6).execute(&mut vm);
    assert_eq!(vm.read_cond(), ConditionCode::Zro);
}
