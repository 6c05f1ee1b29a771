use lc3_vm::instruction::{DecodedInstruction, RawInstruction};
use lc3_vm::memory::Address;
use lc3_vm::operation::br::BrOp;
use lc3_vm::operation::jmp::JmpOp;
use lc3_vm::operation::jsr::{JsrMode, JsrOp};
use lc3_vm::register::Register;
use lc3_vm::vm::VirtualMachine;

#[test]
fn pc_is_set_from_base_register_address() {
    let mut vm = VirtualMachine::default();
    vm.write_register(Register::R4, 0x45FF);

    let op = JmpOp(Register::R4);

    op.execute(&mut vm);

    assert_eq!(vm.read_pc(), Address::from(0x45FF));
}

#[test]
fn set_pc_with_offset() {
    let mut vm = VirtualMachine::default();
    let decoded = DecodedInstruction::from(RawInstruction::from(0x48FF));
    let op = JsrOp::decode(decoded).unwrap();

    op.execute(&mut vm).unwrap();

    assert_eq!(vm.read_register(Register::R7), 0x3000);

    assert_eq!(vm.read_pc(), Address::from(0x30FF));
}

#[test]
fn set_pc_with_base_register() {
    let mut vm = VirtualMachine::default();
    let decoded = DecodedInstruction::from(RawInstruction::from(0x40C0));
    let op = JsrOp::decode(decoded).unwrap();

    vm.write_register(Register::R3, 0xF1F1);
    op.execute(&mut vm).unwrap();

    assert_eq!(vm.read_register(Register::R7), 0x3000);

    assert_eq!(vm.read_pc(), Address::from(0xF1F1));
}

#[test]
fn jmp_decodes_its_base_register() {
    // JMP R2 = 1100 000 010 000000
    let op = JmpOp::decode(DecodedInstruction::from(RawInstruction::from(0xC080))).unwrap();
    assert_eq!(op.0, Register::R2);
}

#[test]
fn jsr_with_negative_offset_and_return() {
    let mut vm = VirtualMachine::default();
    // JSR #-1024 = 0100 1 10000000000
    let op = JsrOp::decode(DecodedInstruction::from(RawInstruction::from(0x4C00))).unwrap();
    assert_eq!(op.mode, JsrMode::Offset(0x400));
    op.execute(&mut vm).unwrap();
    assert_eq!(vm.read_pc(), Address::from(0x2C00));
    // RET = JMP R7 returns after the call.
    JmpOp(Register::R7).execute(&mut vm);
    assert_eq!(vm.read_pc(), Address::from(0x3000));
}

#[test]
fn jsrr_through_r7_reads_the_saved_return_address() {
    let mut vm = VirtualMachine::default();
    vm.write_register(Register::R7, 0x1234);
    let op = JsrOp { mode: JsrMode::Register(Register::R7) };
    op.execute(&mut vm).unwrap();
    assert_eq!(vm.read_register(Register::R7), 0x3000);
    assert_eq!(vm.read_pc(), Address::from(0x3000));
}

#[test]
fn branch_follows_the_condition_flags() {
    // BRz #5 with condition zero: taken.
    let mut vm = VirtualMachine::default();
    let op = BrOp::decode(DecodedInstruction::from(RawInstruction::from(0x0405))).unwrap();
    assert_eq!(op.condition_flags, 0b010);
    assert_eq!(op.offset, 5);
    op.execute(&mut vm);
    assert_eq!(vm.read_pc(), Address::from(0x3005));

    // BRn #5 with condition zero: not taken.
    let mut vm = VirtualMachine::default();
    BrOp { condition_flags: 0b100, offset: 5 }.execute(&mut vm);
    assert_eq!(vm.read_pc(), Address::from(0x3000));

    // BRp #-2 with condition positive: taken.
    let mut vm = VirtualMachine::default();
    vm.set_cond(1);
    BrOp { condition_flags: 0b001, offset: 0x1FE }.execute(&mut vm);
    assert_eq!(vm.read_pc(), Address::from(0x2FFE));
}

#[test]
fn branch_with_all_flags_is_unconditional_and_without_flags_never_taken() {
    for value in [0u16, 1, 0x8000] {
        let mut vm = VirtualMachine::default();
        vm.set_cond(value);
        BrOp { condition_flags: 0b111, offset: 0x10 }.execute(&mut vm);
        assert_eq!(vm.read_pc(), Address::from(0x3010));

        let mut vm = VirtualMachine::default();
        vm.set_cond(value);
        BrOp { condition_flags: 0b000, offset: 0x10 }.execute(&mut vm);
        assert_eq!(vm.read_pc(), Address::from(0x3000));
    }
}
