use lc3_vm::instruction::{DecodedInstruction, RawInstruction};
use lc3_vm::memory::Address;
use lc3_vm::operation::ldr::LdrOp;
use lc3_vm::operation::st::StOp;
use lc3_vm::operation::sti::StiOp;
use lc3_vm::operation::str::StrOp;
use lc3_vm::operation::{sign_extend, MemoryLoadOp, MemoryStoreOp, Offset, OFFSET_9_BIT_COUNT};
use lc3_vm::register::{ConditionCode, Register};
use lc3_vm::vm::VirtualMachine;

#[test]
fn execute_stores_register_value_at_pc_relative_address() {
    let mut vm = VirtualMachine::default();
    vm.write_register(Register::R4, 0x4321);

    let sext_offset = sign_extend(0b1_1111_1111, OFFSET_9_BIT_COUNT);
    let address = vm.read_pc().wrapping_add(sext_offset);

    let op = StOp {
        sr: Register::R4,
        offset: Offset::Offset9(0b1_1111_1111),
    };

    op.execute(&mut vm);

    assert_eq!(vm.read_memory(address), 0x4321);
}

#[test]
fn execute_stores_register_value_at_indirect_address() {
    let mut vm = VirtualMachine::default();
    vm.write_register(Register::R4, 0x4321);

    let offset = Offset::Offset9(0b0_0000_0010);
    let sext_offset = sign_extend(offset.value(), OFFSET_9_BIT_COUNT);
    let pointer_address = vm.read_pc().wrapping_add(sext_offset);
    let target_address = Address::from(0x4000);

    vm.write_memory(pointer_address, target_address.into());

    let op = StiOp {
        sr: Register::R4,
        offset,
    };

    op.execute(&mut vm);

    assert_eq!(vm.read_memory(target_address), 0x4321);
}

#[test]
fn execute_stores_register_value_at_base_register_relative_address() {
    let mut vm = VirtualMachine::default();
    vm.write_register(Register::R1, 0x4002);
    vm.write_register(Register::R4, 0x4321);

    let offset = Offset::Offset6 {
        base_r: Register::R1,
        value: 0b11_1110, // -2
    };

    let op = StrOp {
        sr: Register::R4,
        offset,
    };

    op.execute(&mut vm);

    assert_eq!(vm.read_memory(Address::from(0x4000)), 0x4321);
}

#[test]
fn store_leaves_registers_and_condition_code() {
    // ST R3, #5
    let decoded = DecodedInstruction::from(RawInstruction::from(0x3605));
    let mut vm = VirtualMachine::default();
    vm.write_register(Register::R3, 0x0000);
    vm.set_cond(0x8000);
    let op = StOp::decode(decoded).unwrap();
    assert_eq!(op.sr, Register::R3);
    assert_eq!(op.offset, Offset::Offset9(5));
    vm.write_memory(Address::from(0x3005), 0xAAAA);
    op.execute(&mut vm);
    assert_eq!(vm.read_memory(Address::from(0x3005)), 0x0000);
    assert_eq!(vm.read_cond(), ConditionCode::Neg);
}

#[test]
fn str_then_ldr_gives_back_the_value() {
    let mut vm = VirtualMachine::default();
    vm.write_register(Register::R2, 0x5000);
    vm.write_register(Register::R6, 0x9876);
    // STR R6, R2, #3 then LDR R1, R2, #3
    let store = StrOp::decode(DecodedInstruction::from(RawInstruction::from(0x7C83))).unwrap();
    let load = LdrOp::decode(DecodedInstruction::from(RawInstruction::from(0x6283))).unwrap();
    store.execute(&mut vm);
    load.execute(&mut vm);
    assert_eq!(vm.read_memory(Address::from(0x5003)), 0x9876);
    assert_eq!(vm.read_register(Register::R1), 0x9876);
    assert_eq!(vm.read_cond(), ConditionCode::Neg);
}
