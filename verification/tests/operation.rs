use lc3_vm::memory::Address;
use lc3_vm::operation::{sign_extend, Offset, OFFSET_6_BIT_COUNT, OFFSET_9_BIT_COUNT};
use lc3_vm::register::Register;
use lc3_vm::vm::VirtualMachine;

#[test]
fn sign_extension() {
    assert_eq!(sign_extend(0b00000, 5), 0x0000);
    assert_eq!(sign_extend(0b00001, 5), 0x0001);
    assert_eq!(sign_extend(0b01111, 5), 0x000F);
    assert_eq!(sign_extend(0b10000, 5), 0xFFF0);
    assert_eq!(sign_extend(0b10001, 5), 0xFFF1);
    assert_eq!(sign_extend(0b11111, 5), 0xFFFF);
}

#[test]
fn sign_extension_of_other_widths() {
    assert_eq!(sign_extend(0b1_1111_1111, OFFSET_9_BIT_COUNT), 0xFFFF);
    assert_eq!(sign_extend(0b1_0000_0000, OFFSET_9_BIT_COUNT), 0xFF00);
    assert_eq!(sign_extend(0b0_1111_1111, OFFSET_9_BIT_COUNT), 0x00FF);
    assert_eq!(sign_extend(0b10_0000, OFFSET_6_BIT_COUNT), 0xFFE0);
    assert_eq!(sign_extend(0x0400, 11), 0xFC00);
    assert_eq!(sign_extend(0x8000, 16), 0x8000);
    assert_eq!(sign_extend(0x7FFF, 16), 0x7FFF);
    assert_eq!(sign_extend(1, 1), 0xFFFF);
    assert_eq!(sign_extend(0, 1), 0x0000);
}

#[test]
fn offset_accessors() {
    let pc_relative = Offset::Offset9(0x1FF);
    let base_relative = Offset::Offset6 { base_r: Register::R3, value: 0x3E };
    assert_eq!(pc_relative.value(), 0x1FF);
    assert_eq!(pc_relative.base_r(), None);
    assert_eq!(base_relative.value(), 0x3E);
    assert_eq!(base_relative.base_r(), Some(Register::R3));
}

#[test]
fn offset_addresses() {
    let mut vm = VirtualMachine::default();
    vm.write_register(Register::R3, 0x4000);
    // PC-relative: 0x3000 - 1
    assert_eq!(Offset::Offset9(0x1FF).address(&vm), Address::from(0x2FFF));
    // base-relative: 0x4000 - 2
    assert_eq!(
        Offset::Offset6 { base_r: Register::R3, value: 0x3E }.address(&vm),
        Address::from(0x3FFE)
    );
}
