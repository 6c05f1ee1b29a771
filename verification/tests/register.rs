use lc3_vm::memory::Address;
use lc3_vm::register::{ConditionCode, Register, Registers, GENERAL_REGISTERS_SIZE, PC_START};

#[test]
fn register_indexing() {
    let mut registers = Registers::default();
    let index = Register::R1;
    registers.write(index, 0x00FF);

    assert_eq!(registers.read(index), 0x00FF);
}

#[test]
fn registers_start_in_user_space() {
    let mut registers = Registers::default();
    assert_eq!(registers.len(), GENERAL_REGISTERS_SIZE);
    assert_eq!(registers.pc(), Address::from(PC_START));
    assert_eq!(registers.cond(), ConditionCode::Zro);
    registers.set_pc(Address::from(0xFFFF));
    registers.advance_pc();
    assert_eq!(registers.pc(), Address::from(0x0000));
}

#[test]
fn condition_code_follows_the_sign_of_the_result() {
    assert_eq!(ConditionCode::from_result(0), ConditionCode::Zro);
    assert_eq!(ConditionCode::from_result(1), ConditionCode::Pos);
    assert_eq!(ConditionCode::from_result(0x7FFF), ConditionCode::Pos);
    assert_eq!(ConditionCode::from_result(0x8000), ConditionCode::Neg);
    assert_eq!(ConditionCode::from_result(0xFFFF), ConditionCode::Neg);
    let mut registers = Registers::default();
    registers.set_cond(0x8001);
    assert_eq!(registers.cond(), ConditionCode::Neg);
    assert_eq!(ConditionCode::default(), ConditionCode::Zro);
}

#[test]
fn register_identifiers_round_trip() {
    let all = [
        Register::R0,
        Register::R1,
        Register::R2,
        Register::R3,
        Register::R4,
        Register::R5,
        Register::R6,
        Register::R7,
    ];
    for (id, register) in all.iter().enumerate() {
        assert_eq!(Register::from_id(id as u8), *register);
        assert_eq!(usize::from(*register), id);
        assert_eq!(register.index(), id);
    }
}
