use lc3_vm::error::{InstructionError, Lc3Error};
use lc3_vm::instruction::{DecodedInstruction, RawInstruction};
use lc3_vm::memory::Address;
use lc3_vm::operation::trap::{TrapOp, TrapRoutine};
use lc3_vm::register::Register;
use lc3_vm::vm::{Action, VirtualMachine};

#[test]
fn valid_trap_code_is_decoded() {
    let instructions: [u16; 6] = [0xF020, 0xF021, 0xF022, 0xF023, 0xF024, 0xF025];

    for instr in instructions {
        assert!(TrapOp::decode(DecodedInstruction::from(RawInstruction::from(instr))).is_ok());
    }
}

#[test]
fn invalid_trap_code_returns_error() {
    let instr = DecodedInstruction::from(RawInstruction::from(0xF0FF));
    assert!(TrapOp::decode(instr).is_err());
}

#[test]
fn trap_codes_name_their_routines() {
    let expected = [
        (0xF020, TrapRoutine::GetC),
        (0xF021, TrapRoutine::Out),
        (0xF022, TrapRoutine::PutS),
        (0xF023, TrapRoutine::In),
        (0xF024, TrapRoutine::PutSp),
        (0xF025, TrapRoutine::Halt),
    ];
    for (word, routine) in expected {
        let op = TrapOp::decode(DecodedInstruction::from(RawInstruction::from(word))).unwrap();
        assert_eq!(op.0, routine);
    }
    match TrapOp::decode(DecodedInstruction::from(RawInstruction::from(0xF026))) {
        Err(Lc3Error::Instruction(InstructionError::InvalidTrapCode(code))) => assert_eq!(code, 0x26),
        _ => panic!("trap vector 0x26 names no routine"),
    }
}

#[test]
fn getc_and_in_store_the_character() {
    let mut vm = VirtualMachine::default();
    assert!(TrapRoutine::GetC.needs_input());
    assert!(TrapRoutine::In.needs_input());
    assert!(!TrapRoutine::Out.needs_input());
    TrapRoutine::getc(&mut vm, b'a');
    assert_eq!(vm.read_register(Register::R0), 0x61);
    TrapRoutine::_in(&mut vm, b'z');
    assert_eq!(vm.read_register(Register::R0), 0x7A);
    TrapRoutine::GetC.finish_input(&mut vm, b'b');
    assert_eq!(vm.read_register(Register::R0), 0x62);
    assert_eq!(TrapRoutine::In.prompt(), b"Enter a character: ".to_vec());
    assert!(TrapRoutine::GetC.prompt().is_empty());
}

#[test]
fn out_writes_the_low_byte_of_r0() {
    let mut vm = VirtualMachine::default();
    vm.write_register(Register::R0, 0x1241);
    assert_eq!(TrapRoutine::out(&vm), vec![0x41]);
}

#[test]
fn puts_writes_one_character_per_word() {
    let mut vm = VirtualMachine::default();
    vm.write_register(Register::R0, 0x4000);
    for (i, word) in [0x0048u16, 0x0169, 0x0021].iter().enumerate() {
        vm.write_memory(Address::from(0x4000 + i as u16), *word);
    }
    assert_eq!(TrapRoutine::puts(&vm), b"Hi!".to_vec());
}

#[test]
fn puts_wraps_around_the_address_space() {
    let mut vm = VirtualMachine::default();
    vm.write_register(Register::R0, 0xFFFF);
    vm.write_memory(Address::from(0xFFFF), 0x0041);
    vm.write_memory(Address::from(0x0000), 0x0042);
    assert_eq!(TrapRoutine::puts(&vm), b"AB".to_vec());
}

#[test]
fn putsp_writes_two_characters_per_word() {
    let mut vm = VirtualMachine::default();
    vm.write_register(Register::R0, 0x4000);
    vm.write_memory(Address::from(0x4000), 0x6548); // "He"
    vm.write_memory(Address::from(0x4001), 0x6C6C); // "ll"
    vm.write_memory(Address::from(0x4002), 0x006F); // "o", no high byte
    assert_eq!(TrapRoutine::putsp(&vm), b"Hello".to_vec());
}

#[test]
fn halt_stops_the_machine() {
    let mut vm = VirtualMachine::default();
    assert!(vm.is_running());
    assert_eq!(TrapRoutine::stop_message(), b"Stopping execution\n".to_vec());
    TrapRoutine::halt(&mut vm);
    assert!(!vm.is_running());
}

#[test]
fn execute_reports_the_console_work_and_changes_nothing() {
    let mut vm = VirtualMachine::default();
    vm.write_register(Register::R0, 0x0058);
    assert!(matches!(TrapOp(TrapRoutine::Out).execute(&vm), Action::Output(bytes) if bytes == vec![0x58]));
    match TrapOp(TrapRoutine::GetC).execute(&vm) {
        Action::Input { routine, prompt, echo } => {
            assert_eq!(routine, TrapRoutine::GetC);
            assert!(prompt.is_empty());
            assert!(!echo);
        }
        other => panic!("expected a read, got {:?}", other),
    }
    match TrapOp(TrapRoutine::In).execute(&vm) {
        Action::Input { routine, prompt, echo } => {
            assert_eq!(routine, TrapRoutine::In);
            assert_eq!(prompt, b"Enter a character: ".to_vec());
            assert!(echo);
        }
        other => panic!("expected a read, got {:?}", other),
    }
    match TrapOp(TrapRoutine::Halt).execute(&vm) {
        Action::Halt { message } => assert_eq!(message, b"Stopping execution\n".to_vec()),
        other => panic!("expected a halt, got {:?}", other),
    }
    assert!(vm.is_running());
    assert_eq!(vm.read_register(Register::R0), 0x0058);
}
