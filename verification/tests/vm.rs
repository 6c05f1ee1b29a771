use lc3_vm::error::{InstructionError, Lc3Error};
use lc3_vm::instruction::{Opcode, RawInstruction};
use lc3_vm::memory::{Address, MEMORY_SIZE};
use lc3_vm::register::{ConditionCode, Register, GENERAL_REGISTERS_SIZE, PC_START};
use lc3_vm::vm::{Action, VirtualMachine};

#[test]
fn vm_default_state() {
    let vm = VirtualMachine::default();
    assert_eq!(vm.memory().len(), MEMORY_SIZE);
    assert_eq!(vm.registers().pc(), Address::from(PC_START));
    assert!(matches!(vm.registers().cond(), ConditionCode::Zro));
    assert_eq!(vm.registers().len(), GENERAL_REGISTERS_SIZE);
}

#[test]
fn fetch_and_advance_pc() {
    let mut vm = VirtualMachine::default();
    vm.write_memory(vm.read_pc(), 0x1234);

    let raw = vm.fetch();

    assert_eq!(raw, RawInstruction::from(0x1234));
    assert_eq!(vm.registers().pc(), Address::from(PC_START + 1));
}

#[test]
fn pc_wrap_around() {
    let mut vm = VirtualMachine::default();
    let address = Address::from(0xFFFF);
    vm.set_pc(address);
    vm.write_memory(address, 0x1234);
    let raw = vm.fetch();

    assert_eq!(raw, RawInstruction::from(0x1234));
    assert_eq!(vm.registers().pc(), Address::from(0x0000));
}

fn load(vm: &mut VirtualMachine, program: &[u16]) {
    for (i, word) in program.iter().enumerate() {
        vm.write_memory(Address::from(PC_START + i as u16), *word);
    }
}

fn run(vm: &mut VirtualMachine, mut input: Vec<u8>) -> Result<Vec<u8>, Lc3Error> {
    let mut output = Vec::new();
    while vm.is_running() {
        assert!(vm.next_step_finishes());
        match vm.step()? {
            Action::Continue => {}
            Action::Output(bytes) => output.extend(bytes),
            Action::Halt { message } => {
                output.extend(message);
                vm.halt();
            }
            Action::Input { routine, prompt, echo } => {
                output.extend(prompt);
                let byte = input.remove(0);
                if echo {
                    output.push(byte);
                }
                routine.finish_input(vm, byte);
            }
        }
    }
    Ok(output)
}

#[test]
fn step_executes_a_small_program() {
    let mut vm = VirtualMachine::default();
    load(
        &mut vm,
        &[
            0x5020, // AND R0, R0, #0
            0x1025, // ADD R0, R0, #5
            0x1221, // ADD R1, R0, #1
            0x3403, // ST  R2, #3  (stores R2 at 0x3007)
            0xF025, // HALT
        ],
    );
    let output = run(&mut vm, Vec::new()).unwrap();
    assert_eq!(output, b"Stopping execution\n".to_vec());
    assert_eq!(vm.read_register(Register::R0), 5);
    assert_eq!(vm.read_register(Register::R1), 6);
    assert_eq!(vm.read_cond(), ConditionCode::Pos);
    assert_eq!(vm.read_pc(), Address::from(0x3005));
    assert!(!vm.is_running());
}

#[test]
fn step_prints_a_string_and_echoes_input() {
    let mut vm = VirtualMachine::default();
    load(
        &mut vm,
        &[
            0xE003, // LEA R0, #3 (0x3004)
            0xF022, // PUTS
            0xF023, // IN
            0xF025, // HALT
            0x006F, // 'o'
            0x006B, // 'k'
            0x0000,
        ],
    );
    let output = run(&mut vm, vec![b'x']).unwrap();
    assert_eq!(output, b"okEnter a character: xStopping execution\n".to_vec());
    assert_eq!(vm.read_register(Register::R0), u16::from(b'x'));
}

#[test]
fn input_is_stored_only_when_the_caller_finishes_the_read() {
    let mut vm = VirtualMachine::default();
    load(&mut vm, &[0xF020]); // GETC
    match vm.step().unwrap() {
        Action::Input { routine, prompt, echo } => {
            assert!(prompt.is_empty());
            assert!(!echo);
            // The program counter has moved past the trap; R0 is untouched
            // until the character is supplied.
            assert_eq!(vm.read_pc(), Address::from(0x3001));
            assert_eq!(vm.read_register(Register::R0), 0);
            routine.finish_input(&mut vm, b'k');
        }
        other => panic!("expected a request for input, got {:?}", other),
    }
    assert_eq!(vm.read_register(Register::R0), u16::from(b'k'));
}

#[test]
fn halt_step_leaves_the_machine_running_until_halted() {
    let mut vm = VirtualMachine::default();
    load(&mut vm, &[0xF025]);
    match vm.step().unwrap() {
        Action::Halt { message } => assert_eq!(message, b"Stopping execution\n".to_vec()),
        other => panic!("expected a halt, got {:?}", other),
    }
    assert!(vm.is_running());
    assert_eq!(vm.read_pc(), Address::from(0x3001));
    vm.halt();
    assert!(!vm.is_running());
}

#[test]
fn unsupported_instructions_stop_with_an_error() {
    let mut vm = VirtualMachine::default();
    load(&mut vm, &[0x8000, 0xD000]);
    assert!(matches!(vm.step(), Err(Lc3Error::UnsupportedInstruction(Opcode::Rti))));
    assert!(matches!(vm.step(), Err(Lc3Error::UnsupportedInstruction(Opcode::Res))));
    assert_eq!(vm.read_pc(), Address::from(0x3002));
}

#[test]
fn invalid_trap_vector_stops_with_an_error() {
    let mut vm = VirtualMachine::default();
    load(&mut vm, &[0xF0FF]);
    assert!(matches!(
        vm.step(),
        Err(Lc3Error::Instruction(InstructionError::InvalidTrapCode(0xFF)))
    ));
}

#[test]
fn subroutine_call_and_return() {
    let mut vm = VirtualMachine::default();
    load(
        &mut vm,
        &[
            0x4802, // JSR #2 -> 0x3003
            0xF025, // HALT
            0x0000,
            0x1261, // ADD R1, R1, #1
            0xC1C0, // RET (JMP R7)
        ],
    );
    run(&mut vm, Vec::new()).unwrap();
    assert_eq!(vm.read_register(Register::R1), 1);
    assert_eq!(vm.read_register(Register::R7), 0x3001);
}

#[test]
fn puts_without_terminator_is_reported() {
    let mut vm = VirtualMachine::default();
    // Fill every word with 'A', then place PUTS at the start address.
    for address in 0..=0xFFFFu16 {
        vm.write_memory(Address::from(address), 0x0041);
    }
    vm.write_memory(Address::from(PC_START), 0xF022);
    assert!(!vm.next_step_finishes());
    vm.write_memory(Address::from(0x0000), 0x0000);
    assert!(vm.next_step_finishes());
}

#[test]
fn loads_and_stores_through_step() {
    let mut vm = VirtualMachine::default();
    load(
        &mut vm,
        &[
            0x2205, // LD  R1, #5   (0x3006)
            0xA405, // LDI R2, #5   (via 0x3007)
            0x0E01, // BRnzp #1 (skip next)
            0xF025, // HALT (skipped)
            0xB601, // STI R3, #1 (via 0x3006 -> mem[0x3006] = 0x8001)
            0xF025, // HALT
            0x8001, // data
            0x3006, // pointer
        ],
    );
    vm.write_register(Register::R3, 0x1111);
    run(&mut vm, Vec::new()).unwrap();
    assert_eq!(vm.read_register(Register::R1), 0x8001);
    assert_eq!(vm.read_register(Register::R2), 0x8001);
    assert_eq!(vm.read_memory(Address::from(0x8001)), 0x1111);
}

#[test]
fn only_stores_change_memory_and_steps_keep_running() {
    let mut vm = VirtualMachine::default();
    load(
        &mut vm,
        &[
            0x1025, // ADD R0, R0, #5
            0x903F, // NOT R0, R0
            0x0E00, // BRnzp #0
            0xE201, // LEA R1, #1
            0xF025, // HALT
        ],
    );
    let before: Vec<u16> = (0..=0xFFFFu16).map(|a| vm.read_memory(Address::from(a))).collect();
    for _ in 0..4 {
        assert!(matches!(vm.step().unwrap(), Action::Continue));
        assert!(vm.is_running());
    }
    let after: Vec<u16> = (0..=0xFFFFu16).map(|a| vm.read_memory(Address::from(a))).collect();
    assert_eq!(before, after);
    assert_eq!(vm.read_register(Register::R0), !5u16);
    assert!(matches!(vm.step().unwrap(), Action::Halt { .. }));
    assert!(vm.is_running());
}
