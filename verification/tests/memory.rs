use lc3_vm::memory::{Address, Memory, MEMORY_SIZE};

#[test]
fn memory_wrap_around() {
    let address = Address::from(0xFFFF);
    assert_eq!(address.wrapping_add(1), Address::from(0x0000));
}

#[test]
fn wrapping_add_adds_modulo_the_address_space() {
    assert_eq!(Address::from(0x3000).wrapping_add(0x00FF), Address::from(0x30FF));
    assert_eq!(Address::from(0x3000).wrapping_add(0xFFFF), Address::from(0x2FFF));
    assert_eq!(Address::from(0x8000).as_u16(), 0x8000);
    let value: u16 = Address::from(0x1234).into();
    assert_eq!(value, 0x1234);
}

#[test]
fn memory_reads_back_writes() {
    let mut memory = Memory::default();
    assert_eq!(memory.len(), MEMORY_SIZE);
    assert_eq!(memory.read(Address::from(0x4000)), 0);
    memory.write(Address::from(0x4000), 0xCAFE);
    memory.write(Address::from(0xFFFF), 0x0001);
    assert_eq!(memory.read(Address::from(0x4000)), 0xCAFE);
    assert_eq!(memory.read(Address::from(0xFFFF)), 0x0001);
    assert_eq!(memory.read(Address::from(0x4001)), 0);
}
