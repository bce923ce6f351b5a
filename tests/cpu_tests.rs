use synacor_vm::{get_registry_from_address, CPUError, Memory, CPU};

#[test]
fn cpu_test_get_registry_from_address() {
    assert_eq!(get_registry_from_address(0), None);
    assert_eq!(get_registry_from_address(32768), Some(0));
    assert_eq!(get_registry_from_address(32769), Some(1));
    assert_eq!(get_registry_from_address(32774), Some(6));
    assert_eq!(get_registry_from_address(32775), Some(7));
    assert_eq!(get_registry_from_address(34776), None);
    assert_eq!(get_registry_from_address(u16::MAX), None);
}

#[test]
fn cpu_test_set_value() {
    let mut mem = Memory::default();
    mem.load_data(&[3, 2, 1]).ok();

    let mut cpu = CPU::new(mem);
    let old_value = cpu.set_value_in_address(0, 0).unwrap_or(u16::MAX);

    assert_eq!(old_value, 3);

    {
        let mem = cpu.memory();
        assert_eq!(mem.read_memory(0), Some(0));
        assert_eq!(mem.read_memory(1), Some(2));
        assert_eq!(mem.read_memory(2), Some(1));
        assert_eq!(mem.read_memory(3), Some(0));
    }

    cpu.set_value_in_address(0x8000 + 4, 16).ok();
    assert_eq!(cpu.read_register(4), Some(16));

    if let CPUError::OverflowAddress(address) = cpu.set_value_in_address(0x9000, 16).expect_err("Overflow must occur") {
        assert_eq!(address, 0x9000);
    }
}

#[test]
fn cpu_test_read_register() {
    let mut cpu = CPU::new(Memory::default());
    for (number, value) in [3u16, 4, 5].iter().enumerate() {
        cpu.write_register(number as u8, *value).ok();
    }

    assert_eq!(cpu.read_register(0), Some(3));
    assert_eq!(cpu.read_register(1), Some(4));
    assert_eq!(cpu.read_register(2), Some(5));
    assert_eq!(cpu.read_register(3), Some(0));
    assert_eq!(cpu.read_register(7), Some(0));
    assert_eq!(cpu.read_register(8), None);
    assert_eq!(cpu.read_register(u8::MAX), None);
}

#[test]
fn cpu_test_write_register() {
    let mut cpu = CPU::new(Memory::default());

    cpu.write_register(4, 1234).ok();
    assert_eq!(cpu.read_register(4), Some(1234));

    if let CPUError::OverflowRegister(number) = cpu.write_register(0x10, 16).expect_err("Overflow must occur") {
        assert_eq!(number, 0x10);
    }
}

fn cpu_with(program: &[u16]) -> CPU {
    let mut mem = Memory::default();
    mem.load_data(program).ok();
    CPU::new(mem)
}

#[test]
fn resolve_literal_is_identity() {
    let cpu = cpu_with(&[]);
    assert_eq!(cpu.from_raw_to_u16(0), Ok(0));
    assert_eq!(cpu.from_raw_to_u16(1234), Ok(1234));
    assert_eq!(cpu.from_raw_to_u16(0x7FFF), Ok(0x7FFF));
}

#[test]
fn resolve_register_reference_reads_register() {
    let mut cpu = cpu_with(&[]);
    cpu.write_register(0, 11).ok();
    cpu.write_register(7, 77).ok();
    assert_eq!(cpu.from_raw_to_u16(0x8000), Ok(11));
    assert_eq!(cpu.from_raw_to_u16(0x8007), Ok(77));
    assert_eq!(cpu.from_raw_to_u16(0x8008), Err(CPUError::OverflowAddress(0x8008)));
}

#[test]
fn get_value_from_address_covers_memory_and_registers() {
    let mut cpu = cpu_with(&[42]);
    cpu.write_register(3, 9).ok();
    assert_eq!(cpu.get_value_from_address(0), Ok(42));
    assert_eq!(cpu.get_value_from_address(0x8003), Ok(9));
    assert_eq!(cpu.get_value_from_address(0xFFFF), Err(CPUError::OverflowAddress(0xFFFF)));
}

#[test]
fn add_wraps_at_15_bits() {
    // add r0, 32767, 1
    let mut cpu = cpu_with(&[9, 32768, 32767, 1, 0]);
    assert_eq!(cpu.execute(), Ok(false));
    assert_eq!(cpu.read_register(0), Some(0));
    assert_eq!(cpu.get_current_address(), 4);
}

#[test]
fn mult_wraps_at_15_bits() {
    // mult r0, 32767, 32767
    let mut cpu = cpu_with(&[10, 32768, 32767, 32767, 0]);
    assert_eq!(cpu.execute(), Ok(false));
    assert_eq!(cpu.read_register(0), Some(1));
}

#[test]
fn not_of_edges() {
    // not r0, 0; not r1, 32767
    let mut cpu = cpu_with(&[14, 32768, 0, 14, 32769, 32767, 0]);
    assert_eq!(cpu.execute(), Ok(false));
    assert_eq!(cpu.execute(), Ok(false));
    assert_eq!(cpu.read_register(0), Some(32767));
    assert_eq!(cpu.read_register(1), Some(0));
}

#[test]
fn not_twice_gives_value_back() {
    // not r0, 12345; not r1, r0
    let mut cpu = cpu_with(&[14, 32768, 12345, 14, 32769, 32768, 0]);
    assert_eq!(cpu.execute(), Ok(false));
    assert_eq!(cpu.execute(), Ok(false));
    assert_eq!(cpu.read_register(0), Some(!12345u16 & 0x7FFF));
    assert_eq!(cpu.read_register(1), Some(12345));
}

#[test]
fn add_is_associative() {
    // r0 = (30000 + 20000) + 10000; r1 = 30000 + (20000 + 10000)
    let mut cpu = cpu_with(&[
        9, 32768, 30000, 20000, 9, 32768, 32768, 10000, 9, 32769, 20000, 10000, 9, 32769, 30000,
        32769, 0,
    ]);
    for _ in 0..4 {
        assert_eq!(cpu.execute(), Ok(false));
    }
    assert_eq!(cpu.read_register(0), Some(27232));
    assert_eq!(cpu.read_register(1), Some(27232));
}

#[test]
fn mod_and_or_eq_gt() {
    // mod r0, 17, 5; and r1, 12, 10; or r2, 12, 10; eq r3, 4, 4; gt r4, 3, 4
    let mut cpu = cpu_with(&[
        11, 32768, 17, 5, 12, 32769, 12, 10, 13, 32770, 12, 10, 4, 32771, 4, 4, 5, 32772, 3, 4, 0,
    ]);
    for _ in 0..5 {
        assert_eq!(cpu.execute(), Ok(false));
    }
    assert_eq!(cpu.read_register(0), Some(2));
    assert_eq!(cpu.read_register(1), Some(8));
    assert_eq!(cpu.read_register(2), Some(14));
    assert_eq!(cpu.read_register(3), Some(1));
    assert_eq!(cpu.read_register(4), Some(0));
}

#[test]
fn mod_by_zero_is_an_error() {
    // mod r0, 7, r1 with r1 = 0
    let mut cpu = cpu_with(&[11, 32768, 7, 32769, 0]);
    cpu.write_register(0, 99).ok();
    assert_eq!(cpu.execute(), Err(CPUError::DivisionByZero(0)));
    assert_eq!(cpu.read_register(0), Some(99));
    assert_eq!(cpu.get_current_address(), 0);
}

#[test]
fn literal_destination_fails_without_effect() {
    // add 5, 1, 2
    let mut cpu = cpu_with(&[9, 5, 1, 2, 0, 77]);
    assert_eq!(cpu.execute(), Err(CPUError::OverflowAddress(5)));
    assert_eq!(cpu.get_value_from_address(5), Ok(77));
    assert_eq!(cpu.get_current_address(), 0);
}

#[test]
fn pop_to_literal_keeps_stack() {
    // push 8; pop 3
    let mut cpu = cpu_with(&[2, 8, 3, 3, 0]);
    assert_eq!(cpu.execute(), Ok(false));
    assert_eq!(cpu.execute(), Err(CPUError::OverflowAddress(3)));
    assert_eq!(cpu.memory().stack_len(), 1);
}

#[test]
fn pop_from_empty_stack_fails() {
    let mut cpu = cpu_with(&[3, 32768]);
    assert_eq!(cpu.execute(), Err(CPUError::PopFromEmptyStack));
}

#[test]
fn unknown_opcode_fails() {
    let mut cpu = cpu_with(&[21, 22]);
    assert_eq!(cpu.execute(), Ok(false));
    assert_eq!(cpu.execute(), Err(CPUError::UnknownOpCode { opcode: 22, address: 1 }));
}

#[test]
fn results_stay_within_15_bits() {
    // add r0, 32767, 32767; mult r1, 30000, 30000; not r2, 0
    let mut cpu = cpu_with(&[9, 32768, 32767, 32767, 10, 32769, 30000, 30000, 14, 32770, 0, 0]);
    for _ in 0..3 {
        assert_eq!(cpu.execute(), Ok(false));
    }
    for r in 0..8 {
        assert!(cpu.read_register(r).unwrap() < 32768);
    }
    assert_eq!(cpu.read_register(0), Some(32766));
    assert_eq!(cpu.read_register(1), Some(26880));
}

#[test]
fn rmem_and_wmem() {
    // wmem 100, 55; rmem r0, 100; wmem r1, 66 with r1 = 101
    let mut cpu = cpu_with(&[16, 100, 55, 15, 32768, 100, 16, 32769, 66, 0]);
    cpu.write_register(1, 101).ok();
    for _ in 0..3 {
        assert_eq!(cpu.execute(), Ok(false));
    }
    assert_eq!(cpu.read_register(0), Some(55));
    assert_eq!(cpu.get_value_from_address(100), Ok(55));
    assert_eq!(cpu.get_value_from_address(101), Ok(66));
}

#[test]
fn in_reads_input_and_halts_without() {
    // in r0; in r1
    let mut cpu = cpu_with(&[20, 32768, 20, 32769, 0]);
    assert!(cpu.needs_input());
    cpu.provide_input(b"A");
    assert!(!cpu.needs_input());
    assert_eq!(cpu.execute(), Ok(false));
    assert_eq!(cpu.read_register(0), Some(65));
    assert!(cpu.needs_input());
    assert_eq!(cpu.execute(), Ok(true));
    assert_eq!(cpu.get_current_address(), 2);
}

#[test]
fn out_writes_low_byte() {
    // out 0x141
    let mut cpu = cpu_with(&[19, 0x141, 0]);
    assert_eq!(cpu.execute(), Ok(false));
    assert_eq!(cpu.take_output(), vec![0x41]);
    assert_eq!(cpu.take_output(), Vec::<u8>::new());
}

#[test]
fn new_cpu_starts_with_zero_registers_and_empty_stack() {
    let mut mem = Memory::default();
    mem.load_data(&[4, 5]).ok();
    mem.write_register(0, 5).ok();
    mem.write_register(7, 9).ok();
    mem.push(1);
    let mut cpu = CPU::new(mem);
    for r in 0..8 {
        assert_eq!(cpu.read_register(r), Some(0));
    }
    assert_eq!(cpu.memory().stack_len(), 0);
    assert_eq!(cpu.get_current_address(), 0);
    assert_eq!(cpu.get_value_from_address(0), Ok(4));
    assert_eq!(cpu.get_value_from_address(1), Ok(5));
    assert_eq!(cpu.take_output(), Vec::<u8>::new());
}
