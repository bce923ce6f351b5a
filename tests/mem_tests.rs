use synacor_vm::{get_registry_from_address, Memory, MemoryError, MAX_ADDRESS};

#[test]
fn test_load_data_ok() {
    let mut mem = Memory::default();
    let res = mem.load_data(&[0, 1, 2, 3]);

    let cells: Vec<Option<u16>> = (0..4).map(|a| mem.read_memory(a)).collect();
    assert_eq!(cells, [Some(0), Some(1), Some(2), Some(3)]);
    assert!(res.is_ok());
}

#[test]
fn test_load_data_overflow() {
    let mut mem = Memory::default();
    let large_block = vec![1; MAX_ADDRESS + 1];

    let res = mem.load_data(&large_block);

    let cells: Vec<Option<u16>> = (0..4).map(|a| mem.read_memory(a)).collect();
    assert_eq!(cells, [Some(0), Some(0), Some(0), Some(0)]);
    assert!(res.is_err());

    if let MemoryError::DataIsTooLarge(current_length) = res.expect_err("Overflow must occur") {
        assert_eq!(current_length, MAX_ADDRESS + 1);
    }
}

#[test]
fn mem_test_get_registry_from_address() {
    assert_eq!(get_registry_from_address(0), None);
    assert_eq!(get_registry_from_address(32768), Some(0));
    assert_eq!(get_registry_from_address(32769), Some(1));
    assert_eq!(get_registry_from_address(32774), Some(6));
    assert_eq!(get_registry_from_address(32775), Some(7));
    assert_eq!(get_registry_from_address(34776), None);
    assert_eq!(get_registry_from_address(u16::MAX), None);
}

#[test]
fn mem_test_set_value() {
    let mut mem = Memory::default();
    mem.load_data(&[3, 2, 1]).ok();
    let old_value = mem.set_value(0, 0).unwrap_or(u16::MAX);

    assert_eq!(old_value, 3);
    assert_eq!(mem.read_memory(0), Some(0));
    assert_eq!(mem.read_memory(1), Some(2));
    assert_eq!(mem.read_memory(2), Some(1));
    assert_eq!(mem.read_memory(3), Some(0));

    mem.set_value(0x8000 + 4, 16).ok();
    assert_eq!(mem.read_register(4), Some(16));

    if let MemoryError::OverflowAddress(address) = mem.set_value(0x9000, 16).expect_err("Overflow must occur") {
        assert_eq!(address, 0x9000);
    }
}

#[test]
fn test_read_memory() {
    let mut mem = Memory::default();
    mem.load_data(&[3, 2, 1]).ok();

    assert_eq!(mem.read_memory(0), Some(3));
    assert_eq!(mem.read_memory(1), Some(2));
    assert_eq!(mem.read_memory(2), Some(1));
    assert_eq!(mem.read_memory(3), Some(0));
    assert_eq!(mem.read_memory(0x8000), None);
    assert_eq!(mem.read_memory(MAX_ADDRESS as u16), None);
    assert_eq!(mem.read_memory(u16::MAX), None);
}

#[test]
fn mem_test_read_register() {
    let mut mem = Memory::default();
    for (number, value) in [3u16, 4, 5].iter().enumerate() {
        mem.write_register(number as u8, *value).ok();
    }

    assert_eq!(mem.read_register(0), Some(3));
    assert_eq!(mem.read_register(1), Some(4));
    assert_eq!(mem.read_register(2), Some(5));
    assert_eq!(mem.read_register(3), Some(0));
    assert_eq!(mem.read_register(7), Some(0));
    assert_eq!(mem.read_register(8), None);
    assert_eq!(mem.read_register(u8::MAX), None);
}

#[test]
fn test_stack() {
    let mut mem = Memory::default();

    assert_eq!(mem.pop(), None);

    mem.push(1);
    mem.push(2);
    mem.push(3);

    assert_eq!(mem.pop(), Some(3));
    assert_eq!(mem.pop(), Some(2));
    assert_eq!(mem.pop(), Some(1));
    assert_eq!(mem.pop(), None);
}

#[test]
fn test_write_memory() {
    let mut mem = Memory::default();

    mem.write_memory(0x0123, 1234).ok();
    assert_eq!(mem.read_memory(0x0123), Some(1234));

    if let MemoryError::OverflowAddress(address) = mem.write_memory(0x9000, 16).expect_err("Overflow must occur") {
        assert_eq!(address, 0x9000);
    }
}

#[test]
fn mem_test_write_register() {
    let mut mem = Memory::default();

    mem.write_register(4, 1234).ok();
    assert_eq!(mem.read_register(4), Some(1234));

    if let MemoryError::OverflowRegister(number) = mem.write_register(0x10, 16).expect_err("Overflow must occur") {
        assert_eq!(number, 0x10);
    }
}

#[test]
fn push_then_pop_restores_stack() {
    let mut mem = Memory::default();
    mem.push(7);
    assert_eq!(mem.stack_len(), 1);
    mem.push(12345);
    assert_eq!(mem.stack_len(), 2);
    assert_eq!(mem.pop(), Some(12345));
    assert_eq!(mem.stack_len(), 1);
    assert_eq!(mem.pop(), Some(7));
    assert_eq!(mem.stack_len(), 0);
}

#[test]
fn load_keeps_cells_past_the_data() {
    let mut mem = Memory::default();
    mem.load_data(&[9, 9, 9, 9]).ok();
    mem.load_data(&[1, 2]).ok();
    assert_eq!(mem.read_memory(0), Some(1));
    assert_eq!(mem.read_memory(1), Some(2));
    assert_eq!(mem.read_memory(2), Some(9));
    assert_eq!(mem.read_memory(3), Some(9));
    assert_eq!(mem.read_memory(4), Some(0));
    assert_eq!(mem.read_memory(0x7FFF), Some(0));
}

#[test]
fn load_fills_whole_memory() {
    let mut mem = Memory::default();
    let data: Vec<u16> = (0..MAX_ADDRESS).map(|i| (i % 0x8000) as u16).collect();
    assert!(mem.load_data(&data).is_ok());
    assert_eq!(mem.read_memory(0), Some(0));
    assert_eq!(mem.read_memory(0x1234), Some(0x1234));
    assert_eq!(mem.read_memory(0x7FFF), Some(0x7FFF));
}

#[test]
fn load_of_too_much_changes_nothing() {
    let mut mem = Memory::default();
    mem.load_data(&[5, 6]).ok();
    let res = mem.load_data(&vec![1; MAX_ADDRESS + 1]);
    assert_eq!(res, Err(MemoryError::DataIsTooLarge(MAX_ADDRESS + 1)));
    assert_eq!(mem.read_memory(0), Some(5));
    assert_eq!(mem.read_memory(1), Some(6));
    assert_eq!(mem.read_memory(2), Some(0));
}

#[test]
fn set_value_on_register_returns_old_value() {
    let mut mem = Memory::default();
    assert_eq!(mem.set_value(0x8007, 11), Ok(0));
    assert_eq!(mem.set_value(0x8007, 12), Ok(11));
    assert_eq!(mem.read_register(7), Some(12));
    assert_eq!(mem.set_value(0x8008, 1), Err(MemoryError::OverflowAddress(0x8008)));
    assert_eq!(mem.write_memory(0x8000, 1), Err(MemoryError::OverflowAddress(0x8000)));
}
