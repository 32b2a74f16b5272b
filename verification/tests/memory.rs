use chip8::{Memory, MemoryError};

#[test]
fn a_new_memory_is_all_zero() {
    let memory = Memory::new();
    for addr in 0..4096u16 {
        assert_eq!(memory.read(addr), Ok(0));
    }
}

#[test]
fn a_written_byte_is_read_back() {
    let mut memory = Memory::new();
    for addr in [0x000u16, 0x001, 0x050, 0x1FF, 0x200, 0x7FF, 0xFFE, 0xFFF] {
        let val = (addr % 251) as u8 + 1;
        assert_eq!(memory.write(addr, val), Ok(()));
        assert_eq!(memory.read(addr), Ok(val));
    }
    assert_eq!(memory.read(0x002), Ok(0));
}

#[test]
fn a_write_changes_one_byte_only() {
    let mut memory = Memory::new();
    memory.write(0x300, 0xAB).unwrap();
    for addr in 0..4096u16 {
        assert_eq!(memory.read(addr), Ok(if addr == 0x300 { 0xAB } else { 0 }));
    }
}

#[test]
fn reads_and_writes_outside_memory_are_refused() {
    let mut memory = Memory::new();
    assert_eq!(memory.read(0x1000), Err(MemoryError::AddressOutOfRange));
    assert_eq!(memory.read(0xFFFF), Err(MemoryError::AddressOutOfRange));
    assert_eq!(memory.write(0x1000, 1), Err(MemoryError::AddressOutOfRange));
    assert_eq!(memory.write(0xFFFF, 1), Err(MemoryError::AddressOutOfRange));
    assert_eq!(memory.read(0xFFF), Ok(0));
}

#[test]
fn a_word_is_read_big_endian() {
    let mut memory = Memory::new();
    memory.write(0x200, 0x12).unwrap();
    memory.write(0x201, 0x34).unwrap();
    memory.write(0xFFE, 0xFF).unwrap();
    memory.write(0xFFF, 0xFE).unwrap();
    assert_eq!(memory.read_16(0x200), Ok(0x1234));
    assert_eq!(memory.read_16(0x201), Ok(0x3400));
    assert_eq!(memory.read_16(0xFFE), Ok(0xFFFE));
    assert_eq!(memory.read_16(0xFFF), Err(MemoryError::AddressOutOfRange));
    assert_eq!(memory.read_16(0x1000), Err(MemoryError::AddressOutOfRange));
    assert_eq!(memory.read_16(0xFFFF), Err(MemoryError::AddressOutOfRange));
}

#[test]
fn a_run_of_bytes_is_read_by_length() {
    let mut memory = Memory::new();
    memory.copy(0x100, &[1, 2, 3, 4, 5]).unwrap();
    assert_eq!(memory.read_many(0x101, 3), Ok(&[2u8, 3, 4][..]));
    assert_eq!(memory.read_many(0x100, 0), Ok(&[][..]));
    assert_eq!(memory.read_many(0xFFF, 1), Ok(&[0u8][..]));
    assert_eq!(memory.read_many(0x1000, 0), Ok(&[][..]));
    assert_eq!(memory.read_many(0xFFF, 2), Err(MemoryError::AddressOutOfRange));
    assert_eq!(memory.read_many(0x1001, 0), Err(MemoryError::AddressOutOfRange));
    assert_eq!(memory.read_many(0xFFFF, 0xFFFF), Err(MemoryError::AddressOutOfRange));
    assert_eq!(memory.read_many(0, 4096).map(|bytes| bytes.len()), Ok(4096));
    assert_eq!(memory.read_many(0, 4097), Err(MemoryError::AddressOutOfRange));
}

#[test]
fn a_run_of_bytes_is_read_by_bounds() {
    let mut memory = Memory::new();
    memory.copy(0x100, &[1, 2, 3, 4, 5]).unwrap();
    assert_eq!(memory.read_range(0x101, 0x104), Ok(&[2u8, 3, 4][..]));
    assert_eq!(memory.read_range(0x100, 0x100), Ok(&[][..]));
    assert_eq!(memory.read_range(0xFFF, 0x1000), Ok(&[0u8][..]));
    assert_eq!(memory.read_range(0x1000, 0x1000), Ok(&[][..]));
    assert_eq!(memory.read_range(0x104, 0x101), Err(MemoryError::AddressOutOfRange));
    assert_eq!(memory.read_range(0xFFF, 0x1001), Err(MemoryError::AddressOutOfRange));
    assert_eq!(memory.read_range(0x1001, 0x1001), Err(MemoryError::AddressOutOfRange));
}

#[test]
fn a_copy_overlays_memory() {
    let mut memory = Memory::new();
    memory.write(0x1FF, 9).unwrap();
    memory.write(0x203, 9).unwrap();
    assert_eq!(memory.copy(0x200, &[0xA, 0xB, 0xC]), Ok(()));
    assert_eq!(memory.read_range(0x1FE, 0x205), Ok(&[0u8, 9, 0xA, 0xB, 0xC, 9, 0][..]));
    assert_eq!(memory.copy(0xFFD, &[1, 2, 3]), Ok(()));
    assert_eq!(memory.read_range(0xFFC, 0x1000), Ok(&[0u8, 1, 2, 3][..]));
    assert_eq!(memory.copy(0x300, &[]), Ok(()));
    assert_eq!(memory.copy(0x1000, &[]), Ok(()));
}

#[test]
fn a_copy_that_does_not_fit_changes_nothing() {
    let mut memory = Memory::new();
    assert_eq!(memory.copy(0xFFE, &[1, 2, 3]), Err(MemoryError::AddressOutOfRange));
    assert_eq!(memory.read(0xFFE), Ok(0));
    assert_eq!(memory.read(0xFFF), Ok(0));
    assert_eq!(memory.copy(0x1001, &[]), Err(MemoryError::AddressOutOfRange));
    let long = vec![7u8; 4097];
    assert_eq!(memory.copy(0, &long), Err(MemoryError::AddressOutOfRange));
    assert_eq!(memory.read(0), Ok(0));
    let whole = vec![7u8; 4096];
    assert_eq!(memory.copy(0, &whole), Ok(()));
    assert_eq!(memory.read(0xFFF), Ok(7));
}

/// The listing as the format strings of the standard library write it.
fn listing(bytes: &[u8]) -> String {
    let mut text = format!("Length: {0} (0x{0:x}) bytes\n", bytes.len());
    for (row, chunk) in bytes.chunks(0x10).enumerate() {
        text += &format!("{:04X}:  ", row * 0x10);
        for (k, byte) in chunk.iter().enumerate() {
            text += &format!("{:02X}{}", byte, if k + 1 == 0x10 { "" } else { " " });
        }
        text += " ";
        for byte in chunk {
            text.push(if (0x20..=0x7E).contains(byte) { *byte as char } else { '.' });
        }
        text += "\n";
    }
    text
}

#[test]
fn the_dump_of_an_empty_memory() {
    let text = Memory::new().dump();
    assert_eq!(text.len(), 28 + 256 * 72);
    let mut lines = text.lines();
    assert_eq!(lines.next(), Some("Length: 4096 (0x1000) bytes"));
    assert_eq!(
        lines.next(),
        Some("0000:  00 00 00 00 00 00 00 00 00 00 00 00 00 00 00 00 ................")
    );
    assert_eq!(
        text.lines().last(),
        Some("0FF0:  00 00 00 00 00 00 00 00 00 00 00 00 00 00 00 00 ................")
    );
    assert_eq!(text.lines().count(), 257);
    assert!(text.ends_with('\n'));
    assert_eq!(text, listing(&[0u8; 4096]));
}

#[test]
fn the_dump_shows_bytes_in_hexadecimal_and_as_text() {
    let mut memory = Memory::new();
    memory.copy(0x200, b"Hello, CHIP-8!~ ").unwrap();
    let odd = [0x00, 0x1F, 0x20, 0x7E, 0x7F, 0x80, 0x9F, 0xA0, 0xAB, 0xE9, 0xFF];
    memory.copy(0x210, &odd).unwrap();
    let text = memory.dump();
    let lines: Vec<&str> = text.lines().collect();
    assert_eq!(
        lines[1 + 0x20],
        "0200:  48 65 6C 6C 6F 2C 20 43 48 49 50 2D 38 21 7E 20 Hello, CHIP-8!~ "
    );
    assert_eq!(
        lines[1 + 0x21],
        "0210:  00 1F 20 7E 7F 80 9F A0 AB E9 FF 00 00 00 00 00 .. ~............"
    );
    let mut bytes = [0u8; 4096];
    bytes[0x200..0x210].copy_from_slice(b"Hello, CHIP-8!~ ");
    bytes[0x210..0x21B].copy_from_slice(&odd);
    assert_eq!(text, listing(&bytes));
}

#[test]
fn the_dump_of_a_memory_of_all_byte_values() {
    let mut memory = Memory::new();
    let mut bytes = [0u8; 4096];
    for (addr, byte) in bytes.iter_mut().enumerate() {
        *byte = (addr * 7 + addr / 256) as u8;
    }
    memory.copy(0, &bytes).unwrap();
    assert_eq!(memory.dump(), listing(&bytes));
}
