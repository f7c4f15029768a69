use bmc::memory::{read_memory_file, LoadError};

fn lines_of(text: &[&str]) -> Vec<Vec<u8>> {
    let mut lines: Vec<Vec<u8>> = Vec::new();
    for line in text {
        lines.push(line.as_bytes().to_vec());
    }
    lines
}

#[test]
fn loader_places_bytes_contiguously() {
    let memory = read_memory_file(&lines_of(&["10 ABCD"])).unwrap();
    assert_eq!(memory[0x10], 0xab);
    assert_eq!(memory[0x11], 0xcd);
    assert_eq!(memory[0x12], 0x00);
}

#[test]
fn loader_starts_from_zeroed_memory() {
    let memory = read_memory_file(&lines_of(&[])).unwrap();
    for cell in memory.iter() {
        assert_eq!(*cell, 0);
    }
}

#[test]
fn loader_skips_lines_without_a_token_pair() {
    let memory = read_memory_file(&lines_of(&["", "   ", "10", "20 FF"])).unwrap();
    assert_eq!(memory[0x10], 0x00);
    assert_eq!(memory[0x20], 0xff);
}

#[test]
fn loader_reads_lowercase_hex() {
    let memory = read_memory_file(&lines_of(&["0a beef"])).unwrap();
    assert_eq!(memory[0x0a], 0xbe);
    assert_eq!(memory[0x0b], 0xef);
}

#[test]
fn loader_uses_first_two_digits_of_the_address_token() {
    let memory = read_memory_file(&lines_of(&["100 AB"])).unwrap();
    assert_eq!(memory[0x10], 0xab);
}

#[test]
fn loader_ignores_a_trailing_odd_digit() {
    let memory = read_memory_file(&lines_of(&["10 ABC"])).unwrap();
    assert_eq!(memory[0x10], 0xab);
    assert_eq!(memory[0x11], 0x00);
}

#[test]
fn loader_ignores_tokens_after_the_pair() {
    let memory = read_memory_file(&lines_of(&["00 2A05 B004"])).unwrap();
    assert_eq!(memory[0x00], 0x2a);
    assert_eq!(memory[0x01], 0x05);
    assert_eq!(memory[0x02], 0x00);
}

#[test]
fn loader_rejects_a_bad_address() {
    let result = read_memory_file(&lines_of(&["G0 AB"]));
    assert_eq!(result.unwrap_err(), LoadError::InvalidLocation(1));
}

#[test]
fn loader_rejects_a_one_digit_address() {
    let result = read_memory_file(&lines_of(&["5 AB"]));
    assert_eq!(result.unwrap_err(), LoadError::InvalidLocation(1));
}

#[test]
fn loader_rejects_a_bad_value_digit() {
    let result = read_memory_file(&lines_of(&["10 AB", "20 XY"]));
    assert_eq!(result.unwrap_err(), LoadError::InvalidValue(2));
}

#[test]
fn loader_rejects_a_record_past_the_last_cell() {
    let result = read_memory_file(&lines_of(&["FF ABCD"]));
    assert_eq!(result.unwrap_err(), LoadError::AddressOverflow(1));
}

#[test]
fn loader_later_records_overwrite_earlier_ones() {
    let memory = read_memory_file(&lines_of(&["10 AB", "10 CD"])).unwrap();
    assert_eq!(memory[0x10], 0xcd);
}
