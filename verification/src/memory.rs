//! The memory-image loader: turns the lines of a memory-image text file into
//! the initial 256-cell memory array.
//!
//! Each record is a line `AA VVVV...`: a two-hex-digit starting address, then
//! an even-length hex byte string written contiguously from that address.
//! Lines with fewer than two tokens are skipped; a bad hex digit, or a record
//! running past the end of memory, is a fatal error naming the 1-based line
//! number.

use crate::machine_code::MachineMemory;
use vstd::prelude::*;

verus! {

/// Why a memory image failed to load. Each error names the 1-based number of
/// the offending line.
#[derive(Debug, PartialEq, Eq, Structural, Clone, Copy)]
pub enum LoadError {
    /// The address token does not start with two hex digits.
    InvalidLocation(usize),
    /// A byte of the value token is not two hex digits.
    InvalidValue(usize),
    /// The record runs past the last memory cell.
    AddressOverflow(usize),
}

/// The ASCII whitespace bytes that separate the tokens of a record.
pub open spec fn is_space(b: u8) -> bool {
    b == 32 || (9 <= b && b <= 13)
}

/// The index of the first non-whitespace byte of `line` at or after `from`,
/// or the line's length when only whitespace is left.
pub open spec fn next_non_space(line: Seq<u8>, from: nat) -> nat
    decreases line.len() - from,
{
    if from >= line.len() {
        line.len()
    } else if is_space(line[from as int]) {
        next_non_space(line, from + 1)
    } else {
        from
    }
}

/// The index of the first whitespace byte of `line` at or after `from`, or
/// the line's length when none is left: past the end of the token starting
/// at `from`.
pub open spec fn next_space(line: Seq<u8>, from: nat) -> nat
    decreases line.len() - from,
{
    if from >= line.len() {
        line.len()
    } else if is_space(line[from as int]) {
        from
    } else {
        next_space(line, from + 1)
    }
}

/// Whether a byte is an ASCII hex digit.
pub open spec fn is_hex_digit(b: u8) -> bool {
    (48 <= b && b <= 57) || (97 <= b && b <= 102) || (65 <= b && b <= 70)
}

/// The value of an ASCII hex digit.
pub open spec fn hex_digit_value(b: u8) -> u8 {
    if 48 <= b && b <= 57 {
        (b - 48) as u8
    } else if 97 <= b && b <= 102 {
        (b - 87) as u8
    } else if 65 <= b && b <= 70 {
        (b - 55) as u8
    } else {
        0
    }
}

/// The byte two hex digits spell, high digit first.
pub open spec fn hex_byte_value(hi: u8, lo: u8) -> u8 {
    (hex_digit_value(hi) * 16 + hex_digit_value(lo)) as u8
}

/// Writing the value token's byte pairs into memory, from pair `i` on: pair
/// `i` is written at `loc + i`. A pair with a bad digit, or one that would
/// land past the last cell, is fatal; a trailing odd digit is ignored.
pub open spec fn spec_write_pairs(
    memory: Seq<u8>,
    value: Seq<u8>,
    loc: u8,
    i: nat,
    number: usize,
) -> Result<Seq<u8>, LoadError>
    decreases value.len() / 2 - i,
{
    if i >= value.len() / 2 {
        Ok(memory)
    } else {
        let hi = value[2 * i as int];
        let lo = value[2 * i as int + 1];
        if !(is_hex_digit(hi) && is_hex_digit(lo)) {
            Err(LoadError::InvalidValue(number))
        } else if loc + i >= 256 {
            Err(LoadError::AddressOverflow(number))
        } else {
            spec_write_pairs(
                memory.update(loc + i as int, hex_byte_value(hi, lo)),
                value,
                loc,
                i + 1,
                number,
            )
        }
    }
}

/// What one line of the image does to memory. The first two
/// whitespace-separated tokens are the address and the value; a line with
/// fewer than two tokens is skipped. The address is read from the first two
/// bytes of its token (anything after them is ignored), and the value's
/// byte pairs are written contiguously from that address.
pub open spec fn spec_load_line(memory: Seq<u8>, line: Seq<u8>, number: usize) -> Result<
    Seq<u8>,
    LoadError,
> {
    let loc_start = next_non_space(line, 0);
    let loc_end = next_space(line, loc_start);
    let value_start = next_non_space(line, loc_end);
    let value_end = next_space(line, value_start);
    if loc_start >= line.len() || value_start >= line.len() {
        Ok(memory)
    } else if !(loc_end - loc_start >= 2 && is_hex_digit(line[loc_start as int]) && is_hex_digit(
        line[loc_start as int + 1],
    )) {
        Err(LoadError::InvalidLocation(number))
    } else {
        let loc = hex_byte_value(line[loc_start as int], line[loc_start as int + 1]);
        spec_write_pairs(
            memory,
            line.subrange(value_start as int, value_end as int),
            loc,
            0,
            number,
        )
    }
}

/// Loading a sequence of lines in order, the first numbered `number`; the
/// first failing line stops the load.
pub open spec fn spec_load_lines(
    memory: Seq<u8>,
    lines: Seq<Seq<u8>>,
    number: usize,
) -> Result<Seq<u8>, LoadError>
    decreases lines.len(),
{
    if lines.len() == 0 {
        Ok(memory)
    } else {
        match spec_load_line(memory, lines.first(), number) {
            Err(e) => Err(e),
            Ok(next) => spec_load_lines(next, lines.drop_first(), (number + 1) as usize),
        }
    }
}

/// The memory image a whole file denotes: every record applied in order to
/// an all-zero memory, lines numbered from 1.
pub open spec fn spec_read_memory(lines: Seq<Seq<u8>>) -> Result<Seq<u8>, LoadError> {
    spec_load_lines(Seq::new(256, |i: int| 0u8), lines, 1)
}

/// Whether `b` separates tokens.
fn is_space_byte(b: u8) -> (r: bool)
    ensures
        r == is_space(b),
{
    b == 32 || (9 <= b && b <= 13)
}

/// The index of the first non-whitespace byte at or after `from`.
fn find_non_space(line: &Vec<u8>, from: usize) -> (r: usize)
    requires
        from <= line@.len(),
    ensures
        r == next_non_space(line@, from as nat),
        from <= r <= line@.len(),
{
    let mut i: usize = from;
    while i < line.len() && is_space_byte(line[i])
        invariant
            from <= i <= line@.len(),
            next_non_space(line@, from as nat) == next_non_space(line@, i as nat),
        decreases line@.len() - i,
    {
        i = i + 1;
    }
    i
}

/// The index just past the end of the token starting at `from`: the first
/// whitespace byte at or after it.
fn find_space(line: &Vec<u8>, from: usize) -> (r: usize)
    requires
        from <= line@.len(),
    ensures
        r == next_space(line@, from as nat),
        from <= r <= line@.len(),
{
    let mut i: usize = from;
    while i < line.len() && !is_space_byte(line[i])
        invariant
            from <= i <= line@.len(),
            next_space(line@, from as nat) == next_space(line@, i as nat),
        decreases line@.len() - i,
    {
        i = i + 1;
    }
    i
}

/// Whether `b` is an ASCII hex digit.
fn is_hex_digit_byte(b: u8) -> (r: bool)
    ensures
        r == is_hex_digit(b),
{
    (48 <= b && b <= 57) || (97 <= b && b <= 102) || (65 <= b && b <= 70)
}

/// The value of an ASCII hex digit byte.
fn hex_digit_val(b: u8) -> (v: u8)
    ensures
        v == hex_digit_value(b),
        v <= 15 || !is_hex_digit(b),
{
    if 48 <= b && b <= 57 {
        b - 48
    } else if 97 <= b && b <= 102 {
        b - 87
    } else if 65 <= b && b <= 70 {
        b - 55
    } else {
        0
    }
}

/// Apply one record line to the memory, exactly as [`spec_load_line`]
/// states; on an error the memory must be discarded.
fn load_line(memory: &mut MachineMemory, line: &Vec<u8>, number: usize) -> (res: Result<
    (),
    LoadError,
>)
    ensures
        ({
            let outcome = spec_load_line(old(memory)@, line@, number);
            match res {
                Ok(_u) => outcome == Ok::<Seq<u8>, LoadError>(final(memory)@),
                Err(e) => outcome == Err::<Seq<u8>, LoadError>(e),
            }
        }),
{
    let loc_start = find_non_space(line, 0);
    let loc_end = find_space(line, loc_start);
    let value_start = find_non_space(line, loc_end);
    let value_end = find_space(line, value_start);
    if loc_start >= line.len() || value_start >= line.len() {
        return Ok(());
    }
    if !(loc_end - loc_start >= 2 && is_hex_digit_byte(line[loc_start]) && is_hex_digit_byte(
        line[loc_start + 1],
    )) {
        return Err(LoadError::InvalidLocation(number));
    }
    let loc: u8 = hex_digit_val(line[loc_start]) * 16 + hex_digit_val(line[loc_start + 1]);
    let ghost value = line@.subrange(value_start as int, value_end as int);
    let pair_count = (value_end - value_start) / 2;
    let mut i: usize = 0;
    while i < pair_count
        invariant
            i <= pair_count,
            value == line@.subrange(value_start as int, value_end as int),
            value_start <= value_end <= line@.len(),
            pair_count == value.len() / 2,
            loc == hex_byte_value(line@[loc_start as int], line@[loc_start as int + 1]),
            spec_load_line(old(memory)@, line@, number) == spec_write_pairs(
                old(memory)@,
                value,
                loc,
                0,
                number,
            ),
            spec_write_pairs(old(memory)@, value, loc, 0, number) == spec_write_pairs(
                memory@,
                value,
                loc,
                i as nat,
                number,
            ),
        decreases pair_count - i,
    {
        let hi = line[value_start + 2 * i];
        let lo = line[value_start + 2 * i + 1];
        if !(is_hex_digit_byte(hi) && is_hex_digit_byte(lo)) {
            return Err(LoadError::InvalidValue(number));
        }
        if loc as usize + i >= 256 {
            return Err(LoadError::AddressOverflow(number));
        }
        let byte: u8 = hex_digit_val(hi) * 16 + hex_digit_val(lo);
        memory[loc as usize + i] = byte;
        i = i + 1;
    }
    Ok(())
}

/// Build the initial memory image from the lines of a memory-image file:
/// every record applied in order to an all-zero memory, exactly as
/// [`spec_read_memory`] states. The first bad record stops the load with an
/// error naming its 1-based line number.
pub fn read_memory_file(lines: &Vec<Vec<u8>>) -> (res: Result<MachineMemory, LoadError>)
    ensures
        ({
            let outcome = spec_read_memory(lines.deep_view());
            match res {
                Ok(m) => outcome == Ok::<Seq<u8>, LoadError>(m@),
                Err(e) => outcome == Err::<Seq<u8>, LoadError>(e),
            }
        }),
{
    let mut memory: MachineMemory = [0u8; 256];
    proof {
        assert(memory@ =~= Seq::new(256, |i: int| 0u8));
        assert(lines.deep_view().skip(0) =~= lines.deep_view());
    }
    let mut index: usize = 0;
    while index < lines.len()
        invariant
            index <= lines@.len(),
            spec_read_memory(lines.deep_view()) == spec_load_lines(
                memory@,
                lines.deep_view().skip(index as int),
                (index + 1) as usize,
            ),
        decreases lines@.len() - index,
    {
        proof {
            assert(lines.deep_view()[index as int] =~= lines@[index as int]@);
            assert(lines.deep_view().skip(index as int).drop_first() =~= lines.deep_view().skip(
                index as int + 1,
            ));
        }
        match load_line(&mut memory, &lines[index], index + 1) {
            Ok(_u) => {},
            Err(e) => {
                return Err(e);
            },
        }
        index = index + 1;
    }
    proof {
        assert(lines.deep_view().skip(index as int) =~= Seq::<Seq<u8>>::empty());
    }
    Ok(memory)
}

} // verus!
