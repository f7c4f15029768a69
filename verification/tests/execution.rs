use bmc::execute;
use bmc::instructions::DecodeError;
use bmc::machine_code::{Ctx, MachineError};
use bmc::memory::read_memory_file;
use bmc::RunError;

fn ctx_from_image(text: &[&str]) -> Ctx {
    let mut lines: Vec<Vec<u8>> = Vec::new();
    for line in text {
        lines.push(line.as_bytes().to_vec());
    }
    Ctx {
        pc: 0,
        memory: read_memory_file(&lines).unwrap(),
        registers: [0; 16],
    }
}

#[test]
fn program_runs_to_halt() {
    let mut ctx = ctx_from_image(&["00 2005B004", "04 C000"]);
    let (left, signal) = execute(&mut ctx, 256);
    assert_eq!(signal, Err(RunError::Machine(MachineError::HaltExecution)));
    assert_eq!(256 - left, 3);
    assert_eq!(ctx.registers[0], 0x05);
}

#[test]
fn fuel_runs_out_before_the_halt() {
    let mut ctx = ctx_from_image(&["00 2005B004", "04 C000"]);
    let (left, signal) = execute(&mut ctx, 2);
    assert_eq!(signal, Ok(()));
    assert_eq!(left, 0);
    assert_eq!(ctx.pc, 0x04);
    let (left_2, signal_2) = execute(&mut ctx, 2);
    assert_eq!(signal_2, Err(RunError::Machine(MachineError::HaltExecution)));
    assert_eq!(left_2, 1);
}

#[test]
fn zero_fuel_executes_nothing() {
    let mut ctx = ctx_from_image(&["00 C000"]);
    let (left, signal) = execute(&mut ctx, 0);
    assert_eq!(signal, Ok(()));
    assert_eq!(left, 0);
    assert_eq!(ctx.pc, 0);
}

#[test]
fn null_word_stops_the_run() {
    let mut ctx = ctx_from_image(&[]);
    let (left, signal) = execute(&mut ctx, 8);
    assert_eq!(signal, Err(RunError::Decode(DecodeError::NullInstruction)));
    assert_eq!(left, 7);
}

#[test]
fn invalid_word_stops_the_run_with_the_word() {
    let mut ctx = ctx_from_image(&["00 4100"]);
    let (left, signal) = execute(&mut ctx, 8);
    assert_eq!(
        signal,
        Err(RunError::Decode(DecodeError::InvalidInstruction(0x4100)))
    );
    assert_eq!(left, 7);
}

#[test]
fn jump_past_the_last_word_stops_the_run() {
    let mut ctx = ctx_from_image(&["00 B0FF"]);
    let (left, signal) = execute(&mut ctx, 8);
    assert_eq!(signal, Err(RunError::PcOutOfRange(0xff)));
    assert_eq!(left, 6);
}

#[test]
fn conditional_loop_counts_down() {
    // r1 := 3; r2 := 1 (decrement); loop: r1 := r1 + (-1)? Not available;
    // instead: r1 := r1 - 1 via adding 0xFF, then jump-if-eq against r0 = 0.
    let mut ctx = ctx_from_image(&[
        "00 2103", // LoadValue r1 := 3
        "02 22FF", // LoadValue r2 := 0xFF (-1 as two's complement)
        "04 5112", // AddInteger r1 := r2 + r1
        "06 B10A", // JumpIfEq r1 == r0 -> 0x0A
        "08 B004", // Jump 0x04
        "0A C000", // Halt
    ]);
    let (left, signal) = execute(&mut ctx, 64);
    assert_eq!(signal, Err(RunError::Machine(MachineError::HaltExecution)));
    assert_eq!(ctx.registers[1], 0);
    assert_eq!(64 - left, 11);
}
