use bmc::machine_code::{
    add_float, add_integer, bitwise_and, bitwise_or, bitwise_rotate, bitwise_xor, halt,
    jump, jump_if_eq, jump_indirect, jump_with_test, load_indirect, load_memory, load_value,
    move_register, no_op, store_indirect, store_memory, test_from, Ctx, MachineError, Test,
};

fn fresh_ctx() -> Ctx {
    Ctx {
        pc: 0,
        memory: [0; 256],
        registers: [0; 16],
    }
}

#[test]
fn load_indirect_works() {
    let mut ctx = Ctx {
        pc: 0,
        memory: [0; 256],
        registers: [0; 16],
    };

    let reg_1 = 4;
    let reg_2 = 8;
    let val = 16;
    let mem_loc = 4;
    ctx.registers[reg_2 as usize] = mem_loc;
    ctx.memory[mem_loc as usize] = val;

    load_indirect(&mut ctx, reg_1, reg_2).unwrap();
    assert_eq!(ctx.memory[reg_1 as usize], val);
}

#[test]
fn move_register_works() {
    let mut ctx = Ctx {
        pc: 0,
        memory: [0; 256],
        registers: [0; 16],
    };

    let reg_1 = 4;
    let reg_2 = 8;
    let val = 16;
    ctx.registers[reg_1 as usize] = val;

    move_register(&mut ctx, reg_1, reg_2).unwrap();
    assert_eq!(ctx.registers[reg_2 as usize], val);
}

#[test]
fn no_op_changes_nothing() {
    let mut ctx = fresh_ctx();
    ctx.registers[3] = 9;
    ctx.pc = 10;
    no_op(&mut ctx).unwrap();
    assert_eq!(ctx.pc, 10);
    assert_eq!(ctx.registers[3], 9);
}

#[test]
fn load_memory_copies_cell() {
    let mut ctx = fresh_ctx();
    ctx.memory[0x42] = 0x7b;
    load_memory(&mut ctx, 5, 0x42).unwrap();
    assert_eq!(ctx.registers[5], 0x7b);
}

#[test]
fn load_value_copies_immediate() {
    let mut ctx = fresh_ctx();
    load_value(&mut ctx, 0, 0xee).unwrap();
    assert_eq!(ctx.registers[0], 0xee);
}

#[test]
fn store_memory_copies_register() {
    let mut ctx = fresh_ctx();
    ctx.registers[2] = 0x99;
    store_memory(&mut ctx, 2, 0xf0).unwrap();
    assert_eq!(ctx.memory[0xf0], 0x99);
}

#[test]
fn store_indirect_uses_register_address() {
    let mut ctx = fresh_ctx();
    ctx.registers[1] = 0xec;
    ctx.registers[2] = 0x41;
    store_indirect(&mut ctx, 1, 2).unwrap();
    assert_eq!(ctx.memory[0x41], 0xec);
}

#[test]
fn add_integer_wraps_at_overflow() {
    let mut ctx = fresh_ctx();
    ctx.registers[1] = 0x7f;
    ctx.registers[2] = 0x01;
    add_integer(&mut ctx, 3, 1, 2).unwrap();
    assert_eq!(ctx.registers[3], 0x80);
}

#[test]
fn add_integer_wraps_negative_sum() {
    let mut ctx = fresh_ctx();
    ctx.registers[1] = 200;
    ctx.registers[2] = 100;
    add_integer(&mut ctx, 0, 1, 2).unwrap();
    assert_eq!(ctx.registers[0], 44);
}

#[test]
fn add_float_normalizes_sum() {
    let mut ctx = fresh_ctx();
    ctx.registers[4] = 0b0001_0100;
    ctx.registers[8] = 0b0001_0100;
    add_float(&mut ctx, 12, 4, 8).unwrap();
    assert_eq!(ctx.registers[12], 0b0001_1000);
}

#[test]
fn add_float_zero_sum_is_plain_zero() {
    let mut ctx = fresh_ctx();
    ctx.registers[1] = 0b0001_0100;
    ctx.registers[2] = 0b1001_0100;
    add_float(&mut ctx, 3, 1, 2).unwrap();
    assert_eq!(ctx.registers[3], 0x00);
}

#[test]
fn add_float_saturates_on_overflow() {
    let mut ctx = fresh_ctx();
    ctx.registers[1] = 0b0111_1111;
    ctx.registers[2] = 0b0111_1111;
    add_float(&mut ctx, 3, 1, 2).unwrap();
    assert_eq!(ctx.registers[3], 0x7f);
}

#[test]
fn add_float_saturates_negative_overflow() {
    let mut ctx = fresh_ctx();
    ctx.registers[1] = 0b1111_1111;
    ctx.registers[2] = 0b1111_1111;
    add_float(&mut ctx, 3, 1, 2).unwrap();
    assert_eq!(ctx.registers[3], 0xff);
}

#[test]
fn add_float_small_sum_stays_unnormalized() {
    let mut ctx = fresh_ctx();
    ctx.registers[1] = 0b0000_0011;
    ctx.registers[2] = 0b0000_0010;
    add_float(&mut ctx, 3, 1, 2).unwrap();
    assert_eq!(ctx.registers[3], 0b0000_0101);
}

#[test]
fn bitwise_ops_combine_registers() {
    let mut ctx = fresh_ctx();
    ctx.registers[1] = 0b1100;
    ctx.registers[2] = 0b1010;
    bitwise_or(&mut ctx, 3, 1, 2).unwrap();
    assert_eq!(ctx.registers[3], 0b1110);
    bitwise_and(&mut ctx, 4, 1, 2).unwrap();
    assert_eq!(ctx.registers[4], 0b1000);
    bitwise_xor(&mut ctx, 5, 1, 2).unwrap();
    assert_eq!(ctx.registers[5], 0b0110);
}

#[test]
fn bitwise_rotate_is_a_right_shift() {
    let mut ctx = fresh_ctx();
    ctx.registers[6] = 0b1000_0000;
    bitwise_rotate(&mut ctx, 6, 1).unwrap();
    assert_eq!(ctx.registers[6], 0b0100_0000);
}

#[test]
fn bitwise_rotate_by_eight_or_more_clears() {
    let mut ctx = fresh_ctx();
    ctx.registers[6] = 0xff;
    bitwise_rotate(&mut ctx, 6, 9).unwrap();
    assert_eq!(ctx.registers[6], 0);
}

#[test]
fn jump_sets_program_counter() {
    let mut ctx = fresh_ctx();
    jump(&mut ctx, 0x44).unwrap();
    assert_eq!(ctx.pc, 0x44);
}

#[test]
fn jump_indirect_reads_register() {
    let mut ctx = fresh_ctx();
    ctx.registers[7] = 0x66;
    jump_indirect(&mut ctx, 7).unwrap();
    assert_eq!(ctx.pc, 0x66);
}

#[test]
fn jump_if_eq_compares_against_register_zero() {
    let mut ctx = fresh_ctx();
    ctx.registers[0] = 5;
    ctx.registers[1] = 5;
    ctx.registers[2] = 6;
    jump_if_eq(&mut ctx, 1, 0x20).unwrap();
    assert_eq!(ctx.pc, 0x20);
    ctx.pc = 0;
    jump_if_eq(&mut ctx, 2, 0x30).unwrap();
    assert_eq!(ctx.pc, 0);
}

#[test]
fn jump_with_test_defined_selectors() {
    let mut ctx = fresh_ctx();
    ctx.registers[0] = 5;
    ctx.registers[1] = 7;
    ctx.registers[2] = 0x50;
    jump_with_test(&mut ctx, 1, 4, 2).unwrap();
    assert_eq!(ctx.pc, 0x50);
    ctx.pc = 0;
    jump_with_test(&mut ctx, 1, 5, 2).unwrap();
    assert_eq!(ctx.pc, 0);
}

#[test]
fn jump_with_test_undefined_selector_never_jumps() {
    let mut ctx = fresh_ctx();
    ctx.registers[0] = 5;
    ctx.registers[1] = 5;
    ctx.registers[2] = 0x50;
    jump_with_test(&mut ctx, 1, 6, 2).unwrap();
    assert_eq!(ctx.pc, 0);
    jump_with_test(&mut ctx, 1, 7, 2).unwrap();
    assert_eq!(ctx.pc, 0);
}

#[test]
fn halt_signals_termination() {
    let mut ctx = fresh_ctx();
    assert_eq!(halt(&mut ctx), Err(MachineError::HaltExecution));
}

#[test]
fn selector_codes_map_in_order() {
    assert_eq!(test_from(0), Test::Eq);
    assert_eq!(test_from(1), Test::Neq);
    assert_eq!(test_from(2), Test::Gte);
    assert_eq!(test_from(3), Test::Lte);
    assert_eq!(test_from(4), Test::Gt);
    assert_eq!(test_from(5), Test::Lt);
    assert_eq!(test_from(6), Test::Never);
    assert_eq!(test_from(15), Test::Never);
}
