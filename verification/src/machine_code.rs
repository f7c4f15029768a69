//! The machine context and one state-transition handler per opcode.
//!
//! Every handler is a pure transition over [`Ctx`]: it reads and writes the
//! registers, the memory and the program counter, and reports through [`Res`]
//! whether execution may carry on. Only [`halt`] ends a run.

use vstd::arithmetic::power2::{lemma2_to64, lemma_pow2_strictly_increases, pow2};
use vstd::bits::lemma_u8_shr_is_div;
use vstd::math::abs;
use vstd::prelude::*;

verus! {

/// Number of memory cells; addresses are one byte, so every `u8` is valid.
pub const MEMORY_SIZE: usize = 256;

/// Number of general-purpose registers; register operands are four bits wide.
pub const REGISTER_COUNT: usize = 16;

pub type MachineMemory = [u8; MEMORY_SIZE];
pub type MachineRegisters = [u8; REGISTER_COUNT];

pub type Register = u8;
pub type DirectAddress = u8;
pub type ImmediateValue = u8;

/// What a handler reports: `Ok(())` to carry on, or a terminal signal.
pub type Res = Result<(), MachineError>;

/// Terminal signals a handler can raise. `HaltExecution` is the designed
/// normal end of a run, not a failure.
#[derive(Debug, PartialEq, Eq, Structural, Clone, Copy)]
pub enum MachineError {
    FloatingPointSaturated,
    HaltExecution,
}

/// The whole mutable state of the emulator.
#[derive(Debug)]
pub struct Ctx {
    /// Byte offset of the next instruction word; instructions are two bytes.
    pub pc: u8,
    /// 256 byte-wide cells shared by code and data.
    pub memory: MachineMemory,
    /// 16 byte-wide registers; register 0 is the implicit comparison operand
    /// of the conditional jumps.
    pub registers: MachineRegisters,
}

/// The mathematical model of a machine context: the program counter and the
/// two cell arrays as sequences.
#[verifier::ext_equal]
pub ghost struct State {
    pub pc: u8,
    pub memory: Seq<u8>,
    pub registers: Seq<u8>,
}

impl View for Ctx {
    type V = State;

    open spec fn view(&self) -> State {
        State { pc: self.pc, memory: self.memory@, registers: self.registers@ }
    }
}

/// No operation. Leaves the whole context unchanged.
pub fn no_op(ctx: &mut Ctx) -> (res: Res)
    ensures
        res == Res::Ok(()),
        *final(ctx) == *old(ctx),
{
    Res::Ok(())
}

/// Load from memory (direct addressing): copy the cell at `xy_address` into
/// register `r_register`.
pub fn load_memory(ctx: &mut Ctx, r_register: Register, xy_address: DirectAddress) -> (res: Res)
    requires
        r_register < 16,
    ensures
        res == Res::Ok(()),
        final(ctx).registers@ == old(ctx).registers@.update(
            r_register as int,
            old(ctx).memory@[xy_address as int],
        ),
        final(ctx).memory == old(ctx).memory,
        final(ctx).pc == old(ctx).pc,
{
    let value = ctx.memory[xy_address as usize];
    ctx.registers[r_register as usize] = value;
    Res::Ok(())
}

/// Load value (immediate addressing): copy `xy_value` into register
/// `r_register`.
pub fn load_value(ctx: &mut Ctx, r_register: Register, xy_value: ImmediateValue) -> (res: Res)
    requires
        r_register < 16,
    ensures
        res == Res::Ok(()),
        final(ctx).registers@ == old(ctx).registers@.update(r_register as int, xy_value),
        final(ctx).memory == old(ctx).memory,
        final(ctx).pc == old(ctx).pc,
{
    ctx.registers[r_register as usize] = xy_value;
    Res::Ok(())
}

/// Load from memory (register indirect addressing): copy the cell whose
/// address is held in register `s_register` into register `r_register`.
pub fn load_indirect(ctx: &mut Ctx, r_register: Register, s_register: Register) -> (res: Res)
    requires
        r_register < 16,
        s_register < 16,
    ensures
        res == Res::Ok(()),
        final(ctx).registers@ == old(ctx).registers@.update(
            r_register as int,
            old(ctx).memory@[old(ctx).registers@[s_register as int] as int],
        ),
        final(ctx).memory == old(ctx).memory,
        final(ctx).pc == old(ctx).pc,
{
    let address = ctx.registers[s_register as usize];
    let value = ctx.memory[address as usize];
    ctx.registers[r_register as usize] = value;
    Res::Ok(())
}

/// Store (direct addressing): copy register `r_register` into memory at
/// `xy_address`.
pub fn store_memory(ctx: &mut Ctx, r_register: Register, xy_address: DirectAddress) -> (res: Res)
    requires
        r_register < 16,
    ensures
        res == Res::Ok(()),
        final(ctx).memory@ == old(ctx).memory@.update(
            xy_address as int,
            old(ctx).registers@[r_register as int],
        ),
        final(ctx).registers == old(ctx).registers,
        final(ctx).pc == old(ctx).pc,
{
    let value = ctx.registers[r_register as usize];
    ctx.memory[xy_address as usize] = value;
    Res::Ok(())
}

/// Store (register indirect addressing): copy register `r_register` into the
/// memory cell whose address is held in register `s_register`.
pub fn store_indirect(ctx: &mut Ctx, r_register: Register, s_register: Register) -> (res: Res)
    requires
        r_register < 16,
        s_register < 16,
    ensures
        res == Res::Ok(()),
        final(ctx).memory@ == old(ctx).memory@.update(
            old(ctx).registers@[s_register as int] as int,
            old(ctx).registers@[r_register as int],
        ),
        final(ctx).registers == old(ctx).registers,
        final(ctx).pc == old(ctx).pc,
{
    let value = ctx.registers[r_register as usize];
    let address = ctx.registers[s_register as usize];
    ctx.memory[address as usize] = value;
    Res::Ok(())
}

/// Move: copy the contents of register `r_register` into register
/// `s_register` (load from `r`, store to `s`).
pub fn move_register(ctx: &mut Ctx, r_register: Register, s_register: Register) -> (res: Res)
    requires
        r_register < 16,
        s_register < 16,
    ensures
        res == Res::Ok(()),
        final(ctx).registers@ == old(ctx).registers@.update(
            s_register as int,
            old(ctx).registers@[r_register as int],
        ),
        final(ctx).memory == old(ctx).memory,
        final(ctx).pc == old(ctx).pc,
{
    let value = ctx.registers[r_register as usize];
    ctx.registers[s_register as usize] = value;
    Res::Ok(())
}

/// The two's-complement wrapping sum of two register values, as the stored
/// byte.
pub open spec fn wrapping_sum(a: u8, b: u8) -> u8 {
    ((a + b) % 256) as u8
}

/// The two's-complement reading of a byte as a signed eight-bit integer.
pub open spec fn as_signed(b: u8) -> int {
    if b < 128 {
        b as int
    } else {
        b - 256
    }
}

/// The stored byte is exactly the two's-complement wrapping sum of the two
/// operands read as signed eight-bit integers: adding bytes modulo 256 and
/// adding their signed readings with silent wraparound into the signed
/// eight-bit range are the same operation.
pub proof fn lemma_wrapping_sum_is_signed_add(a: u8, b: u8)
    ensures
        as_signed(wrapping_sum(a, b)) == ({
            let sum = as_signed(a) + as_signed(b);
            if sum > 127 {
                sum - 256
            } else if sum < -128 {
                sum + 256
            } else {
                sum
            }
        }),
{
}

/// Add as integers: the sum of registers `t_register` and `s_register` as
/// two's-complement bytes, wrapping silently on overflow, stored in register
/// `r_register`.
pub fn add_integer(
    ctx: &mut Ctx,
    r_register: Register,
    s_register: Register,
    t_register: Register,
) -> (res: Res)
    requires
        r_register < 16,
        s_register < 16,
        t_register < 16,
    ensures
        res == Res::Ok(()),
        final(ctx).registers@ == old(ctx).registers@.update(
            r_register as int,
            wrapping_sum(
                old(ctx).registers@[t_register as int],
                old(ctx).registers@[s_register as int],
            ),
        ),
        final(ctx).memory == old(ctx).memory,
        final(ctx).pc == old(ctx).pc,
{
    let t_value = ctx.registers[t_register as usize] as u16;
    let s_value = ctx.registers[s_register as usize] as u16;
    let sum = ((t_value + s_value) % 256) as u8;
    ctx.registers[r_register as usize] = sum;
    Res::Ok(())
}

/// The sign field of a packed float byte: bit 7, with 1 as negative.
pub open spec fn float_sign(b: u8) -> u8 {
    b / 128
}

/// The exponent field of a packed float byte: bits 4 to 6.
pub open spec fn float_exponent(b: u8) -> u8 {
    (b / 16) % 8
}

/// The mantissa field of a packed float byte: bits 0 to 3.
pub open spec fn float_mantissa(b: u8) -> u8 {
    b % 16
}

/// The unsigned magnitude a packed float byte denotes: `mantissa * 2^exponent`.
pub open spec fn float_magnitude(b: u8) -> nat {
    (float_mantissa(b) * pow2(float_exponent(b) as nat)) as nat
}

/// The value a packed float byte denotes, as a signed fixed-point integer:
/// `(1 - 2 * sign) * mantissa * 2^exponent`.
pub open spec fn float_value(b: u8) -> int {
    if float_sign(b) == 1 {
        -(float_magnitude(b) as int)
    } else {
        float_magnitude(b) as int
    }
}

/// The normalization search, from shift `e` downward: the largest shift at
/// most `e` that puts a set bit at the top of the four-bit mantissa window
/// (bit `shift + 3` of the magnitude), or 0 when no shift at most `e` does.
pub open spec fn norm_shift_from(magnitude: nat, e: nat) -> nat
    decreases e,
{
    if e == 0 {
        0
    } else if (magnitude / pow2((e + 3) as nat)) % 2 == 1 {
        e
    } else {
        norm_shift_from(magnitude, (e - 1) as nat)
    }
}

/// The shift the float-add normalization uses: the search starts at 8, so a
/// result of 8 means the magnitude overflows the format.
pub open spec fn norm_shift(magnitude: nat) -> nat {
    norm_shift_from(magnitude, 8)
}

/// The byte the float add stores: the packed sum of two float bytes. A
/// zero-magnitude sum gives byte 0 whatever the input signs; a magnitude
/// needing a shift above 7 saturates to the maximum representable magnitude;
/// a magnitude too small for any shift to put a set bit at the top of the
/// mantissa window is stored as-is, unnormalized.
pub open spec fn float_sum_byte(s: u8, t: u8) -> u8 {
    let sum = float_value(t) + float_value(s);
    let sign: u8 = if sum < 0 {
        1
    } else {
        0
    };
    let magnitude = abs(sum) as nat;
    if magnitude == 0 {
        0
    } else {
        let e = norm_shift(magnitude);
        if e > 7 {
            (sign * 128 + 0x7f) as u8
        } else {
            (sign * 128 + e * 16 + (magnitude / pow2(e)) % 16) as u8
        }
    }
}

/// `2^e` for the small exponents the float format needs.
fn pow2_u16(e: u8) -> (r: u16)
    requires
        e <= 12,
    ensures
        r == pow2(e as nat),
        r >= 1,
        e <= 7 ==> r <= 128,
{
    proof {
        lemma2_to64();
    }
    match e {
        0 => 1,
        1 => 2,
        2 => 4,
        3 => 8,
        4 => 16,
        5 => 32,
        6 => 64,
        7 => 128,
        8 => 256,
        9 => 512,
        10 => 1024,
        11 => 2048,
        _ => 4096,
    }
}

/// The packed sum of two float bytes: decode both to signed fixed-point,
/// add, renormalize, and re-pack, as [`float_sum_byte`] states.
fn float_sum(s: u8, t: u8) -> (b: u8)
    ensures
        b == float_sum_byte(s, t),
{
    let t_sign = t / 128;
    let t_exp = (t / 16) % 8;
    let t_man = t % 16;
    let s_sign = s / 128;
    let s_exp = (s / 16) % 8;
    let s_man = s % 16;

    let t_pow = pow2_u16(t_exp);
    let s_pow = pow2_u16(s_exp);
    proof {
        assert(t_man as int * t_pow as int <= 1920) by (nonlinear_arith)
            requires
                t_man <= 15,
                t_pow <= 128,
        ;
        assert(s_man as int * s_pow as int <= 1920) by (nonlinear_arith)
            requires
                s_man <= 15,
                s_pow <= 128,
        ;
    }
    let t_fix: u16 = t_man as u16 * t_pow;
    let s_fix: u16 = s_man as u16 * s_pow;
    let ghost sum: int = float_value(t) + float_value(s);
    proof {
        assert(float_value(t) == if t_sign == 0 {
            t_fix as int
        } else {
            -(t_fix as int)
        });
        assert(float_value(s) == if s_sign == 0 {
            s_fix as int
        } else {
            -(s_fix as int)
        });
    }

    let (r_sign, magnitude): (u8, u16) = if t_sign == s_sign {
        (t_sign, t_fix + s_fix)
    } else if t_fix >= s_fix {
        (t_sign, t_fix - s_fix)
    } else {
        (s_sign, s_fix - t_fix)
    };
    proof {
        assert(magnitude == abs(sum));
        assert(magnitude > 0 ==> r_sign == (if sum < 0 {
            1u8
        } else {
            0u8
        }));
    }

    if magnitude == 0 {
        return 0;
    }

    let mut excess: u8 = 8;
    while excess > 0 && (magnitude / pow2_u16(excess + 3)) % 2 != 1
        invariant
            excess <= 8,
            norm_shift(magnitude as nat) == norm_shift_from(magnitude as nat, excess as nat),
        decreases excess,
    {
        excess = excess - 1;
    }
    proof {
        assert(excess as nat == norm_shift(magnitude as nat));
    }

    if excess > 7 {
        r_sign * 128 + 0x7f
    } else {
        let mantissa = ((magnitude / pow2_u16(excess)) % 16) as u8;
        r_sign * 128 + excess * 16 + mantissa
    }
}

/// Add as floats: registers `t_register` and `s_register` decode as packed
/// sign/exponent/mantissa bytes, their values are summed and renormalized,
/// and the packed result is stored in register `r_register`.
pub fn add_float(
    ctx: &mut Ctx,
    r_register: Register,
    s_register: Register,
    t_register: Register,
) -> (res: Res)
    requires
        r_register < 16,
        s_register < 16,
        t_register < 16,
    ensures
        res == Res::Ok(()),
        final(ctx).registers@ == old(ctx).registers@.update(
            r_register as int,
            float_sum_byte(
                old(ctx).registers@[s_register as int],
                old(ctx).registers@[t_register as int],
            ),
        ),
        final(ctx).memory == old(ctx).memory,
        final(ctx).pc == old(ctx).pc,
{
    let s_value = ctx.registers[s_register as usize];
    let t_value = ctx.registers[t_register as usize];
    let packed = float_sum(s_value, t_value);
    ctx.registers[r_register as usize] = packed;
    Res::Ok(())
}

/// No packed float byte denotes a magnitude above `15 * 2^7`.
pub proof fn lemma_float_value_bounded(b: u8)
    ensures
        -1920 <= float_value(b) <= 1920,
{
    lemma2_to64();
    if float_exponent(b) < 7 {
        lemma_pow2_strictly_increases(float_exponent(b) as nat, 7);
    }
    assert(float_mantissa(b) * pow2(float_exponent(b) as nat) <= 1920) by (nonlinear_arith)
        requires
            float_mantissa(b) <= 15,
            pow2(float_exponent(b) as nat) <= 128,
    ;
}

/// A zero-magnitude sum packs to the byte 0, whatever the signs of the two
/// inputs.
pub proof fn lemma_add_float_zero(s: u8, t: u8)
    requires
        float_value(s) + float_value(t) == 0,
    ensures
        float_sum_byte(s, t) == 0,
{
}

/// An overflowed sum saturates: when the magnitude of the sum needs a shift
/// above 7 (it is at least `2^11`), the packed result is the maximum
/// representable magnitude under the sum's sign, `sign << 7 | 0x7F`.
pub proof fn lemma_add_float_saturates(s: u8, t: u8)
    requires
        abs(float_value(s) + float_value(t)) >= 2048,
    ensures
        float_sum_byte(s, t) == if float_value(s) + float_value(t) < 0 {
            0xffu8
        } else {
            0x7fu8
        },
{
    lemma_float_value_bounded(s);
    lemma_float_value_bounded(t);
    lemma2_to64();
    let magnitude = abs(float_value(t) + float_value(s)) as nat;
    assert(2048 <= magnitude <= 3840);
    assert(magnitude / pow2(11) == 1);
    assert(norm_shift(magnitude) == 8);
}

/// OR: the bitwise or of registers `t_register` and `s_register`, stored in
/// register `r_register`.
pub fn bitwise_or(
    ctx: &mut Ctx,
    r_register: Register,
    s_register: Register,
    t_register: Register,
) -> (res: Res)
    requires
        r_register < 16,
        s_register < 16,
        t_register < 16,
    ensures
        res == Res::Ok(()),
        final(ctx).registers@ == old(ctx).registers@.update(
            r_register as int,
            old(ctx).registers@[t_register as int] | old(ctx).registers@[s_register as int],
        ),
        final(ctx).memory == old(ctx).memory,
        final(ctx).pc == old(ctx).pc,
{
    let value = ctx.registers[t_register as usize] | ctx.registers[s_register as usize];
    ctx.registers[r_register as usize] = value;
    Res::Ok(())
}

/// AND: the bitwise and of registers `t_register` and `s_register`, stored in
/// register `r_register`.
pub fn bitwise_and(
    ctx: &mut Ctx,
    r_register: Register,
    s_register: Register,
    t_register: Register,
) -> (res: Res)
    requires
        r_register < 16,
        s_register < 16,
        t_register < 16,
    ensures
        res == Res::Ok(()),
        final(ctx).registers@ == old(ctx).registers@.update(
            r_register as int,
            old(ctx).registers@[t_register as int] & old(ctx).registers@[s_register as int],
        ),
        final(ctx).memory == old(ctx).memory,
        final(ctx).pc == old(ctx).pc,
{
    let value = ctx.registers[t_register as usize] & ctx.registers[s_register as usize];
    ctx.registers[r_register as usize] = value;
    Res::Ok(())
}

/// XOR: the bitwise exclusive or of registers `t_register` and `s_register`,
/// stored in register `r_register`.
pub fn bitwise_xor(
    ctx: &mut Ctx,
    r_register: Register,
    s_register: Register,
    t_register: Register,
) -> (res: Res)
    requires
        r_register < 16,
        s_register < 16,
        t_register < 16,
    ensures
        res == Res::Ok(()),
        final(ctx).registers@ == old(ctx).registers@.update(
            r_register as int,
            old(ctx).registers@[t_register as int] ^ old(ctx).registers@[s_register as int],
        ),
        final(ctx).memory == old(ctx).memory,
        final(ctx).pc == old(ctx).pc,
{
    let value = ctx.registers[t_register as usize] ^ ctx.registers[s_register as usize];
    ctx.registers[r_register as usize] = value;
    Res::Ok(())
}

/// A register value shifted right by `amount` bits: the quotient by
/// `2^amount`, so every bit shifted out is lost. Shift amounts of eight or
/// more clear the value entirely.
pub open spec fn shifted_right(value: u8, amount: u8) -> u8 {
    (value as nat / pow2(amount as nat)) as u8
}

/// The shift is logical, not a rotate: any shift by at least one bit leaves
/// the top bit clear, so the bits shifted out at the bottom never come back
/// in at the top.
pub proof fn lemma_shift_discards_bits(value: u8, amount: u8)
    requires
        amount >= 1,
    ensures
        shifted_right(value, amount) < 128,
{
    lemma2_to64();
    if amount > 1 {
        lemma_pow2_strictly_increases(1, amount as nat);
    }
    vstd::arithmetic::div_mod::lemma_div_is_ordered_by_denominator(
        value as int,
        2,
        pow2(amount as nat) as int,
    );
}

/// Despite its name, a logical right shift, not a rotate: register
/// `r_register` is shifted right by `x_amount` bits, the bits shifted out are
/// lost. The historical name is kept for the opcode table's sake.
pub fn bitwise_rotate(ctx: &mut Ctx, r_register: Register, x_amount: ImmediateValue) -> (res: Res)
    requires
        r_register < 16,
    ensures
        res == Res::Ok(()),
        final(ctx).registers@ == old(ctx).registers@.update(
            r_register as int,
            shifted_right(old(ctx).registers@[r_register as int], x_amount),
        ),
        final(ctx).memory == old(ctx).memory,
        final(ctx).pc == old(ctx).pc,
{
    let value = ctx.registers[r_register as usize];
    let shifted: u8 = if x_amount >= 8 {
        proof {
            lemma2_to64();
            if x_amount > 8 {
                lemma_pow2_strictly_increases(8, x_amount as nat);
            }
            assert(value as nat / pow2(x_amount as nat) == 0) by {
                vstd::arithmetic::div_mod::lemma_basic_div(
                    value as int,
                    pow2(x_amount as nat) as int,
                );
            }
        }
        0
    } else {
        proof {
            lemma_u8_shr_is_div(value, x_amount);
        }
        value >> x_amount
    };
    ctx.registers[r_register as usize] = shifted;
    Res::Ok(())
}

/// Jump: set the program counter to `xy_loc`, unconditionally.
pub fn jump(ctx: &mut Ctx, xy_loc: DirectAddress) -> (res: Res)
    ensures
        res == Res::Ok(()),
        final(ctx).pc == xy_loc,
        final(ctx).memory == old(ctx).memory,
        final(ctx).registers == old(ctx).registers,
{
    ctx.pc = xy_loc;
    Res::Ok(())
}

/// Jump to register address: set the program counter to the contents of
/// register `t_register`, unconditionally.
pub fn jump_indirect(ctx: &mut Ctx, t_register: Register) -> (res: Res)
    requires
        t_register < 16,
    ensures
        res == Res::Ok(()),
        final(ctx).pc == old(ctx).registers@[t_register as int],
        final(ctx).memory == old(ctx).memory,
        final(ctx).registers == old(ctx).registers,
{
    ctx.pc = ctx.registers[t_register as usize];
    Res::Ok(())
}

/// Jump if equal: set the program counter to `xy_loc` when register
/// `r_register` equals register 0.
pub fn jump_if_eq(ctx: &mut Ctx, r_register: Register, xy_loc: DirectAddress) -> (res: Res)
    requires
        r_register < 16,
    ensures
        res == Res::Ok(()),
        final(ctx).pc == if old(ctx).registers@[r_register as int] == old(ctx).registers@[0] {
            xy_loc
        } else {
            old(ctx).pc
        },
        final(ctx).memory == old(ctx).memory,
        final(ctx).registers == old(ctx).registers,
{
    if ctx.registers[r_register as usize] == ctx.registers[0] {
        ctx.pc = xy_loc;
    }
    Res::Ok(())
}

/// The comparison selected by the conditional-jump-with-test opcode. Every
/// selector value outside the six defined codes maps to `Never`.
#[derive(Debug, PartialEq, Eq, Structural, Clone, Copy)]
pub enum Test {
    Eq,
    Neq,
    Gte,
    Lte,
    Gt,
    Lt,
    Never,
}

/// Which comparison a four-bit selector value picks: codes 0 to 5 in order,
/// and `Never` for everything else.
pub open spec fn spec_test_from(x: u8) -> Test {
    if x == 0 {
        Test::Eq
    } else if x == 1 {
        Test::Neq
    } else if x == 2 {
        Test::Gte
    } else if x == 3 {
        Test::Lte
    } else if x == 4 {
        Test::Gt
    } else if x == 5 {
        Test::Lt
    } else {
        Test::Never
    }
}

/// Map a selector value to its comparison; values outside the six defined
/// codes fall back to `Never`.
pub fn test_from(x: u8) -> (t: Test)
    ensures
        t == spec_test_from(x),
{
    match x {
        0 => Test::Eq,
        1 => Test::Neq,
        2 => Test::Gte,
        3 => Test::Lte,
        4 => Test::Gt,
        5 => Test::Lt,
        _ => Test::Never,
    }
}

/// Whether comparison `t` holds of `a` against `b`, both read as unsigned
/// bytes.
pub open spec fn test_holds(t: Test, a: u8, b: u8) -> bool {
    match t {
        Test::Eq => a == b,
        Test::Neq => a != b,
        Test::Gte => a >= b,
        Test::Lte => a <= b,
        Test::Gt => a > b,
        Test::Lt => a < b,
        Test::Never => false,
    }
}

/// A selector value outside the six defined comparison codes never jumps,
/// whatever the register values: its test falls back to `Never`, which holds
/// of nothing.
pub proof fn lemma_undefined_selector_never_jumps(x: u8, a: u8, b: u8)
    requires
        x >= 6,
    ensures
        !test_holds(spec_test_from(x), a, b),
{
}

/// Jump to register address with test: compare register `r_register` against
/// register 0 with the comparison selected by `x_test`; when it holds, set
/// the program counter to the contents of register `t_register`.
pub fn jump_with_test(
    ctx: &mut Ctx,
    r_register: Register,
    x_test: u8,
    t_register: Register,
) -> (res: Res)
    requires
        r_register < 16,
        t_register < 16,
    ensures
        res == Res::Ok(()),
        final(ctx).pc == if test_holds(
            spec_test_from(x_test),
            old(ctx).registers@[r_register as int],
            old(ctx).registers@[0],
        ) {
            old(ctx).registers@[t_register as int]
        } else {
            old(ctx).pc
        },
        final(ctx).memory == old(ctx).memory,
        final(ctx).registers == old(ctx).registers,
{
    let jumps = match test_from(x_test) {
        Test::Eq => ctx.registers[r_register as usize] == ctx.registers[0],
        Test::Neq => ctx.registers[r_register as usize] != ctx.registers[0],
        Test::Gte => ctx.registers[r_register as usize] >= ctx.registers[0],
        Test::Lte => ctx.registers[r_register as usize] <= ctx.registers[0],
        Test::Gt => ctx.registers[r_register as usize] > ctx.registers[0],
        Test::Lt => ctx.registers[r_register as usize] < ctx.registers[0],
        Test::Never => false,
    };
    if jumps {
        ctx.pc = ctx.registers[t_register as usize];
    }
    Res::Ok(())
}

/// Stop execution. The only opcode that ends a run.
pub fn halt(ctx: &mut Ctx) -> (res: Res)
    ensures
        res == Res::Err(MachineError::HaltExecution),
        *final(ctx) == *old(ctx),
{
    Res::Err(MachineError::HaltExecution)
}

} // verus!
