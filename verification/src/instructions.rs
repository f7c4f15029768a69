//! The binary instruction format: the opcode set, the bit-field layout of
//! each opcode, and the bidirectional conversion between a 16-bit word and a
//! typed operation.
//!
//! Decoding follows a fixed priority order of `(pattern, mask)` pairs; the
//! masks overlap, so the order is part of the format. [`spec_decode`] states
//! that order once, and `decode`, `encode` and the round-trip lemma are all
//! proved against it.

use crate::machine_code;
use crate::machine_code::{Ctx, DirectAddress, ImmediateValue, MachineError, Register, Res, State};
use vstd::prelude::*;

verus! {

/// Why a word decodes to no instruction. Both are fatal to a run.
#[derive(Debug, PartialEq, Eq, Structural, Clone, Copy)]
pub enum DecodeError {
    /// The fetched word was all zero.
    NullInstruction,
    /// No opcode pattern matched; carries the offending (nonzero) word.
    InvalidInstruction(u16),
}

/// One decoded operation, carrying exactly the operand fields of its opcode:
/// four-bit register indices, an eight-bit direct address or immediate, or a
/// four-bit test selector.
#[derive(Debug, PartialEq, Eq, Structural, Clone, Copy)]
pub enum Instr {
    NoOp,
    LoadMemory(Register, DirectAddress),
    LoadValue(Register, ImmediateValue),
    LoadIndirect(Register, Register),
    StoreMemory(Register, DirectAddress),
    StoreIndirect(Register, Register),
    MoveRegister(Register, Register),
    AddInteger(Register, Register, Register),
    AddFloat(Register, Register, Register),
    BitwiseOr(Register, Register, Register),
    BitwiseAnd(Register, Register, Register),
    BitwiseXor(Register, Register, Register),
    BitwiseRotate(Register, ImmediateValue),
    Jump(DirectAddress),
    JumpIndirect(Register),
    JumpIfEq(Register, DirectAddress),
    JumpWithTest(Register, u8, Register),
    Halt,
}

/// The opcode nibble of a word: bits 12 to 15.
pub open spec fn op_nibble(w: u16) -> u16 {
    w / 4096
}

/// The register field at bits 8 to 11.
pub open spec fn field_r(w: u16) -> u8 {
    ((w / 256) % 16) as u8
}

/// The field at bits 4 to 7.
pub open spec fn field_x(w: u16) -> u8 {
    ((w / 16) % 16) as u8
}

/// The field at bits 0 to 3.
pub open spec fn field_t(w: u16) -> u8 {
    (w % 16) as u8
}

/// The eight-bit field at bits 0 to 7: a direct address or immediate value.
pub open spec fn field_xy(w: u16) -> u8 {
    (w % 256) as u8
}

/// What a 16-bit word decodes to, under the format's fixed priority order.
/// Within each opcode nibble the more tightly masked pattern is tried first
/// (`Jump` before `JumpIfEq`, `JumpIndirect` before `JumpWithTest`); the
/// all-zero word is the distinguished null instruction, and a word no pattern
/// matches is invalid.
pub open spec fn spec_decode(w: u16) -> Result<Instr, DecodeError> {
    let nibble = op_nibble(w);
    if nibble == 0 {
        if w == 0x0fff {
            Ok(Instr::NoOp)
        } else if w == 0 {
            Err(DecodeError::NullInstruction)
        } else {
            Err(DecodeError::InvalidInstruction(w))
        }
    } else if nibble == 1 {
        Ok(Instr::LoadMemory(field_r(w), field_xy(w)))
    } else if nibble == 2 {
        Ok(Instr::LoadValue(field_r(w), field_xy(w)))
    } else if nibble == 3 {
        Ok(Instr::StoreMemory(field_r(w), field_xy(w)))
    } else if nibble == 4 {
        if field_r(w) == 0 {
            Ok(Instr::MoveRegister(field_x(w), field_t(w)))
        } else {
            Err(DecodeError::InvalidInstruction(w))
        }
    } else if nibble == 5 {
        Ok(Instr::AddInteger(field_r(w), field_x(w), field_t(w)))
    } else if nibble == 6 {
        Ok(Instr::AddFloat(field_r(w), field_x(w), field_t(w)))
    } else if nibble == 7 {
        Ok(Instr::BitwiseOr(field_r(w), field_x(w), field_t(w)))
    } else if nibble == 8 {
        Ok(Instr::BitwiseAnd(field_r(w), field_x(w), field_t(w)))
    } else if nibble == 9 {
        Ok(Instr::BitwiseXor(field_r(w), field_x(w), field_t(w)))
    } else if nibble == 10 {
        if field_x(w) == 0 {
            Ok(Instr::BitwiseRotate(field_r(w), field_t(w)))
        } else {
            Err(DecodeError::InvalidInstruction(w))
        }
    } else if nibble == 11 {
        if field_r(w) == 0 {
            Ok(Instr::Jump(field_xy(w)))
        } else {
            Ok(Instr::JumpIfEq(field_r(w), field_xy(w)))
        }
    } else if nibble == 12 {
        if w == 0xc000 {
            Ok(Instr::Halt)
        } else {
            Err(DecodeError::InvalidInstruction(w))
        }
    } else if nibble == 13 {
        if field_r(w) == 0 {
            Ok(Instr::LoadIndirect(field_x(w), field_t(w)))
        } else {
            Err(DecodeError::InvalidInstruction(w))
        }
    } else if nibble == 14 {
        if field_r(w) == 0 {
            Ok(Instr::StoreIndirect(field_x(w), field_t(w)))
        } else {
            Err(DecodeError::InvalidInstruction(w))
        }
    } else {
        if field_r(w) == 0 && field_x(w) == 0 {
            Ok(Instr::JumpIndirect(field_t(w)))
        } else {
            Ok(Instr::JumpWithTest(field_r(w), field_x(w), field_t(w)))
        }
    }
}

/// A syntactically valid operation: every operand fits its bit field.
pub open spec fn instr_wf(i: Instr) -> bool {
    match i {
        Instr::NoOp => true,
        Instr::LoadMemory(r, _xy) => r < 16,
        Instr::LoadValue(r, _xy) => r < 16,
        Instr::LoadIndirect(r, s) => r < 16 && s < 16,
        Instr::StoreMemory(r, _xy) => r < 16,
        Instr::StoreIndirect(r, s) => r < 16 && s < 16,
        Instr::MoveRegister(r, s) => r < 16 && s < 16,
        Instr::AddInteger(r, s, t) => r < 16 && s < 16 && t < 16,
        Instr::AddFloat(r, s, t) => r < 16 && s < 16 && t < 16,
        Instr::BitwiseOr(r, s, t) => r < 16 && s < 16 && t < 16,
        Instr::BitwiseAnd(r, s, t) => r < 16 && s < 16 && t < 16,
        Instr::BitwiseXor(r, s, t) => r < 16 && s < 16 && t < 16,
        Instr::BitwiseRotate(r, x) => r < 16 && x < 16,
        Instr::Jump(_xy) => true,
        Instr::JumpIndirect(t) => t < 16,
        Instr::JumpIfEq(r, _xy) => r < 16,
        Instr::JumpWithTest(r, x, t) => r < 16 && x < 16 && t < 16,
        Instr::Halt => true,
    }
}

/// The word an operation encodes to: the opcode's base pattern with each
/// operand field shifted back into position.
pub open spec fn spec_encode(i: Instr) -> u16 {
    match i {
        Instr::NoOp => 0x0fff,
        Instr::LoadMemory(r, xy) => (0x1000 + r * 256 + xy) as u16,
        Instr::LoadValue(r, xy) => (0x2000 + r * 256 + xy) as u16,
        Instr::LoadIndirect(r, s) => (0xd000 + r * 16 + s) as u16,
        Instr::StoreMemory(r, xy) => (0x3000 + r * 256 + xy) as u16,
        Instr::StoreIndirect(r, s) => (0xe000 + r * 16 + s) as u16,
        Instr::MoveRegister(r, s) => (0x4000 + r * 16 + s) as u16,
        Instr::AddInteger(r, s, t) => (0x5000 + r * 256 + s * 16 + t) as u16,
        Instr::AddFloat(r, s, t) => (0x6000 + r * 256 + s * 16 + t) as u16,
        Instr::BitwiseOr(r, s, t) => (0x7000 + r * 256 + s * 16 + t) as u16,
        Instr::BitwiseAnd(r, s, t) => (0x8000 + r * 256 + s * 16 + t) as u16,
        Instr::BitwiseXor(r, s, t) => (0x9000 + r * 256 + s * 16 + t) as u16,
        Instr::BitwiseRotate(r, x) => (0xa000 + r * 256 + x) as u16,
        Instr::Jump(xy) => (0xb000 + xy) as u16,
        Instr::JumpIndirect(t) => (0xf000 + t) as u16,
        Instr::JumpIfEq(r, xy) => (0xb000 + r * 256 + xy) as u16,
        Instr::JumpWithTest(r, x, t) => (0xf000 + r * 256 + x * 16 + t) as u16,
        Instr::Halt => 0xc000,
    }
}

/// The field extractors are exactly the shift-and-mask reads of the bit
/// layout: the opcode nibble is bits 12 to 15, `r` bits 8 to 11, `x` bits 4
/// to 7, `t` bits 0 to 3, and `xy` bits 0 to 7.
pub proof fn lemma_fields_are_bit_reads(w: u16)
    ensures
        op_nibble(w) == w >> 12,
        field_r(w) == ((w >> 8) & 0xf) as u8,
        field_x(w) == ((w >> 4) & 0xf) as u8,
        field_t(w) == (w & 0xf) as u8,
        field_xy(w) == (w & 0xff) as u8,
{
    assert(w / 4096 == w >> 12 && (w / 256) % 16 == (w >> 8) & 0xf && (w / 16) % 16 == (w >> 4)
        & 0xf && w % 16 == w & 0xf && w % 256 == w & 0xff) by (bit_vector);
}

/// How the four fields of a word determine it and are recovered from it.
proof fn lemma_word_fields(w: u16, hi: u16, a: u16, b: u16, c: u16)
    requires
        w == hi * 4096 + a * 256 + b * 16 + c,
        hi < 16,
        a < 16,
        b < 16,
        c < 16,
    ensures
        op_nibble(w) == hi,
        field_r(w) == a as u8,
        field_x(w) == b as u8,
        field_t(w) == c as u8,
{
    assert(w / 4096 == hi && (w / 256) % 16 == a && (w / 16) % 16 == b && w % 16 == c)
        by (bit_vector)
        requires
            w == hi * 4096 + a * 256 + b * 16 + c,
            hi < 16,
            a < 16,
            b < 16,
            c < 16,
    ;
}

/// How the opcode nibble, the register field and the eight-bit low field
/// determine a word and are recovered from it.
proof fn lemma_word_fields_xy(w: u16, hi: u16, a: u16, xy: u16)
    requires
        w == hi * 4096 + a * 256 + xy,
        hi < 16,
        a < 16,
        xy < 256,
    ensures
        op_nibble(w) == hi,
        field_r(w) == a as u8,
        field_xy(w) == xy as u8,
{
    assert(w / 4096 == hi && (w / 256) % 16 == a && w % 256 == xy) by (bit_vector)
        requires
            w == hi * 4096 + a * 256 + xy,
            hi < 16,
            a < 16,
            xy < 256,
    ;
}

/// Operand combinations whose encoding belongs to a higher-priority pattern
/// of the same opcode nibble: a jump-if-equal against register 0 encodes to
/// the word of the plain jump, and a test-jump with register 0 and selector 0
/// to the word of the indirect jump. Decoding such a word yields the
/// higher-priority operation, not the one encoded.
pub open spec fn encode_aliased(i: Instr) -> bool {
    match i {
        Instr::JumpIfEq(r, _xy) => r == 0,
        Instr::JumpWithTest(r, x, _t) => r == 0 && x == 0,
        _ => false,
    }
}

/// Decoding inverts encoding: every syntactically valid operand combination
/// comes back unchanged from its own word, except the two aliased shapes of
/// [`encode_aliased`], whose words belong to a higher-priority pattern.
pub proof fn lemma_decode_inverts_encode(i: Instr)
    requires
        instr_wf(i),
        !encode_aliased(i),
    ensures
        spec_decode(spec_encode(i)) == Ok::<Instr, DecodeError>(i),
{
    let w = spec_encode(i);
    match i {
        Instr::NoOp => {},
        Instr::LoadMemory(r, xy) => {
            lemma_word_fields_xy(w, 1, r as u16, xy as u16);
        },
        Instr::LoadValue(r, xy) => {
            lemma_word_fields_xy(w, 2, r as u16, xy as u16);
        },
        Instr::LoadIndirect(r, s) => {
            lemma_word_fields(w, 13, 0, r as u16, s as u16);
        },
        Instr::StoreMemory(r, xy) => {
            lemma_word_fields_xy(w, 3, r as u16, xy as u16);
        },
        Instr::StoreIndirect(r, s) => {
            lemma_word_fields(w, 14, 0, r as u16, s as u16);
        },
        Instr::MoveRegister(r, s) => {
            lemma_word_fields(w, 4, 0, r as u16, s as u16);
        },
        Instr::AddInteger(r, s, t) => {
            lemma_word_fields(w, 5, r as u16, s as u16, t as u16);
        },
        Instr::AddFloat(r, s, t) => {
            lemma_word_fields(w, 6, r as u16, s as u16, t as u16);
        },
        Instr::BitwiseOr(r, s, t) => {
            lemma_word_fields(w, 7, r as u16, s as u16, t as u16);
        },
        Instr::BitwiseAnd(r, s, t) => {
            lemma_word_fields(w, 8, r as u16, s as u16, t as u16);
        },
        Instr::BitwiseXor(r, s, t) => {
            lemma_word_fields(w, 9, r as u16, s as u16, t as u16);
        },
        Instr::BitwiseRotate(r, x) => {
            lemma_word_fields(w, 10, r as u16, 0, x as u16);
        },
        Instr::Jump(xy) => {
            lemma_word_fields_xy(w, 11, 0, xy as u16);
        },
        Instr::JumpIndirect(t) => {
            lemma_word_fields(w, 15, 0, 0, t as u16);
        },
        Instr::JumpIfEq(r, xy) => {
            lemma_word_fields_xy(w, 11, r as u16, xy as u16);
        },
        Instr::JumpWithTest(r, x, t) => {
            lemma_word_fields(w, 15, r as u16, x as u16, t as u16);
        },
        Instr::Halt => {},
    }
}

/// Decoding classifies every 16-bit word into exactly one outcome: the null
/// error for the all-zero word alone, the invalid error (always carrying the
/// word itself) exactly for the words no pattern matches, and otherwise a
/// single operation.
pub proof fn lemma_decode_classifies(w: u16)
    ensures
        spec_decode(w) == Err::<Instr, DecodeError>(DecodeError::NullInstruction) <==> w == 0,
        spec_decode(w) matches Err(DecodeError::InvalidInstruction(v)) ==> v == w && w != 0,
        spec_decode(w) is Err <==> (w == 0 || (op_nibble(w) == 0 && w != 0x0fff) || (op_nibble(w)
            == 4 && field_r(w) != 0) || (op_nibble(w) == 10 && field_x(w) != 0) || (op_nibble(w)
            == 12 && w != 0xc000) || (op_nibble(w) == 13 && field_r(w) != 0) || (op_nibble(w) == 14
            && field_r(w) != 0)),
{
    assert(w == 0 ==> op_nibble(w) == 0);
    assert(op_nibble(w) == 12 && w != 0xc000 ==> spec_decode(w) is Err);
}

impl Instr {
    /// Decode a 16-bit word into the one operation its highest-priority
    /// matching pattern gives, the null-instruction error for the all-zero
    /// word, or the invalid-instruction error.
    pub fn decode(instr: u16) -> (res: Result<Self, DecodeError>)
        ensures
            res == spec_decode(instr),
            res matches Ok(i) ==> instr_wf(i),
    {
        let nibble = instr / 4096;
        let r = ((instr / 256) % 16) as u8;
        let x = ((instr / 16) % 16) as u8;
        let t = (instr % 16) as u8;
        let xy = (instr % 256) as u8;
        match nibble {
            0 => {
                if instr == 0x0fff {
                    Ok(Instr::NoOp)
                } else if instr == 0 {
                    Err(DecodeError::NullInstruction)
                } else {
                    Err(DecodeError::InvalidInstruction(instr))
                }
            },
            1 => Ok(Instr::LoadMemory(r, xy)),
            2 => Ok(Instr::LoadValue(r, xy)),
            3 => Ok(Instr::StoreMemory(r, xy)),
            4 => {
                if r == 0 {
                    Ok(Instr::MoveRegister(x, t))
                } else {
                    Err(DecodeError::InvalidInstruction(instr))
                }
            },
            5 => Ok(Instr::AddInteger(r, x, t)),
            6 => Ok(Instr::AddFloat(r, x, t)),
            7 => Ok(Instr::BitwiseOr(r, x, t)),
            8 => Ok(Instr::BitwiseAnd(r, x, t)),
            9 => Ok(Instr::BitwiseXor(r, x, t)),
            10 => {
                if x == 0 {
                    Ok(Instr::BitwiseRotate(r, t))
                } else {
                    Err(DecodeError::InvalidInstruction(instr))
                }
            },
            11 => {
                if r == 0 {
                    Ok(Instr::Jump(xy))
                } else {
                    Ok(Instr::JumpIfEq(r, xy))
                }
            },
            12 => {
                if instr == 0xc000 {
                    Ok(Instr::Halt)
                } else {
                    Err(DecodeError::InvalidInstruction(instr))
                }
            },
            13 => {
                if r == 0 {
                    Ok(Instr::LoadIndirect(x, t))
                } else {
                    Err(DecodeError::InvalidInstruction(instr))
                }
            },
            14 => {
                if r == 0 {
                    Ok(Instr::StoreIndirect(x, t))
                } else {
                    Err(DecodeError::InvalidInstruction(instr))
                }
            },
            _ => {
                if r == 0 && x == 0 {
                    Ok(Instr::JumpIndirect(t))
                } else {
                    Ok(Instr::JumpWithTest(r, x, t))
                }
            },
        }
    }

    /// Encode a syntactically valid operation into its 16-bit word, the
    /// exact inverse of decoding.
    pub fn encode(self) -> (w: u16)
        requires
            instr_wf(self),
        ensures
            w == spec_encode(self),
    {
        match self {
            Instr::NoOp => 0x0fff,
            Instr::LoadMemory(r, xy) => 0x1000 + r as u16 * 256 + xy as u16,
            Instr::LoadValue(r, xy) => 0x2000 + r as u16 * 256 + xy as u16,
            Instr::LoadIndirect(r, s) => 0xd000 + r as u16 * 16 + s as u16,
            Instr::StoreMemory(r, xy) => 0x3000 + r as u16 * 256 + xy as u16,
            Instr::StoreIndirect(r, s) => 0xe000 + r as u16 * 16 + s as u16,
            Instr::MoveRegister(r, s) => 0x4000 + r as u16 * 16 + s as u16,
            Instr::AddInteger(r, s, t) => 0x5000 + r as u16 * 256 + s as u16 * 16 + t as u16,
            Instr::AddFloat(r, s, t) => 0x6000 + r as u16 * 256 + s as u16 * 16 + t as u16,
            Instr::BitwiseOr(r, s, t) => 0x7000 + r as u16 * 256 + s as u16 * 16 + t as u16,
            Instr::BitwiseAnd(r, s, t) => 0x8000 + r as u16 * 256 + s as u16 * 16 + t as u16,
            Instr::BitwiseXor(r, s, t) => 0x9000 + r as u16 * 256 + s as u16 * 16 + t as u16,
            Instr::BitwiseRotate(r, x) => 0xa000 + r as u16 * 256 + x as u16,
            Instr::Jump(xy) => 0xb000 + xy as u16,
            Instr::JumpIndirect(t) => 0xf000 + t as u16,
            Instr::JumpIfEq(r, xy) => 0xb000 + r as u16 * 256 + xy as u16,
            Instr::JumpWithTest(r, x, t) => 0xf000 + r as u16 * 256 + x as u16 * 16 + t as u16,
            Instr::Halt => 0xc000,
        }
    }

    /// Execute one decoded operation against the context, dispatching to its
    /// opcode handler. The state after the call is [`spec_exec_instr`] of the
    /// state before; the result is the handler's terminal signal, raised only
    /// by the halt opcode.
    pub fn execute(self, ctx: &mut Ctx) -> (res: Res)
        requires
            instr_wf(self),
        ensures
            final(ctx)@ == spec_exec_instr(old(ctx)@, self),
            res == instr_result(self),
    {
        let res = match self {
            Instr::NoOp => machine_code::no_op(ctx),
            Instr::LoadMemory(r, xy) => machine_code::load_memory(ctx, r, xy),
            Instr::LoadValue(r, xy) => machine_code::load_value(ctx, r, xy),
            Instr::LoadIndirect(r, s) => machine_code::load_indirect(ctx, r, s),
            Instr::StoreMemory(r, xy) => machine_code::store_memory(ctx, r, xy),
            Instr::StoreIndirect(r, s) => machine_code::store_indirect(ctx, r, s),
            Instr::MoveRegister(r, s) => machine_code::move_register(ctx, r, s),
            Instr::AddInteger(r, s, t) => machine_code::add_integer(ctx, r, s, t),
            Instr::AddFloat(r, s, t) => machine_code::add_float(ctx, r, s, t),
            Instr::BitwiseOr(r, s, t) => machine_code::bitwise_or(ctx, r, s, t),
            Instr::BitwiseAnd(r, s, t) => machine_code::bitwise_and(ctx, r, s, t),
            Instr::BitwiseXor(r, s, t) => machine_code::bitwise_xor(ctx, r, s, t),
            Instr::BitwiseRotate(r, x) => machine_code::bitwise_rotate(ctx, r, x),
            Instr::Jump(xy) => machine_code::jump(ctx, xy),
            Instr::JumpIndirect(t) => machine_code::jump_indirect(ctx, t),
            Instr::JumpIfEq(r, xy) => machine_code::jump_if_eq(ctx, r, xy),
            Instr::JumpWithTest(r, x, t) => machine_code::jump_with_test(ctx, r, x, t),
            Instr::Halt => machine_code::halt(ctx),
        };
        proof {
            assert(ctx@ =~= spec_exec_instr(old(ctx)@, self));
        }
        res
    }
}

/// What one operation does to a machine state: the per-opcode transition of
/// the execution semantics, as a pure function. The halt and no-op opcodes
/// change nothing.
pub open spec fn spec_exec_instr(s: State, i: Instr) -> State {
    match i {
        Instr::NoOp => s,
        Instr::LoadMemory(r, xy) => State {
            pc: s.pc,
            memory: s.memory,
            registers: s.registers.update(r as int, s.memory[xy as int]),
        },
        Instr::LoadValue(r, xy) => State {
            pc: s.pc,
            memory: s.memory,
            registers: s.registers.update(r as int, xy),
        },
        Instr::LoadIndirect(r, sr) => State {
            pc: s.pc,
            memory: s.memory,
            registers: s.registers.update(r as int, s.memory[s.registers[sr as int] as int]),
        },
        Instr::StoreMemory(r, xy) => State {
            pc: s.pc,
            memory: s.memory.update(xy as int, s.registers[r as int]),
            registers: s.registers,
        },
        Instr::StoreIndirect(r, sr) => State {
            pc: s.pc,
            memory: s.memory.update(s.registers[sr as int] as int, s.registers[r as int]),
            registers: s.registers,
        },
        Instr::MoveRegister(r, sr) => State {
            pc: s.pc,
            memory: s.memory,
            registers: s.registers.update(sr as int, s.registers[r as int]),
        },
        Instr::AddInteger(r, sr, t) => State {
            pc: s.pc,
            memory: s.memory,
            registers: s.registers.update(
                r as int,
                machine_code::wrapping_sum(s.registers[t as int], s.registers[sr as int]),
            ),
        },
        Instr::AddFloat(r, sr, t) => State {
            pc: s.pc,
            memory: s.memory,
            registers: s.registers.update(
                r as int,
                machine_code::float_sum_byte(s.registers[sr as int], s.registers[t as int]),
            ),
        },
        Instr::BitwiseOr(r, sr, t) => State {
            pc: s.pc,
            memory: s.memory,
            registers: s.registers.update(
                r as int,
                s.registers[t as int] | s.registers[sr as int],
            ),
        },
        Instr::BitwiseAnd(r, sr, t) => State {
            pc: s.pc,
            memory: s.memory,
            registers: s.registers.update(
                r as int,
                s.registers[t as int] & s.registers[sr as int],
            ),
        },
        Instr::BitwiseXor(r, sr, t) => State {
            pc: s.pc,
            memory: s.memory,
            registers: s.registers.update(
                r as int,
                s.registers[t as int] ^ s.registers[sr as int],
            ),
        },
        Instr::BitwiseRotate(r, x) => State {
            pc: s.pc,
            memory: s.memory,
            registers: s.registers.update(
                r as int,
                machine_code::shifted_right(s.registers[r as int], x),
            ),
        },
        Instr::Jump(xy) => State { pc: xy, memory: s.memory, registers: s.registers },
        Instr::JumpIndirect(t) => State {
            pc: s.registers[t as int],
            memory: s.memory,
            registers: s.registers,
        },
        Instr::JumpIfEq(r, xy) => State {
            pc: if s.registers[r as int] == s.registers[0] {
                xy
            } else {
                s.pc
            },
            memory: s.memory,
            registers: s.registers,
        },
        Instr::JumpWithTest(r, x, t) => State {
            pc: if machine_code::test_holds(
                machine_code::spec_test_from(x),
                s.registers[r as int],
                s.registers[0],
            ) {
                s.registers[t as int]
            } else {
                s.pc
            },
            memory: s.memory,
            registers: s.registers,
        },
        Instr::Halt => s,
    }
}

/// The terminal signal one operation raises: the halt signal for the halt
/// opcode, and none for every other opcode.
pub open spec fn instr_result(i: Instr) -> Res {
    match i {
        Instr::Halt => Err(MachineError::HaltExecution),
        _ => Ok(()),
    }
}

} // verus!
