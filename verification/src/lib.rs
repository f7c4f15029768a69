//! An emulator for a small teaching instruction-set architecture: 16-bit
//! instruction words, 256 bytes of memory and 16 eight-bit registers.
//!
//! The crate defines the binary instruction format (`instructions`), one
//! state-transition handler per opcode (`machine_code`), the fuel-bounded
//! fetch-decode-execute loop (`execute`), the memory-image loader (`memory`)
//! and the token categories of the assembly dialect (`lexer`).

use vstd::prelude::*;

pub mod instructions;
pub mod lexer;
pub mod machine_code;
pub mod memory;

use crate::instructions::{instr_result, spec_decode, spec_exec_instr, DecodeError, Instr};
use crate::machine_code::{Ctx, MachineError, State};

verus! {

/// Why a run stopped before its fuel ran out. Every one is terminal for the
/// run; only the halt signal is the designed normal end.
#[derive(Debug, PartialEq, Eq, Structural, Clone, Copy)]
pub enum RunError {
    /// A handler raised a terminal signal; `HaltExecution` is normal
    /// termination.
    Machine(MachineError),
    /// The fetched word decoded to no instruction; fatal.
    Decode(DecodeError),
    /// The program counter cannot fetch and advance past a whole two-byte
    /// word; fatal.
    PcOutOfRange(u8),
}

/// The big-endian 16-bit instruction word at the program counter.
pub open spec fn spec_fetch_word(s: State) -> u16 {
    (s.memory[s.pc as int] * 256 + s.memory[s.pc as int + 1]) as u16
}

/// One step of the execution loop: fetch the word at the program counter,
/// decode it, advance the counter by two, and execute the operation. The
/// state the step leaves, and the reason it stops the run, if any. A counter
/// at 255 cannot fetch a whole word, and one at 254 cannot advance; both
/// stop the run.
pub open spec fn spec_step(s: State) -> (State, Option<RunError>) {
    if s.pc == 255 {
        (s, Some(RunError::PcOutOfRange(s.pc)))
    } else {
        match spec_decode(spec_fetch_word(s)) {
            Err(e) => (s, Some(RunError::Decode(e))),
            Ok(i) => {
                if s.pc == 254 {
                    (s, Some(RunError::PcOutOfRange(s.pc)))
                } else {
                    let advanced = State {
                        pc: (s.pc + 2) as u8,
                        memory: s.memory,
                        registers: s.registers,
                    };
                    let stepped = spec_exec_instr(advanced, i);
                    match instr_result(i) {
                        Ok(_u) => (stepped, None),
                        Err(sig) => (stepped, Some(RunError::Machine(sig))),
                    }
                }
            },
        }
    }
}

/// A fuel-bounded run from a state: the state it ends in, the fuel left, and
/// the reason it stopped, `None` when the fuel ran out first. Each step
/// consumes one unit of fuel, the one that stops the run included.
pub open spec fn spec_run(s: State, fuel: nat) -> (State, nat, Option<RunError>)
    decreases fuel,
{
    if fuel == 0 {
        (s, 0, None)
    } else {
        let (next, stop) = spec_step(s);
        match stop {
            Some(_e) => (next, (fuel - 1) as nat, stop),
            None => spec_run(next, (fuel - 1) as nat),
        }
    }
}

/// Unrolling a run by its first step: with fuel left, a run is its first
/// step followed, when that step does not stop, by a run with one unit less.
proof fn lemma_run_unroll(s: State, fuel: nat)
    requires
        fuel > 0,
    ensures
        spec_run(s, fuel) == (match spec_step(s).1 {
            Some(_e) => (spec_step(s).0, (fuel - 1) as nat, spec_step(s).1),
            None => spec_run(spec_step(s).0, (fuel - 1) as nat),
        }),
{
}

/// One fetch-decode-advance-execute step against the context, exactly as
/// [`spec_step`] states it.
fn step(ctx: &mut Ctx) -> (stop: Option<RunError>)
    ensures
        final(ctx)@ == spec_step(old(ctx)@).0,
        stop == spec_step(old(ctx)@).1,
{
    let ghost current = ctx@;
    let pc = ctx.pc;
    if pc == 255 {
        return Some(RunError::PcOutOfRange(pc));
    }
    let hi = ctx.memory[pc as usize] as u16;
    let lo = ctx.memory[pc as usize + 1] as u16;
    let word = hi * 256 + lo;
    proof {
        assert(word == spec_fetch_word(current));
    }
    match Instr::decode(word) {
        Err(e) => Some(RunError::Decode(e)),
        Ok(instr) => {
            if pc == 254 {
                return Some(RunError::PcOutOfRange(pc));
            }
            ctx.pc = pc + 2;
            proof {
                assert(ctx@ =~= State {
                    pc: (current.pc + 2) as u8,
                    memory: current.memory,
                    registers: current.registers,
                });
            }
            let res = instr.execute(ctx);
            proof {
                assert(spec_step(current).0 =~= ctx@);
            }
            match res {
                Ok(_unit) => None,
                Err(sig) => Some(RunError::Machine(sig)),
            }
        },
    }
}

/// Run the machine for at most `fuel` instructions: repeatedly fetch,
/// decode, advance and execute until the program halts, a step fails, or the
/// fuel is spent. Returns the fuel left unspent and the terminal signal:
/// `Ok` when the fuel ran out with the machine still running, otherwise why
/// the run stopped. The result and the context after the call are exactly
/// what [`spec_run`] states.
pub fn execute(ctx: &mut Ctx, fuel: usize) -> (r: (usize, Result<(), RunError>))
    ensures
        ({
            let outcome = spec_run(old(ctx)@, fuel as nat);
            &&& final(ctx)@ == outcome.0
            &&& r.0 == outcome.1
            &&& r.1 == match outcome.2 {
                None => Ok::<(), RunError>(()),
                Some(e) => Err::<(), RunError>(e),
            }
        }),
{
    let ghost start = ctx@;
    let mut remaining: usize = fuel;
    while remaining > 0
        invariant
            remaining <= fuel,
            start == old(ctx)@,
            spec_run(start, fuel as nat) == spec_run(ctx@, remaining as nat),
        decreases remaining,
    {
        let ghost before = ctx@;
        proof {
            lemma_run_unroll(before, remaining as nat);
        }
        match step(ctx) {
            None => {
                remaining = remaining - 1;
            },
            Some(e) => {
                return (remaining - 1, Err(e));
            },
        }
    }
    (remaining, Ok(()))
}

} // verus!
