//! What one instruction does, stated on mathematical machine states.

use crate::display::{blank_screen, drawn_screen, screen_collides};
use crate::fault::Fault;
use crate::instruction::{decode, Instruction};
use crate::keyboard::{key_hex, state_after_press, state_after_release, HostKey, KeyboardState};
use crate::ram::{timers_run, tone_after, RamState};
use crate::timing::{credit_left, ticks_due, turn_due};
use vstd::prelude::*;

verus! {

/// What the caller has to do after an instruction has run.
#[derive(Clone, Copy, Debug, PartialEq, Eq, Structural)]
pub enum Outcome {
    /// Nothing beyond going on with the next instruction.
    Continue,
    /// The screen was cleared and should be presented.
    Cleared,
    /// A sprite was drawn and the screen should be presented.
    Drawn,
    /// The machine waits for a keypad key and runs no instruction until one
    /// goes down.
    AwaitingKey,
    /// The instruction word, given here, is not in the instruction set. It
    /// was skipped and had no effect.
    UnknownOpcode(u16),
}

/// Where the machine stands in time.
pub struct Pace {
    /// Millionths of a timer tick carried over.
    pub credit: nat,
    /// Microseconds since the last processor turn, `None` before the first.
    pub since_turn: Option<u64>,
}

/// The whole machine as mathematical values.
#[verifier::ext_equal]
pub struct Machine {
    pub ram: RamState,
    /// 32 rows of 64 pixels, `true` for lit.
    pub screen: Seq<Seq<bool>>,
    pub keys: KeyboardState,
    /// The register that waits for a key, while the machine is blocked.
    pub waiting: Option<u8>,
    pub pace: Pace,
}

/// A machine state together with what the step that led to it reported.
pub struct Step {
    pub machine: Machine,
    pub result: Result<Outcome, Fault>,
}

/// The flag byte for a condition.
pub open spec fn flag(condition: bool) -> u8 {
    if condition {
        1
    } else {
        0
    }
}

/// A step that only changed memory, registers, stack or timers.
pub open spec fn proceed(m: Machine, ram: RamState) -> Step {
    Step { machine: Machine { ram, ..m }, result: Ok(Outcome::Continue) }
}

/// A step that stopped on a fault and changed nothing.
pub open spec fn stop(m: Machine, fault: Fault) -> Step {
    Step { machine: m, result: Err(fault) }
}

/// A step over a word that is no instruction: nothing changes.
pub open spec fn unknown(m: Machine, d: Instruction) -> Step {
    Step {
        machine: m,
        result: Ok(
            Outcome::UnknownOpcode((d.instruction_bytes[0] * 256 + d.instruction_bytes[1]) as u16),
        ),
    }
}

/// The state after a skip instruction: `PC` moves on by two more if the
/// condition holds.
pub open spec fn skip(ram: RamState, taken: bool) -> RamState {
    if taken {
        RamState { pc: (ram.pc + 2) as usize, ..ram }
    } else {
        ram
    }
}

/// The state with data register `x` set to `value`.
pub open spec fn with_register(ram: RamState, x: int, value: u8) -> RamState {
    RamState { v: ram.v.update(x, value), ..ram }
}

/// Whether `n` selects one of the register-to-register operations `8XYn`.
pub open spec fn alu_defined(n: u8) -> bool {
    n <= 7 || n == 0xE
}

/// The registers after `8XYn`. Addition writes the sum and then the carry
/// into `VF`. Subtractions and shifts write their flag into `VF` first and
/// then compute the result from the registers as they stand.
pub open spec fn alu(v: Seq<u8>, x: int, y: int, n: u8) -> Seq<u8> {
    if n == 0 {
        v.update(x, v[y])
    } else if n == 1 {
        v.update(x, v[x] | v[y])
    } else if n == 2 {
        v.update(x, v[x] & v[y])
    } else if n == 3 {
        v.update(x, v[x] ^ v[y])
    } else if n == 4 {
        v.update(x, ((v[x] + v[y]) % 256) as u8).update(0xF, flag(v[x] + v[y] > 0xFF))
    } else if n == 5 {
        let f = v.update(0xF, flag(v[x] > v[y]));
        f.update(x, ((f[x] - f[y]) % 256) as u8)
    } else if n == 6 {
        let f = v.update(0xF, v[x] % 2);
        f.update(x, f[x] / 2)
    } else if n == 7 {
        let f = v.update(0xF, flag(v[y] > v[x]));
        f.update(x, ((f[y] - f[x]) % 256) as u8)
    } else {
        let f = v.update(0xF, v[x] / 128);
        f.update(x, ((f[x] * 2) % 256) as u8)
    }
}

/// `00E0` clears the screen, `00EE` returns from a subroutine.
pub open spec fn step_system(m: Machine, d: Instruction) -> Step {
    let ram = m.ram;
    if d.x == 0 && d.nn == 0xE0 {
        Step { machine: Machine { screen: blank_screen(), ..m }, result: Ok(Outcome::Cleared) }
    } else if d.x == 0 && d.nn == 0xEE {
        if ram.stack.len() == 0 {
            stop(m, Fault::StackUnderflow)
        } else {
            proceed(m, RamState { pc: ram.stack.last(), stack: ram.stack.drop_last(), ..ram })
        }
    } else {
        unknown(m, d)
    }
}

/// `DXYN` draws the `N` bytes at `I` as a sprite at (`VX`, `VY`) and writes
/// the collision flag into `VF`.
pub open spec fn step_draw(m: Machine, d: Instruction) -> Step {
    let ram = m.ram;
    let start = ram.i as int;
    if start + d.n > 4096 {
        stop(m, Fault::MemoryFault)
    } else {
        let sprite = ram.mem.subrange(start, start + d.n);
        let coords = (ram.v[d.x as int], ram.v[d.y as int]);
        Step {
            machine: Machine {
                ram: with_register(ram, 0xF, flag(screen_collides(m.screen, coords, d.n, sprite))),
                screen: drawn_screen(m.screen, coords, d.n, sprite),
                ..m
            },
            result: Ok(Outcome::Drawn),
        }
    }
}

/// `EX9E` skips if the key named by the low nibble of `VX` is down, `EXA1`
/// if it is not.
pub open spec fn step_keys(m: Machine, d: Instruction) -> Step {
    let down = m.keys.pressed.contains(m.ram.v[d.x as int] % 16);
    if d.nn == 0x9E {
        proceed(m, skip(m.ram, down))
    } else if d.nn == 0xA1 {
        proceed(m, skip(m.ram, !down))
    } else {
        unknown(m, d)
    }
}

/// Memory after `FX55`: registers `V0..=VX` stored from address `I` on.
pub open spec fn stored_registers(ram: RamState, x: int) -> Seq<u8> {
    Seq::new(
        4096,
        |a: int|
            if ram.i <= a <= ram.i + x {
                ram.v[a - ram.i]
            } else {
                ram.mem[a]
            },
    )
}

/// Registers after `FX65`: `V0..=VX` loaded from address `I` on.
pub open spec fn loaded_registers(ram: RamState, x: int) -> Seq<u8> {
    Seq::new(
        16,
        |r: int|
            if r <= x {
                ram.mem[ram.i + r]
            } else {
                ram.v[r]
            },
    )
}

/// Memory after `FX33`: the hundreds, tens and ones digit of `value` at
/// `I`, `I + 1` and `I + 2`.
pub open spec fn stored_digits(ram: RamState, value: u8) -> Seq<u8> {
    ram.mem.update(ram.i as int, value / 100).update(ram.i + 1, (value / 10) % 10).update(
        ram.i + 2,
        value % 10,
    )
}

/// The instructions `FXnn`: timers, the key wait, index arithmetic, the
/// font address, decimal digits and block transfers.
pub open spec fn step_misc(m: Machine, d: Instruction) -> Step {
    let ram = m.ram;
    let x = d.x as int;
    let vx = ram.v[x];
    if d.nn == 0x07 {
        proceed(m, with_register(ram, x, ram.delay_timer))
    } else if d.nn == 0x0A {
        Step { machine: Machine { waiting: Some(d.x), ..m }, result: Ok(Outcome::AwaitingKey) }
    } else if d.nn == 0x15 {
        proceed(m, RamState { delay_timer: vx, ..ram })
    } else if d.nn == 0x18 {
        proceed(m, RamState { sound_timer: vx, ..ram })
    } else if d.nn == 0x1E {
        proceed(
            m,
            RamState {
                i: ((ram.i + vx) % 0x10000) as u16,
                v: ram.v.update(0xF, flag(ram.i + vx > 0xFFFF)),
                ..ram
            },
        )
    } else if d.nn == 0x29 {
        proceed(m, RamState { i: (0x50 + (vx % 16) * 5) as u16, ..ram })
    } else if d.nn == 0x33 {
        if ram.i + 2 >= 4096 {
            stop(m, Fault::MemoryFault)
        } else {
            proceed(m, RamState { mem: stored_digits(ram, vx), ..ram })
        }
    } else if d.nn == 0x55 {
        if ram.i + x >= 4096 {
            stop(m, Fault::MemoryFault)
        } else {
            proceed(m, RamState { mem: stored_registers(ram, x), ..ram })
        }
    } else if d.nn == 0x65 {
        if ram.i + x >= 4096 {
            stop(m, Fault::MemoryFault)
        } else {
            proceed(m, RamState { v: loaded_registers(ram, x), ..ram })
        }
    } else {
        unknown(m, d)
    }
}

/// What executing the decoded instruction `d` does to a machine whose `PC`
/// already points past it. `random` is the byte that `CXNN` draws.
pub open spec fn step(m: Machine, d: Instruction, random: u8) -> Step {
    let ram = m.ram;
    let x = d.x as int;
    let y = d.y as int;
    let vx = ram.v[x];
    let vy = ram.v[y];
    if d.first_nibble == 0x0 {
        step_system(m, d)
    } else if d.first_nibble == 0x1 {
        proceed(m, RamState { pc: d.nnn as usize, ..ram })
    } else if d.first_nibble == 0x2 {
        if ram.stack.len() >= 16 {
            stop(m, Fault::StackOverflow)
        } else {
            proceed(m, RamState { pc: d.nnn as usize, stack: ram.stack.push(ram.pc), ..ram })
        }
    } else if d.first_nibble == 0x3 {
        proceed(m, skip(ram, vx == d.nn))
    } else if d.first_nibble == 0x4 {
        proceed(m, skip(ram, vx != d.nn))
    } else if d.first_nibble == 0x5 {
        if d.n == 0 {
            proceed(m, skip(ram, vx == vy))
        } else {
            unknown(m, d)
        }
    } else if d.first_nibble == 0x6 {
        proceed(m, with_register(ram, x, d.nn))
    } else if d.first_nibble == 0x7 {
        proceed(m, with_register(ram, x, ((vx + d.nn) % 256) as u8))
    } else if d.first_nibble == 0x8 {
        if alu_defined(d.n) {
            proceed(m, RamState { v: alu(ram.v, x, y, d.n), ..ram })
        } else {
            unknown(m, d)
        }
    } else if d.first_nibble == 0x9 {
        if d.n == 0 {
            proceed(m, skip(ram, vx != vy))
        } else {
            unknown(m, d)
        }
    } else if d.first_nibble == 0xA {
        proceed(m, RamState { i: d.nnn, ..ram })
    } else if d.first_nibble == 0xB {
        proceed(m, RamState { pc: ((ram.v[0] + d.nnn) % 0x1000) as usize, ..ram })
    } else if d.first_nibble == 0xC {
        proceed(m, with_register(ram, x, random & d.nn))
    } else if d.first_nibble == 0xD {
        step_draw(m, d)
    } else if d.first_nibble == 0xE {
        step_keys(m, d)
    } else {
        step_misc(m, d)
    }
}

/// One turn of the processor. A machine that waits for a key does nothing.
/// Otherwise the two bytes at `PC` are fetched, `PC` moves past them, and
/// the instruction they decode to is executed. A fetch that would reach
/// outside memory is a fault and moves nothing.
pub open spec fn turn(m: Machine, random: u8) -> Step {
    if m.waiting is Some {
        Step { machine: m, result: Ok(Outcome::AwaitingKey) }
    } else if m.ram.pc + 1 >= 4096 {
        stop(m, Fault::MemoryFault)
    } else {
        let bytes = [m.ram.mem[m.ram.pc as int], m.ram.mem[m.ram.pc + 1]];
        step(
            Machine { ram: RamState { pc: (m.ram.pc + 2) as usize, ..m.ram }, ..m },
            decode(bytes),
            random,
        )
    }
}

/// Whether the next turn of `m` executes a `CXNN`, the one instruction that
/// takes a random byte.
pub open spec fn takes_random(m: Machine) -> bool {
    m.waiting is None && m.ram.pc + 1 < 4096 && m.ram.mem[m.ram.pc as int] / 16 == 0xC
}

/// The machine after a host key went up: the keypad lets go of the key it
/// stands for, if any.
pub open spec fn after_key_up(m: Machine, key: HostKey) -> Machine {
    Machine { keys: state_after_release(m.keys, key_hex(key)), ..m }
}

/// The machine after a host key went down: the keypad registers the press,
/// and a machine that waited for a key takes the keypad code of the key, if
/// it has one, into the waiting register and runs again.
pub open spec fn after_key_down(m: Machine, key: HostKey) -> Machine {
    let keys = state_after_press(m.keys, key);
    match (m.waiting, key_hex(key)) {
        (Some(x), Some(hex)) => if x < 16 {
            Machine { ram: with_register(m.ram, x as int, hex), keys, waiting: None, ..m }
        } else {
            Machine { keys, ..m }
        },
        _ => Machine { keys, ..m },
    }
}

/// What a stretch of time brought.
#[derive(Clone, Copy, Debug, PartialEq, Eq, Structural)]
pub struct Paced {
    /// Timer ticks that fell due.
    pub ticks: u64,
    /// Whether the tone is to sound (`true`) or to pause (`false`) from now
    /// on; `None` if no tick fell due and it stays as it is.
    pub tone: Option<bool>,
    /// What the processor turn reported, `None` if no turn was due yet.
    pub outcome: Option<Outcome>,
}

/// A machine state together with what the stretch of time that led to it
/// brought.
pub struct PacedStep {
    pub machine: Machine,
    pub result: Result<Paced, Fault>,
}

/// Microseconds since the last processor turn once `elapsed` more have
/// passed, held at the greatest number a `u64` takes.
pub open spec fn waited(since_turn: Option<u64>, elapsed: u64) -> Option<u64> {
    match since_turn {
        Some(micros) => Some(
            if micros + elapsed > u64::MAX {
                u64::MAX
            } else {
                (micros + elapsed) as u64
            },
        ),
        None => None,
    }
}

/// What `elapsed` microseconds do: first the timer ticks that fell due,
/// then, if the turn period has passed since the last processor turn or
/// there was none yet, one processor turn.
pub open spec fn paced_turn(m: Machine, elapsed: u64, random: u8) -> PacedStep {
    let ticks = ticks_due(m.pace.credit, elapsed as nat);
    let credit = credit_left(m.pace.credit, elapsed as nat);
    let tone = tone_after(m.ram.sound_timer, ticks);
    let ticked = Machine { ram: timers_run(m.ram, ticks), ..m };
    let since_turn = waited(m.pace.since_turn, elapsed);
    if turn_due(since_turn) {
        let turned = turn(Machine { pace: Pace { credit, since_turn: Some(0) }, ..ticked }, random);
        PacedStep {
            machine: turned.machine,
            result: match turned.result {
                Ok(outcome) => Ok(Paced { ticks: ticks as u64, tone, outcome: Some(outcome) }),
                Err(fault) => Err(fault),
            },
        }
    } else {
        PacedStep {
            machine: Machine { pace: Pace { credit, since_turn }, ..ticked },
            result: Ok(Paced { ticks: ticks as u64, tone, outcome: None }),
        }
    }
}

} // verus!
