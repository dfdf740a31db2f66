//! The processor: fetch, decode and execute, one instruction per turn.

use crate::display::{blank_screen, Display, DrawInfo, PIXEL_OFF, PIXEL_ON};
use crate::fault::Fault;
use crate::instruction::{lemma_decode_arithmetic, Instruction};
use crate::keyboard::{HostKey, Keyboard, KeyboardState};
use crate::machine::{
    after_key_down, after_key_up, alu, alu_defined, loaded_registers, paced_turn, proceed, skip,
    step, step_draw, step_keys, step_misc, step_system, stored_digits, stored_registers,
    takes_random, turn, unknown, waited, Machine, Outcome, Pace, Paced, PacedStep, Step,
};
use crate::ram::{loaded_state, timers_run, tone_after, Ram, RamState, Timer, MEMORY_SIZE};
use crate::timing::{
    clock_now, credit_left, is_turn_due, ticks_due, time_since, turn_due, whole_micros, TimerClock,
};
use std::time::Instant;
use vstd::prelude::*;

verus! {

/// A byte drawn by `rand::random::<u8>`. Nothing is claimed of its value.
#[verifier::external_body]
fn random_byte() -> u8 {
    rand::random::<u8>()
}

/// The whole machine: memory and registers, the frame buffer, the keypad,
/// and where it stands in time.
pub struct Emulator {
    display: Display,
    keyboard: Keyboard,
    loaded_ram: Ram,
    awaiting_key: Option<u8>,
    timer_clock: TimerClock,
    since_turn: Option<u64>,
    started: Option<Instant>,
    seen_micros: u64,
}

impl View for Emulator {
    type V = Machine;

    closed spec fn view(&self) -> Machine {
        Machine {
            ram: self.loaded_ram@,
            screen: self.display@,
            keys: self.keyboard@,
            waiting: self.awaiting_key,
            pace: Pace { credit: self.timer_clock.credit(), since_turn: self.since_turn },
        }
    }
}

/// The machine right after booting `program`.
pub open spec fn booted(program: Seq<u8>) -> Machine {
    Machine {
        ram: loaded_state(program),
        screen: blank_screen(),
        keys: KeyboardState { pressed: Set::empty(), last_pressed: None },
        waiting: None,
        pace: Pace { credit: 0, since_turn: None },
    }
}

impl Emulator {
    /// Builds a machine around `program`. Fails exactly when the program
    /// does not fit into memory.
    pub fn boot(program: Vec<u8>) -> (out: Result<Emulator, Fault>)
        ensures
            program@.len() <= 4096 - 0x200 ==> out is Ok && out->Ok_0@ == booted(program@)
                && out->Ok_0.canvas().wf(),
            program@.len() > 4096 - 0x200 ==> out is Err && out->Err_0 == Fault::ProgramTooLarge,
    {
        match Ram::load(program.as_slice()) {
            Ok(loaded_ram) => {
                let emulator = Emulator {
                    display: Display::new(),
                    keyboard: Keyboard::new(),
                    loaded_ram,
                    awaiting_key: None,
                    timer_clock: TimerClock::new(),
                    since_turn: None,
                    started: None,
                    seen_micros: 0,
                };
                assert(emulator@ =~= booted(program@));
                Ok(emulator)
            },
            Err(fault) => Err(fault),
        }
    }

    /// Memory, registers, stack and timers.
    pub fn ram(&self) -> (out: &Ram)
        ensures
            out@ == self@.ram,
    {
        &self.loaded_ram
    }

    /// The frame buffer as it stands. A machine is booted with a frame
    /// buffer in which every pixel holds one of the two pixel patterns
    /// (`canvas().wf()`), and everything a machine does keeps it so.
    pub closed spec fn canvas(&self) -> Display {
        self.display
    }

    /// The frame buffer.
    pub fn display(&self) -> (out: &Display)
        ensures
            *out == self.canvas(),
            out@ == self@.screen,
    {
        &self.display
    }

    /// The frame buffer as one flat vector for the renderer: rows top to
    /// bottom, pixels left to right, four bytes a pixel.
    pub fn frame(&mut self) -> (out: Vec<u8>)
        ensures
            *final(self) == *old(self),
            out@.len() == 32 * 64 * 4,
            forall|row: int, col: int, k: int|
                0 <= row < 32 && 0 <= col < 64 && 0 <= k < 4 ==> out@[(row * 64 + col) * 4 + k]
                    == (#[trigger] old(self).canvas().cell(row, col)[k]),
            old(self).canvas().wf() ==> forall|row: int, col: int, k: int|
                #![trigger old(self).canvas().cell(row, col)[k]]
                0 <= row < 32 && 0 <= col < 64 && 0 <= k < 4 ==> out@[(row * 64 + col) * 4 + k]
                    == (if old(self)@.screen[row][col] {
                    PIXEL_ON[k]
                } else {
                    PIXEL_OFF[k]
                }),
    {
        self.display.get_raw_bytes()
    }

    /// The keypad.
    pub fn keyboard(&self) -> (out: &Keyboard)
        ensures
            out@ == self@.keys,
    {
        &self.keyboard
    }

    /// Whether the machine is blocked until a keypad key goes down.
    pub fn is_awaiting_key(&self) -> (out: bool)
        ensures
            out == (self@.waiting is Some),
    {
        self.awaiting_key.is_some()
    }

    /// The hundreds, tens and ones digit of `value`.
    pub fn get_nums(value: &u8) -> (out: (u8, u8, u8))
        ensures
            out.0 == *value / 100,
            out.1 == (*value / 10) % 10,
            out.2 == *value % 10,
            out.0 * 100 + out.1 * 10 + out.2 == *value,
            out.0 <= 2 && out.1 <= 9 && out.2 <= 9,
    {
        let hundreds_digit: u8 = *value / 100;
        let tens_digit: u8 = (*value / 10) % 10;
        let ones_digit: u8 = *value % 10;
        (hundreds_digit, tens_digit, ones_digit)
    }

    fn is_pressed(&self, key_code: u8) -> (out: bool)
        ensures
            out == self@.keys.pressed.contains(key_code),
    {
        self.keyboard.is_pressed(key_code)
    }

    /// `PC` moves on by two more if `taken` holds.
    fn skip_if(&mut self, taken: bool)
        requires
            old(self)@.ram.pc + 2 <= usize::MAX,
        ensures
            old(self).canvas().wf() ==> final(self).canvas().wf(),
            final(self)@ == (Machine { ram: skip(old(self)@.ram, taken), ..old(self)@ }),
    {
        if taken {
            self.loaded_ram.PC += 2;
        }
    }

    /// The instructions `00E0` and `00EE`.
    fn execute_system(&mut self, d: &Instruction) -> (out: Result<Outcome, Fault>)
        requires
            d.wf(),
        ensures
            old(self).canvas().wf() ==> final(self).canvas().wf(),
            (Step { machine: final(self)@, result: out }) == step_system(old(self)@, *d),
    {
        if d.x == 0 && d.nn == 0xE0 {
            self.display.clear();
            Ok(Outcome::Cleared)
        } else if d.x == 0 && d.nn == 0xEE {
            match self.loaded_ram.remove_addr() {
                Some(return_addr) => {
                    self.loaded_ram.PC = return_addr;
                    Ok(Outcome::Continue)
                },
                None => Err(Fault::StackUnderflow),
            }
        } else {
            Ok(Outcome::UnknownOpcode(d.word()))
        }
    }

    /// The registers after the register-to-register instruction `8XYn`.
    #[verifier::rlimit(40)]
    fn alu_registers(registers: [u8; 16], x: usize, y: usize, n: u8) -> (out: [u8; 16])
        requires
            x < 16,
            y < 16,
            alu_defined(n),
        ensures
            out@ == alu(registers@, x as int, y as int, n),
    {
        let mut v: [u8; 16] = registers;
        let vx: u8 = v[x];
        let vy: u8 = v[y];
        if n == 0 {
            v[x] = vy;
        } else if n == 1 {
            v[x] = vx | vy;
        } else if n == 2 {
            v[x] = vx & vy;
        } else if n == 3 {
            v[x] = vx ^ vy;
        } else if n == 4 {
            let sum: u16 = vx as u16 + vy as u16;
            v[x] = (sum % 256) as u8;
            v[0xF] = if sum > 0xFF {
                1
            } else {
                0
            };
        } else if n == 5 {
            v[0xF] = if vx > vy {
                1
            } else {
                0
            };
            let minuend: u8 = v[x];
            let subtrahend: u8 = v[y];
            let difference: u16 = (minuend as u16 + 256 - subtrahend as u16) % 256;
            assert(difference == (minuend - subtrahend) % 256);
            v[x] = difference as u8;
        } else if n == 6 {
            v[0xF] = vx % 2;
            let operand: u8 = v[x];
            v[x] = operand / 2;
        } else if n == 7 {
            v[0xF] = if vy > vx {
                1
            } else {
                0
            };
            let minuend: u8 = v[y];
            let subtrahend: u8 = v[x];
            let difference: u16 = (minuend as u16 + 256 - subtrahend as u16) % 256;
            assert(difference == (minuend - subtrahend) % 256);
            v[x] = difference as u8;
        } else {
            v[0xF] = vx / 128;
            let operand: u8 = v[x];
            v[x] = ((operand as u16 * 2) % 256) as u8;
        }
        assert(v@ =~= alu(registers@, x as int, y as int, n));
        v
    }

    /// The register-to-register instructions `8XYn`.
    fn execute_alu(&mut self, d: &Instruction) -> (out: Result<Outcome, Fault>)
        requires
            d.wf(),
        ensures
            old(self).canvas().wf() ==> final(self).canvas().wf(),
            (Step { machine: final(self)@, result: out }) == (if alu_defined(d.n) {
                proceed(
                    old(self)@,
                    RamState {
                        v: alu(old(self)@.ram.v, d.x as int, d.y as int, d.n),
                        ..old(self)@.ram
                    },
                )
            } else {
                unknown(old(self)@, *d)
            }),
    {
        proof {
            lemma_decode_arithmetic(d.instruction_bytes);
        }
        if d.n <= 7 || d.n == 0xE {
            self.loaded_ram.V = Self::alu_registers(
                self.loaded_ram.V,
                d.x as usize,
                d.y as usize,
                d.n,
            );
            Ok(Outcome::Continue)
        } else {
            Ok(Outcome::UnknownOpcode(d.word()))
        }
    }

    /// The instruction `DXYN`.
    fn execute_draw(&mut self, d: &Instruction) -> (out: Result<Outcome, Fault>)
        requires
            d.wf(),
        ensures
            old(self).canvas().wf() ==> final(self).canvas().wf(),
            (Step { machine: final(self)@, result: out }) == step_draw(old(self)@, *d),
    {
        proof {
            lemma_decode_arithmetic(d.instruction_bytes);
        }
        let start: usize = self.loaded_ram.I as usize;
        let rows: usize = d.n as usize;
        if start + rows > MEMORY_SIZE {
            return Err(Fault::MemoryFault);
        }
        let mut sprite: Vec<u8> = Vec::new();
        let mut k: usize = 0;
        while k < rows
            invariant
                k <= rows,
                start + rows <= 4096,
                *self == *old(self),
                start == self.loaded_ram.I,
                sprite@ == self.loaded_ram.mem@.subrange(start as int, start + k),
            decreases rows - k,
        {
            sprite.push(self.loaded_ram.mem[start + k]);
            assert(sprite@ =~= self.loaded_ram.mem@.subrange(start as int, start + k + 1));
            k += 1;
        }
        let coords: (u8, u8) = (self.loaded_ram.V[d.x as usize], self.loaded_ram.V[d.y as usize]);
        let draw_info = DrawInfo { coords, row_count: d.n, sprites: sprite.as_slice() };
        let collision: bool = self.display.draw(draw_info);
        self.loaded_ram.update_vf_register(collision);
        Ok(Outcome::Drawn)
    }

    /// The instructions `EX9E` and `EXA1`.
    fn execute_keys(&mut self, d: &Instruction) -> (out: Result<Outcome, Fault>)
        requires
            d.wf(),
            old(self)@.ram.pc + 2 <= usize::MAX,
        ensures
            old(self).canvas().wf() ==> final(self).canvas().wf(),
            (Step { machine: final(self)@, result: out }) == step_keys(old(self)@, *d),
    {
        proof {
            lemma_decode_arithmetic(d.instruction_bytes);
        }
        let down: bool = self.is_pressed(self.loaded_ram.V[d.x as usize] % 16);
        if d.nn == 0x9E {
            self.skip_if(down);
            Ok(Outcome::Continue)
        } else if d.nn == 0xA1 {
            self.skip_if(!down);
            Ok(Outcome::Continue)
        } else {
            Ok(Outcome::UnknownOpcode(d.word()))
        }
    }

    /// The instructions `FXnn`.
    fn execute_misc(&mut self, d: &Instruction) -> (out: Result<Outcome, Fault>)
        requires
            d.wf(),
        ensures
            old(self).canvas().wf() ==> final(self).canvas().wf(),
            (Step { machine: final(self)@, result: out }) == step_misc(old(self)@, *d),
    {
        proof {
            lemma_decode_arithmetic(d.instruction_bytes);
        }
        let x: usize = d.x as usize;
        let vx: u8 = self.loaded_ram.V[x];
        let index: usize = self.loaded_ram.I as usize;
        if d.nn == 0x07 {
            let current_delay_value: u8 = self.loaded_ram.get_timer_register(Timer::Delay);
            self.loaded_ram.set_register(x, current_delay_value);
        } else if d.nn == 0x0A {
            self.awaiting_key = Some(d.x);
            return Ok(Outcome::AwaitingKey);
        } else if d.nn == 0x15 {
            self.loaded_ram.set_timer_register(Timer::Delay, vx);
        } else if d.nn == 0x18 {
            self.loaded_ram.set_timer_register(Timer::Sound, vx);
        } else if d.nn == 0x1E {
            let sum: u32 = self.loaded_ram.I as u32 + vx as u32;
            self.loaded_ram.set_i_register((sum % 0x10000) as u16);
            self.loaded_ram.update_vf_register(sum > 0xFFFF);
        } else if d.nn == 0x29 {
            self.loaded_ram.set_i_register(0x50 + (vx % 16) as u16 * 5);
        } else if d.nn == 0x33 {
            if index + 2 >= MEMORY_SIZE {
                return Err(Fault::MemoryFault);
            }
            let (hundred, ten, one) = Self::get_nums(&vx);
            self.loaded_ram.mem[index] = hundred;
            self.loaded_ram.mem[index + 1] = ten;
            self.loaded_ram.mem[index + 2] = one;
            assert(self@.ram.mem =~= stored_digits(old(self)@.ram, vx));
        } else if d.nn == 0x55 {
            if index + x >= MEMORY_SIZE {
                return Err(Fault::MemoryFault);
            }
            let mut r: usize = 0;
            while r <= x
                invariant
                    r <= x + 1,
                    x < 16,
                    index + x < 4096,
                    index == old(self).loaded_ram.I,
                    self@ == (Machine { ram: self@.ram, ..old(self)@ }),
                    self.canvas() == old(self).canvas(),
                    self@.ram == (RamState { mem: self@.ram.mem, ..old(self)@.ram }),
                    forall|a: int|
                        0 <= a < 4096 ==> #[trigger] self.loaded_ram.mem@[a] == (if index <= a
                            < index + r {
                            old(self).loaded_ram.V@[a - index]
                        } else {
                            old(self).loaded_ram.mem@[a]
                        }),
                decreases x + 1 - r,
            {
                self.loaded_ram.mem[index + r] = self.loaded_ram.V[r];
                r += 1;
            }
            assert(self@.ram.mem =~= stored_registers(old(self)@.ram, x as int));
        } else if d.nn == 0x65 {
            if index + x >= MEMORY_SIZE {
                return Err(Fault::MemoryFault);
            }
            let mut r: usize = 0;
            while r <= x
                invariant
                    r <= x + 1,
                    x < 16,
                    index + x < 4096,
                    index == old(self).loaded_ram.I,
                    self@ == (Machine { ram: self@.ram, ..old(self)@ }),
                    self.canvas() == old(self).canvas(),
                    self@.ram == (RamState { v: self@.ram.v, ..old(self)@.ram }),
                    forall|k: int|
                        0 <= k < 16 ==> #[trigger] self.loaded_ram.V@[k] == (if k < r {
                            old(self).loaded_ram.mem@[index + k]
                        } else {
                            old(self).loaded_ram.V@[k]
                        }),
                decreases x + 1 - r,
            {
                self.loaded_ram.V[r] = self.loaded_ram.mem[index + r];
                r += 1;
            }
            assert(self@.ram.v =~= loaded_registers(old(self)@.ram, x as int));
        } else {
            return Ok(Outcome::UnknownOpcode(d.word()));
        }
        Ok(Outcome::Continue)
    }

    /// Executes one decoded instruction on a machine whose `PC` already
    /// points past it. `random` is the byte that `CXNN` takes.
    pub fn execute(&mut self, instruction: &Instruction, random: u8) -> (out: Result<
        Outcome,
        Fault,
    >)
        requires
            instruction.wf(),
            old(self)@.ram.pc + 2 <= usize::MAX,
        ensures
            old(self).canvas().wf() ==> final(self).canvas().wf(),
            (Step { machine: final(self)@, result: out }) == step(old(self)@, *instruction, random),
    {
        proof {
            lemma_decode_arithmetic(instruction.instruction_bytes);
        }
        let d: &Instruction = instruction;
        let x: usize = d.x as usize;
        let y: usize = d.y as usize;
        let vx: u8 = self.loaded_ram.V[x];
        let vy: u8 = self.loaded_ram.V[y];
        match d.first_nibble {
            0x0 => {
                return self.execute_system(d);
            },
            0x1 => {
                self.loaded_ram.PC = d.nnn as usize;
            },
            0x2 => {
                let return_addr: usize = self.loaded_ram.PC;
                match self.loaded_ram.store_addr(return_addr) {
                    Ok(()) => {
                        self.loaded_ram.PC = d.nnn as usize;
                    },
                    Err(fault) => {
                        return Err(fault);
                    },
                }
            },
            0x3 => self.skip_if(vx == d.nn),
            0x4 => self.skip_if(vx != d.nn),
            0x5 => {
                if d.n != 0 {
                    return Ok(Outcome::UnknownOpcode(d.word()));
                }
                self.skip_if(vx == vy);
            },
            0x6 => self.loaded_ram.set_register(x, d.nn),
            0x7 => {
                let sum: u16 = vx as u16 + d.nn as u16;
                self.loaded_ram.set_register(x, (sum % 256) as u8);
            },
            0x8 => {
                return self.execute_alu(d);
            },
            0x9 => {
                if d.n != 0 {
                    return Ok(Outcome::UnknownOpcode(d.word()));
                }
                self.skip_if(vx != vy);
            },
            0xA => self.loaded_ram.set_i_register(d.nnn),
            0xB => {
                let target: u16 = (self.loaded_ram.V[0] as u16 + d.nnn) % 0x1000;
                self.loaded_ram.PC = target as usize;
            },
            0xC => self.loaded_ram.set_register(x, random & d.nn),
            0xD => {
                return self.execute_draw(d);
            },
            0xE => {
                return self.execute_keys(d);
            },
            _ => {
                return self.execute_misc(d);
            },
        }
        Ok(Outcome::Continue)
    }

    /// One turn of the processor with `random` as the byte that a `CXNN`
    /// would take: nothing while the machine waits for a key, else fetch,
    /// decode and execute.
    pub fn process_instruction_with(&mut self, random: u8) -> (out: Result<Outcome, Fault>)
        ensures
            old(self).canvas().wf() ==> final(self).canvas().wf(),
            (Step { machine: final(self)@, result: out }) == turn(old(self)@, random),
    {
        if self.awaiting_key.is_some() {
            return Ok(Outcome::AwaitingKey);
        }
        match self.loaded_ram.get_next_instruction() {
            Ok(instruction_bytes) => {
                let parsed_instruction = Instruction::from(instruction_bytes);
                assert(instruction_bytes == [
                    old(self)@.ram.mem[old(self)@.ram.pc as int],
                    old(self)@.ram.mem[old(self)@.ram.pc + 1],
                ]);
                self.execute(&parsed_instruction, random)
            },
            Err(fault) => Err(fault),
        }
    }

    /// One turn of the processor. Only when the next instruction is a
    /// `CXNN` is a random byte drawn; what the turn does is then what
    /// `turn` says for some byte.
    pub fn process_instruction(&mut self) -> (out: Result<Outcome, Fault>)
        ensures
            old(self).canvas().wf() ==> final(self).canvas().wf(),
            exists|random: u8|
                (Step { machine: final(self)@, result: out }) == #[trigger] turn(
                    old(self)@,
                    random,
                ),
            !takes_random(old(self)@) ==> (Step { machine: final(self)@, result: out }) == turn(
                old(self)@,
                0,
            ),
    {
        let random: u8 = if self.next_draws_random() {
            random_byte()
        } else {
            0
        };
        self.process_instruction_with(random)
    }

    /// Whether the next turn executes a `CXNN`.
    fn next_draws_random(&self) -> (out: bool)
        ensures
            out == takes_random(self@),
    {
        let pc: usize = self.loaded_ram.PC;
        if self.awaiting_key.is_none() && pc < MEMORY_SIZE - 1 {
            let hi_byte: u8 = self.loaded_ram.mem[pc];
            assert(hi_byte >> 4 == hi_byte / 16) by (bit_vector);
            hi_byte >> 4 == 0xC
        } else {
            false
        }
    }

    /// Registers a host key going down. The keypad takes the press; a
    /// machine that waits for a key takes the key's keypad code, if it has
    /// one, into the waiting register and runs again.
    pub fn key_down(&mut self, key: HostKey)
        ensures
            old(self).canvas().wf() ==> final(self).canvas().wf(),
            final(self)@ == after_key_down(old(self)@, key),
    {
        self.keyboard.press_key(key);
        if let Some(x) = self.awaiting_key {
            if let Some(hex) = Keyboard::scancode_to_hex(key) {
                if x < 16 {
                    self.loaded_ram.set_register(x as usize, hex);
                    self.awaiting_key = None;
                }
            }
        }
    }

    /// Registers a host key going up: the keypad lets go of the key it
    /// stands for.
    pub fn key_up(&mut self, key: HostKey)
        ensures
            old(self).canvas().wf() ==> final(self).canvas().wf(),
            final(self)@ == after_key_up(old(self)@, key),
    {
        self.keyboard.release_scancode(key);
    }

    /// Lets `elapsed_micros` microseconds pass with `random` as the byte
    /// that a `CXNN` would take: the timer ticks that fell due are applied,
    /// and one processor turn is taken if the turn period has passed since
    /// the last turn, or if there has been none.
    pub fn cycle_with(&mut self, elapsed_micros: u64, random: u8) -> (out: Result<Paced, Fault>)
        ensures
            old(self).canvas().wf() ==> final(self).canvas().wf(),
            (PacedStep { machine: final(self)@, result: out }) == paced_turn(
                old(self)@,
                elapsed_micros,
                random,
            ),
    {
        let (ticks, tone, due) = self.pass_time(elapsed_micros);
        if due {
            self.since_turn = Some(0);
            match self.process_instruction_with(random) {
                Ok(outcome) => Ok(Paced { ticks, tone, outcome: Some(outcome) }),
                Err(fault) => Err(fault),
            }
        } else {
            Ok(Paced { ticks, tone, outcome: None })
        }
    }

    /// Reads the host's clock and lets the whole microseconds pass that
    /// have gone by since the last reading; the clock starts at the first
    /// reading. What happens is what `paced_turn` says for some elapsed time
    /// and some random byte.
    pub fn cycle(&mut self) -> (out: Result<Paced, Fault>)
        ensures
            old(self).canvas().wf() ==> final(self).canvas().wf(),
            exists|elapsed: u64, random: u8|
                (PacedStep { machine: final(self)@, result: out }) == #[trigger] paced_turn(
                    old(self)@,
                    elapsed,
                    random,
                ),
    {
        let elapsed: u64 = self.read_clock();
        let (ticks, tone, due) = self.pass_time(elapsed);
        if due {
            self.since_turn = Some(0);
            let ghost ticked = self@;
            let turned = self.process_instruction();
            proof {
                let random = choose|random: u8|
                    (Step { machine: self@, result: turned }) == #[trigger] turn(ticked, random);
                assert((PacedStep {
                    machine: self@,
                    result: match turned {
                        Ok(outcome) => Ok(Paced { ticks, tone, outcome: Some(outcome) }),
                        Err(fault) => Err(fault),
                    },
                }) == paced_turn(old(self)@, elapsed, random));
            }
            match turned {
                Ok(outcome) => Ok(Paced { ticks, tone, outcome: Some(outcome) }),
                Err(fault) => Err(fault),
            }
        } else {
            assert((PacedStep { machine: self@, result: Ok(Paced { ticks, tone, outcome: None }) })
                == paced_turn(old(self)@, elapsed, 0));
            Ok(Paced { ticks, tone, outcome: None })
        }
    }

    /// Reads the host's clock, which the first reading starts, and returns
    /// how far the count of microseconds seen went on, which is never back.
    fn read_clock(&mut self) -> (elapsed: u64)
        ensures
            old(self).canvas().wf() ==> final(self).canvas().wf(),
            final(self)@ == old(self)@,
            final(self).clock_started(),
            final(self).seen() >= old(self).seen(),
            elapsed == final(self).seen() - old(self).seen(),
            !old(self).clock_started() ==> elapsed == 0,
    {
        let total: u128 = match &self.started {
            Some(start) => whole_micros(&time_since(start)),
            None => {
                self.started = Some(clock_now());
                0
            },
        };
        self.take_reading(total)
    }

    /// Whether the host's clock has been read before.
    spec fn clock_started(&self) -> bool {
        self.started is Some
    }

    /// Microseconds of the host's clock that the machine has seen pass.
    spec fn seen(&self) -> u64 {
        self.seen_micros
    }

    /// Takes a reading of `total` microseconds on the host's clock: the
    /// count of microseconds seen goes on to the reading, and how far it
    /// went on is returned. A reading that lies behind the count moves
    /// nothing.
    fn take_reading(&mut self, total: u128) -> (elapsed: u64)
        ensures
            old(self).canvas().wf() ==> final(self).canvas().wf(),
            final(self)@ == old(self)@,
            final(self).clock_started() == old(self).clock_started(),
            final(self).seen() == crate::timing::seen_after(old(self).seen(), total),
            elapsed == final(self).seen() - old(self).seen(),
    {
        let total: u64 = if total > u64::MAX as u128 {
            u64::MAX
        } else {
            total as u64
        };
        if total > self.seen_micros {
            let elapsed: u64 = total - self.seen_micros;
            self.seen_micros = total;
            elapsed
        } else {
            0
        }
    }

    /// Applies the timer ticks that fall due in `elapsed_micros`
    /// microseconds and says whether a processor turn is due.
    fn pass_time(&mut self, elapsed_micros: u64) -> (out: (u64, Option<bool>, bool))
        ensures
            old(self).canvas().wf() ==> final(self).canvas().wf(),
            out.0 == ticks_due(old(self)@.pace.credit, elapsed_micros as nat),
            out.1 == tone_after(old(self)@.ram.sound_timer, out.0 as nat),
            out.2 == turn_due(waited(old(self)@.pace.since_turn, elapsed_micros)),
            final(self)@ == (Machine {
                ram: timers_run(old(self)@.ram, out.0 as nat),
                pace: Pace {
                    credit: credit_left(old(self)@.pace.credit, elapsed_micros as nat),
                    since_turn: waited(old(self)@.pace.since_turn, elapsed_micros),
                },
                ..old(self)@
            }),
    {
        let ticks: u64 = self.timer_clock.advance(elapsed_micros);
        let tone: Option<bool> = self.loaded_ram.run_timers(ticks);
        self.since_turn = match self.since_turn {
            Some(micros) => Some(
                if micros > u64::MAX - elapsed_micros {
                    u64::MAX
                } else {
                    micros + elapsed_micros
                },
            ),
            None => None,
        };
        (ticks, tone, is_turn_due(self.since_turn))
    }
}

} // verus!
