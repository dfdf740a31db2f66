//! Memory, registers, the return stack and the two timers.

use crate::fault::Fault;
use vstd::prelude::*;

verus! {

/// Number of addressable bytes.
pub const MEMORY_SIZE: usize = 4096;

/// Address of the first glyph of the built-in font.
pub const FONT_START: usize = 0x50;

/// Number of bytes in the built-in font: sixteen glyphs of five rows.
pub const FONT_SIZE: usize = 80;

/// Greatest number of return addresses the stack can hold.
pub const STACK_DEPTH: usize = 16;

/// Selects one of the two countdown timers.
#[derive(Debug)]
pub enum Timer {
    Delay,
    Sound,
}

/// The mutable heart of the machine.
#[derive(Debug)]
#[allow(non_snake_case)]
pub struct Ram {
    pub mem: [u8; 4096],
    pub PC: usize,
    pub V: [u8; 16],
    pub I: u16,
    pub stack: Vec<usize>,
    pub delay_timer: u8,
    pub sound_timer: u8,
}

/// The contents of a `Ram` as mathematical values.
pub struct RamState {
    pub mem: Seq<u8>,
    pub pc: usize,
    pub v: Seq<u8>,
    pub i: u16,
    pub stack: Seq<usize>,
    pub delay_timer: u8,
    pub sound_timer: u8,
}

impl View for Ram {
    type V = RamState;

    open spec fn view(&self) -> RamState {
        RamState {
            mem: self.mem@,
            pc: self.PC,
            v: self.V@,
            i: self.I,
            stack: self.stack@,
            delay_timer: self.delay_timer,
            sound_timer: self.sound_timer,
        }
    }
}

/// The eighty bytes of the built-in hexadecimal font, glyph `0` first.
pub open spec fn font() -> Seq<u8> {
    Ram::FONT@
}

/// Memory right after loading `program`: the font at `0x050`, the program
/// at `0x200`, zero everywhere else.
pub open spec fn loaded_memory(program: Seq<u8>) -> Seq<u8> {
    Seq::new(
        4096,
        |a: int|
            if 0x50 <= a < 0xA0 {
                font()[a - 0x50]
            } else if 0x200 <= a < 0x200 + program.len() {
                program[a - 0x200]
            } else {
                0u8
            },
    )
}

/// The machine state right after loading `program`.
pub open spec fn loaded_state(program: Seq<u8>) -> RamState {
    RamState {
        mem: loaded_memory(program),
        pc: 0x200,
        v: Seq::new(16, |r: int| 0u8),
        i: 0,
        stack: Seq::empty(),
        delay_timer: 0,
        sound_timer: 0,
    }
}

/// A timer's value after `ticks` sixty-hertz ticks: each tick takes one
/// off a timer that is not zero.
pub open spec fn timer_after(value: u8, ticks: nat) -> u8 {
    if ticks >= value {
        0
    } else {
        (value - ticks) as u8
    }
}

/// The state after `ticks` sixty-hertz ticks.
pub open spec fn timers_run(ram: RamState, ticks: nat) -> RamState {
    RamState {
        delay_timer: timer_after(ram.delay_timer, ticks),
        sound_timer: timer_after(ram.sound_timer, ticks),
        ..ram
    }
}

/// What `ticks` ticks ask of the tone generator: nothing without a tick,
/// else to sound if the sound timer was not yet zero at the last tick, and
/// to pause if it was.
pub open spec fn tone_after(sound_timer: u8, ticks: nat) -> Option<bool> {
    if ticks == 0 {
        None
    } else {
        Some(sound_timer >= ticks)
    }
}

impl Ram {
    pub const FONT: [u8; 80] = [
        0xF0, 0x90, 0x90, 0x90, 0xF0, // 0
        0x20, 0x60, 0x20, 0x20, 0x70, // 1
        0xF0, 0x10, 0xF0, 0x80, 0xF0, // 2
        0xF0, 0x10, 0xF0, 0x10, 0xF0, // 3
        0x90, 0x90, 0xF0, 0x10, 0x10, // 4
        0xF0, 0x80, 0xF0, 0x10, 0xF0, // 5
        0xF0, 0x80, 0xF0, 0x90, 0xF0, // 6
        0xF0, 0x10, 0x20, 0x40, 0x40, // 7
        0xF0, 0x90, 0xF0, 0x90, 0xF0, // 8
        0xF0, 0x90, 0xF0, 0x10, 0xF0, // 9
        0xF0, 0x90, 0xF0, 0x90, 0x90, // A
        0xE0, 0x90, 0xE0, 0x90, 0xE0, // B
        0xF0, 0x80, 0x80, 0x80, 0xF0, // C
        0xE0, 0x90, 0x90, 0x90, 0xE0, // D
        0xF0, 0x80, 0xF0, 0x80, 0xF0, // E
        0xF0, 0x80, 0xF0, 0x80, 0x80, // F
    ];

    pub const START_PRGM_REGISTER: usize = 0x200;

    /// Builds the initial machine state around `program`. Fails exactly when
    /// the program does not fit between `0x200` and the end of memory.
    pub fn load(program: &[u8]) -> (out: Result<Ram, Fault>)
        ensures
            program@.len() <= 4096 - 0x200 ==> out is Ok && out->Ok_0@ == loaded_state(program@),
            program@.len() > 4096 - 0x200 ==> out == Err::<Ram, Fault>(Fault::ProgramTooLarge),
    {
        let program_len: usize = program.len();
        if program_len > MEMORY_SIZE - Self::START_PRGM_REGISTER {
            return Err(Fault::ProgramTooLarge);
        }
        let mut memory: [u8; 4096] = [0; 4096];
        let mut k: usize = 0;
        while k < FONT_SIZE
            invariant
                k <= FONT_SIZE,
                forall|a: int| 0 <= a < 4096 ==> #[trigger] memory@[a] == (if 0x50 <= a < 0x50 + k {
                    font()[a - 0x50]
                } else {
                    0u8
                }),
            decreases FONT_SIZE - k,
        {
            memory[FONT_START + k] = Self::FONT[k];
            k += 1;
        }
        let mut j: usize = 0;
        while j < program_len
            invariant
                j <= program_len,
                program_len == program@.len(),
                program_len <= 4096 - 0x200,
                forall|a: int| 0 <= a < 4096 ==> #[trigger] memory@[a] == (if 0x50 <= a < 0xA0 {
                    font()[a - 0x50]
                } else if 0x200 <= a < 0x200 + j {
                    program@[a - 0x200]
                } else {
                    0u8
                }),
            decreases program_len - j,
        {
            memory[Self::START_PRGM_REGISTER + j] = program[j];
            j += 1;
        }
        let ram = Ram {
            mem: memory,
            stack: Vec::new(),
            V: [0; 16],
            I: 0,
            PC: Self::START_PRGM_REGISTER,
            delay_timer: 0,
            sound_timer: 0,
        };
        assert(ram@.mem =~= loaded_memory(program@));
        assert(ram@.v =~= Seq::new(16, |r: int| 0u8));
        assert(ram@.stack =~= Seq::empty());
        Ok(ram)
    }

    /// Reads the two bytes at `PC` and moves `PC` past them. Fails, leaving
    /// everything as it was, when either byte lies outside memory.
    pub fn get_next_instruction(&mut self) -> (out: Result<[u8; 2], Fault>)
        ensures
            old(self).PC + 1 < 4096 ==> out is Ok && out->Ok_0@ == seq![
                old(self).mem@[old(self).PC as int],
                old(self).mem@[old(self).PC + 1],
            ] && final(self)@ == (RamState { pc: (old(self).PC + 2) as usize, ..old(self)@ }),
            old(self).PC + 1 >= 4096 ==> out == Err::<[u8; 2], Fault>(Fault::MemoryFault)
                && *final(self) == *old(self),
    {
        if self.PC >= MEMORY_SIZE - 1 {
            return Err(Fault::MemoryFault);
        }
        let hi_byte: u8 = self.mem[self.PC];
        let lo_byte: u8 = self.mem[self.PC + 1];
        self.PC += 2;
        let bytes: [u8; 2] = [hi_byte, lo_byte];
        assert(bytes@ =~= seq![hi_byte, lo_byte]);
        Ok(bytes)
    }

    /// Writes the flag register: `VF` becomes 1 for `true`, 0 for `false`.
    pub fn update_vf_register(&mut self, should_update: bool)
        ensures
            final(self)@ == (RamState {
                v: old(self)@.v.update(
                    0xF,
                    if should_update {
                        1u8
                    } else {
                        0u8
                    },
                ),
                ..old(self)@
            }),
    {
        self.V[0xF] = if should_update {
            1
        } else {
            0
        };
    }

    /// Writes the index register.
    pub fn set_i_register(&mut self, value: u16)
        ensures
            final(self)@ == (RamState { i: value, ..old(self)@ }),
    {
        self.I = value;
    }

    /// Writes data register `idx`.
    pub fn set_register(&mut self, idx: usize, value: u8)
        requires
            idx < 16,
        ensures
            final(self)@ == (RamState { v: old(self)@.v.update(idx as int, value), ..old(self)@ }),
    {
        self.V[idx] = value;
    }

    /// Pushes a return address. Fails, leaving the stack as it was, when the
    /// stack already holds `STACK_DEPTH` addresses.
    pub fn store_addr(&mut self, addr: usize) -> (out: Result<(), Fault>)
        ensures
            old(self).stack@.len() < STACK_DEPTH ==> out is Ok && final(self)@ == (RamState {
                stack: old(self)@.stack.push(addr),
                ..old(self)@
            }),
            old(self).stack@.len() >= STACK_DEPTH ==> out == Err::<(), Fault>(Fault::StackOverflow)
                && *final(self) == *old(self),
    {
        if self.stack.len() >= STACK_DEPTH {
            return Err(Fault::StackOverflow);
        }
        self.stack.push(addr);
        Ok(())
    }

    /// Pops the most recently pushed return address, or returns `None` when
    /// the stack is empty.
    pub fn remove_addr(&mut self) -> (out: Option<usize>)
        ensures
            old(self).stack@.len() > 0 ==> out == Some(old(self).stack@.last()) && final(self)@ == (
            RamState { stack: old(self)@.stack.drop_last(), ..old(self)@ }),
            old(self).stack@.len() == 0 ==> out.is_none() && final(self)@ == old(self)@,
    {
        self.stack.pop()
    }

    /// Writes the chosen timer.
    pub fn set_timer_register(&mut self, which_timer: Timer, value: u8)
        ensures
            which_timer is Delay ==> final(self)@ == (RamState {
                delay_timer: value,
                ..old(self)@
            }),
            which_timer is Sound ==> final(self)@ == (RamState {
                sound_timer: value,
                ..old(self)@
            }),
    {
        match which_timer {
            Timer::Delay => self.delay_timer = value,
            Timer::Sound => self.sound_timer = value,
        }
    }

    /// Reads the chosen timer.
    pub fn get_timer_register(&mut self, which_timer: Timer) -> (out: u8)
        ensures
            *final(self) == *old(self),
            which_timer is Delay ==> out == old(self).delay_timer,
            which_timer is Sound ==> out == old(self).sound_timer,
    {
        match which_timer {
            Timer::Delay => self.delay_timer,
            Timer::Sound => self.sound_timer,
        }
    }

    /// One sixty-hertz tick: each timer that is not zero loses one. Returns
    /// whether the tone is to sound, which is while the sound timer was not
    /// zero at the tick.
    pub fn tick_timers(&mut self) -> (tone: bool)
        ensures
            final(self)@ == timers_run(old(self)@, 1),
            tone_after(old(self).sound_timer, 1) == Some(tone),
    {
        if self.delay_timer > 0 {
            self.delay_timer -= 1;
        }
        if self.sound_timer > 0 {
            self.sound_timer -= 1;
            true
        } else {
            false
        }
    }

    /// `ticks` sixty-hertz ticks at once. Returns what the last of them
    /// asks of the tone generator, `None` if there was no tick.
    pub fn run_timers(&mut self, ticks: u64) -> (tone: Option<bool>)
        ensures
            final(self)@ == timers_run(old(self)@, ticks as nat),
            tone == tone_after(old(self).sound_timer, ticks as nat),
    {
        if ticks == 0 {
            return None;
        }
        let tone: bool = self.sound_timer as u64 >= ticks;
        self.delay_timer = if ticks >= self.delay_timer as u64 {
            0
        } else {
            self.delay_timer - ticks as u8
        };
        self.sound_timer = if ticks >= self.sound_timer as u64 {
            0
        } else {
            self.sound_timer - ticks as u8
        };
        Some(tone)
    }
}

} // verus!
