use chip8::fault::Fault;
use chip8::ram::{Ram, Timer};

const PROGRAM: &[u8] = &[1, 2, 3, 4];

#[test]
fn loads_font() {
    let ram = Ram::load(&PROGRAM).unwrap();
    let end = 80 + Ram::FONT.len();
    assert_eq!(&ram.mem[80..end], Ram::FONT);
}

#[test]
fn loads_program() {
    let ram = Ram::load(&PROGRAM).unwrap();
    let end = ram.PC + PROGRAM.len();
    assert_eq!(&ram.mem[ram.PC..end], PROGRAM);
}

#[test]
fn sets_registers() {
    let mut ram = Ram::load(&PROGRAM).unwrap();
    ram.set_register(1, 10u8);
    assert_eq!(ram.V[1], 10u8)
}

#[test]
fn adds_address() {
    let mut ram = Ram::load(&PROGRAM).unwrap();
    ram.store_addr(0x0F).unwrap();
    assert_eq!(ram.stack, vec![0x0F]);
}

#[test]
fn removes_address() {
    let mut ram = Ram::load(&PROGRAM).unwrap();
    ram.store_addr(0x0F).unwrap();
    let removed = ram.remove_addr().unwrap();
    assert!(removed == 0x0F);
}

#[test]
fn updates_vf_register() {
    let mut ram = Ram::load(&PROGRAM).unwrap();
    ram.update_vf_register(true);
    assert!(ram.V[15] == 1);
    ram.update_vf_register(false);
    assert!(ram.V[15] == 0);
}

#[test]
fn sets_delay_timer_register() {
    let mut ram = Ram::load(&PROGRAM).unwrap();
    ram.set_timer_register(Timer::Delay, 255);
    assert_eq!(ram.delay_timer, 255);
}

#[test]
fn gets_delay_timer_register() {
    let mut ram = Ram::load(&PROGRAM).unwrap();
    ram.set_timer_register(Timer::Delay, 255);
    assert_eq!(255, ram.get_timer_register(Timer::Delay));
}

#[test]
fn sets_sound_timer_register() {
    let mut ram = Ram::load(&PROGRAM).unwrap();
    ram.set_timer_register(Timer::Sound, 255);
    assert_eq!(ram.sound_timer, 255);
}

#[test]
fn gets_sound_timer_register() {
    let mut ram = Ram::load(&PROGRAM).unwrap();
    ram.set_timer_register(Timer::Sound, 255);
    assert_eq!(255, ram.get_timer_register(Timer::Sound));
}

#[test]
fn load_leaves_the_rest_of_memory_zero() {
    let ram = Ram::load(&PROGRAM).unwrap();
    assert!(ram.mem[..0x50].iter().all(|b| *b == 0));
    assert!(ram.mem[0xA0..0x200].iter().all(|b| *b == 0));
    assert!(ram.mem[0x204..].iter().all(|b| *b == 0));
    assert_eq!(ram.PC, 0x200);
    assert_eq!(ram.V, [0u8; 16]);
    assert_eq!(ram.I, 0);
    assert!(ram.stack.is_empty());
    assert_eq!((ram.delay_timer, ram.sound_timer), (0, 0));
}

#[test]
fn font_glyphs_are_the_canonical_ones() {
    let ram = Ram::load(&[]).unwrap();
    assert_eq!(&ram.mem[0x50..0x55], &[0xF0, 0x90, 0x90, 0x90, 0xF0]);
    assert_eq!(&ram.mem[0x55..0x5A], &[0x20, 0x60, 0x20, 0x20, 0x70]);
    assert_eq!(&ram.mem[0x50 + 5 * 0xA..0x50 + 5 * 0xB], &[0xF0, 0x90, 0xF0, 0x90, 0x90]);
    assert_eq!(&ram.mem[0x9B..0xA0], &[0xF0, 0x80, 0xF0, 0x80, 0x80]);
}

#[test]
fn load_accepts_the_largest_program() {
    let program = vec![0xAB; 3584];
    let ram = Ram::load(&program).unwrap();
    assert_eq!(ram.mem[0x200], 0xAB);
    assert_eq!(ram.mem[0xFFF], 0xAB);
}

#[test]
fn load_rejects_a_program_one_byte_too_large() {
    let program = vec![0xAB; 3585];
    assert_eq!(Ram::load(&program).err(), Some(Fault::ProgramTooLarge));
}

#[test]
fn fetch_reads_big_endian_and_advances() {
    let mut ram = Ram::load(&PROGRAM).unwrap();
    assert_eq!(ram.get_next_instruction(), Ok([1, 2]));
    assert_eq!(ram.PC, 0x202);
    assert_eq!(ram.get_next_instruction(), Ok([3, 4]));
    assert_eq!(ram.PC, 0x204);
}

#[test]
fn fetch_faults_at_the_end_of_memory() {
    let mut ram = Ram::load(&PROGRAM).unwrap();
    ram.PC = 0xFFE;
    assert_eq!(ram.get_next_instruction(), Ok([0, 0]));
    assert_eq!(ram.PC, 0x1000);
    ram.PC = 0xFFF;
    assert_eq!(ram.get_next_instruction(), Err(Fault::MemoryFault));
    assert_eq!(ram.PC, 0xFFF);
    ram.PC = usize::MAX;
    assert_eq!(ram.get_next_instruction(), Err(Fault::MemoryFault));
    assert_eq!(ram.PC, usize::MAX);
}

#[test]
fn stack_is_last_in_first_out() {
    let mut ram = Ram::load(&PROGRAM).unwrap();
    ram.store_addr(0x202).unwrap();
    ram.store_addr(0x304).unwrap();
    assert_eq!(ram.remove_addr(), Some(0x304));
    assert_eq!(ram.remove_addr(), Some(0x202));
    assert_eq!(ram.remove_addr(), None);
}

#[test]
fn stack_overflows_at_the_seventeenth_address() {
    let mut ram = Ram::load(&PROGRAM).unwrap();
    for depth in 0..16 {
        assert_eq!(ram.store_addr(0x200 + depth), Ok(()));
    }
    assert_eq!(ram.store_addr(0x300), Err(Fault::StackOverflow));
    assert_eq!(ram.stack.len(), 16);
    assert_eq!(ram.stack[15], 0x20F);
}

#[test]
fn set_i_register_writes_the_index() {
    let mut ram = Ram::load(&PROGRAM).unwrap();
    ram.set_i_register(0x0ABC);
    assert_eq!(ram.I, 0x0ABC);
}

#[test]
fn a_tick_takes_one_off_each_running_timer() {
    let mut ram = Ram::load(&PROGRAM).unwrap();
    ram.set_timer_register(Timer::Delay, 2);
    ram.set_timer_register(Timer::Sound, 1);
    assert!(ram.tick_timers());
    assert_eq!((ram.delay_timer, ram.sound_timer), (1, 0));
    assert!(!ram.tick_timers());
    assert_eq!((ram.delay_timer, ram.sound_timer), (0, 0));
    assert!(!ram.tick_timers());
    assert_eq!((ram.delay_timer, ram.sound_timer), (0, 0));
}

#[test]
fn many_ticks_equal_that_many_single_ticks() {
    for ticks in 0u64..8 {
        let mut at_once = Ram::load(&PROGRAM).unwrap();
        at_once.set_timer_register(Timer::Delay, 5);
        at_once.set_timer_register(Timer::Sound, 3);
        let mut one_by_one = Ram::load(&PROGRAM).unwrap();
        one_by_one.set_timer_register(Timer::Delay, 5);
        one_by_one.set_timer_register(Timer::Sound, 3);
        let tone = at_once.run_timers(ticks);
        let mut last = None;
        for _ in 0..ticks {
            last = Some(one_by_one.tick_timers());
        }
        assert_eq!(tone, last);
        assert_eq!(at_once.delay_timer, one_by_one.delay_timer);
        assert_eq!(at_once.sound_timer, one_by_one.sound_timer);
    }
}

#[test]
fn run_timers_stops_at_zero() {
    let mut ram = Ram::load(&PROGRAM).unwrap();
    ram.set_timer_register(Timer::Delay, 200);
    ram.set_timer_register(Timer::Sound, 10);
    assert_eq!(ram.run_timers(10), Some(true));
    assert_eq!((ram.delay_timer, ram.sound_timer), (190, 0));
    assert_eq!(ram.run_timers(1_000_000), Some(false));
    assert_eq!((ram.delay_timer, ram.sound_timer), (0, 0));
    assert_eq!(ram.run_timers(0), None);
}
