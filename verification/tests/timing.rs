use chip8::emulator::Emulator;
use chip8::machine::{Outcome, Paced};
use chip8::timing::{is_turn_due, TimerClock};

#[test]
fn clock_ticks_sixty_times_a_second() {
    let mut clock = TimerClock::new();
    assert_eq!(clock.advance(1_000_000), 60);
    assert_eq!(clock.advance(10_000_000), 600);
    assert_eq!(clock.advance(0), 0);
}

#[test]
fn clock_carries_the_rest_over() {
    let mut clock = TimerClock::new();
    // One tick lasts 16666.67 microseconds.
    assert_eq!(clock.advance(16_666), 0);
    assert_eq!(clock.advance(1), 1);
    assert_eq!(clock.advance(16_666), 0);
    assert_eq!(clock.advance(1), 1);
    assert_eq!(clock.advance(16_666), 1);
    assert_eq!(clock.advance(16_666), 0);
}

#[test]
fn clock_does_not_drift_over_many_small_steps() {
    let mut clock = TimerClock::new();
    let mut ticks = 0;
    for _ in 0..200_000 {
        ticks += clock.advance(5);
    }
    assert_eq!(ticks, 60);
    let mut uneven = TimerClock::new();
    let mut total = 0u64;
    let mut elapsed = 0u64;
    for step in 0..10_000u64 {
        let micros = (step * 7919) % 40_000;
        elapsed += micros;
        total += uneven.advance(micros);
        assert_eq!(total, elapsed * 60 / 1_000_000);
    }
}

#[test]
fn clock_takes_the_longest_stretch() {
    let mut clock = TimerClock::new();
    assert_eq!(clock.advance(u64::MAX), (u64::MAX as u128 * 60 / 1_000_000) as u64);
}

#[test]
fn a_turn_is_due_after_five_milliseconds() {
    assert!(is_turn_due(None));
    assert!(!is_turn_due(Some(0)));
    assert!(!is_turn_due(Some(4_999)));
    assert!(is_turn_due(Some(5_000)));
    assert!(is_turn_due(Some(u64::MAX)));
}

fn counter() -> Emulator {
    // V0 counts the turns: ADD V0, 1; JP 0x200.
    Emulator::boot(vec![0x70, 0x01, 0x12, 0x00]).unwrap()
}

#[test]
fn first_cycle_takes_a_turn_at_once() {
    let mut emulator = counter();
    assert_eq!(
        emulator.cycle_with(0, 0),
        Ok(Paced { ticks: 0, tone: None, outcome: Some(Outcome::Continue) })
    );
    assert_eq!(emulator.ram().V[0], 1);
}

#[test]
fn turns_are_five_milliseconds_apart() {
    let mut emulator = counter();
    emulator.cycle_with(0, 0).unwrap();
    let idle = Paced { ticks: 0, tone: None, outcome: None };
    assert_eq!(emulator.cycle_with(4_999, 0), Ok(idle));
    assert_eq!(emulator.ram().V[0], 1);
    assert_eq!(
        emulator.cycle_with(1, 0),
        Ok(Paced { ticks: 0, tone: None, outcome: Some(Outcome::Continue) })
    );
    assert_eq!(emulator.ram().PC, 0x200);
    assert_eq!(emulator.cycle_with(2_500, 0), Ok(idle));
    assert_eq!(emulator.cycle_with(2_499, 0), Ok(idle));
    assert_eq!(emulator.cycle_with(1, 0).unwrap().outcome, Some(Outcome::Continue));
}

#[test]
fn a_long_stretch_takes_one_turn_only() {
    let mut emulator = counter();
    emulator.cycle_with(0, 0).unwrap();
    let paced = emulator.cycle_with(1_000_000, 0).unwrap();
    assert_eq!(paced.ticks, 60);
    assert_eq!(paced.outcome, Some(Outcome::Continue));
    assert_eq!(emulator.ram().V[0], 1);
    assert_eq!(emulator.ram().PC, 0x200);
}

#[test]
fn timers_run_at_sixty_hertz_whatever_the_turn_rate() {
    // V0 = 120; DT = V0; ST = V0; then JP to itself.
    let program = vec![0x60, 120, 0xF0, 0x15, 0xF0, 0x18, 0x12, 0x06];
    let mut fast = Emulator::boot(program.clone()).unwrap();
    let mut slow = Emulator::boot(program).unwrap();
    for emulator in [&mut fast, &mut slow] {
        for _ in 0..3 {
            emulator.process_instruction_with(0).unwrap();
        }
        assert_eq!(emulator.ram().delay_timer, 120);
    }
    // One second in steps of a millisecond, and in steps of a tenth of a second.
    let mut fast_ticks = 0;
    for _ in 0..1_000 {
        fast_ticks += fast.cycle_with(1_000, 0).unwrap().ticks;
    }
    let mut slow_ticks = 0;
    for _ in 0..10 {
        slow_ticks += slow.cycle_with(100_000, 0).unwrap().ticks;
    }
    assert_eq!(fast_ticks, 60);
    assert_eq!(slow_ticks, 60);
    assert_eq!(fast.ram().delay_timer, 60);
    assert_eq!(slow.ram().delay_timer, 60);
    assert_eq!(fast.ram().sound_timer, 60);
}

#[test]
fn tone_sounds_while_the_sound_timer_runs() {
    // V0 = 2; ST = V0; JP to itself.
    let mut emulator = Emulator::boot(vec![0x60, 2, 0xF0, 0x18, 0x12, 0x04]).unwrap();
    emulator.process_instruction_with(0).unwrap();
    emulator.process_instruction_with(0).unwrap();
    assert_eq!(emulator.ram().sound_timer, 2);
    // One tick is 16667 microseconds.
    assert_eq!(emulator.cycle_with(16_667, 0).unwrap().tone, Some(true));
    assert_eq!(emulator.ram().sound_timer, 1);
    assert_eq!(emulator.cycle_with(1_000, 0).unwrap().tone, None);
    assert_eq!(emulator.cycle_with(16_667, 0).unwrap().tone, Some(true));
    assert_eq!(emulator.ram().sound_timer, 0);
    assert_eq!(emulator.cycle_with(16_667, 0).unwrap().tone, Some(false));
    assert_eq!(emulator.ram().sound_timer, 0);
}

#[test]
fn timers_tick_before_the_turn_reads_them() {
    // V0 = 10; DT = V0; V1 = DT.
    let mut emulator = Emulator::boot(vec![0x60, 10, 0xF0, 0x15, 0xF1, 0x07]).unwrap();
    emulator.cycle_with(0, 0).unwrap();
    emulator.cycle_with(5_000, 0).unwrap();
    assert_eq!(emulator.ram().delay_timer, 10);
    // 50 ms later three ticks have fallen due (0.6 of one was carried).
    let paced = emulator.cycle_with(50_000, 0).unwrap();
    assert_eq!(paced.ticks, 3);
    assert_eq!(paced.outcome, Some(Outcome::Continue));
    assert_eq!(emulator.ram().V[1], 7);
}

#[test]
fn timers_run_while_the_machine_waits_for_a_key() {
    // V0 = 30; DT = V0; wait for a key.
    let mut emulator = Emulator::boot(vec![0x60, 30, 0xF0, 0x15, 0xF1, 0x0A]).unwrap();
    emulator.cycle_with(0, 0).unwrap();
    emulator.cycle_with(5_000, 0).unwrap();
    assert_eq!(emulator.cycle_with(5_000, 0).unwrap().outcome, Some(Outcome::AwaitingKey));
    let paced = emulator.cycle_with(100_000, 0).unwrap();
    assert_eq!(paced.outcome, Some(Outcome::AwaitingKey));
    assert_eq!(emulator.ram().delay_timer, 30 - 6);
    assert_eq!(emulator.ram().PC, 0x206);
}

#[test]
fn a_fault_in_the_turn_is_reported() {
    let mut emulator = Emulator::boot(vec![0x00, 0xEE]).unwrap();
    assert_eq!(emulator.cycle_with(0, 0), Err(chip8::fault::Fault::StackUnderflow));
}

#[test]
fn cycle_reads_the_clock() {
    let mut emulator = counter();
    let started = std::time::Instant::now();
    // The first reading starts the clock and takes a turn at once.
    assert_eq!(
        emulator.cycle(),
        Ok(Paced { ticks: 0, tone: None, outcome: Some(Outcome::Continue) })
    );
    // Two more turns take at least ten milliseconds.
    let mut turns: u32 = 1;
    let mut ticks: u64 = 0;
    while turns < 3 {
        let paced = emulator.cycle().unwrap();
        ticks += paced.ticks;
        if paced.outcome.is_some() {
            turns += 1;
        }
    }
    let micros = started.elapsed().as_micros();
    assert!(micros >= 10_000, "micros: {micros}");
    assert!(ticks as u128 <= micros * 60 / 1_000_000, "ticks: {ticks}, micros: {micros}");
    // The program adds one to V0 on every other turn.
    assert_eq!(emulator.ram().V[0], 2);
}

#[test]
fn cycle_counts_ticks_from_the_clock() {
    let mut emulator = counter();
    let started = std::time::Instant::now();
    emulator.cycle().unwrap();
    let mut ticks: u64 = 0;
    while ticks < 3 {
        ticks += emulator.cycle().unwrap().ticks;
    }
    let micros = started.elapsed().as_micros();
    // Three ticks take a twentieth of a second on the machine's clock,
    // which started after `started`.
    assert!(micros >= 50_000, "micros: {micros}");
    assert!(ticks as u128 <= micros * 60 / 1_000_000, "ticks: {ticks}");
}
