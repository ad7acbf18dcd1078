use chip8::clock::{TickClock, MICROS_PER_SECOND, TICKS_PER_SECOND};
use chip8::keypad::KeypadSnapshot;
use chip8::virtual_computer::{CompatibilityMode, VirtualComputer};

#[test]
fn one_second_is_sixty_ticks() {
    let mut clock = TickClock::new();
    assert_eq!(clock.advance(MICROS_PER_SECOND as u64), TICKS_PER_SECOND as u64);
    assert_eq!(clock.advance(0), 0);
    assert_eq!(clock.advance(10 * MICROS_PER_SECOND as u64), 600);
}

#[test]
fn a_tick_falls_due_every_sixtieth_of_a_second() {
    let mut clock = TickClock::new();
    // 16 666 microseconds are just short of one tick; one more makes it.
    assert_eq!(clock.advance(16_666), 0);
    assert_eq!(clock.advance(1), 1);
    // A third of a microsecond is carried over, not enough to matter yet.
    assert_eq!(clock.advance(16_666), 0);
    assert_eq!(clock.advance(1), 1);
    // After three ticks the carried thirds make a whole microsecond.
    assert_eq!(clock.advance(16_666), 1);
}

#[test]
fn uneven_calls_do_not_drift() {
    let mut clock = TickClock::new();
    let mut ticks = 0;
    let mut elapsed = 0u64;
    // Frames of 7 ms, as many as make a whole number of seconds.
    for _ in 0..1000 {
        ticks += clock.advance(7_000);
        elapsed += 7_000;
    }
    assert_eq!(elapsed, 7_000_000);
    assert_eq!(ticks, 7 * 60);
    // Odd intervals: the total is what one call over the whole time gives.
    let mut clock = TickClock::new();
    let mut whole = TickClock::new();
    let mut ticks = 0;
    let mut elapsed = 0u64;
    for i in 0..500u64 {
        let interval = (i * 7919) % 40_000;
        ticks += clock.advance(interval);
        elapsed += interval;
    }
    assert_eq!(ticks, whole.advance(elapsed));
    assert_eq!(ticks, elapsed * 60 / 1_000_000);
}

#[test]
fn longest_interval_does_not_overflow() {
    let mut clock = TickClock::new();
    assert_eq!(clock.advance(999_999), 59);
    assert_eq!(
        clock.advance(u64::MAX),
        ((u64::MAX as u128 * 60 + 999_999 * 60 % 1_000_000) / 1_000_000) as u64
    );
}

#[test]
fn advance_timers_takes_that_many_ticks() {
    // V0 = 200; V1 = 60; delay = V0; sound = V1.
    let rom = [0x60, 200, 0x61, 60, 0xF0, 0x15, 0xF1, 0x18];
    let keys = KeypadSnapshot::new();
    let mut vm = VirtualComputer::new(&rom, CompatibilityMode::CosmicVIP).unwrap();
    for _ in 0..4 {
        vm.step(&keys);
    }
    vm.advance_timers(0);
    assert_eq!((vm.delay_timer(), vm.sound_timer()), (200, 60));
    vm.advance_timers(60);
    assert_eq!((vm.delay_timer(), vm.sound_timer()), (140, 0));
    assert!(!vm.sound_active());
    vm.advance_timers(139);
    assert_eq!((vm.delay_timer(), vm.sound_timer()), (1, 0));
    vm.advance_timers(1_000_000);
    assert_eq!((vm.delay_timer(), vm.sound_timer()), (0, 0));
    vm.advance_timers(u64::MAX);
    assert_eq!((vm.delay_timer(), vm.sound_timer()), (0, 0));
}
