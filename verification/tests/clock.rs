use snake::clock::{Scheduler, Ticks, Timer, MOVEMENT_INTERVAL_MICROS, SPAWN_INTERVAL_MICROS};

#[test]
fn movement_is_ten_times_as_fast_as_spawning() {
    assert_eq!(MOVEMENT_INTERVAL_MICROS, 100_000);
    assert_eq!(SPAWN_INTERVAL_MICROS, 1_000_000);
    assert_eq!(SPAWN_INTERVAL_MICROS, 10 * MOVEMENT_INTERVAL_MICROS);
}

#[test]
fn new_timer_has_nothing_accumulated() {
    let timer = Timer::new(100);
    assert_eq!(timer.interval(), 100);
    assert_eq!(timer.pending(), 0);
}

#[test]
fn timer_fires_once_per_full_interval() {
    let mut timer = Timer::new(100);
    assert_eq!(timer.advance(250), 2);
    assert_eq!(timer.pending(), 50);
    assert_eq!(timer.interval(), 100);
}

#[test]
fn timer_fires_when_the_interval_is_reached_exactly() {
    let mut timer = Timer::new(100);
    assert_eq!(timer.advance(99), 0);
    assert_eq!(timer.pending(), 99);
    assert_eq!(timer.advance(1), 1);
    assert_eq!(timer.pending(), 0);
}

#[test]
fn timer_keeps_the_remainder_so_that_ticks_do_not_drift() {
    let mut timer = Timer::new(100);
    let mut ticks: u64 = 0;
    for _ in 0..100 {
        ticks += timer.advance(30);
    }
    assert_eq!(ticks, 30);
    assert_eq!(timer.pending(), 0);
    assert_eq!(timer.advance(70), 0);
    assert_eq!(timer.advance(70), 1);
    assert_eq!(timer.pending(), 40);
}

#[test]
fn timer_with_no_time_elapsed_does_not_fire() {
    let mut timer = Timer::new(100);
    timer.advance(60);
    assert_eq!(timer.advance(0), 0);
    assert_eq!(timer.pending(), 60);
}

#[test]
fn timer_takes_the_longest_elapsed_time() {
    let mut timer = Timer::new(1);
    assert_eq!(timer.advance(u64::MAX), u64::MAX);
    assert_eq!(timer.pending(), 0);

    let mut timer = Timer::new(u64::MAX);
    assert_eq!(timer.advance(u64::MAX - 1), 0);
    assert_eq!(timer.advance(u64::MAX), 1);
    assert_eq!(timer.pending(), u64::MAX - 1);

    let mut timer = Timer::new(3);
    assert_eq!(timer.advance(2), 0);
    // 2 + (2^64 - 1) = 3 * 6148914691236517205 + 2
    assert_eq!(timer.advance(u64::MAX), 6148914691236517205);
    assert_eq!(timer.pending(), 2);
}

#[test]
fn new_scheduler_has_nothing_accumulated() {
    let scheduler = Scheduler::new();
    assert_eq!(scheduler.movement_pending(), 0);
    assert_eq!(scheduler.spawn_pending(), 0);
}

#[test]
fn one_second_is_ten_movement_ticks_and_one_spawn_tick() {
    let mut scheduler = Scheduler::new();
    assert_eq!(scheduler.advance(1_000_000), Ticks { movement: 10, spawn: 1 });
    assert_eq!(scheduler.movement_pending(), 0);
    assert_eq!(scheduler.spawn_pending(), 0);
}

#[test]
fn the_two_timers_run_independently() {
    let mut scheduler = Scheduler::new();
    assert_eq!(scheduler.advance(99_999), Ticks { movement: 0, spawn: 0 });
    assert_eq!(scheduler.advance(1), Ticks { movement: 1, spawn: 0 });
    assert_eq!(scheduler.advance(850_000), Ticks { movement: 8, spawn: 0 });
    assert_eq!(scheduler.movement_pending(), 50_000);
    assert_eq!(scheduler.spawn_pending(), 950_000);
    assert_eq!(scheduler.advance(50_000), Ticks { movement: 1, spawn: 1 });
    assert_eq!(scheduler.movement_pending(), 0);
    assert_eq!(scheduler.spawn_pending(), 0);
}

#[test]
fn a_long_frame_makes_up_every_tick() {
    let mut scheduler = Scheduler::new();
    assert_eq!(scheduler.advance(3_250_000), Ticks { movement: 32, spawn: 3 });
    assert_eq!(scheduler.movement_pending(), 50_000);
    assert_eq!(scheduler.spawn_pending(), 250_000);
}

#[test]
fn cutting_time_into_frames_changes_neither_ticks_nor_remainder() {
    let mut whole = Timer::new(100_000);
    let in_one: u64 = whole.advance(1_234_567);

    let mut cut = Timer::new(100_000);
    let mut in_two: u64 = cut.advance(234_567);
    in_two += cut.advance(1_000_000);

    assert_eq!(in_one, 12);
    assert_eq!(in_two, 12);
    assert_eq!(whole.pending(), 34_567);
    assert_eq!(cut.pending(), 34_567);
}
