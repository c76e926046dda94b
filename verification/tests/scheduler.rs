use snake_game::scheduler::Scheduler;

#[test]
fn a_tick_is_due_once_the_interval_has_passed() {
    let scheduler = Scheduler::new(1000, 50, true);
    assert!(!scheduler.is_tick_due(0));
    assert!(!scheduler.is_tick_due(999));
    assert!(scheduler.is_tick_due(1000));
    assert!(scheduler.is_tick_due(5000));
    assert_eq!(scheduler.tick_interval(), 1000);
}

#[test]
fn the_floor_falls_with_the_score_and_stops_at_one() {
    assert_eq!(Scheduler::floor(0), 200);
    assert_eq!(Scheduler::floor(1), 199);
    assert_eq!(Scheduler::floor(150), 50);
    assert_eq!(Scheduler::floor(199), 1);
    assert_eq!(Scheduler::floor(200), 1);
    assert_eq!(Scheduler::floor(201), 1);
    assert_eq!(Scheduler::floor(u64::MAX), 1);
}

#[test]
fn the_interval_comes_down_step_by_step_to_the_floor() {
    let mut scheduler = Scheduler::new(1000, 100, true);
    for n in 1..=12u64 {
        scheduler.on_tick_consumed(0);
        let expected = std::cmp::max(200, 1000i64 - 100 * n as i64) as u64;
        assert_eq!(scheduler.tick_interval(), expected);
    }
    assert_eq!(scheduler.tick_interval(), 200);
}

#[test]
fn a_step_that_overshoots_stops_at_the_floor() {
    let mut scheduler = Scheduler::new(1000, 300, true);
    scheduler.on_tick_consumed(0);
    assert_eq!(scheduler.tick_interval(), 700);
    scheduler.on_tick_consumed(0);
    assert_eq!(scheduler.tick_interval(), 400);
    scheduler.on_tick_consumed(0);
    assert_eq!(scheduler.tick_interval(), 200);
    scheduler.on_tick_consumed(0);
    assert_eq!(scheduler.tick_interval(), 200);
}

#[test]
fn a_step_larger_than_the_interval_does_not_wrap() {
    let mut scheduler = Scheduler::new(250, u64::MAX, true);
    scheduler.on_tick_consumed(10);
    assert_eq!(scheduler.tick_interval(), 190);
    scheduler.on_tick_consumed(1000);
    assert_eq!(scheduler.tick_interval(), 1);
    scheduler.on_tick_consumed(1000);
    assert_eq!(scheduler.tick_interval(), 1);
}

#[test]
fn a_higher_score_lets_the_interval_fall_further() {
    let mut scheduler = Scheduler::new(210, 10, true);
    scheduler.on_tick_consumed(0);
    assert_eq!(scheduler.tick_interval(), 200);
    scheduler.on_tick_consumed(0);
    assert_eq!(scheduler.tick_interval(), 200);
    scheduler.on_tick_consumed(5);
    assert_eq!(scheduler.tick_interval(), 195);
    scheduler.on_tick_consumed(5);
    assert_eq!(scheduler.tick_interval(), 195);
    scheduler.on_tick_consumed(100);
    assert_eq!(scheduler.tick_interval(), 185);
}

#[test]
fn the_interval_never_goes_up() {
    let mut scheduler = Scheduler::new(600, 37, true);
    let mut last = scheduler.tick_interval();
    for score in [0u64, 0, 3, 3, 1, 50, 20, 199, 0, 400, 7, 250, 250, 250, 250, 250, 250, 250] {
        scheduler.on_tick_consumed(score);
        assert!(scheduler.tick_interval() <= last);
        assert!(scheduler.tick_interval() >= 1);
        last = scheduler.tick_interval();
    }
    assert_eq!(last, 1);
}

#[test]
fn an_interval_below_the_floor_is_left_alone() {
    let mut scheduler = Scheduler::new(100, 10, true);
    scheduler.on_tick_consumed(0);
    assert_eq!(scheduler.tick_interval(), 100);
    scheduler.on_tick_consumed(100);
    assert_eq!(scheduler.tick_interval(), 100);
    scheduler.on_tick_consumed(101);
    assert_eq!(scheduler.tick_interval(), 99);
}

#[test]
fn without_dynamic_speed_the_interval_stays() {
    let mut scheduler = Scheduler::new(1000, 100, false);
    for score in 0..50u64 {
        scheduler.on_tick_consumed(score);
        assert_eq!(scheduler.tick_interval(), 1000);
    }
}
