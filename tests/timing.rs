use rpc::timer::Timer;

const SEC: u64 = 1_000_000_000;

#[test]
fn timer_starts_paused_at_zero() {
    let mut t = Timer::new();
    assert!(t.is_paused());
    assert_eq!(t.as_secs_at(100 * SEC), 0);
}

#[test]
fn timer_pause_freezes_reading() {
    let mut t = Timer::new();
    t.start_at(2 * SEC);
    t.pause_at(7 * SEC + SEC / 2);
    assert!(t.is_paused());
    assert_eq!(t.as_secs_at(8 * SEC), 5);
    assert_eq!(t.as_secs_at(60 * SEC), 5);
    assert_eq!(t.elapsed_at(60 * SEC), 5 * SEC + SEC / 2);
}

#[test]
fn timer_running_accumulates() {
    let mut t = Timer::new();
    t.start_at(SEC);
    assert_eq!(t.as_secs_at(4 * SEC), 3);
    assert_eq!(t.as_secs_at(10 * SEC), 9);
    assert_eq!(t.as_secs_at(10 * SEC), 9);
}

#[test]
fn timer_resume_continues_after_pause() {
    let mut t = Timer::new();
    t.start_at(0);
    t.pause_at(3 * SEC);
    t.resume_at(10 * SEC);
    assert!(!t.is_paused());
    assert_eq!(t.as_secs_at(12 * SEC), 5);
}

#[test]
fn timer_resume_while_running_changes_nothing() {
    let mut t = Timer::new();
    t.start_at(0);
    t.resume_at(5 * SEC);
    assert_eq!(t.as_secs_at(6 * SEC), 6);
}

#[test]
fn timer_add_and_sub() {
    let mut t = Timer::new();
    t.add_at(4 * SEC, 0);
    assert_eq!(t.as_secs_at(0), 4);
    t.sub_at(SEC, 0);
    assert_eq!(t.as_secs_at(0), 3);
    t.sub_at(10 * SEC, 0);
    assert_eq!(t.as_secs_at(0), 0);
}

#[test]
fn timer_add_saturates() {
    let mut t = Timer::new();
    t.add_at(u64::MAX - 1, 0);
    t.add_at(10, 0);
    assert_eq!(t.elapsed_at(0), u64::MAX);
}

#[test]
fn timer_update_folds_running_interval() {
    let mut t = Timer::new();
    t.start_at(SEC);
    t.update_at(3 * SEC);
    t.pause_at(3 * SEC);
    assert_eq!(t.elapsed_at(100 * SEC), 2 * SEC);
}

#[test]
fn timer_reset_clears() {
    let mut t = Timer::new();
    t.start_at(0);
    t.add_at(9 * SEC, 2 * SEC);
    t.reset();
    assert!(t.is_paused());
    assert_eq!(t.as_secs_at(50 * SEC), 0);
}

#[test]
fn timer_clock_before_start_counts_nothing() {
    let mut t = Timer::new();
    t.start_at(10 * SEC);
    assert_eq!(t.as_secs_at(5 * SEC), 0);
}

#[test]
fn timer_on_the_real_clock() {
    let mut t = Timer::new();
    t.add(3 * SEC);
    t.start();
    assert!(!t.is_paused());
    t.update();
    t.pause();
    assert!(t.is_paused());
    let a = t.as_secs();
    assert_eq!(a, 3);
    t.resume();
    t.sub(SEC);
    t.pause();
    assert_eq!(t.as_secs(), 2);
    t.reset();
    assert_eq!(t.as_secs(), 0);
}

#[test]
fn timer_default_is_new() {
    let mut t = Timer::default();
    assert!(t.is_paused());
    assert_eq!(t.as_secs_at(SEC), 0);
}
