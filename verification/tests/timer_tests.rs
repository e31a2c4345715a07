use cortex::timer::{Timer, TimerError, DEFAULT_INTERVAL_MS};

#[test]
fn new_timer_is_idle_with_default_interval() {
    let t = Timer::new();
    assert!(!t.is_alive());
    assert_eq!(t.interval_ms(), 2000);
    assert_eq!(DEFAULT_INTERVAL_MS, 2000);
}

#[test]
fn with_interval_keeps_the_interval() {
    let mut t = Timer::with_interval(50);
    assert!(!t.is_alive());
    assert_eq!(t.interval_ms(), 50);
    t.start();
    assert_eq!(t.interval_ms(), 50);
    t.stop();
    assert_eq!(t.interval_ms(), 50);
    assert_eq!(t.try_start(), Ok(()));
    assert_eq!(t.interval_ms(), 50);
    assert_eq!(t.try_stop(), Ok(()));
    assert_eq!(t.interval_ms(), 50);
}

#[test]
fn start_brings_an_idle_timer_to_life() {
    let mut t = Timer::new();
    t.start();
    assert!(t.is_alive());
}

#[test]
fn stop_after_start_leaves_the_timer_idle() {
    let mut t = Timer::new();
    t.start();
    t.stop();
    assert!(!t.is_alive());
}

#[test]
fn try_start_brings_an_idle_timer_to_life() {
    let mut t = Timer::new();
    assert_eq!(t.try_start(), Ok(()));
    assert!(t.is_alive());
}

#[test]
fn try_stop_after_start_leaves_the_timer_idle() {
    let mut t = Timer::new();
    t.start();
    assert_eq!(t.try_stop(), Ok(()));
    assert!(!t.is_alive());
}

#[test]
fn stop_without_start_is_reported() {
    let mut t = Timer::new();
    assert_eq!(t.try_stop(), Err(TimerError::NotRunning));
    assert!(!t.is_alive());
}

#[test]
fn second_stop_is_reported() {
    let mut t = Timer::new();
    assert_eq!(t.try_start(), Ok(()));
    assert_eq!(t.try_stop(), Ok(()));
    assert_eq!(t.try_stop(), Err(TimerError::NotRunning));
    assert!(!t.is_alive());
    assert_eq!(t.try_stop(), Err(TimerError::NotRunning));
    assert!(!t.is_alive());
}

#[test]
fn start_while_alive_is_reported() {
    let mut t = Timer::new();
    assert_eq!(t.try_start(), Ok(()));
    assert_eq!(t.try_start(), Err(TimerError::AlreadyRunning));
    assert!(t.is_alive());
    t.stop();
    assert!(!t.is_alive());
}

#[test]
fn timer_can_be_started_again_after_stop() {
    let mut t = Timer::with_interval(50);
    for _ in 0..3 {
        t.start();
        assert!(t.is_alive());
        t.stop();
        assert!(!t.is_alive());
        assert_eq!(t.try_start(), Ok(()));
        assert!(t.is_alive());
        assert_eq!(t.try_stop(), Ok(()));
        assert!(!t.is_alive());
    }
}
