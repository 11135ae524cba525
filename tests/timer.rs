use galerians_autosplitter::keep_alive::KeepAliveCounter;
use galerians_autosplitter::timer::{variable_value, TimerPhase};

#[test]
fn timer_phases_parse() {
    assert_eq!(TimerPhase::try_from_raw(b"NotRunning"), Some(TimerPhase::NotRunning));
    assert_eq!(TimerPhase::try_from_raw(b"Running"), Some(TimerPhase::Running));
    assert_eq!(TimerPhase::try_from_raw(b"Ended"), Some(TimerPhase::Ended));
    assert_eq!(TimerPhase::try_from_raw(b"Paused"), Some(TimerPhase::Paused));
    assert_eq!(TimerPhase::try_from_raw(b"running"), None);
    assert_eq!(TimerPhase::try_from_raw(b"Running\r"), None);
    assert_eq!(TimerPhase::try_from_raw(b""), None);
}

#[test]
fn unset_variables() {
    assert_eq!(variable_value(b""), None);
    assert_eq!(variable_value(b"-"), None);
    assert_eq!(variable_value(b"--"), Some(&b"--"[..]));
    assert_eq!(variable_value(b"key-events"), Some(&b"key-events"[..]));
}

#[test]
fn keep_alive_fires_once_per_period_plus_one() {
    let mut c = KeepAliveCounter::new(3);
    let answers: Vec<bool> = (0..8).map(|_| c.should_check()).collect();
    assert_eq!(answers, vec![false, false, false, true, false, false, false, true]);
    assert_eq!(c.remaining, 3);
}

#[test]
fn keep_alive_trigger_on_start_and_reset() {
    let mut c = KeepAliveCounter::new(2).with_trigger_on_start();
    assert!(c.should_check());
    assert_eq!(c.remaining, 2);
    assert!(!c.should_check());
    c.reset();
    assert!(!c.should_check());
    assert!(!c.should_check());
    assert!(c.should_check());
    let mut zero = KeepAliveCounter::new(0);
    assert!(zero.should_check());
    assert!(zero.should_check());
}
