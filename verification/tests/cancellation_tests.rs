use js_engine::cancellation::{is_cancelled, Cancellation, Polled};
use std::sync::atomic::{AtomicBool, Ordering};
use std::sync::Arc;
use std::time::{Duration, Instant};

#[test]
fn either_condition_cancels() {
    assert!(!is_cancelled(None, false));
    assert!(is_cancelled(None, true));
    assert!(!is_cancelled(Some(false), false));
    assert!(is_cancelled(Some(false), true));
    assert!(is_cancelled(Some(true), false));
    assert!(is_cancelled(Some(true), true));
}

#[test]
fn without_deadline_or_flag_nothing_is_cancelled() {
    let c = Cancellation::new(None, Arc::new(AtomicBool::new(false)));
    assert!(!c.cancelled());
}

#[test]
fn the_flag_cancels_for_every_holder() {
    let flag = Arc::new(AtomicBool::new(false));
    let one = Cancellation::new(None, flag.clone());
    let other = Cancellation::new(Some(Instant::now() + Duration::from_secs(3600)), flag.clone());
    assert!(!one.cancelled());
    assert!(!other.cancelled());
    flag.store(true, Ordering::Relaxed);
    assert!(one.cancelled());
    assert!(other.cancelled());
    assert!(one.cancelled());
}

#[test]
fn a_deadline_that_has_passed_cancels() {
    let now = Instant::now();
    let c = Cancellation::new(Some(now), Arc::new(AtomicBool::new(false)));
    assert!(c.cancelled());
}

#[test]
fn a_deadline_ahead_does_not_cancel_yet() {
    let soon = Instant::now() + Duration::from_millis(150);
    let c = Cancellation::new(Some(soon), Arc::new(AtomicBool::new(false)));
    assert!(!c.cancelled());
    let begun = Instant::now();
    while Instant::now() < soon && begun.elapsed() < Duration::from_secs(5) {
        std::hint::spin_loop();
    }
    assert!(c.cancelled());
}

#[test]
fn polling_shows_what_it_found() {
    let flag = Arc::new(AtomicBool::new(false));
    let none = Cancellation::new(None, flag.clone());
    assert_eq!(none.poll(), Polled { deadline_reached: None, flag: false, cancelled: false });
    let past = Cancellation::new(Some(Instant::now()), flag.clone());
    assert_eq!(past.poll(), Polled { deadline_reached: Some(true), flag: false, cancelled: true });
    let ahead = Cancellation::new(Some(Instant::now() + Duration::from_secs(3600)), flag.clone());
    assert_eq!(
        ahead.poll(),
        Polled { deadline_reached: Some(false), flag: false, cancelled: false }
    );
    flag.store(true, Ordering::Relaxed);
    assert_eq!(ahead.poll(), Polled { deadline_reached: Some(false), flag: true, cancelled: true });
    assert_eq!(none.poll(), Polled { deadline_reached: None, flag: true, cancelled: true });
}

#[test]
fn a_copy_shares_deadline_and_flag() {
    let flag = Arc::new(AtomicBool::new(false));
    let one = Cancellation::new(Some(Instant::now() + Duration::from_secs(3600)), flag.clone());
    let other = one.clone();
    assert_eq!(other.poll(), one.poll());
    assert!(!other.cancelled());
    flag.store(true, Ordering::Relaxed);
    assert!(one.cancelled());
    assert!(other.cancelled());
    assert_eq!(other.poll().deadline_reached, Some(false));
}

#[test]
fn the_default_signal_is_not_given() {
    let c = Cancellation::default();
    assert_eq!(c.poll(), Polled { deadline_reached: None, flag: false, cancelled: false });
    assert!(!c.cancelled());
    assert!(!c.clone().cancelled());
}
