use watch_release::server::limiter::Limiter;
use watch_release::server::watch::{Pass, WatchAction, WatchEvent, Watcher, WATCH_PERMITS};

#[test]
fn limiter_grants_no_more_than_its_permits() {
    let mut limiter = Limiter::new(2);
    assert_eq!(limiter.capacity(), 2);
    assert_eq!(limiter.in_use(), 0);
    assert!(limiter.try_acquire());
    assert!(limiter.try_acquire());
    assert!(!limiter.try_acquire());
    assert_eq!(limiter.in_use(), 2);
    assert!(limiter.release());
    assert_eq!(limiter.in_use(), 1);
    assert!(limiter.try_acquire());
    assert!(limiter.release());
    assert!(limiter.release());
    assert!(!limiter.release());
    assert_eq!(limiter.in_use(), 0);
}

#[test]
fn limiter_without_permits_grants_nothing() {
    let mut limiter = Limiter::new(0);
    assert!(!limiter.try_acquire());
    assert!(!limiter.release());
}

#[test]
fn pass_starts_pullers_in_order_within_its_permits() {
    let mut pass = Pass::new(5, 2);
    assert!(!pass.is_complete());
    assert_eq!(pass.start_next(), Some(0));
    assert_eq!(pass.start_next(), Some(1));
    assert_eq!(pass.start_next(), None);
    assert_eq!(pass.in_flight(), 2);
    assert!(pass.complete());
    assert_eq!(pass.in_flight(), 1);
    assert_eq!(pass.start_next(), Some(2));
    assert_eq!(pass.start_next(), None);
    assert!(pass.complete());
    assert!(pass.complete());
    assert_eq!(pass.start_next(), Some(3));
    assert_eq!(pass.start_next(), Some(4));
    assert_eq!(pass.start_next(), None);
    assert!(!pass.is_complete());
    assert!(pass.complete());
    assert!(!pass.is_complete());
    assert!(pass.complete());
    assert!(pass.is_complete());
    assert_eq!(pass.in_flight(), 0);
    assert!(!pass.complete());
    assert_eq!(pass.start_next(), None);
}

#[test]
fn pass_over_nothing_is_complete() {
    let mut pass = Pass::new(0, WATCH_PERMITS);
    assert!(pass.is_complete());
    assert_eq!(pass.start_next(), None);
    assert!(!pass.complete());
}

#[test]
fn pass_runs_eight_at_a_time() {
    assert_eq!(WATCH_PERMITS, 8);
    let mut pass = Pass::new(20, WATCH_PERMITS);
    let mut started = 0;
    while pass.start_next().is_some() {
        started += 1;
    }
    assert_eq!(started, 8);
    assert_eq!(pass.in_flight(), 8);
}

#[test]
fn scheduler_alternates_passes_and_sleeps() {
    let mut watcher = Watcher::new(7200);
    assert!(!watcher.is_shutdown());
    assert_eq!(watcher.step(WatchEvent::Start), Some(WatchAction::RunPass));
    assert_eq!(watcher.step(WatchEvent::PassDone), Some(WatchAction::Sleep { secs: 7200 }));
    assert_eq!(watcher.step(WatchEvent::SleepDone), Some(WatchAction::RunPass));
    assert_eq!(watcher.step(WatchEvent::PassDone), Some(WatchAction::Sleep { secs: 7200 }));
}

#[test]
fn scheduler_refuses_events_out_of_turn() {
    let mut watcher = Watcher::new(10);
    assert_eq!(watcher.step(WatchEvent::PassDone), None);
    assert_eq!(watcher.step(WatchEvent::SleepDone), None);
    assert_eq!(watcher.step(WatchEvent::Start), Some(WatchAction::RunPass));
    assert_eq!(watcher.step(WatchEvent::Start), None);
    assert_eq!(watcher.step(WatchEvent::SleepDone), None);
    assert_eq!(watcher.step(WatchEvent::PassDone), Some(WatchAction::Sleep { secs: 10 }));
}

#[test]
fn no_pass_starts_after_shutdown() {
    let mut watcher = Watcher::new(10);
    watcher.step(WatchEvent::Start);
    assert_eq!(watcher.step(WatchEvent::Shutdown), Some(WatchAction::Stop));
    assert!(watcher.is_shutdown());
    assert_eq!(watcher.step(WatchEvent::PassDone), None);
    assert_eq!(watcher.step(WatchEvent::SleepDone), None);
    assert_eq!(watcher.step(WatchEvent::Start), None);
    assert_eq!(watcher.step(WatchEvent::Shutdown), None);
    assert!(watcher.is_shutdown());
}

#[test]
fn shutdown_before_the_start_stops_the_scheduler() {
    let mut watcher = Watcher::new(10);
    assert_eq!(watcher.step(WatchEvent::Shutdown), Some(WatchAction::Stop));
    assert_eq!(watcher.step(WatchEvent::Start), None);
}

#[test]
fn shutdown_interrupts_the_sleep() {
    let mut watcher = Watcher::new(10);
    watcher.step(WatchEvent::Start);
    watcher.step(WatchEvent::PassDone);
    assert_eq!(watcher.step(WatchEvent::Shutdown), Some(WatchAction::Stop));
    assert_eq!(watcher.step(WatchEvent::SleepDone), None);
}
