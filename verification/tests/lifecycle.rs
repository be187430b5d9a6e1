use poly_market_maker::lifecycle::{
    Lifecycle, LifecycleAction, LifecycleEvent, Phase, DEFAULT_SYNC_INTERVAL, STARTUP_PAUSE,
};

use LifecycleAction::{Continue, Exit, RunShutdown, RunStartup, RunTick, Sleep};
use LifecycleEvent::{Done, Terminate};

fn full(interval: u64) -> Lifecycle {
    let mut l = Lifecycle::new();
    l.on_startup();
    l.every(interval);
    l.on_shutdown();
    l
}

#[test]
fn new_lifecycle_has_no_hooks() {
    let l = Lifecycle::new();
    assert_eq!(l.sync_interval, 30);
    assert_eq!(DEFAULT_SYNC_INTERVAL, 30);
    assert_eq!(STARTUP_PAUSE, 5);
    assert!(!l.has_startup && !l.has_sync && !l.has_shutdown);
    assert_eq!(l.phase, Phase::Created);
}

#[test]
fn hooks_are_noted() {
    let mut l = Lifecycle::new();
    l.on_startup();
    assert!(l.has_startup && !l.has_sync && !l.has_shutdown);
    l.every(7);
    assert!(l.has_sync);
    assert_eq!(l.sync_interval, 7);
    l.on_shutdown();
    assert!(l.has_shutdown);
    assert_eq!(l.phase, Phase::Created);
}

#[test]
fn hooks_run_one_after_the_other() {
    let mut l = full(12);
    assert_eq!(l.run(Done), RunStartup);
    assert_eq!(l.phase, Phase::Starting);
    assert_eq!(l.run(Done), Sleep(5));
    assert_eq!(l.phase, Phase::Settling);
    assert_eq!(l.run(Done), RunTick);
    assert_eq!(l.run(Done), Sleep(12));
    assert_eq!(l.run(Done), RunTick);
    assert_eq!(l.run(Done), Sleep(12));
    assert_eq!(l.phase, Phase::Pausing);
    assert_eq!(l.run(Terminate), RunShutdown);
    assert_eq!(l.phase, Phase::Stopping);
    assert_eq!(l.run(Done), Exit);
    assert_eq!(l.phase, Phase::Finished);
    assert_eq!(l.run(Done), Exit);
    assert_eq!(l.run(Terminate), Exit);
}

#[test]
fn termination_during_a_tick_leads_to_the_shutdown() {
    let mut l = full(12);
    l.run(Done);
    l.run(Done);
    assert_eq!(l.run(Done), RunTick);
    assert_eq!(l.run(Terminate), RunShutdown);
    assert_eq!(l.run(Terminate), Continue);
    assert_eq!(l.phase, Phase::Stopping);
    assert_eq!(l.run(Done), Exit);
}

#[test]
fn termination_is_not_heeded_before_the_loop() {
    let mut l = full(12);
    assert_eq!(l.run(Terminate), RunStartup);
    assert_eq!(l.run(Terminate), Continue);
    assert_eq!(l.phase, Phase::Starting);
    assert_eq!(l.run(Done), Sleep(5));
    assert_eq!(l.run(Terminate), Continue);
    assert_eq!(l.phase, Phase::Settling);
    assert_eq!(l.run(Done), RunTick);
}

#[test]
fn without_a_startup_hook_the_loop_begins_at_once() {
    let mut l = Lifecycle::new();
    l.every(3);
    assert_eq!(l.run(Done), RunTick);
    assert_eq!(l.run(Done), Sleep(3));
    assert_eq!(l.run(Terminate), Exit);
    assert_eq!(l.phase, Phase::Finished);
}

#[test]
fn without_a_tick_the_shutdown_follows_the_startup() {
    let mut l = Lifecycle::new();
    l.on_startup();
    l.on_shutdown();
    assert_eq!(l.run(Done), RunStartup);
    assert_eq!(l.run(Done), Sleep(5));
    assert_eq!(l.run(Done), RunShutdown);
    assert_eq!(l.run(Done), Exit);
}

#[test]
fn without_any_hook_the_run_ends() {
    let mut l = Lifecycle::new();
    assert_eq!(l.run(Done), Exit);
    assert_eq!(l.phase, Phase::Finished);
}

#[test]
fn termination_is_heeded_in_the_loop_only() {
    let mut l = full(12);
    assert!(!l.heeds_termination());
    l.run(Done);
    assert!(!l.heeds_termination());
    l.run(Done);
    assert!(!l.heeds_termination());
    l.run(Done);
    assert!(l.heeds_termination());
    l.run(Done);
    assert!(l.heeds_termination());
    l.run(Terminate);
    assert!(!l.heeds_termination());
    l.run(Done);
    assert!(!l.heeds_termination());
}
