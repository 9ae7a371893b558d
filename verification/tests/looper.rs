use tts_bot::bot_list_updater::BotListUpdater;
use tts_bot::looper::{LoopDescriptor, Looper, LooperAction, LooperEvent, LooperStep};

fn hourly() -> Looper {
    Looper::new(LoopDescriptor::new(String::from("job"), 3_600_000).unwrap())
}

#[test]
fn nothing_runs_before_the_first_interval() {
    let looper = hourly();
    assert!(!looper.is_running());
    assert_eq!(looper.start(), LooperAction::Sleep { millis: 3_600_000 });
}

#[test]
fn a_job_that_always_fails_is_invoked_at_every_tick() {
    let mut looper = hourly();
    let mut invoked = 0;
    let mut logged = 0;
    for tick in 0..25 {
        let step = looper.step(LooperEvent::Tick);
        assert_eq!(step, LooperStep { action: LooperAction::Invoke, failure: None });
        invoked += 1;
        assert!(looper.is_running());

        let step = looper.step(LooperEvent::Finished(Err(format!("failure {tick}"))));
        assert_eq!(
            step,
            LooperStep {
                action: LooperAction::Sleep { millis: 3_600_000 },
                failure: Some(format!("failure {tick}")),
            }
        );
        logged += 1;
        assert!(!looper.is_running());
    }
    assert_eq!(invoked, 25);
    assert_eq!(logged, 25);
}

#[test]
fn a_run_that_succeeds_leaves_nothing_for_the_log() {
    let mut looper = hourly();
    assert_eq!(looper.step(LooperEvent::Tick).action, LooperAction::Invoke);
    let step = looper.step(LooperEvent::Finished(Ok(())));
    assert_eq!(step, LooperStep { action: LooperAction::Sleep { millis: 3_600_000 }, failure: None });
}

#[test]
fn a_tick_during_a_run_starts_no_second_run() {
    let mut looper = hourly();
    assert_eq!(looper.step(LooperEvent::Tick).action, LooperAction::Invoke);
    let step = looper.step(LooperEvent::Tick);
    assert_eq!(step, LooperStep { action: LooperAction::Ignore, failure: None });
    assert!(looper.is_running());
}

#[test]
fn the_end_of_a_run_that_never_began_is_ignored() {
    let mut looper = hourly();
    let step = looper.step(LooperEvent::Finished(Err(String::from("late"))));
    assert_eq!(step, LooperStep { action: LooperAction::Ignore, failure: None });
    assert!(!looper.is_running());
    assert_eq!(looper.step(LooperEvent::Tick).action, LooperAction::Invoke);
}

#[test]
fn there_is_no_job_with_an_interval_of_zero() {
    assert!(LoopDescriptor::new(String::from("never"), 0).is_none());
    let descriptor = LoopDescriptor::new(String::from("often"), 1).unwrap();
    assert_eq!(descriptor.name(), "often");
    assert_eq!(descriptor.millis(), 1);
}

#[test]
fn the_broadcaster_runs_every_hour() {
    let descriptor = BotListUpdater::descriptor();
    assert_eq!(descriptor.name(), "Bot List Updater");
    assert_eq!(descriptor.millis(), 3_600_000);
    let looper = Looper::new(descriptor);
    assert_eq!(looper.descriptor().millis(), 3_600_000);
    assert_eq!(looper.start(), LooperAction::Sleep { millis: 3_600_000 });
}
