use tts_bot::coordinator::{
    classify, Completion, ConnectResult, JoinAction, JoinCoordinator, JoinError, JoinOutcome,
    LeaveAction, LeaveCompletion,
};
use tts_bot::registry::{Call, GuildJoinLock, LockRegistry};

fn join_of(channel_id: u64) -> Call {
    Call::Join { channel_id }
}

fn joined(channel_id: u64, wake: Option<Call>) -> Option<Completion> {
    Some(Completion { result: Ok(JoinOutcome::Joined { channel_id }), wake })
}

#[test]
fn two_calls_for_one_guild_connect_one_after_the_other() {
    let mut coordinator = JoinCoordinator::new();
    assert!(!coordinator.is_locked(42));

    let first = coordinator.join(42, 7);
    let second = coordinator.join(42, 7);
    assert_eq!(first, JoinAction::Connect { guild_id: 42, channel_id: 7 });
    assert_eq!(second, JoinAction::Wait);
    assert_eq!(coordinator.connecting(42), Some(7));
    assert_eq!(coordinator.waiting(42), 1);

    // The first connect ends: the waiting call is woken and connects in turn.
    assert_eq!(coordinator.connected(42, ConnectResult::Connected), joined(7, Some(join_of(7))));
    assert!(coordinator.is_locked(42));
    assert_eq!(coordinator.waiting(42), 0);

    assert_eq!(coordinator.connected(42, ConnectResult::Connected), joined(7, None));
    assert!(!coordinator.is_locked(42));
    assert_eq!(coordinator.connecting(42), None);
}

#[test]
fn calls_for_different_guilds_do_not_wait_for_each_other() {
    let mut coordinator = JoinCoordinator::new();
    assert_eq!(coordinator.join(1, 10), JoinAction::Connect { guild_id: 1, channel_id: 10 });
    assert_eq!(coordinator.join(2, 20), JoinAction::Connect { guild_id: 2, channel_id: 20 });
    assert_eq!(coordinator.leave(3), LeaveAction::Disconnect { guild_id: 3 });
    assert!(coordinator.is_locked(1));
    assert!(coordinator.is_locked(2));
    assert!(coordinator.is_locked(3));

    // Ending the connect of one guild leaves the others as they are.
    assert_eq!(coordinator.connected(2, ConnectResult::Connected), joined(20, None));
    assert!(coordinator.is_locked(1));
    assert_eq!(coordinator.connecting(1), Some(10));
    assert!(!coordinator.is_locked(2));
    assert_eq!(coordinator.holder(3), Some(Call::Leave));
}

#[test]
fn a_held_lock_makes_later_calls_wait_in_order() {
    let mut coordinator = JoinCoordinator::new();
    assert_eq!(coordinator.join(5, 100), JoinAction::Connect { guild_id: 5, channel_id: 100 });
    assert_eq!(coordinator.join(5, 200), JoinAction::Wait);
    assert_eq!(coordinator.join(5, 300), JoinAction::Wait);
    assert_eq!(coordinator.waiting(5), 2);
    assert_eq!(coordinator.connecting(5), Some(100));

    assert_eq!(
        coordinator.connected(5, ConnectResult::Connected),
        joined(100, Some(join_of(200)))
    );
    assert_eq!(coordinator.connecting(5), Some(200));
    assert_eq!(
        coordinator.connected(5, ConnectResult::Connected),
        joined(200, Some(join_of(300)))
    );
    assert_eq!(coordinator.connecting(5), Some(300));
    assert_eq!(coordinator.connected(5, ConnectResult::Connected), joined(300, None));
    assert_eq!(coordinator.connecting(5), None);
}

#[test]
fn the_lock_is_free_again_after_a_success() {
    let mut coordinator = JoinCoordinator::new();
    coordinator.join(9, 1);
    let done = coordinator.connected(9, ConnectResult::Connected);
    assert_eq!(done, joined(1, None));
    assert_eq!(coordinator.join(9, 2), JoinAction::Connect { guild_id: 9, channel_id: 2 });
}

#[test]
fn the_lock_is_free_again_after_a_timeout() {
    let mut coordinator = JoinCoordinator::new();
    coordinator.join(9, 1);
    let done = coordinator.connected(9, ConnectResult::TimedOut);
    assert_eq!(done, Some(Completion { result: Ok(JoinOutcome::JoinTimedOut), wake: None }));
    assert_eq!(coordinator.join(9, 2), JoinAction::Connect { guild_id: 9, channel_id: 2 });
}

#[test]
fn the_lock_is_free_again_after_a_fatal_error() {
    let mut coordinator = JoinCoordinator::new();
    coordinator.join(9, 1);
    let done = coordinator.connected(9, ConnectResult::Failed(String::from("no gateway")));
    assert_eq!(
        done,
        Some(Completion {
            result: Err(JoinError::JoinFatal { detail: String::from("no gateway") }),
            wake: None,
        })
    );
    assert_eq!(coordinator.join(9, 2), JoinAction::Connect { guild_id: 9, channel_id: 2 });
}

#[test]
fn a_failed_connect_still_wakes_the_next_call() {
    let mut coordinator = JoinCoordinator::new();
    coordinator.join(3, 1);
    assert_eq!(coordinator.join(3, 2), JoinAction::Wait);
    let done = coordinator.connected(3, ConnectResult::Failed(String::from("dropped")));
    assert_eq!(
        done,
        Some(Completion {
            result: Err(JoinError::JoinFatal { detail: String::from("dropped") }),
            wake: Some(join_of(2)),
        })
    );
    assert_eq!(coordinator.connecting(3), Some(2));
}

#[test]
fn joining_the_same_channel_twice_in_a_row_succeeds_twice() {
    let mut coordinator = JoinCoordinator::new();
    for _ in 0..2 {
        assert_eq!(coordinator.join(42, 7), JoinAction::Connect { guild_id: 42, channel_id: 7 });
        assert_eq!(coordinator.connected(42, ConnectResult::Connected), joined(7, None));
        assert!(!coordinator.is_locked(42));
        assert_eq!(coordinator.waiting(42), 0);
    }
}

#[test]
fn a_report_for_a_free_lock_changes_nothing() {
    let mut coordinator = JoinCoordinator::new();
    assert_eq!(coordinator.connected(8, ConnectResult::Connected), None);
    assert_eq!(coordinator.disconnected(8, Ok(())), None);
    coordinator.join(8, 1);
    coordinator.connected(8, ConnectResult::Connected);
    assert_eq!(coordinator.connected(8, ConnectResult::TimedOut), None);
    assert!(!coordinator.is_locked(8));
    assert_eq!(coordinator.join(8, 4), JoinAction::Connect { guild_id: 8, channel_id: 4 });
}

#[test]
fn a_leave_waits_for_the_connect_in_flight() {
    let mut coordinator = JoinCoordinator::new();
    assert_eq!(coordinator.join(6, 60), JoinAction::Connect { guild_id: 6, channel_id: 60 });
    // The connect has not returned: the leave is not told to disconnect.
    assert_eq!(coordinator.leave(6), LeaveAction::Wait);
    assert_eq!(coordinator.holder(6), Some(join_of(60)));
    assert_eq!(coordinator.waiting(6), 1);
    // A disconnect that nobody was told to make is not taken.
    assert_eq!(coordinator.disconnected(6, Ok(())), None);
    assert_eq!(coordinator.holder(6), Some(join_of(60)));

    assert_eq!(coordinator.connected(6, ConnectResult::Connected), joined(60, Some(Call::Leave)));
    assert_eq!(coordinator.holder(6), Some(Call::Leave));
    // Now the leave holds the lock, and a connect report is not taken.
    assert_eq!(coordinator.connected(6, ConnectResult::Connected), None);
    assert_eq!(
        coordinator.disconnected(6, Ok(())),
        Some(LeaveCompletion { result: Ok(()), wake: None })
    );
    assert!(!coordinator.is_locked(6));
}

#[test]
fn a_join_waits_for_the_disconnect_in_flight() {
    let mut coordinator = JoinCoordinator::new();
    assert_eq!(coordinator.leave(6), LeaveAction::Disconnect { guild_id: 6 });
    assert_eq!(coordinator.join(6, 61), JoinAction::Wait);
    assert_eq!(coordinator.leave(6), LeaveAction::Wait);
    assert_eq!(
        coordinator.disconnected(6, Ok(())),
        Some(LeaveCompletion { result: Ok(()), wake: Some(join_of(61)) })
    );
    assert_eq!(coordinator.connected(6, ConnectResult::Connected), joined(61, Some(Call::Leave)));
    assert_eq!(
        coordinator.disconnected(6, Ok(())),
        Some(LeaveCompletion { result: Ok(()), wake: None })
    );
}

#[test]
fn the_lock_is_free_again_after_a_failed_disconnect() {
    let mut coordinator = JoinCoordinator::new();
    assert_eq!(coordinator.leave(4), LeaveAction::Disconnect { guild_id: 4 });
    assert_eq!(coordinator.join(4, 40), JoinAction::Wait);
    let done = coordinator.disconnected(4, Err(String::from("no call")));
    assert_eq!(
        done,
        Some(LeaveCompletion { result: Err(String::from("no call")), wake: Some(join_of(40)) })
    );
    assert_eq!(coordinator.connected(4, ConnectResult::Connected), joined(40, None));
    assert!(!coordinator.is_locked(4));
    assert_eq!(coordinator.leave(4), LeaveAction::Disconnect { guild_id: 4 });
    assert_eq!(
        coordinator.disconnected(4, Err(String::from("again"))),
        Some(LeaveCompletion { result: Err(String::from("again")), wake: None })
    );
    assert_eq!(coordinator.leave(4), LeaveAction::Disconnect { guild_id: 4 });
}

#[test]
fn a_call_that_gives_up_waiting_takes_no_turn() {
    let mut coordinator = JoinCoordinator::new();
    coordinator.join(7, 1);
    assert_eq!(coordinator.join(7, 2), JoinAction::Wait);
    assert_eq!(coordinator.leave(7), LeaveAction::Wait);
    assert_eq!(coordinator.join(7, 3), JoinAction::Wait);

    // Nobody waits at the fourth place.
    assert_eq!(coordinator.withdraw(7, 3), None);
    assert_eq!(coordinator.waiting(7), 3);
    // The leave goes away; the holder and the order of the others stay.
    assert_eq!(coordinator.withdraw(7, 1), Some(Call::Leave));
    assert_eq!(coordinator.waiting(7), 2);
    assert_eq!(coordinator.holder(7), Some(join_of(1)));

    assert_eq!(coordinator.connected(7, ConnectResult::Connected), joined(1, Some(join_of(2))));
    assert_eq!(coordinator.withdraw(7, 0), Some(join_of(3)));
    assert_eq!(coordinator.connected(7, ConnectResult::Connected), joined(2, None));
    assert!(!coordinator.is_locked(7));
    // Other guilds have no queue to leave.
    assert_eq!(coordinator.withdraw(8, 0), None);
}

#[test]
fn classify_tells_the_three_ends_apart() {
    assert_eq!(classify(7, ConnectResult::Connected), Ok(JoinOutcome::Joined { channel_id: 7 }));
    assert_eq!(classify(7, ConnectResult::TimedOut), Ok(JoinOutcome::JoinTimedOut));
    assert_eq!(
        classify(7, ConnectResult::Failed(String::from("boom"))),
        Err(JoinError::JoinFatal { detail: String::from("boom") })
    );
}

#[test]
fn the_registry_keeps_one_lock_per_guild() {
    let mut registry = LockRegistry::new();
    assert_eq!(registry.len(), 0);
    assert!(!registry.contains(11));

    assert!(registry.acquire(11));
    assert!(registry.acquire(22));
    assert!(!registry.acquire(11));
    assert_eq!(registry.len(), 2);
    assert!(registry.contains(11));
    assert!(registry.contains(22));
    assert!(!registry.contains(33));
}

#[test]
fn a_lock_is_kept_when_it_is_free_again() {
    let mut registry = LockRegistry::new();
    assert!(registry.acquire(11));
    assert!(registry.lock(11, join_of(1)));
    assert!(!registry.lock(11, join_of(2)));
    assert_eq!(registry.holder(11), Some(join_of(1)));
    assert_eq!(registry.waiting(11), 1);
    assert_eq!(registry.unlock(11), Some(join_of(2)));
    assert_eq!(registry.unlock(11), None);
    assert_eq!(registry.holder(11), None);
    assert_eq!(registry.len(), 1);
    assert!(!registry.acquire(11));
}

#[test]
fn locks_of_the_registry_are_independent() {
    let mut registry = LockRegistry::new();
    // A lock is made when it is first asked for.
    assert!(registry.lock(1, join_of(10)));
    assert!(registry.lock(2, Call::Leave));
    assert_eq!(registry.len(), 2);
    assert_eq!(registry.unlock(1), None);
    assert_eq!(registry.holder(2), Some(Call::Leave));
    assert_eq!(registry.holder(1), None);
    // Nothing is made by letting go or giving up.
    assert_eq!(registry.unlock(3), None);
    assert_eq!(registry.withdraw(3, 0), None);
    assert_eq!(registry.holder(3), None);
    assert_eq!(registry.waiting(3), 0);
    assert_eq!(registry.len(), 2);
}

#[test]
fn a_guild_lock_is_fair() {
    let mut lock = GuildJoinLock::new(77);
    assert_eq!(lock.guild_id(), 77);
    assert!(!lock.is_locked());
    assert!(lock.lock(join_of(1)));
    assert!(!lock.lock(Call::Leave));
    assert!(!lock.lock(join_of(3)));
    assert!(!lock.lock(join_of(4)));
    assert!(lock.is_locked());
    assert_eq!(lock.holder(), Some(join_of(1)));
    assert_eq!(lock.waiting(), 3);
    assert_eq!(lock.withdraw(1), Some(join_of(3)));
    assert_eq!(lock.withdraw(5), None);
    assert_eq!(lock.unlock(), Some(Call::Leave));
    assert_eq!(lock.unlock(), Some(join_of(4)));
    assert_eq!(lock.unlock(), None);
    assert_eq!(lock.unlock(), None);
    assert!(!lock.is_locked());
    assert_eq!(lock.waiting(), 0);
}

#[test]
fn a_holder_that_goes_away_lets_go_of_the_lock() {
    let mut coordinator = JoinCoordinator::new();
    assert_eq!(coordinator.abandon(2), None);
    coordinator.join(2, 20);
    assert_eq!(coordinator.leave(2), LeaveAction::Wait);
    assert_eq!(coordinator.join(2, 21), JoinAction::Wait);
    assert_eq!(coordinator.abandon(2), Some(Call::Leave));
    assert_eq!(coordinator.holder(2), Some(Call::Leave));
    assert_eq!(coordinator.abandon(2), Some(join_of(21)));
    assert_eq!(coordinator.abandon(2), None);
    assert!(!coordinator.is_locked(2));
    assert_eq!(coordinator.abandon(2), None);
    assert_eq!(coordinator.join(2, 22), JoinAction::Connect { guild_id: 2, channel_id: 22 });
}
