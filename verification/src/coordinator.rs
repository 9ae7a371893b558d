//! The join coordinator: at most one change of a guild's voice connection at
//! any time.
//!
//! A join runs in two halves around the connect, which the caller performs.
//! [`JoinCoordinator::join`] takes the guild's lock for the call or queues the
//! call behind the holder. [`JoinCoordinator::connected`] takes what the
//! connect came to, classifies it, lets go of the lock and names the queued
//! call that holds it next. A leave runs in the same way around the
//! disconnect, with [`JoinCoordinator::leave`] and
//! [`JoinCoordinator::disconnected`]. A call that gives up waiting is taken
//! out of the queue by [`JoinCoordinator::withdraw`].

use crate::registry::{Call, GuildState, LockRegistry};
use vstd::prelude::*;

verus! {

/// What the voice-session manager reported of one connect.
#[derive(Debug, PartialEq, Eq)]
pub enum ConnectResult {
    Connected,
    TimedOut,
    /// Any other failure, with the manager's description of it.
    Failed(String),
}

/// How a join call ended when it did not fail.
#[derive(Debug, Clone, Copy, PartialEq, Eq)]
pub enum JoinOutcome {
    /// The bot is now in this channel.
    Joined { channel_id: u64 },
    /// The manager gave up waiting. The caller may try again.
    JoinTimedOut,
}

/// A join call that failed for good.
#[derive(Debug, PartialEq, Eq)]
pub enum JoinError {
    JoinFatal { detail: String },
}

/// What the caller of [`JoinCoordinator::join`] does next.
#[derive(Debug, Clone, Copy, PartialEq, Eq)]
pub enum JoinAction {
    /// The call holds the guild's lock: connect now, then report to
    /// [`JoinCoordinator::connected`].
    Connect { guild_id: u64, channel_id: u64 },
    /// Another call holds the guild's lock: wait until a completion names
    /// this call.
    Wait,
}

/// What the caller of [`JoinCoordinator::leave`] does next.
#[derive(Debug, Clone, Copy, PartialEq, Eq)]
pub enum LeaveAction {
    /// The call holds the guild's lock: disconnect now, then report to
    /// [`JoinCoordinator::disconnected`].
    Disconnect { guild_id: u64 },
    /// Another call holds the guild's lock: wait until a completion names
    /// this call.
    Wait,
}

/// What [`JoinCoordinator::connected`] hands back for the join that held the
/// lock.
#[derive(Debug, PartialEq, Eq)]
pub struct Completion {
    /// The result of the join that has just ended.
    pub result: Result<JoinOutcome, JoinError>,
    /// The queued call that holds the lock now and is to go on; `None` when
    /// the lock is free.
    pub wake: Option<Call>,
}

/// What [`JoinCoordinator::disconnected`] hands back for the leave that held
/// the lock.
#[derive(Debug, PartialEq, Eq)]
pub struct LeaveCompletion {
    /// The result of the leave that has just ended, with the detail of the
    /// failure if the disconnect failed.
    pub result: Result<(), String>,
    /// The queued call that holds the lock now and is to go on; `None` when
    /// the lock is free.
    pub wake: Option<Call>,
}

/// The result of a join call for `channel_id` whose connect came to `connect`.
pub open spec fn join_result(channel_id: u64, connect: ConnectResult) -> Result<
    JoinOutcome,
    JoinError,
> {
    match connect {
        ConnectResult::Connected => Ok(JoinOutcome::Joined { channel_id }),
        ConnectResult::TimedOut => Ok(JoinOutcome::JoinTimedOut),
        ConnectResult::Failed(detail) => Err(JoinError::JoinFatal { detail }),
    }
}

/// What a join for `channel_id` is told when it finds the guild's lock in
/// `state`.
pub open spec fn join_action(state: GuildState, guild_id: u64, channel_id: u64) -> JoinAction {
    if state.is_locked() {
        JoinAction::Wait
    } else {
        JoinAction::Connect { guild_id, channel_id }
    }
}

/// What a leave is told when it finds the guild's lock in `state`.
pub open spec fn leave_action(state: GuildState, guild_id: u64) -> LeaveAction {
    if state.is_locked() {
        LeaveAction::Wait
    } else {
        LeaveAction::Disconnect { guild_id }
    }
}

/// The state of a guild's lock after its holder lets go. A lock that nobody
/// holds stays as it is.
pub open spec fn released(state: GuildState) -> GuildState {
    if state.is_locked() {
        state.unlock()
    } else {
        state
    }
}

/// The state of a guild's lock after a connect of that guild was reported:
/// the join that holds the lock lets go. A report for a lock that no join
/// holds changes nothing.
pub open spec fn released_by_join(state: GuildState) -> GuildState {
    if state.holder matches Some(Call::Join { .. }) {
        state.unlock()
    } else {
        state
    }
}

/// The state of a guild's lock after a disconnect of that guild was
/// reported: the leave that holds the lock lets go. A report for a lock that
/// no leave holds changes nothing.
pub open spec fn released_by_leave(state: GuildState) -> GuildState {
    if state.holder == Some(Call::Leave) {
        state.unlock()
    } else {
        state
    }
}

/// What is handed back when a connect is reported for a guild whose lock is
/// in `state`.
pub open spec fn completion(state: GuildState, connect: ConnectResult) -> Option<Completion> {
    match state.holder {
        Some(Call::Join { channel_id }) => Some(
            Completion { result: join_result(channel_id, connect), wake: state.unlock().holder },
        ),
        _ => None,
    }
}

/// What is handed back when a disconnect is reported for a guild whose lock
/// is in `state`.
pub open spec fn leave_completion(state: GuildState, result: Result<(), String>) -> Option<
    LeaveCompletion,
> {
    match state.holder {
        Some(Call::Leave) => Some(LeaveCompletion { result, wake: state.unlock().holder }),
        _ => None,
    }
}

/// Classifies what a connect to `channel_id` came to: success and timeout are
/// outcomes, anything else is a fatal error that carries the detail.
pub fn classify(channel_id: u64, connect: ConnectResult) -> (result: Result<JoinOutcome, JoinError>)
    ensures
        result == join_result(channel_id, connect),
{
    match connect {
        ConnectResult::Connected => Ok(JoinOutcome::Joined { channel_id }),
        ConnectResult::TimedOut => Ok(JoinOutcome::JoinTimedOut),
        ConnectResult::Failed(detail) => Err(JoinError::JoinFatal { detail }),
    }
}

/// Serializes the changes of each guild's voice connection. Guilds do not
/// share a lock, so a call for one guild never waits for a call for another.
pub struct JoinCoordinator {
    registry: LockRegistry,
}

impl JoinCoordinator {
    /// No lock that is free has waiters. This holds of every coordinator
    /// there is.
    pub open spec fn well_formed(&self) -> bool {
        forall|g: u64| (#[trigger] self.state(g)).well_formed()
    }

    /// The lock of `guild_id`: the call that is at work and the calls queued
    /// behind it.
    pub closed spec fn state(&self, guild_id: u64) -> GuildState {
        self.registry.state_of(guild_id)
    }

    /// Whether a lock was ever made for `guild_id`.
    pub closed spec fn registered(&self, guild_id: u64) -> bool {
        self.registry.registered(guild_id)
    }

    /// A coordinator that has seen no call.
    pub fn new() -> (coordinator: JoinCoordinator)
        ensures
            coordinator.well_formed(),
            forall|g: u64| coordinator.state(g) == GuildState::free(),
            forall|g: u64| !coordinator.registered(g),
    {
        JoinCoordinator { registry: LockRegistry::new() }
    }

    /// Starts a join of `guild_id` for `channel_id`.
    ///
    /// With the guild's lock free the call takes it and is told to connect.
    /// With the lock held the call is queued and told to wait. Either way no
    /// other guild is touched.
    pub fn join(&mut self, guild_id: u64, channel_id: u64) -> (action: JoinAction)
        ensures
            old(self).well_formed(),
            final(self).well_formed(),
            action == join_action(old(self).state(guild_id), guild_id, channel_id),
            final(self).state(guild_id) == old(self).state(guild_id).lock(
                Call::Join { channel_id },
            ),
            final(self).registered(guild_id),
            forall|g: u64| g != guild_id ==> final(self).state(g) == old(self).state(g),
            forall|g: u64| g != guild_id ==> final(self).registered(g) == old(self).registered(g),
            forall|g: u64| #[trigger]
                final(self).state(g) == after_event(
                    old(self).state(g),
                    g,
                    JoinEvent::Join { guild_id, channel_id },
                ),
    {
        let granted = self.registry.lock(guild_id, Call::Join { channel_id });
        if granted {
            JoinAction::Connect { guild_id, channel_id }
        } else {
            JoinAction::Wait
        }
    }

    /// Ends the join that holds the lock of `guild_id`, whose connect came to
    /// `connect`.
    ///
    /// Whatever `connect` is, the call lets go of the lock, and the oldest
    /// queued call, if there is one, holds it from now on. Returns the result
    /// of the join that ended and the call to wake. Returns `None`, and
    /// changes nothing, when no join holds the guild's lock.
    pub fn connected(&mut self, guild_id: u64, connect: ConnectResult) -> (done: Option<Completion>)
        ensures
            old(self).well_formed(),
            final(self).well_formed(),
            done == completion(old(self).state(guild_id), connect),
            final(self).state(guild_id) == released_by_join(old(self).state(guild_id)),
            forall|g: u64| g != guild_id ==> final(self).state(g) == old(self).state(g),
            forall|g: u64| final(self).registered(g) == old(self).registered(g),
            forall|g: u64| #[trigger]
                final(self).state(g) == after_event(
                    old(self).state(g),
                    g,
                    JoinEvent::Connected { guild_id, connect },
                ),
    {
        match self.registry.holder(guild_id) {
            Some(Call::Join { channel_id }) => {
                let wake = self.registry.unlock(guild_id);
                Some(Completion { result: classify(channel_id, connect), wake })
            },
            _ => None,
        }
    }

    /// Starts a leave of `guild_id`.
    ///
    /// With the guild's lock free the call takes it and is told to
    /// disconnect. With the lock held, by a join whose connect has not
    /// returned or by another leave, the call is queued and told to wait.
    /// Either way no other guild is touched.
    pub fn leave(&mut self, guild_id: u64) -> (action: LeaveAction)
        ensures
            old(self).well_formed(),
            final(self).well_formed(),
            action == leave_action(old(self).state(guild_id), guild_id),
            final(self).state(guild_id) == old(self).state(guild_id).lock(Call::Leave),
            final(self).registered(guild_id),
            forall|g: u64| g != guild_id ==> final(self).state(g) == old(self).state(g),
            forall|g: u64| g != guild_id ==> final(self).registered(g) == old(self).registered(g),
            forall|g: u64| #[trigger]
                final(self).state(g) == after_event(
                    old(self).state(g),
                    g,
                    JoinEvent::Leave { guild_id },
                ),
    {
        let granted = self.registry.lock(guild_id, Call::Leave);
        if granted {
            LeaveAction::Disconnect { guild_id }
        } else {
            LeaveAction::Wait
        }
    }

    /// Ends the leave that holds the lock of `guild_id`, whose disconnect came
    /// to `result`.
    ///
    /// Whether the disconnect failed or not, the call lets go of the lock,
    /// and the oldest queued call, if there is one, holds it from now on.
    /// Returns the result as it was given and the call to wake. Returns
    /// `None`, and changes nothing, when no leave holds the guild's lock.
    pub fn disconnected(&mut self, guild_id: u64, result: Result<(), String>) -> (done: Option<
        LeaveCompletion,
    >)
        ensures
            old(self).well_formed(),
            final(self).well_formed(),
            done == leave_completion(old(self).state(guild_id), result),
            final(self).state(guild_id) == released_by_leave(old(self).state(guild_id)),
            forall|g: u64| g != guild_id ==> final(self).state(g) == old(self).state(g),
            forall|g: u64| final(self).registered(g) == old(self).registered(g),
            forall|g: u64| #[trigger]
                final(self).state(g) == after_event(
                    old(self).state(g),
                    g,
                    JoinEvent::Disconnected { guild_id, result },
                ),
    {
        match self.registry.holder(guild_id) {
            Some(Call::Leave) => {
                let wake = self.registry.unlock(guild_id);
                Some(LeaveCompletion { result, wake })
            },
            _ => None,
        }
    }

    /// Takes the call at `position` of the queue of `guild_id` out of it: the
    /// call has given up waiting and will not be woken. Returns the call,
    /// or `None`, with nothing changed, when the queue holds no call there.
    /// The holder and the order of the calls left stay as they are.
    pub fn withdraw(&mut self, guild_id: u64, position: usize) -> (gone: Option<Call>)
        ensures
            old(self).well_formed(),
            final(self).well_formed(),
            gone == old(self).state(guild_id).waiter(position as int),
            final(self).state(guild_id) == old(self).state(guild_id).withdraw(position as int),
            forall|g: u64| g != guild_id ==> final(self).state(g) == old(self).state(g),
            forall|g: u64| final(self).registered(g) == old(self).registered(g),
            forall|g: u64| #[trigger]
                final(self).state(g) == after_event(
                    old(self).state(g),
                    g,
                    JoinEvent::Withdrawn { guild_id, position: position as int },
                ),
    {
        self.registry.withdraw(guild_id, position)
    }

    /// Ends the call that holds the lock of `guild_id` without a report: the
    /// call has gone away before its connect or disconnect returned. The
    /// lock is let go of as after a report, and the oldest queued call, if
    /// there is one, holds it from now on. Returns the call to wake. With the
    /// lock free nothing changes.
    pub fn abandon(&mut self, guild_id: u64) -> (wake: Option<Call>)
        ensures
            old(self).well_formed(),
            final(self).well_formed(),
            wake == released(old(self).state(guild_id)).holder,
            final(self).state(guild_id) == released(old(self).state(guild_id)),
            forall|g: u64| g != guild_id ==> final(self).state(g) == old(self).state(g),
            forall|g: u64| final(self).registered(g) == old(self).registered(g),
            forall|g: u64| #[trigger]
                final(self).state(g) == after_event(
                    old(self).state(g),
                    g,
                    JoinEvent::Abandoned { guild_id },
                ),
    {
        match self.registry.holder(guild_id) {
            Some(_) => self.registry.unlock(guild_id),
            None => None,
        }
    }

    /// Whether a call of `guild_id` is at work right now.
    pub fn is_locked(&self, guild_id: u64) -> (locked: bool)
        ensures
            self.well_formed(),
            locked == self.state(guild_id).is_locked(),
    {
        self.registry.holder(guild_id).is_some()
    }

    /// The call that holds the lock of `guild_id`.
    pub fn holder(&self, guild_id: u64) -> (call: Option<Call>)
        ensures
            self.well_formed(),
            call == self.state(guild_id).holder,
    {
        self.registry.holder(guild_id)
    }

    /// The channel that the join holding the lock of `guild_id` connects to.
    pub fn connecting(&self, guild_id: u64) -> (channel_id: Option<u64>)
        ensures
            self.well_formed(),
            channel_id == match self.state(guild_id).holder {
                Some(Call::Join { channel_id }) => Some(channel_id),
                _ => None,
            },
    {
        match self.registry.holder(guild_id) {
            Some(Call::Join { channel_id }) => Some(channel_id),
            _ => None,
        }
    }

    /// How many calls of `guild_id` wait for the lock.
    pub fn waiting(&self, guild_id: u64) -> (n: usize)
        ensures
            self.well_formed(),
            n == self.state(guild_id).waiters.len(),
    {
        self.registry.waiting(guild_id)
    }
}

/// One thing that happens to a coordinator.
pub enum JoinEvent {
    /// [`JoinCoordinator::join`] was called.
    Join { guild_id: u64, channel_id: u64 },
    /// [`JoinCoordinator::connected`] was called.
    Connected { guild_id: u64, connect: ConnectResult },
    /// [`JoinCoordinator::leave`] was called.
    Leave { guild_id: u64 },
    /// [`JoinCoordinator::disconnected`] was called.
    Disconnected { guild_id: u64, result: Result<(), String> },
    /// [`JoinCoordinator::withdraw`] was called.
    Withdrawn { guild_id: u64, position: int },
    /// [`JoinCoordinator::abandon`] was called.
    Abandoned { guild_id: u64 },
}

impl JoinEvent {
    /// The guild that the event is about.
    pub open spec fn guild_id(self) -> u64 {
        match self {
            JoinEvent::Join { guild_id, .. } => guild_id,
            JoinEvent::Connected { guild_id, .. } => guild_id,
            JoinEvent::Leave { guild_id } => guild_id,
            JoinEvent::Disconnected { guild_id, .. } => guild_id,
            JoinEvent::Withdrawn { guild_id, .. } => guild_id,
            JoinEvent::Abandoned { guild_id } => guild_id,
        }
    }
}

/// The state of the lock of `guild_id` after `event`, given its state before:
/// what the contracts of the coordinator's functions say of every guild.
pub open spec fn after_event(state: GuildState, guild_id: u64, event: JoinEvent) -> GuildState {
    if event.guild_id() != guild_id {
        state
    } else {
        match event {
            JoinEvent::Join { channel_id, .. } => state.lock(Call::Join { channel_id }),
            JoinEvent::Connected { .. } => released_by_join(state),
            JoinEvent::Leave { .. } => state.lock(Call::Leave),
            JoinEvent::Disconnected { .. } => released_by_leave(state),
            JoinEvent::Withdrawn { position, .. } => state.withdraw(position),
            JoinEvent::Abandoned { .. } => released(state),
        }
    }
}

/// The call of `guild_id` that `event` sends off to connect or to disconnect:
/// a call that finds the lock free, or a queued call that a completion
/// wakes.
pub open spec fn sent_off(state: GuildState, guild_id: u64, event: JoinEvent) -> Option<Call> {
    if event.guild_id() != guild_id {
        None
    } else {
        match event {
            JoinEvent::Join { channel_id, .. } => if join_action(state, guild_id, channel_id)
                is Connect {
                Some(Call::Join { channel_id })
            } else {
                None
            },
            JoinEvent::Leave { .. } => if leave_action(state, guild_id) is Disconnect {
                Some(Call::Leave)
            } else {
                None
            },
            JoinEvent::Connected { connect, .. } => match completion(state, connect) {
                Some(done) => done.wake,
                None => None,
            },
            JoinEvent::Disconnected { result, .. } => match leave_completion(state, result) {
                Some(done) => done.wake,
                None => None,
            },
            JoinEvent::Withdrawn { .. } => None,
            JoinEvent::Abandoned { .. } => if state.is_locked() {
                state.unlock().holder
            } else {
                None
            },
        }
    }
}

/// The call of `guild_id` whose connect or disconnect `event` ends: the
/// holder, when a completion of its kind is reported or the holder goes
/// away.
pub open spec fn ended(state: GuildState, guild_id: u64, event: JoinEvent) -> Option<Call> {
    if event.guild_id() != guild_id {
        None
    } else {
        match event {
            JoinEvent::Connected { connect, .. } => if completion(state, connect) is Some {
                state.holder
            } else {
                None
            },
            JoinEvent::Disconnected { result, .. } => if leave_completion(state, result)
                is Some {
                state.holder
            } else {
                None
            },
            JoinEvent::Abandoned { .. } => state.holder,
            _ => None,
        }
    }
}

/// The state of the lock of `guild_id` after a new coordinator has seen
/// `events` in this order.
pub open spec fn state_after(events: Seq<JoinEvent>, guild_id: u64) -> GuildState
    decreases events.len(),
{
    if events.len() == 0 {
        GuildState::free()
    } else {
        after_event(state_after(events.drop_last(), guild_id), guild_id, events.last())
    }
}

/// One if there is a call and it is a join, when `joins` is set, or a leave,
/// when it is not.
pub open spec fn one_if(call: Option<Call>, joins: bool) -> nat {
    match call {
        Some(Call::Join { .. }) => if joins {
            1
        } else {
            0
        },
        Some(Call::Leave) => if joins {
            0
        } else {
            1
        },
        None => 0,
    }
}

/// How many connects of `guild_id`, when `joins` is set, or disconnects, when
/// it is not, were started while a new coordinator saw `events`.
pub open spec fn started(events: Seq<JoinEvent>, guild_id: u64, joins: bool) -> nat
    decreases events.len(),
{
    if events.len() == 0 {
        0
    } else {
        let before = events.drop_last();
        started(before, guild_id, joins) + one_if(
            sent_off(state_after(before, guild_id), guild_id, events.last()),
            joins,
        )
    }
}

/// How many connects of `guild_id`, when `joins` is set, or disconnects, when
/// it is not, ended while a new coordinator saw `events`.
pub open spec fn finished(events: Seq<JoinEvent>, guild_id: u64, joins: bool) -> nat
    decreases events.len(),
{
    if events.len() == 0 {
        0
    } else {
        let before = events.drop_last();
        finished(before, guild_id, joins) + one_if(
            ended(state_after(before, guild_id), guild_id, events.last()),
            joins,
        )
    }
}

/// At every moment each guild has at most one connect or disconnect in
/// flight, and it has one exactly while its lock is held.
///
/// Whatever calls were made and in whatever order, the connects of a guild
/// that were started are those that ended, plus one if a join holds the lock
/// now; and so for the disconnects and a leave. The lock has one holder, so
/// no disconnect is in flight while a connect is, nor a second connect. A
/// call that finds the lock held starts nothing; it starts only when a
/// completion hands it the lock. No lock is ever left free with calls waiting
/// for it: while any call waits, a connect or a disconnect is in flight.
pub proof fn lemma_one_connect_in_flight(events: Seq<JoinEvent>, guild_id: u64)
    ensures
        state_after(events, guild_id).well_formed(),
        started(events, guild_id, true) == finished(events, guild_id, true) + one_if(
            state_after(events, guild_id).holder,
            true,
        ),
        started(events, guild_id, false) == finished(events, guild_id, false) + one_if(
            state_after(events, guild_id).holder,
            false,
        ),
        one_if(state_after(events, guild_id).holder, true) + one_if(
            state_after(events, guild_id).holder,
            false,
        ) <= 1,
        state_after(events, guild_id).waiters.len() > 0 ==> one_if(
            state_after(events, guild_id).holder,
            true,
        ) + one_if(state_after(events, guild_id).holder, false) == 1,
    decreases events.len(),
{
    if events.len() > 0 {
        lemma_one_connect_in_flight(events.drop_last(), guild_id);
    }
}

/// Calls of different guilds never wait for one another.
///
/// What happens to one guild leaves the lock of every other guild as it was,
/// so whether a join is told to connect, or a leave to disconnect, depends on
/// the calls of its own guild only. In particular, with the locks of two
/// guilds free, a join of each is told to connect, in whichever order they
/// come.
pub proof fn lemma_guilds_do_not_block_each_other(
    events: Seq<JoinEvent>,
    event: JoinEvent,
    guild_id: u64,
    channel_id: u64,
)
    requires
        event.guild_id() != guild_id,
    ensures
        state_after(events.push(event), guild_id) == state_after(events, guild_id),
        started(events.push(event), guild_id, true) == started(events, guild_id, true),
        started(events.push(event), guild_id, false) == started(events, guild_id, false),
        finished(events.push(event), guild_id, true) == finished(events, guild_id, true),
        finished(events.push(event), guild_id, false) == finished(events, guild_id, false),
        join_action(state_after(events.push(event), guild_id), guild_id, channel_id)
            == join_action(state_after(events, guild_id), guild_id, channel_id),
        leave_action(state_after(events.push(event), guild_id), guild_id) == leave_action(
            state_after(events, guild_id),
            guild_id,
        ),
        !state_after(events, guild_id).is_locked() ==> join_action(
            state_after(events.push(event), guild_id),
            guild_id,
            channel_id,
        ) == (JoinAction::Connect { guild_id, channel_id }),
{
    assert(events.push(event).drop_last() =~= events);
    assert(events.push(event).last() == event);
}

/// A join lets go of the lock however its connect ends, and a leave however
/// its disconnect ends.
///
/// A call that found the lock free holds it until its completion; after the
/// completion the lock is free again and the next join is told to connect,
/// whether the connect succeeded, timed out or failed, and whether the
/// disconnect failed or not. A call that leaves waiters behind hands the
/// lock to the oldest of them. The result handed back is the classification
/// of `connect`, or the result of the disconnect as it was given, and
/// nothing else.
pub proof fn lemma_lock_is_released(
    state: GuildState,
    guild_id: u64,
    channel_id: u64,
    connect: ConnectResult,
    result: Result<(), String>,
    next_channel_id: u64,
)
    requires
        state.well_formed(),
    ensures
        !state.is_locked() ==> {
            let joining = state.lock(Call::Join { channel_id });
            let leaving = state.lock(Call::Leave);
            &&& completion(joining, connect) == Some(
                Completion { result: join_result(channel_id, connect), wake: None },
            )
            &&& leave_completion(leaving, result) == Some(LeaveCompletion { result, wake: None })
            &&& released_by_join(joining) == GuildState::free()
            &&& released_by_leave(leaving) == GuildState::free()
            &&& join_action(released_by_join(joining), guild_id, next_channel_id)
                == (JoinAction::Connect { guild_id, channel_id: next_channel_id })
            &&& join_action(released_by_leave(leaving), guild_id, next_channel_id)
                == (JoinAction::Connect { guild_id, channel_id: next_channel_id })
        },
        state.holder matches Some(Call::Join { .. }) ==> completion(state, connect) is Some
            && released_by_join(state) == released(state),
        state.holder == Some(Call::Leave) ==> leave_completion(state, result) is Some
            && released_by_leave(state) == released(state),
        state.is_locked() ==> {
            &&& released(state).holder == if state.waiters.len() > 0 {
                Some(state.waiters[0])
            } else {
                None
            }
            &&& released(state).waiters.len() == if state.waiters.len() > 0 {
                state.waiters.len() - 1
            } else {
                0
            }
        },
{
    if !state.is_locked() {
        assert(state.waiters =~= Seq::<Call>::empty());
    }
}

/// Joining the same channel twice in a row is harmless.
///
/// With the lock of the guild free, two joins for one channel, each
/// completed before the next begins, are both told to connect, both end with
/// the channel joined when their connects succeed, and leave the lock as
/// free as it was.
pub proof fn lemma_redundant_joins(state: GuildState, guild_id: u64, channel_id: u64)
    requires
        state.well_formed(),
        !state.is_locked(),
    ensures
        ({
            let first = JoinEvent::Join { guild_id, channel_id };
            let done = JoinEvent::Connected { guild_id, connect: ConnectResult::Connected };
            let s1 = after_event(state, guild_id, first);
            let s2 = after_event(s1, guild_id, done);
            let s3 = after_event(s2, guild_id, first);
            let s4 = after_event(s3, guild_id, done);
            let joined = Some(
                Completion { result: Ok(JoinOutcome::Joined { channel_id }), wake: None },
            );
            &&& join_action(state, guild_id, channel_id) == (JoinAction::Connect {
                guild_id,
                channel_id,
            })
            &&& completion(s1, ConnectResult::Connected) == joined
            &&& s2 == state
            &&& join_action(s2, guild_id, channel_id) == (JoinAction::Connect {
                guild_id,
                channel_id,
            })
            &&& completion(s3, ConnectResult::Connected) == joined
            &&& s4 == state
        }),
{
    assert(state.waiters =~= Seq::<Call>::empty());
}

/// The state of a guild's lock after `n` holders in a row have let go.
pub open spec fn released_times(state: GuildState, n: nat) -> GuildState
    decreases n,
{
    if n == 0 {
        state
    } else {
        released_times(released(state), (n - 1) as nat)
    }
}

/// Calls that wait are served in the order in which they came.
///
/// With the lock held and calls waiting, the call that came `k`-th after the
/// holder holds the lock when the holder and the `k` calls before it have
/// ended, and not before: until then it waits at the front of those left.
pub proof fn lemma_calls_are_served_in_order(state: GuildState, k: nat)
    requires
        state.well_formed(),
        state.is_locked(),
        k < state.waiters.len(),
    ensures
        released_times(state, k + 1).holder == Some(state.waiters[k as int]),
        released_times(state, k).holder is Some,
        released_times(state, k).waiters.len() == state.waiters.len() - k,
        released_times(state, k).waiters[0] == state.waiters[k as int],
    decreases k,
{
    if k > 0 {
        lemma_calls_are_served_in_order(released(state), (k - 1) as nat);
    }
    assert(released_times(state, k + 1) == released_times(released(state), k));
    assert(released_times(released(state), 0) == released(state));
}

/// A call that gives up waiting takes no turn from the others.
///
/// The holder stays the holder, no connect or disconnect starts or ends, and
/// the calls left keep their order: those in front of the one that went stay
/// where they were, those behind it move up by one.
pub proof fn lemma_withdrawing_keeps_the_order(state: GuildState, guild_id: u64, position: int)
    requires
        state.well_formed(),
        0 <= position < state.waiters.len(),
    ensures
        ({
            let event = JoinEvent::Withdrawn { guild_id, position };
            let after = after_event(state, guild_id, event);
            &&& after.well_formed()
            &&& after.holder == state.holder
            &&& sent_off(state, guild_id, event) is None
            &&& ended(state, guild_id, event) is None
            &&& after.waiters.len() == state.waiters.len() - 1
            &&& forall|i: int| 0 <= i < position ==> after.waiters[i] == state.waiters[i]
            &&& forall|i: int|
                position <= i < after.waiters.len() ==> after.waiters[i] == state.waiters[i + 1]
        }),
{
}

} // verus!
