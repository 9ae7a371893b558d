//! The registry of per-guild locks.
//!
//! Every guild has at most one lock, kept under the guild's id. A lock is
//! fair: calls that find it held queue up behind the holder and are served
//! oldest first. A call either joins a voice channel or leaves the one the
//! bot is in.

use std::collections::HashMap;
use std::collections::VecDeque;
use vstd::prelude::*;
use vstd::std_specs::hash::*;

verus! {

/// A change of a guild's voice connection that asks for the guild's lock.
#[derive(Debug, Clone, Copy, PartialEq, Eq)]
pub enum Call {
    /// Connect to this voice channel.
    Join { channel_id: u64 },
    /// Disconnect from the voice channel the bot is in.
    Leave,
}

/// What a guild's lock looks like from outside: the call that holds it, if
/// any, and the calls queued behind that one, oldest first.
pub struct GuildState {
    pub holder: Option<Call>,
    pub waiters: Seq<Call>,
}

impl GuildState {
    /// A lock that nobody holds and nobody waits for.
    pub open spec fn free() -> GuildState {
        GuildState { holder: None, waiters: Seq::empty() }
    }

    /// Nobody waits for a lock that is not held.
    pub open spec fn well_formed(self) -> bool {
        self.holder is None ==> self.waiters.len() == 0
    }

    pub open spec fn is_locked(self) -> bool {
        self.holder is Some
    }

    /// The state after `call` asks for the lock: it takes a free lock at once
    /// and joins the end of the queue of a held one.
    pub open spec fn lock(self, call: Call) -> GuildState {
        if self.holder is None {
            GuildState { holder: Some(call), waiters: self.waiters }
        } else {
            GuildState { holder: self.holder, waiters: self.waiters.push(call) }
        }
    }

    /// The state after the holder lets go: the oldest waiter becomes the
    /// holder, and with no waiter the lock is free.
    pub open spec fn unlock(self) -> GuildState {
        if self.waiters.len() > 0 {
            GuildState { holder: Some(self.waiters[0]), waiters: self.waiters.drop_first() }
        } else {
            GuildState::free()
        }
    }

    /// The state after the call at `position` of the queue gives up waiting.
    /// Without a call there nothing changes.
    pub open spec fn withdraw(self, position: int) -> GuildState {
        if 0 <= position < self.waiters.len() {
            GuildState { holder: self.holder, waiters: self.waiters.remove(position) }
        } else {
            self
        }
    }

    /// The call at `position` of the queue, if there is one.
    pub open spec fn waiter(self, position: int) -> Option<Call> {
        if 0 <= position < self.waiters.len() {
            Some(self.waiters[position])
        } else {
            None
        }
    }

    /// Asking for the lock, letting go of it and giving up waiting for it all
    /// keep a lock well formed.
    pub proof fn lemma_well_formed_is_kept(self, call: Call, position: int)
        requires
            self.well_formed(),
        ensures
            self.lock(call).well_formed(),
            self.unlock().well_formed(),
            self.withdraw(position).well_formed(),
            GuildState::free().well_formed(),
    {
    }
}

/// The exclusive right to change one guild's voice connection.
pub struct GuildJoinLock {
    guild_id: u64,
    holder: Option<Call>,
    waiters: VecDeque<Call>,
}

impl GuildJoinLock {
    /// The guild this lock belongs to.
    pub closed spec fn guild(&self) -> u64 {
        self.guild_id
    }

    /// The holder and the queue behind it.
    pub closed spec fn state(&self) -> GuildState {
        GuildState { holder: self.holder, waiters: self.waiters@ }
    }

    /// A free lock for `guild_id`.
    pub fn new(guild_id: u64) -> (lock: GuildJoinLock)
        ensures
            lock.guild() == guild_id,
            lock.state() == GuildState::free(),
    {
        GuildJoinLock { guild_id, holder: None, waiters: VecDeque::new() }
    }

    pub fn guild_id(&self) -> (id: u64)
        ensures
            id == self.guild(),
    {
        self.guild_id
    }

    pub fn is_locked(&self) -> (locked: bool)
        ensures
            locked == self.state().is_locked(),
    {
        self.holder.is_some()
    }

    /// The call that holds the lock.
    pub fn holder(&self) -> (holder: Option<Call>)
        ensures
            holder == self.state().holder,
    {
        self.holder
    }

    /// How many calls are queued behind the holder.
    pub fn waiting(&self) -> (n: usize)
        ensures
            n == self.state().waiters.len(),
    {
        self.waiters.len()
    }

    /// Asks for the lock on behalf of `call`. Returns `true` when the call
    /// now holds the lock, `false` when it was queued.
    pub fn lock(&mut self, call: Call) -> (granted: bool)
        ensures
            final(self).guild() == old(self).guild(),
            final(self).state() == old(self).state().lock(call),
            granted == !old(self).state().is_locked(),
    {
        if self.holder.is_none() {
            self.holder = Some(call);
            true
        } else {
            self.waiters.push_back(call);
            false
        }
    }

    /// Lets go of the lock and hands it to the oldest waiter. Returns the
    /// call that holds the lock now; `None` when the lock is free afterwards.
    pub fn unlock(&mut self) -> (next: Option<Call>)
        ensures
            final(self).guild() == old(self).guild(),
            final(self).state() == old(self).state().unlock(),
            next == final(self).state().holder,
    {
        let next = self.waiters.pop_front();
        self.holder = next;
        proof {
            if next is Some {
                assert(self.waiters@ =~= old(self).waiters@.drop_first());
            } else {
                assert(self.waiters@ =~= Seq::<Call>::empty());
            }
        }
        next
    }

    /// Takes the call at `position` out of the queue and returns it. Without
    /// a call there nothing changes.
    pub fn withdraw(&mut self, position: usize) -> (gone: Option<Call>)
        ensures
            final(self).guild() == old(self).guild(),
            final(self).state() == old(self).state().withdraw(position as int),
            gone == old(self).state().waiter(position as int),
    {
        self.waiters.remove(position)
    }
}

/// The process-wide registry: one lock per guild, made when the guild is first
/// asked for and kept from then on.
pub struct LockRegistry {
    locks: HashMap<u64, GuildJoinLock>,
}

impl LockRegistry {
    #[verifier::type_invariant]
    spec fn inv(&self) -> bool {
        Self::kept_well(self.locks@)
    }

    /// Each lock is kept under its own guild, and no lock that is free has
    /// waiters.
    spec fn kept_well(locks: Map<u64, GuildJoinLock>) -> bool {
        forall|g: u64| #[trigger]
            locks.contains_key(g) ==> locks[g].guild() == g && locks[g].state().well_formed()
    }

    /// Whether a lock was ever made for `guild_id`.
    pub closed spec fn registered(&self, guild_id: u64) -> bool {
        self.locks@.contains_key(guild_id)
    }

    /// How many guilds have a lock.
    pub closed spec fn count(&self) -> nat {
        self.locks@.len()
    }

    /// The state of the lock of `guild_id`. A guild without a lock is in the
    /// state of a free one.
    pub closed spec fn state_of(&self, guild_id: u64) -> GuildState {
        if self.locks@.contains_key(guild_id) {
            self.locks@[guild_id].state()
        } else {
            GuildState::free()
        }
    }

    /// No lock that is free has waiters. This holds of every registry there
    /// is.
    pub open spec fn well_formed(&self) -> bool {
        forall|g: u64| (#[trigger] self.state_of(g)).well_formed()
    }

    /// A registry without locks.
    pub fn new() -> (registry: LockRegistry)
        ensures
            registry.well_formed(),
            registry.count() == 0,
            forall|g: u64| !registry.registered(g),
            forall|g: u64| registry.state_of(g) == GuildState::free(),
    {
        LockRegistry { locks: HashMap::new() }
    }

    /// How many guilds have a lock.
    pub fn len(&self) -> (n: usize)
        ensures
            n == self.count(),
    {
        broadcast use group_hash_axioms;

        self.locks.len()
    }

    /// Whether `guild_id` has a lock.
    pub fn contains(&self, guild_id: u64) -> (found: bool)
        ensures
            found == self.registered(guild_id),
    {
        broadcast use group_hash_axioms;

        self.locks.contains_key(&guild_id)
    }

    /// The call that holds the lock of `guild_id`.
    pub fn holder(&self, guild_id: u64) -> (holder: Option<Call>)
        ensures
            self.well_formed(),
            holder == self.state_of(guild_id).holder,
    {
        broadcast use group_hash_axioms;

        proof {
            use_type_invariant(self);
        }
        match self.locks.get(&guild_id) {
            Some(lock) => lock.holder(),
            None => None,
        }
    }

    /// How many calls are queued for the lock of `guild_id`.
    pub fn waiting(&self, guild_id: u64) -> (n: usize)
        ensures
            self.well_formed(),
            n == self.state_of(guild_id).waiters.len(),
    {
        broadcast use group_hash_axioms;

        proof {
            use_type_invariant(self);
        }
        match self.locks.get(&guild_id) {
            Some(lock) => lock.waiting(),
            None => 0,
        }
    }

    /// Makes sure that `guild_id` has its lock, making a free one if the guild
    /// has none yet, and returns whether it made one. The lock is known by
    /// the guild's id from then on: no lock is ever removed. No guild's state
    /// changes: a new lock is free, as a missing one is taken to be.
    pub fn acquire(&mut self, guild_id: u64) -> (made: bool)
        ensures
            old(self).well_formed(),
            final(self).well_formed(),
            made == !old(self).registered(guild_id),
            final(self).registered(guild_id),
            final(self).count() == old(self).count() + if made {
                1nat
            } else {
                0nat
            },
            forall|g: u64| g != guild_id ==> final(self).registered(g) == old(self).registered(g),
            forall|g: u64| final(self).state_of(g) == old(self).state_of(g),
    {
        broadcast use group_hash_axioms;

        proof {
            use_type_invariant(&*self);
        }
        if self.locks.contains_key(&guild_id) {
            return false;
        }
        // The locks are taken out while they change: the registry itself is
        // well formed at every step.
        let mut locks: HashMap<u64, GuildJoinLock> = HashMap::new();
        core::mem::swap(&mut self.locks, &mut locks);
        locks.insert(guild_id, GuildJoinLock::new(guild_id));
        assert(Self::kept_well(locks@));
        self.locks = locks;
        true
    }

    /// Asks for the lock of `guild_id` on behalf of `call`, making the lock
    /// if the guild has none yet. Returns `true` when the call holds the lock
    /// now, `false` when it was queued. No other lock changes.
    pub fn lock(&mut self, guild_id: u64, call: Call) -> (granted: bool)
        ensures
            old(self).well_formed(),
            final(self).well_formed(),
            granted == !old(self).state_of(guild_id).is_locked(),
            final(self).state_of(guild_id) == old(self).state_of(guild_id).lock(call),
            final(self).registered(guild_id),
            forall|g: u64| g != guild_id ==> final(self).state_of(g) == old(self).state_of(g),
            forall|g: u64| g != guild_id ==> final(self).registered(g) == old(self).registered(g),
    {
        broadcast use group_hash_axioms;

        proof {
            use_type_invariant(&*self);
        }
        // Taken out while they change, as in `acquire`.
        let mut locks: HashMap<u64, GuildJoinLock> = HashMap::new();
        core::mem::swap(&mut self.locks, &mut locks);
        let mut lock = match locks.remove(&guild_id) {
            Some(lock) => lock,
            None => GuildJoinLock::new(guild_id),
        };
        let granted = lock.lock(call);
        proof {
            old(self).state_of(guild_id).lemma_well_formed_is_kept(call, 0);
        }
        locks.insert(guild_id, lock);
        assert(Self::kept_well(locks@));
        self.locks = locks;
        granted
    }

    /// Lets go of the lock of `guild_id` and hands it to its oldest waiter.
    /// Returns the call that holds the lock now, or `None` when the lock is
    /// free afterwards. No other lock changes.
    pub fn unlock(&mut self, guild_id: u64) -> (next: Option<Call>)
        ensures
            old(self).well_formed(),
            final(self).well_formed(),
            next == old(self).state_of(guild_id).unlock().holder,
            final(self).state_of(guild_id) == old(self).state_of(guild_id).unlock(),
            forall|g: u64| g != guild_id ==> final(self).state_of(g) == old(self).state_of(g),
            forall|g: u64| final(self).registered(g) == old(self).registered(g),
    {
        broadcast use group_hash_axioms;

        proof {
            use_type_invariant(&*self);
        }
        let mut locks: HashMap<u64, GuildJoinLock> = HashMap::new();
        core::mem::swap(&mut self.locks, &mut locks);
        let next = match locks.remove(&guild_id) {
            Some(lock) => {
                let mut lock = lock;
                let next = lock.unlock();
                proof {
                    old(self).state_of(guild_id).lemma_well_formed_is_kept(Call::Leave, 0);
                }
                locks.insert(guild_id, lock);
                next
            },
            None => None,
        };
        assert(Self::kept_well(locks@));
        assert(locks@.dom() =~= old(self).locks@.dom());
        self.locks = locks;
        next
    }

    /// Takes the call at `position` out of the queue of the lock of
    /// `guild_id` and returns it. Without a call there nothing changes. No
    /// other lock changes.
    pub fn withdraw(&mut self, guild_id: u64, position: usize) -> (gone: Option<Call>)
        ensures
            old(self).well_formed(),
            final(self).well_formed(),
            gone == old(self).state_of(guild_id).waiter(position as int),
            final(self).state_of(guild_id) == old(self).state_of(guild_id).withdraw(
                position as int,
            ),
            forall|g: u64| g != guild_id ==> final(self).state_of(g) == old(self).state_of(g),
            forall|g: u64| final(self).registered(g) == old(self).registered(g),
    {
        broadcast use group_hash_axioms;

        proof {
            use_type_invariant(&*self);
        }
        let mut locks: HashMap<u64, GuildJoinLock> = HashMap::new();
        core::mem::swap(&mut self.locks, &mut locks);
        let gone = match locks.remove(&guild_id) {
            Some(lock) => {
                let mut lock = lock;
                let gone = lock.withdraw(position);
                proof {
                    old(self).state_of(guild_id).lemma_well_formed_is_kept(
                        Call::Leave,
                        position as int,
                    );
                }
                locks.insert(guild_id, lock);
                gone
            },
            None => None,
        };
        assert(Self::kept_well(locks@));
        assert(locks@.dom() =~= old(self).locks@.dom());
        self.locks = locks;
        gone
    }
}

} // verus!
