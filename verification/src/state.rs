//! The state of the game server: the session registry behind one exclusive
//! lock, and a population counter beside it that is read without the lock.
//!
//! Every operation that changes the registry runs as one critical section:
//! it takes the lock, works on the registry, moves the counter by what the
//! operation did to the number of sessions, and only then lets the lock go.
//! The counter is written nowhere else.

use crate::registry::PlayerManager;
use crate::registry::PlayerSession;
use crate::registry::RegistryError;
use crate::registry::SessionHandle;
use crate::registry::SessionState;
use parking_lot::lock_api;
use parking_lot::Mutex;
use parking_lot::MutexGuard;
use parking_lot::RawMutex;
use std::sync::atomic::AtomicU32;
use std::sync::atomic::Ordering;
use vstd::prelude::*;

verus! {

/// `parking_lot::RawMutex`, the lock inside `parking_lot::Mutex`. Nothing is
/// claimed of it.
#[verifier::external_type_specification]
#[verifier::external_body]
pub struct ExRawMutex(RawMutex);

/// `lock_api::Mutex`, of which `parking_lot::Mutex` is an instance. Nothing
/// is claimed of what it holds.
#[verifier::external_type_specification]
#[verifier::external_body]
#[verifier::reject_recursive_types(R)]
#[verifier::reject_recursive_types(T)]
pub struct ExMutex<R, T: ?Sized>(lock_api::Mutex<R, T>);

/// The guard that `parking_lot::Mutex::lock` returns. While it lives the
/// registry is locked; dropping it unlocks.
#[verifier::external_body]
struct PlayersGuard<'a> {
    guard: MutexGuard<'a, PlayerManager>,
}

/// `parking_lot::Mutex::new`: an unlocked mutex around `registry`. Nothing
/// is claimed of the result.
#[verifier::external_body]
fn new_mutex(registry: PlayerManager) -> (mutex: Mutex<PlayerManager>) {
    Mutex::new(registry)
}

/// `parking_lot::Mutex::lock`: blocks until the lock is free and takes it.
/// Nothing is claimed of what the registry holds at that time. It does not
/// return if the calling thread holds the lock already; the functions below
/// take the lock once and let it go before they return.
#[verifier::external_body]
fn lock_players<'a>(mutex: &'a Mutex<PlayerManager>) -> (guard: PlayersGuard<'a>) {
    PlayersGuard { guard: mutex.lock() }
}

/// `DerefMut::deref_mut` of the guard: the locked registry. Nothing is
/// claimed of what it holds.
#[verifier::external_body]
fn locked_players<'a, 'b>(guard: &'a mut PlayersGuard<'b>) -> (registry: &'a mut PlayerManager) {
    &mut *guard.guard
}

/// The state that all connections of the game server share. Its fields are
/// reached through its methods only, so that no session is added or removed
/// without the counter following in the same critical section.
pub struct ServerState {
    player_count: AtomicU32,
    player_manager: Mutex<PlayerManager>,
}

impl ServerState {
    /// An empty registry and a counter at zero.
    pub fn new() -> Self {
        Self { player_count: AtomicU32::new(0u32), player_manager: new_mutex(PlayerManager::new()) }
    }

    /// Opens a session for `account_id` in one critical section, and counts
    /// it where the registry took it. The only refusal is that of an account
    /// that has a session already.
    pub fn join(&self, account_id: i32, state: SessionState) -> (r: Result<
        SessionHandle,
        RegistryError,
    >)
        ensures
            match r {
                Ok(handle) => handle.account_id == account_id,
                Err(e) => e == RegistryError::DuplicateSession,
            },
    {
        let mut guard = lock_players(&self.player_manager);
        let players = locked_players(&mut guard);
        let r = players.join(account_id, state);
        if r.is_ok() {
            self.player_count.fetch_add(1, Ordering::Relaxed);
        }
        r
    }

    /// Closes the session of `account_id` in one critical section, takes it
    /// off the count and returns it; `None`, and the count as it was, where
    /// the account had none.
    pub fn leave(&self, account_id: i32) -> (r: Option<PlayerSession>)
        ensures
            r matches Some(session) ==> session.account_id == account_id,
    {
        let mut guard = lock_players(&self.player_manager);
        let players = locked_players(&mut guard);
        let r = players.leave(account_id);
        if r.is_some() {
            self.player_count.fetch_sub(1, Ordering::Relaxed);
        }
        r
    }

    /// Replaces the state of the session of `account_id` by what `mutator`
    /// makes of it, in one critical section. The only refusal is that of an
    /// account without a session, and `mutator` is then not called. Success
    /// means that `mutator` was run on the state that the session had and
    /// that the session now has the state it returned.
    pub fn update<F: FnOnce(SessionState) -> SessionState>(&self, account_id: i32, mutator: F) -> (r:
        Result<(), RegistryError>)
        requires
            forall|state: SessionState| mutator.requires((state,)),
        ensures
            r matches Err(e) ==> e == RegistryError::UnknownSession,
            r is Ok ==> exists|before: SessionState, after: SessionState| #[trigger]
                mutator.ensures((before,), after),
    {
        let mut guard = lock_players(&self.player_manager);
        let players = locked_players(&mut guard);
        let ghost found = players@;
        let r = players.update(account_id, mutator);
        proof {
            if r is Ok {
                assert(mutator.ensures((found[account_id].state,), players@[account_id].state));
            }
        }
        r
    }

    /// The session of `account_id` as it stands at the time of the call, if
    /// it has one.
    pub fn get(&self, account_id: i32) -> (r: Option<PlayerSession>)
        ensures
            r matches Some(session) ==> session.account_id == account_id,
    {
        let mut guard = lock_players(&self.player_manager);
        let players = locked_players(&mut guard);
        players.get(account_id)
    }

    /// The number of sessions as the registry itself counts them, read
    /// under the lock.
    pub fn locked_count(&self) -> u32 {
        let mut guard = lock_players(&self.player_manager);
        let players = locked_players(&mut guard);
        players.count()
    }

    /// The population counter, read without the lock. While a join or a
    /// leave is under way it may still show the count from before.
    pub fn count(&self) -> u32 {
        self.player_count.load(Ordering::Relaxed)
    }
}

impl Default for ServerState {
    fn default() -> Self {
        Self::new()
    }
}

} // verus!
