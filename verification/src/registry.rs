//! The player session registry of the game server: the collection of the
//! sessions of all connected players, keyed by account.

use std::collections::HashMap;
use vstd::prelude::*;

verus! {

broadcast use vstd::std_specs::hash::group_hash_axioms;

/// The state of a session that changes while the player is connected.
#[derive(Clone, Copy, Debug, PartialEq, Eq, Structural)]
pub struct SessionState {
    /// The level that the player is on; zero while on none.
    pub level_id: i32,
    /// The room that the player is in; zero for the global room.
    pub room_id: u32,
    /// When the player was last heard from, in seconds.
    pub last_seen: u64,
}

/// One connected player.
#[derive(Clone, Copy, Debug, PartialEq, Eq, Structural)]
pub struct PlayerSession {
    /// The account that the session belongs to.
    pub account_id: i32,
    pub state: SessionState,
}

/// What `join` hands to the player's connection: the name of its session.
#[derive(Clone, Copy, Debug, PartialEq, Eq, Structural)]
pub struct SessionHandle {
    pub account_id: i32,
}

/// Why the registry refused an operation.
#[derive(Clone, Copy, Debug, PartialEq, Eq, Structural)]
pub enum RegistryError {
    /// `join` for an account that already has a session.
    DuplicateSession,
    /// `update` for an account that has no session.
    UnknownSession,
}

/// A join or a leave, as a value.
pub ghost enum RegistryOp {
    Join(i32, SessionState),
    Leave(i32),
}

/// The session that a join creates.
pub open spec fn new_session(account_id: i32, state: SessionState) -> PlayerSession {
    PlayerSession { account_id, state }
}

/// The sessions after a join: the new session is added where the account
/// has none, and nothing changes where it has one.
pub open spec fn joined(sessions: Map<i32, PlayerSession>, account_id: i32, state: SessionState)
    -> Map<i32, PlayerSession> {
    if sessions.contains_key(account_id) {
        sessions
    } else {
        sessions.insert(account_id, new_session(account_id, state))
    }
}

/// The sessions after a leave: the account has none.
pub open spec fn left(sessions: Map<i32, PlayerSession>, account_id: i32) -> Map<
    i32,
    PlayerSession,
> {
    sessions.remove(account_id)
}

/// The sessions after one operation.
pub open spec fn applied(sessions: Map<i32, PlayerSession>, op: RegistryOp) -> Map<
    i32,
    PlayerSession,
> {
    match op {
        RegistryOp::Join(account_id, state) => joined(sessions, account_id, state),
        RegistryOp::Leave(account_id) => left(sessions, account_id),
    }
}

/// The sessions after a run of operations, applied in order.
pub open spec fn applied_all(sessions: Map<i32, PlayerSession>, ops: Seq<RegistryOp>) -> Map<
    i32,
    PlayerSession,
>
    decreases ops.len(),
{
    if ops.len() == 0 {
        sessions
    } else {
        applied(applied_all(sessions, ops.drop_last()), ops.last())
    }
}

/// By how much one operation changes the number of sessions: a join of an
/// absent account adds one, a leave of a present account takes one away,
/// and every other operation changes nothing.
pub open spec fn population_change(sessions: Map<i32, PlayerSession>, op: RegistryOp) -> int {
    match op {
        RegistryOp::Join(account_id, _) => if sessions.contains_key(account_id) {
            0
        } else {
            1
        },
        RegistryOp::Leave(account_id) => if sessions.contains_key(account_id) {
            -1
        } else {
            0
        },
    }
}

/// A counter that starts at `counter` and follows a run of operations: it
/// changes by the population change of each operation in turn.
pub open spec fn counter_after(
    sessions: Map<i32, PlayerSession>,
    counter: int,
    ops: Seq<RegistryOp>,
) -> int
    decreases ops.len(),
{
    if ops.len() == 0 {
        counter
    } else {
        counter_after(sessions, counter, ops.drop_last()) + population_change(
            applied_all(sessions, ops.drop_last()),
            ops.last(),
        )
    }
}

/// Whether `account_id` has a session after a run of operations, given
/// whether it had one before: the last operation on the account decides.
pub open spec fn present_after(before: bool, ops: Seq<RegistryOp>, account_id: i32) -> bool
    decreases ops.len(),
{
    if ops.len() == 0 {
        before
    } else {
        match ops.last() {
            RegistryOp::Join(k, _) => k == account_id || present_after(
                before,
                ops.drop_last(),
                account_id,
            ),
            RegistryOp::Leave(k) => k != account_id && present_after(
                before,
                ops.drop_last(),
                account_id,
            ),
        }
    }
}

/// The population that the registry reports: the number of sessions, or the
/// largest `u32` where there are more.
pub open spec fn population(sessions: Map<i32, PlayerSession>) -> int {
    if sessions.len() <= u32::MAX {
        sessions.len() as int
    } else {
        u32::MAX as int
    }
}

/// What holds of the sessions of every registry: there are finitely many,
/// and each is filed under its own account.
pub open spec fn registry_wf(sessions: Map<i32, PlayerSession>) -> bool {
    &&& sessions.dom().finite()
    &&& forall|k: i32| sessions.contains_key(k) ==> (#[trigger] sessions[k]).account_id == k
}

/// The collection of the sessions of all connected players.
pub struct PlayerManager {
    players: HashMap<i32, PlayerSession>,
}

impl View for PlayerManager {
    type V = Map<i32, PlayerSession>;

    closed spec fn view(&self) -> Map<i32, PlayerSession> {
        self.players@
    }
}

impl PlayerManager {
    /// What holds of every registry: its sessions are well formed.
    #[verifier::type_invariant]
    pub open spec fn wf(self) -> bool {
        registry_wf(self@)
    }

    /// Moves the sessions out, to be worked on and put back.
    fn take_players(&mut self) -> (players: HashMap<i32, PlayerSession>)
        ensures
            players@ == old(self)@,
            registry_wf(players@),
            final(self)@ == Map::<i32, PlayerSession>::empty(),
    {
        proof {
            use_type_invariant(&*self);
        }
        let mut players: HashMap<i32, PlayerSession> = HashMap::new();
        std::mem::swap(&mut self.players, &mut players);
        players
    }

    /// A registry without sessions.
    pub fn new() -> (registry: PlayerManager)
        ensures
            registry@ == Map::<i32, PlayerSession>::empty(),
    {
        PlayerManager { players: HashMap::new() }
    }

    /// Opens a session for `account_id` with the state `state`. An account
    /// that already has a session is refused, and the registry stays as it
    /// is.
    pub fn join(&mut self, account_id: i32, state: SessionState) -> (r: Result<
        SessionHandle,
        RegistryError,
    >)
        ensures
            final(self)@ == joined(old(self)@, account_id, state),
            r == if old(self)@.contains_key(account_id) {
                Err::<SessionHandle, RegistryError>(RegistryError::DuplicateSession)
            } else {
                Ok::<SessionHandle, RegistryError>(SessionHandle { account_id })
            },
            population_change(old(self)@, RegistryOp::Join(account_id, state)) == if r is Ok {
                1int
            } else {
                0int
            },
            registry_wf(final(self)@),
    {
        let mut players = self.take_players();
        let r = if players.contains_key(&account_id) {
            Err(RegistryError::DuplicateSession)
        } else {
            players.insert(account_id, PlayerSession { account_id, state });
            Ok(SessionHandle { account_id })
        };
        self.players = players;
        r
    }

    /// Closes the session of `account_id` and returns it. An account
    /// without a session is no error: nothing changes and nothing is
    /// returned.
    pub fn leave(&mut self, account_id: i32) -> (r: Option<PlayerSession>)
        ensures
            final(self)@ == left(old(self)@, account_id),
            r == if old(self)@.contains_key(account_id) {
                Some(old(self)@[account_id])
            } else {
                None
            },
            !old(self)@.contains_key(account_id) ==> final(self)@ == old(self)@,
            r matches Some(session) ==> session.account_id == account_id,
            population_change(old(self)@, RegistryOp::Leave(account_id)) == if r is Some {
                -1int
            } else {
                0int
            },
            registry_wf(final(self)@),
    {
        let mut players = self.take_players();
        let r = players.remove(&account_id);
        proof {
            if !old(self)@.contains_key(account_id) {
                assert(old(self)@.remove(account_id) =~= old(self)@);
            }
        }
        self.players = players;
        r
    }

    /// Replaces the state of the session of `account_id` by what `mutator`
    /// makes of it. An account without a session is refused, `mutator` is
    /// not called, and the registry stays as it is.
    pub fn update<F: FnOnce(SessionState) -> SessionState>(
        &mut self,
        account_id: i32,
        mutator: F,
    ) -> (r: Result<(), RegistryError>)
        requires
            old(self)@.contains_key(account_id) ==> mutator.requires(
                (old(self)@[account_id].state,),
            ),
        ensures
            match r {
                Ok(_) => {
                    &&& old(self)@.contains_key(account_id)
                    &&& final(self)@.contains_key(account_id)
                    &&& mutator.ensures(
                        (old(self)@[account_id].state,),
                        final(self)@[account_id].state,
                    )
                    &&& final(self)@ == old(self)@.insert(
                        account_id,
                        new_session(account_id, final(self)@[account_id].state),
                    )
                },
                Err(e) => {
                    &&& e == RegistryError::UnknownSession
                    &&& !old(self)@.contains_key(account_id)
                    &&& final(self)@ == old(self)@
                },
            },
            registry_wf(final(self)@),
    {
        let mut players = self.take_players();
        let current = match players.get(&account_id) {
            Some(session) => Some(session.state),
            None => None,
        };
        let r = match current {
            Some(state) => {
                let next = mutator(state);
                players.insert(account_id, PlayerSession { account_id, state: next });
                Ok(())
            },
            None => Err(RegistryError::UnknownSession),
        };
        self.players = players;
        r
    }

    /// The session of `account_id`, if it has one.
    pub fn get(&self, account_id: i32) -> (r: Option<PlayerSession>)
        ensures
            r == if self@.contains_key(account_id) {
                Some(self@[account_id])
            } else {
                None
            },
            r matches Some(session) ==> session.account_id == account_id,
    {
        proof {
            use_type_invariant(self);
        }
        match self.players.get(&account_id) {
            Some(session) => Some(*session),
            None => None,
        }
    }

    /// Whether `account_id` has a session.
    pub fn contains(&self, account_id: i32) -> (r: bool)
        ensures
            r == self@.contains_key(account_id),
    {
        self.players.contains_key(&account_id)
    }

    /// The number of sessions, as the population counter reports it.
    pub fn count(&self) -> (r: u32)
        ensures
            r == population(self@),
            self@.len() <= u32::MAX ==> r == self@.len(),
    {
        let n = self.players.len();
        if n > u32::MAX as usize {
            u32::MAX
        } else {
            n as u32
        }
    }
}

/// A join of an account that has a session changes nothing.
pub proof fn law_duplicate_join_changes_nothing(
    sessions: Map<i32, PlayerSession>,
    account_id: i32,
    state: SessionState,
)
    requires
        sessions.contains_key(account_id),
    ensures
        joined(sessions, account_id, state) == sessions,
        population_change(sessions, RegistryOp::Join(account_id, state)) == 0,
{
}

/// A leave of an account that has no session changes nothing.
pub proof fn law_leave_of_absent_changes_nothing(sessions: Map<i32, PlayerSession>, account_id: i32)
    requires
        !sessions.contains_key(account_id),
    ensures
        left(sessions, account_id) == sessions,
        population_change(sessions, RegistryOp::Leave(account_id)) == 0,
{
    assert(sessions.remove(account_id) =~= sessions);
}

/// Every operation keeps the sessions well formed and changes their number
/// by exactly its population change: a counter that goes up by one with
/// each join that succeeds and down by one with each leave that finds a
/// session equals the number of sessions after every operation.
pub proof fn law_population_follows_each_operation(
    sessions: Map<i32, PlayerSession>,
    op: RegistryOp,
)
    requires
        registry_wf(sessions),
    ensures
        registry_wf(applied(sessions, op)),
        applied(sessions, op).len() == sessions.len() + population_change(sessions, op),
{
}

/// Over any run of joins and leaves, in whatever order they come, a counter
/// that equals the number of sessions at the start and follows each
/// operation equals the number of sessions at the end.
pub proof fn law_counter_follows_every_run(
    sessions: Map<i32, PlayerSession>,
    counter: int,
    ops: Seq<RegistryOp>,
)
    requires
        registry_wf(sessions),
        counter == sessions.len(),
    ensures
        registry_wf(applied_all(sessions, ops)),
        counter_after(sessions, counter, ops) == applied_all(sessions, ops).len(),
    decreases ops.len(),
{
    if ops.len() > 0 {
        law_counter_follows_every_run(sessions, counter, ops.drop_last());
        law_population_follows_each_operation(applied_all(sessions, ops.drop_last()), ops.last());
    }
}

/// After any run of joins and leaves, an account has a session exactly when
/// the last operation on it was a join, or when no operation was on it and
/// it had a session before.
pub proof fn law_last_operation_decides(
    sessions: Map<i32, PlayerSession>,
    ops: Seq<RegistryOp>,
    account_id: i32,
)
    requires
        registry_wf(sessions),
    ensures
        registry_wf(applied_all(sessions, ops)),
        applied_all(sessions, ops).contains_key(account_id) == present_after(
            sessions.contains_key(account_id),
            ops,
            account_id,
        ),
    decreases ops.len(),
{
    if ops.len() > 0 {
        law_last_operation_decides(sessions, ops.drop_last(), account_id);
        law_population_follows_each_operation(applied_all(sessions, ops.drop_last()), ops.last());
    }
}

} // verus!
