//! The account verification store and the two periodic tasks that work on
//! it: the refresher, which has pending entries checked against the external
//! authority, and the deleter, which purges entries that are done and old.
//!
//! The store never talks to the authority itself. A refresher tick marks the
//! entries to check as in flight and hands back their keys; the caller makes
//! the checks and reports each outcome back.

use vstd::prelude::*;

verus! {

/// Seconds between two refresher ticks.
pub const REFRESHER_PERIOD_SECS: u64 = 5;

/// Seconds between two deleter ticks.
pub const DELETER_PERIOD_SECS: u64 = 60;

/// Where an account verification stands.
#[derive(Clone, Copy, Debug, PartialEq, Eq, Structural)]
pub enum VerificationStatus {
    /// Not yet confirmed; the refresher keeps checking it.
    Pending,
    /// Confirmed by the authority.
    Verified,
    /// Stayed pending for longer than the policy allows.
    Expired,
    /// The authority could not be reached as often as the policy allows.
    Failed,
}

/// What one check against the external authority brought.
#[derive(Clone, Copy, Debug, PartialEq, Eq, Structural)]
pub enum CheckOutcome {
    /// The authority confirms the account.
    Confirmed,
    /// The authority answered and does not confirm the account yet.
    Unconfirmed,
    /// The check ended in an error or a timeout.
    Unavailable,
}

/// The limits that the refresher and the deleter go by.
#[derive(Clone, Copy, Debug, PartialEq, Eq, Structural)]
pub struct RetryPolicy {
    /// The number of failed checks at which an entry is given up as failed.
    pub max_failures: u32,
    /// Seconds for which an entry may stay pending before it expires.
    pub pending_lifetime: u64,
    /// Seconds for which a finished entry is kept before it is purged.
    pub retention: u64,
}

/// One tracked account verification.
#[derive(Clone, Copy, Debug, PartialEq, Eq, Structural)]
pub struct VerificationEntry {
    /// The account that is being verified.
    pub key: i32,
    pub status: VerificationStatus,
    /// When the verification was requested, in seconds.
    pub created_at: u64,
    /// When the authority was last asked, in seconds.
    pub last_check: u64,
    /// How many checks have ended in an error or a timeout.
    pub failures: u32,
    /// Whether a verified entry has been used up by a request.
    pub consumed: bool,
    /// Whether a check against the authority is under way.
    pub in_flight: bool,
}

/// The entry that a verification request at time `now` creates.
pub open spec fn fresh_entry(key: i32, now: u64) -> VerificationEntry {
    VerificationEntry {
        key,
        status: VerificationStatus::Pending,
        created_at: now,
        last_check: now,
        failures: 0,
        consumed: false,
        in_flight: false,
    }
}

/// Seconds since the entry was created; zero where the clock reads earlier
/// than the creation time.
pub open spec fn age(e: VerificationEntry, now: u64) -> int {
    if now >= e.created_at {
        now - e.created_at
    } else {
        0
    }
}

/// An entry is terminal when the refresher will never touch it again and no
/// request can still use it.
pub open spec fn is_terminal(e: VerificationEntry) -> bool {
    ||| e.status == VerificationStatus::Expired
    ||| e.status == VerificationStatus::Failed
    ||| (e.status == VerificationStatus::Verified && e.consumed)
}

/// The deleter removes an entry that is terminal and older than the
/// retention time.
pub open spec fn is_purgeable(e: VerificationEntry, policy: RetryPolicy, now: u64) -> bool {
    is_terminal(e) && age(e, now) > policy.retention
}

/// An entry is due when it is pending and no check of it is under way.
pub open spec fn is_due(e: VerificationEntry) -> bool {
    e.status == VerificationStatus::Pending && !e.in_flight
}

/// A due entry is scheduled for a check while it is within the pending
/// lifetime.
pub open spec fn is_scheduled(e: VerificationEntry, policy: RetryPolicy, now: u64) -> bool {
    is_due(e) && age(e, now) <= policy.pending_lifetime
}

/// What a refresher tick at time `now` makes of one entry: a due entry past
/// the pending lifetime expires, a due entry within it goes in flight, every
/// other entry stays as it is.
pub open spec fn refreshed_entry(e: VerificationEntry, policy: RetryPolicy, now: u64)
    -> VerificationEntry {
    if is_scheduled(e, policy, now) {
        VerificationEntry { in_flight: true, ..e }
    } else if is_due(e) {
        VerificationEntry { status: VerificationStatus::Expired, ..e }
    } else {
        e
    }
}

/// The failure count after one more failure; it stops at the largest value.
pub open spec fn bumped(failures: u32) -> u32 {
    if failures < u32::MAX {
        (failures + 1) as u32
    } else {
        failures
    }
}

/// What an outcome reported at time `now` makes of the entry it was awaited
/// for. A confirmation verifies the entry. An answer without confirmation
/// leaves it pending. An error or timeout is counted on the entry, which
/// stays pending for the next tick until the count reaches the policy's
/// limit; then the entry has failed.
pub open spec fn settled_entry(
    e: VerificationEntry,
    outcome: CheckOutcome,
    policy: RetryPolicy,
    now: u64,
) -> VerificationEntry {
    match outcome {
        CheckOutcome::Confirmed => VerificationEntry {
            status: VerificationStatus::Verified,
            last_check: now,
            in_flight: false,
            ..e
        },
        CheckOutcome::Unconfirmed => VerificationEntry { last_check: now, in_flight: false, ..e },
        CheckOutcome::Unavailable => VerificationEntry {
            status: if bumped(e.failures) >= policy.max_failures {
                VerificationStatus::Failed
            } else {
                e.status
            },
            failures: bumped(e.failures),
            last_check: now,
            in_flight: false,
            ..e
        },
    }
}

/// Whether an outcome for `key` is awaited on `e`.
pub open spec fn awaits(e: VerificationEntry, key: i32) -> bool {
    e.key == key && e.in_flight
}

/// Whether some entry has the key `key`.
pub open spec fn has_key(entries: Seq<VerificationEntry>, key: i32) -> bool {
    exists|i: int| 0 <= i < entries.len() && (#[trigger] entries[i]).key == key
}

/// Whether an outcome for `key` is awaited on some entry.
pub open spec fn has_awaited(entries: Seq<VerificationEntry>, key: i32) -> bool {
    exists|i: int| 0 <= i < entries.len() && awaits(#[trigger] entries[i], key)
}

/// Whether some entry with the key `key` is verified and not yet used up.
pub open spec fn has_usable(entries: Seq<VerificationEntry>, key: i32) -> bool {
    exists|i: int| 0 <= i < entries.len() && is_usable(#[trigger] entries[i], key)
}

/// Whether `e` is the verification of `key`, confirmed and not yet used up.
pub open spec fn is_usable(e: VerificationEntry, key: i32) -> bool {
    e.key == key && e.status == VerificationStatus::Verified && !e.consumed
}

/// What holds of the entries of every store: no two have the same key, and
/// only a pending entry is in flight.
pub open spec fn store_wf(entries: Seq<VerificationEntry>) -> bool {
    &&& forall|i: int, j: int|
        0 <= i < j < entries.len() ==> (#[trigger] entries[i]).key != (#[trigger] entries[j]).key
    &&& forall|i: int|
        0 <= i < entries.len() && (#[trigger] entries[i]).in_flight ==> entries[i].status
            == VerificationStatus::Pending
}

/// The test for "scheduled at this tick", as a function of the entry.
pub open spec fn scheduled_at(policy: RetryPolicy, now: u64) -> spec_fn(VerificationEntry) -> bool {
    |e: VerificationEntry| is_scheduled(e, policy, now)
}

/// The test for "kept by the deleter", as a function of the entry.
pub open spec fn kept_at(policy: RetryPolicy, now: u64) -> spec_fn(VerificationEntry) -> bool {
    |e: VerificationEntry| !is_purgeable(e, policy, now)
}

/// The key of an entry.
pub open spec fn key_of() -> spec_fn(VerificationEntry) -> i32 {
    |e: VerificationEntry| e.key
}

/// The entries after a refresher tick at time `now`.
pub open spec fn refreshed(entries: Seq<VerificationEntry>, policy: RetryPolicy, now: u64) -> Seq<
    VerificationEntry,
> {
    Seq::new(entries.len(), |i: int| refreshed_entry(entries[i], policy, now))
}

/// The keys that a refresher tick at time `now` hands out for checking, in
/// the order of the entries.
pub open spec fn refresh_plan(entries: Seq<VerificationEntry>, policy: RetryPolicy, now: u64)
    -> Seq<i32> {
    entries.filter(scheduled_at(policy, now)).map_values(key_of())
}

/// The entries after the outcome of the check for `key` was reported.
pub open spec fn settled(
    entries: Seq<VerificationEntry>,
    key: i32,
    outcome: CheckOutcome,
    policy: RetryPolicy,
    now: u64,
) -> Seq<VerificationEntry> {
    Seq::new(
        entries.len(),
        |i: int|
            if awaits(entries[i], key) {
                settled_entry(entries[i], outcome, policy, now)
            } else {
                entries[i]
            },
    )
}

/// The entries after the verification of `key` was used up.
pub open spec fn consumed(entries: Seq<VerificationEntry>, key: i32) -> Seq<VerificationEntry> {
    Seq::new(
        entries.len(),
        |i: int|
            if is_usable(entries[i], key) {
                VerificationEntry { consumed: true, ..entries[i] }
            } else {
                entries[i]
            },
    )
}

/// The entries that a deleter tick at time `now` leaves, in their order.
pub open spec fn purged(entries: Seq<VerificationEntry>, policy: RetryPolicy, now: u64) -> Seq<
    VerificationEntry,
> {
    entries.filter(kept_at(policy, now))
}

/// The store of verification entries, with the policy it was made with.
pub struct VerificationStore {
    entries: Vec<VerificationEntry>,
    policy: RetryPolicy,
}

impl View for VerificationStore {
    type V = Seq<VerificationEntry>;

    closed spec fn view(&self) -> Seq<VerificationEntry> {
        self.entries@
    }
}

/// Seconds since `e` was created, as the store computes them.
fn age_of(e: &VerificationEntry, now: u64) -> (r: u64)
    ensures
        r == age(*e, now),
{
    if now >= e.created_at {
        now - e.created_at
    } else {
        0
    }
}

/// Whether the deleter removes `e` at time `now`.
fn purgeable(e: &VerificationEntry, policy: &RetryPolicy, now: u64) -> (r: bool)
    ensures
        r == is_purgeable(*e, *policy, now),
{
    let terminal = match e.status {
        VerificationStatus::Pending => false,
        VerificationStatus::Verified => e.consumed,
        VerificationStatus::Expired => true,
        VerificationStatus::Failed => true,
    };
    terminal && age_of(e, now) > policy.retention
}

/// The entry that an outcome leaves.
fn settle(e: &VerificationEntry, outcome: CheckOutcome, policy: &RetryPolicy, now: u64) -> (r:
    VerificationEntry)
    ensures
        r == settled_entry(*e, outcome, *policy, now),
{
    match outcome {
        CheckOutcome::Confirmed => VerificationEntry {
            key: e.key,
            status: VerificationStatus::Verified,
            created_at: e.created_at,
            last_check: now,
            failures: e.failures,
            consumed: e.consumed,
            in_flight: false,
        },
        CheckOutcome::Unconfirmed => VerificationEntry {
            key: e.key,
            status: e.status,
            created_at: e.created_at,
            last_check: now,
            failures: e.failures,
            consumed: e.consumed,
            in_flight: false,
        },
        CheckOutcome::Unavailable => {
            let failures: u32 = if e.failures < u32::MAX {
                e.failures + 1
            } else {
                e.failures
            };
            VerificationEntry {
                key: e.key,
                status: if failures >= policy.max_failures {
                    VerificationStatus::Failed
                } else {
                    e.status
                },
                created_at: e.created_at,
                last_check: now,
                failures,
                consumed: e.consumed,
                in_flight: false,
            }
        },
    }
}

/// Runs a refresher tick over `entries` and collects the keys to check.
fn refresh_entries(entries: &mut Vec<VerificationEntry>, policy: &RetryPolicy, now: u64) -> (plan:
    Vec<i32>)
    requires
        store_wf(old(entries)@),
    ensures
        final(entries)@ == refreshed(old(entries)@, *policy, now),
        plan@ == refresh_plan(old(entries)@, *policy, now),
        store_wf(final(entries)@),
{
    let ghost before = entries@;
    let mut plan: Vec<i32> = Vec::new();
    let n = entries.len();
    let mut i: usize = 0;
    assert(before.take(0).filter(scheduled_at(*policy, now)) =~= Seq::empty()) by {
        reveal(Seq::filter);
    }
    while i < n
        invariant
            i <= n,
            n == before.len(),
            entries@.len() == n,
            store_wf(before),
            forall|j: int|
                0 <= j < i ==> #[trigger] entries@[j] == refreshed_entry(before[j], *policy, now),
            forall|j: int| i <= j < n ==> #[trigger] entries@[j] == before[j],
            plan@ == before.take(i as int).filter(scheduled_at(*policy, now)).map_values(key_of()),
        decreases n - i,
    {
        let e = entries[i];
        proof {
            before.lemma_take_succ_push(i as int);
            before.take(i as int).lemma_filter_push(before[i as int], scheduled_at(*policy, now));
        }
        if matches!(e.status, VerificationStatus::Pending) && !e.in_flight {
            if age_of(&e, now) <= policy.pending_lifetime {
                plan.push(e.key);
                entries.set(
                    i,
                    VerificationEntry {
                        key: e.key,
                        status: e.status,
                        created_at: e.created_at,
                        last_check: e.last_check,
                        failures: e.failures,
                        consumed: e.consumed,
                        in_flight: true,
                    },
                );
            } else {
                entries.set(
                    i,
                    VerificationEntry {
                        key: e.key,
                        status: VerificationStatus::Expired,
                        created_at: e.created_at,
                        last_check: e.last_check,
                        failures: e.failures,
                        consumed: e.consumed,
                        in_flight: e.in_flight,
                    },
                );
            }
        }
        i += 1;
        assert(plan@ =~= before.take(i as int).filter(scheduled_at(*policy, now)).map_values(
            key_of(),
        ));
    }
    proof {
        assert(before.take(n as int) =~= before);
        assert(entries@ =~= refreshed(before, *policy, now));
        lemma_refresh_keeps_wf(before, *policy, now);
    }
    plan
}

/// Records the outcome of the check for `key` on the entry that awaits it.
fn settle_entries(
    entries: &mut Vec<VerificationEntry>,
    key: i32,
    outcome: CheckOutcome,
    policy: &RetryPolicy,
    now: u64,
) -> (recorded: bool)
    requires
        store_wf(old(entries)@),
    ensures
        final(entries)@ == settled(old(entries)@, key, outcome, *policy, now),
        recorded == has_awaited(old(entries)@, key),
        store_wf(final(entries)@),
{
    let ghost before = entries@;
    let n = entries.len();
    let mut recorded = false;
    let mut i: usize = 0;
    while i < n
        invariant
            i <= n,
            n == before.len(),
            entries@.len() == n,
            forall|j: int|
                0 <= j < i ==> #[trigger] entries@[j] == (if awaits(before[j], key) {
                    settled_entry(before[j], outcome, *policy, now)
                } else {
                    before[j]
                }),
            forall|j: int| i <= j < n ==> #[trigger] entries@[j] == before[j],
            recorded == (exists|j: int| 0 <= j < i && awaits(#[trigger] before[j], key)),
        decreases n - i,
    {
        let e = entries[i];
        if e.key == key && e.in_flight {
            entries.set(i, settle(&e, outcome, policy, now));
            recorded = true;
        }
        i += 1;
    }
    proof {
        assert(entries@ =~= settled(before, key, outcome, *policy, now));
        lemma_settle_keeps_wf(before, key, outcome, *policy, now);
    }
    recorded
}

/// Marks the usable verification of `key` as used up.
fn consume_entries(entries: &mut Vec<VerificationEntry>, key: i32) -> (used: bool)
    requires
        store_wf(old(entries)@),
    ensures
        final(entries)@ == consumed(old(entries)@, key),
        used == has_usable(old(entries)@, key),
        store_wf(final(entries)@),
{
    let ghost before = entries@;
    let n = entries.len();
    let mut used = false;
    let mut i: usize = 0;
    while i < n
        invariant
            i <= n,
            n == before.len(),
            entries@.len() == n,
            forall|j: int|
                0 <= j < i ==> #[trigger] entries@[j] == (if is_usable(before[j], key) {
                    VerificationEntry { consumed: true, ..before[j] }
                } else {
                    before[j]
                }),
            forall|j: int| i <= j < n ==> #[trigger] entries@[j] == before[j],
            used == (exists|j: int| 0 <= j < i && is_usable(#[trigger] before[j], key)),
        decreases n - i,
    {
        let e = entries[i];
        if e.key == key && matches!(e.status, VerificationStatus::Verified) && !e.consumed {
            entries.set(
                i,
                VerificationEntry {
                    key: e.key,
                    status: e.status,
                    created_at: e.created_at,
                    last_check: e.last_check,
                    failures: e.failures,
                    consumed: true,
                    in_flight: e.in_flight,
                },
            );
            used = true;
        }
        i += 1;
    }
    proof {
        assert(entries@ =~= consumed(before, key));
        assert(store_wf(entries@)) by {
            assert forall|a: int, b: int| 0 <= a < b < entries@.len() implies (
            #[trigger] entries@[a]).key != (#[trigger] entries@[b]).key by {
                assert(before[a].key != before[b].key);
            }
            assert forall|a: int|
                0 <= a < entries@.len() && (#[trigger] entries@[a]).in_flight implies entries@[a].status
                == VerificationStatus::Pending by {
                assert(before[a].in_flight ==> before[a].status == VerificationStatus::Pending);
            }
        }
    }
    used
}

/// The entries that the deleter keeps at time `now`.
fn kept_entries(entries: &Vec<VerificationEntry>, policy: &RetryPolicy, now: u64) -> (kept: Vec<
    VerificationEntry,
>)
    requires
        store_wf(entries@),
    ensures
        kept@ == purged(entries@, *policy, now),
        store_wf(kept@),
{
    let mut kept: Vec<VerificationEntry> = Vec::new();
    let n = entries.len();
    let mut i: usize = 0;
    assert(entries@.take(0).filter(kept_at(*policy, now)) =~= Seq::empty()) by {
        reveal(Seq::filter);
    }
    while i < n
        invariant
            i <= n,
            n == entries@.len(),
            kept@ == entries@.take(i as int).filter(kept_at(*policy, now)),
        decreases n - i,
    {
        let e = entries[i];
        proof {
            entries@.lemma_take_succ_push(i as int);
            entries@.take(i as int).lemma_filter_push(entries@[i as int], kept_at(*policy, now));
        }
        if !purgeable(&e, policy, now) {
            kept.push(e);
        }
        i += 1;
    }
    proof {
        assert(entries@.take(n as int) =~= entries@);
        lemma_purge_keeps_wf(entries@, *policy, now);
    }
    kept
}

impl VerificationStore {
    /// What holds of every store: its entries are well formed.
    #[verifier::type_invariant]
    pub open spec fn wf(self) -> bool {
        store_wf(self@)
    }

    /// The policy that the store was made with.
    pub closed spec fn spec_policy(&self) -> RetryPolicy {
        self.policy
    }

    /// Moves the entries out, to be worked on and put back.
    fn take_entries(&mut self) -> (entries: Vec<VerificationEntry>)
        ensures
            entries@ == old(self)@,
            store_wf(entries@),
            final(self)@ == Seq::<VerificationEntry>::empty(),
            final(self).policy == old(self).policy,
    {
        proof {
            use_type_invariant(&*self);
        }
        let mut entries: Vec<VerificationEntry> = Vec::new();
        std::mem::swap(&mut self.entries, &mut entries);
        entries
    }

    /// An empty store that goes by `policy`.
    pub fn new(policy: RetryPolicy) -> (store: VerificationStore)
        ensures
            store@ == Seq::<VerificationEntry>::empty(),
            store.spec_policy() == policy,
    {
        VerificationStore { entries: Vec::new(), policy }
    }

    /// The policy that the store was made with.
    pub fn policy(&self) -> (r: RetryPolicy)
        ensures
            r == self.spec_policy(),
    {
        self.policy
    }

    /// The number of entries.
    pub fn len(&self) -> (r: usize)
        ensures
            r == self@.len(),
    {
        self.entries.len()
    }

    /// The entry for `key`, if the store has one.
    pub fn find(&self, key: i32) -> (r: Option<VerificationEntry>)
        ensures
            match r {
                Some(e) => e.key == key && self@.contains(e),
                None => !has_key(self@, key),
            },
            store_wf(self@),
    {
        proof {
            use_type_invariant(self);
        }
        let n = self.entries.len();
        let mut i: usize = 0;
        while i < n
            invariant
                i <= n,
                n == self.entries@.len(),
                store_wf(self.entries@),
                forall|j: int| 0 <= j < i ==> (#[trigger] self.entries@[j]).key != key,
            decreases n - i,
        {
            let e = self.entries[i];
            if e.key == key {
                assert(self@[i as int] == e);
                return Some(e);
            }
            i += 1;
        }
        None
    }

    /// Takes up a verification request for `key` at time `now`. A key that
    /// the store already tracks is left as it is.
    pub fn request(&mut self, key: i32, now: u64) -> (added: bool)
        ensures
            added == !has_key(old(self)@, key),
            final(self)@ == if added {
                old(self)@.push(fresh_entry(key, now))
            } else {
                old(self)@
            },
            final(self).spec_policy() == old(self).spec_policy(),
    {
        proof {
            use_type_invariant(&*self);
        }
        if self.find(key).is_some() {
            return false;
        }
        let mut entries = self.take_entries();
        let ghost before = entries@;
        entries.push(
            VerificationEntry {
                key,
                status: VerificationStatus::Pending,
                created_at: now,
                last_check: now,
                failures: 0,
                consumed: false,
                in_flight: false,
            },
        );
        proof {
            let after = entries@;
            assert forall|a: int, b: int| 0 <= a < b < after.len() implies (#[trigger] after[a]).key
                != (#[trigger] after[b]).key by {
                if b < before.len() {
                    assert(before[a].key != before[b].key);
                } else {
                    assert(before[a].key != key);
                }
            }
            assert forall|a: int|
                0 <= a < after.len() && (#[trigger] after[a]).in_flight implies after[a].status
                == VerificationStatus::Pending by {
                if a < before.len() {
                    assert(before[a].in_flight ==> before[a].status == VerificationStatus::Pending);
                }
            }
        }
        self.entries = entries;
        true
    }

    /// Uses up the verification of `key`: a verified entry that no request
    /// has used yet is marked as consumed. Tells whether there was one.
    pub fn consume(&mut self, key: i32) -> (used: bool)
        ensures
            used == has_usable(old(self)@, key),
            final(self)@ == consumed(old(self)@, key),
            final(self).spec_policy() == old(self).spec_policy(),
    {
        let mut entries = self.take_entries();
        let used = consume_entries(&mut entries, key);
        self.entries = entries;
        used
    }

    /// One refresher tick at time `now`. `enabled` is the verification flag
    /// as it reads at this tick. While it is off the tick is idle: nothing
    /// changes and nothing is to be checked. While it is on, every due entry
    /// either expires or goes in flight, and the keys of those in flight are
    /// returned in store order, one check to be made for each.
    pub fn begin_refresh(&mut self, enabled: bool, now: u64) -> (plan: Vec<i32>)
        ensures
            !enabled ==> final(self)@ == old(self)@ && plan@ == Seq::<i32>::empty(),
            enabled ==> final(self)@ == refreshed(old(self)@, old(self).spec_policy(), now),
            enabled ==> plan@ == refresh_plan(old(self)@, old(self).spec_policy(), now),
            final(self).spec_policy() == old(self).spec_policy(),
    {
        proof {
            use_type_invariant(&*self);
        }
        if !enabled {
            return Vec::new();
        }
        let mut entries = self.take_entries();
        let plan = refresh_entries(&mut entries, &self.policy, now);
        self.entries = entries;
        plan
    }

    /// Reports the outcome of the check that `begin_refresh` handed out for
    /// `key`. The outcome is recorded on the entry that awaits it, which is
    /// then no longer in flight. Where no entry awaits an outcome for `key`
    /// nothing changes. Tells whether an entry took the outcome.
    pub fn complete_check(&mut self, key: i32, outcome: CheckOutcome, now: u64) -> (recorded: bool)
        ensures
            recorded == has_awaited(old(self)@, key),
            final(self)@ == settled(old(self)@, key, outcome, old(self).spec_policy(), now),
            final(self).spec_policy() == old(self).spec_policy(),
    {
        let mut entries = self.take_entries();
        let recorded = settle_entries(&mut entries, key, outcome, &self.policy, now);
        self.entries = entries;
        recorded
    }

    /// One deleter tick at time `now`: removes the entries that are terminal
    /// and older than the retention time, keeps all others in their order,
    /// and returns how many it removed. An entry in flight always stays.
    pub fn purge(&mut self, now: u64) -> (removed: usize)
        ensures
            final(self)@ == purged(old(self)@, old(self).spec_policy(), now),
            removed == old(self)@.len() - final(self)@.len(),
            forall|e: VerificationEntry|
                old(self)@.contains(e) && e.in_flight ==> #[trigger] final(self)@.contains(e),
            final(self).spec_policy() == old(self).spec_policy(),
    {
        proof {
            use_type_invariant(&*self);
        }
        let ghost before = self.entries@;
        let before_len = self.entries.len();
        let kept = kept_entries(&self.entries, &self.policy, now);
        proof {
            before.lemma_filter_len(kept_at(self.policy, now));
            assert forall|e: VerificationEntry| before.contains(e) && e.in_flight implies #[trigger] kept@.contains(e) by {
                let i = choose|i: int| 0 <= i < before.len() && before[i] == e;
                law_purge_spares_in_flight(before, self.policy, now, i);
            }
        }
        let removed = before_len - kept.len();
        self.entries = kept;
        removed
    }
}

/// A refresher tick keeps the entries well formed.
pub proof fn lemma_refresh_keeps_wf(entries: Seq<VerificationEntry>, policy: RetryPolicy, now: u64)
    requires
        store_wf(entries),
    ensures
        store_wf(refreshed(entries, policy, now)),
{
    let after = refreshed(entries, policy, now);
    assert forall|a: int, b: int| 0 <= a < b < after.len() implies (#[trigger] after[a]).key != (
    #[trigger] after[b]).key by {
        assert(entries[a].key != entries[b].key);
    }
    assert forall|a: int| 0 <= a < after.len() && (#[trigger] after[a]).in_flight implies after[a].status
        == VerificationStatus::Pending by {
        assert(entries[a].in_flight ==> entries[a].status == VerificationStatus::Pending);
    }
}

/// Recording an outcome keeps the entries well formed.
pub proof fn lemma_settle_keeps_wf(
    entries: Seq<VerificationEntry>,
    key: i32,
    outcome: CheckOutcome,
    policy: RetryPolicy,
    now: u64,
)
    requires
        store_wf(entries),
    ensures
        store_wf(settled(entries, key, outcome, policy, now)),
{
    let after = settled(entries, key, outcome, policy, now);
    assert forall|a: int, b: int| 0 <= a < b < after.len() implies (#[trigger] after[a]).key != (
    #[trigger] after[b]).key by {
        assert(entries[a].key != entries[b].key);
    }
    assert forall|a: int| 0 <= a < after.len() && (#[trigger] after[a]).in_flight implies after[a].status
        == VerificationStatus::Pending by {
        assert(entries[a].in_flight ==> entries[a].status == VerificationStatus::Pending);
    }
}

/// Every entry that the deleter keeps was there before, at a place that
/// grows with its place among the kept ones.
proof fn lemma_kept_come_from(entries: Seq<VerificationEntry>, pred: spec_fn(VerificationEntry) -> bool)
    ensures
        forall|a: int, b: int|
            0 <= a < b < entries.filter(pred).len() ==> exists|x: int, y: int|
                0 <= x < y < entries.len() && entries[x] == #[trigger] entries.filter(pred)[a]
                    && entries[y] == #[trigger] entries.filter(pred)[b],
        forall|a: int|
            0 <= a < entries.filter(pred).len() ==> exists|x: int|
                0 <= x < entries.len() && entries[x] == #[trigger] entries.filter(pred)[a],
    decreases entries.len(),
{
    reveal(Seq::filter);
    if entries.len() > 0 {
        let rest = entries.drop_last();
        let last = entries.last();
        lemma_kept_come_from(rest, pred);
        let out = entries.filter(pred);
        let rest_out = rest.filter(pred);
        assert forall|a: int| 0 <= a < out.len() implies exists|x: int|
            0 <= x < entries.len() && entries[x] == #[trigger] out[a] by {
            if a < rest_out.len() {
                let x = choose|x: int| 0 <= x < rest.len() && rest[x] == rest_out[a];
                assert(entries[x] == out[a]);
            } else {
                assert(entries[entries.len() - 1] == out[a]);
            }
        }
        assert forall|a: int, b: int| 0 <= a < b < out.len() implies exists|x: int, y: int|
            0 <= x < y < entries.len() && entries[x] == #[trigger] out[a] && entries[y]
                == #[trigger] out[b] by {
            if b < rest_out.len() {
                let (x, y) = choose|x: int, y: int|
                    0 <= x < y < rest.len() && rest[x] == rest_out[a] && rest[y] == rest_out[b];
                assert(entries[x] == out[a] && entries[y] == out[b]);
            } else {
                let x = choose|x: int| 0 <= x < rest.len() && rest[x] == rest_out[a];
                let y = entries.len() - 1;
                assert(entries[x] == out[a] && entries[y] == out[b]);
            }
        }
    }
}

/// A deleter tick keeps the entries well formed.
pub proof fn lemma_purge_keeps_wf(entries: Seq<VerificationEntry>, policy: RetryPolicy, now: u64)
    requires
        store_wf(entries),
    ensures
        store_wf(purged(entries, policy, now)),
{
    let after = purged(entries, policy, now);
    lemma_kept_come_from(entries, kept_at(policy, now));
    assert forall|a: int, b: int| 0 <= a < b < after.len() implies (#[trigger] after[a]).key != (
    #[trigger] after[b]).key by {
        let (x, y) = choose|x: int, y: int|
            0 <= x < y < entries.len() && entries[x] == after[a] && entries[y] == after[b];
        assert(entries[x].key != entries[y].key);
    }
    assert forall|a: int| 0 <= a < after.len() && (#[trigger] after[a]).in_flight implies after[a].status
        == VerificationStatus::Pending by {
        let x = choose|x: int| 0 <= x < entries.len() && entries[x] == after[a];
        assert(entries[x].in_flight ==> entries[x].status == VerificationStatus::Pending);
    }
}

/// The deleter never removes an entry whose check is in flight.
pub proof fn law_purge_spares_in_flight(
    entries: Seq<VerificationEntry>,
    policy: RetryPolicy,
    now: u64,
    i: int,
)
    requires
        store_wf(entries),
        0 <= i < entries.len(),
        entries[i].in_flight,
    ensures
        !is_purgeable(entries[i], policy, now),
        purged(entries, policy, now).contains(entries[i]),
{
    assert(entries[i].status == VerificationStatus::Pending);
    entries.lemma_filter_contains(kept_at(policy, now), i);
}

/// A refresher tick leaves alone every entry that is not due, a verified
/// one among them: the entry stays as it is and no check is planned for its
/// key.
pub proof fn law_refresh_leaves_settled_entries(
    entries: Seq<VerificationEntry>,
    policy: RetryPolicy,
    now: u64,
    i: int,
)
    requires
        store_wf(entries),
        0 <= i < entries.len(),
        !is_due(entries[i]),
    ensures
        refreshed(entries, policy, now)[i] == entries[i],
        !refresh_plan(entries, policy, now).contains(entries[i].key),
{
    let picked = entries.filter(scheduled_at(policy, now));
    let plan = refresh_plan(entries, policy, now);
    if plan.contains(entries[i].key) {
        let a = choose|a: int| 0 <= a < plan.len() && plan[a] == entries[i].key;
        entries.lemma_filter_pred(scheduled_at(policy, now), a);
        assert(picked.contains(picked[a]));
        entries.lemma_filter_contains_rev(scheduled_at(policy, now), picked[a]);
        let x = choose|x: int| 0 <= x < entries.len() && entries[x] == picked[a];
        if x < i {
            assert(entries[x].key != entries[i].key);
        } else if i < x {
            assert(entries[i].key != entries[x].key);
        }
    }
}

/// A verified entry is left alone by the refresher for good: no tick changes
/// it or plans a check for it, and no outcome lands on it.
pub proof fn law_verified_entry_is_stable(
    entries: Seq<VerificationEntry>,
    policy: RetryPolicy,
    now: u64,
    key: i32,
    outcome: CheckOutcome,
    i: int,
)
    requires
        store_wf(entries),
        0 <= i < entries.len(),
        entries[i].status == VerificationStatus::Verified,
    ensures
        refreshed(entries, policy, now)[i] == entries[i],
        !refresh_plan(entries, policy, now).contains(entries[i].key),
        settled(entries, key, outcome, policy, now)[i] == entries[i],
{
    law_refresh_leaves_settled_entries(entries, policy, now, i);
    assert(!entries[i].in_flight);
    law_outcome_lands_only_where_awaited(entries, key, outcome, policy, now, i);
}

/// After a refresher tick no entry is due, so a further tick plans no check
/// and changes nothing until an outcome is reported: no check is made twice.
pub proof fn law_second_tick_plans_nothing(
    entries: Seq<VerificationEntry>,
    policy: RetryPolicy,
    now: u64,
    later: u64,
)
    ensures
        refresh_plan(refreshed(entries, policy, now), policy, later) == Seq::<i32>::empty(),
        refreshed(refreshed(entries, policy, now), policy, later) == refreshed(
            entries,
            policy,
            now,
        ),
{
    let once = refreshed(entries, policy, now);
    let picked = once.filter(scheduled_at(policy, later));
    if picked.len() > 0 {
        once.lemma_filter_pred(scheduled_at(policy, later), 0);
        assert(picked.contains(picked[0]));
        once.lemma_filter_contains_rev(scheduled_at(policy, later), picked[0]);
        let x = choose|x: int| 0 <= x < once.len() && once[x] == picked[0];
        assert(!is_due(once[x]));
    }
    assert(refresh_plan(once, policy, later) =~= Seq::<i32>::empty());
    assert(refreshed(once, policy, later) =~= once);
}

/// An outcome changes only the entry that awaits it: every entry that is
/// not in flight, or has another key, stays as it is.
pub proof fn law_outcome_lands_only_where_awaited(
    entries: Seq<VerificationEntry>,
    key: i32,
    outcome: CheckOutcome,
    policy: RetryPolicy,
    now: u64,
    i: int,
)
    requires
        0 <= i < entries.len(),
        !awaits(entries[i], key),
    ensures
        settled(entries, key, outcome, policy, now)[i] == entries[i],
{
}

/// A deleter tick between the start of a check and its outcome loses
/// nothing: the entry that awaits the outcome is still there to take it.
pub proof fn law_outcome_lands_after_purge(
    entries: Seq<VerificationEntry>,
    policy: RetryPolicy,
    now: u64,
    key: i32,
)
    requires
        store_wf(entries),
        has_awaited(entries, key),
    ensures
        has_awaited(purged(entries, policy, now), key),
{
    let i = choose|i: int| 0 <= i < entries.len() && awaits(#[trigger] entries[i], key);
    law_purge_spares_in_flight(entries, policy, now, i);
    let after = purged(entries, policy, now);
    let a = choose|a: int| 0 <= a < after.len() && after[a] == entries[i];
    assert(awaits(after[a], key));
}

} // verus!
