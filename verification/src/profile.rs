//! The hot-path profile, and the guard under which it is measured.
use vstd::prelude::*;
use vstd::string::*;

use crate::text::{decimal, decimal_text, numbered};

verus! {

/// What the statement parser counts.
#[derive(Clone, Copy, Debug, PartialEq, Eq, Structural)]
pub struct ParserCounters {
    /// Statements that ran on the prepared fast path.
    pub fast_path_executions: u64,
}

/// What the profile counts.
#[derive(Clone, Copy, Debug, PartialEq, Eq, Structural)]
pub struct HotPathCounters {
    /// Full reloads of the in-memory database image.
    pub memdb_refresh_count: u64,
    pub parser: ParserCounters,
}

impl HotPathCounters {
    /// The counters with their names.
    pub open spec fn shown(self) -> Seq<char> {
        "HotPathCounters { memdb_refresh_count: "@ + decimal_text(self.memdb_refresh_count as nat)
            + ", parser: ParserCounters { fast_path_executions: "@ + decimal_text(
            self.parser.fast_path_executions as nat,
        ) + " } }"@
    }

    /// Writes the counters with their names.
    pub fn show(&self) -> (r: String)
        ensures
            r@ == self.shown(),
    {
        let mut r = numbered("HotPathCounters { memdb_refresh_count: ", self.memdb_refresh_count);
        r.append(", parser: ParserCounters { fast_path_executions: ");
        r.append(decimal(self.parser.fast_path_executions).as_str());
        r.append(" } }");
        r
    }
}

/// The profile: whether it counts, and what it has counted since it was reset.
#[derive(Debug, PartialEq, Eq, Structural)]
pub struct HotPathProfile {
    pub enabled: bool,
    pub counters: HotPathCounters,
}

/// The counters before anything was counted.
pub open spec fn no_counts() -> HotPathCounters {
    HotPathCounters {
        memdb_refresh_count: 0,
        parser: ParserCounters { fast_path_executions: 0 },
    }
}

/// Whether the profile counts.
pub fn hot_path_profile_enabled(profile: &HotPathProfile) -> (r: bool)
    ensures
        r == profile.enabled,
{
    profile.enabled
}

/// Lets the profile count, or stops it. What it has counted stays.
pub fn set_hot_path_profile_enabled(profile: &mut HotPathProfile, enabled: bool)
    ensures
        *final(profile) == (HotPathProfile { enabled, ..*old(profile) }),
{
    profile.enabled = enabled;
}

/// Sets every counter to zero. Whether the profile counts stays as it is.
pub fn reset_hot_path_profile(profile: &mut HotPathProfile)
    ensures
        *final(profile) == (HotPathProfile { counters: no_counts(), ..*old(profile) }),
{
    profile.counters = HotPathCounters {
        memdb_refresh_count: 0,
        parser: ParserCounters { fast_path_executions: 0 },
    };
}

/// What the profile has counted.
pub fn hot_path_profile_snapshot(profile: &HotPathProfile) -> (r: HotPathCounters)
    ensures
        r == profile.counters,
{
    profile.counters
}

/// The lock that a measurement takes. The callers share one for the whole process.
#[derive(Debug)]
pub struct ProfileLock {
    held: bool,
}

impl ProfileLock {
    /// Whether a measurement has the lock.
    pub closed spec fn taken(self) -> bool {
        self.held
    }

    /// A lock that nobody has.
    pub fn new() -> (r: ProfileLock)
        ensures
            !r.taken(),
    {
        ProfileLock { held: false }
    }

    /// Whether a measurement has the lock.
    pub fn is_taken(&self) -> (r: bool)
        ensures
            r == self.taken(),
    {
        self.held
    }
}

/// A measurement under way: has the profile that it measures, and remembers whether
/// the profile counted before.
#[derive(Debug)]
pub struct ProfileGuard {
    profile: HotPathProfile,
    previous_enabled: bool,
}

/// What a `ProfileGuard` stands for.
pub struct GuardView {
    /// The profile that is measured.
    pub profile: HotPathProfile,
    /// Whether it counted before the measurement.
    pub previous: bool,
}

impl View for ProfileGuard {
    type V = GuardView;

    closed spec fn view(&self) -> GuardView {
        GuardView { profile: self.profile, previous: self.previous_enabled }
    }
}

impl GuardView {
    /// A measurement of `profile` that has just started: the profile counts, from zero.
    pub open spec fn started(profile: HotPathProfile) -> GuardView {
        GuardView {
            profile: HotPathProfile { enabled: true, counters: no_counts() },
            previous: profile.enabled,
        }
    }

    /// The profile once the measurement has ended: what was counted is forgotten, and it
    /// counts if it did so before.
    pub open spec fn ended(self) -> HotPathProfile {
        HotPathProfile { enabled: self.previous, counters: no_counts() }
    }
}

/// The measurement that comes of asking for one of `profile`: none while the lock is
/// taken.
pub open spec fn granted(taken: bool, profile: HotPathProfile) -> Option<GuardView> {
    if taken {
        None
    } else {
        Some(GuardView::started(profile))
    }
}

impl ProfileGuard {
    /// Takes the lock and starts a measurement of `profile`: it counts, from zero. Where
    /// the lock is taken it stays so, no measurement starts, and the profile is handed
    /// back as it was.
    pub fn new(lock: &mut ProfileLock, profile: HotPathProfile) -> (r: Result<
        ProfileGuard,
        HotPathProfile,
    >)
        ensures
            match granted(old(lock).taken(), profile) {
                Some(g) => r matches Ok(guard) && guard@ == g,
                None => r matches Err(p) && p == profile,
            },
            final(lock).taken(),
    {
        if lock.held {
            return Err(profile);
        }
        lock.held = true;
        let mut profile = profile;
        let previous_enabled = hot_path_profile_enabled(&profile);
        set_hot_path_profile_enabled(&mut profile, true);
        reset_hot_path_profile(&mut profile);
        Ok(ProfileGuard { profile, previous_enabled })
    }

    /// The profile that is measured.
    pub fn profile(&self) -> (r: &HotPathProfile)
        ensures
            *r == self@.profile,
    {
        &self.profile
    }

    /// The profile that is measured, to count in.
    pub fn profile_mut(&mut self) -> (r: &mut HotPathProfile)
        ensures
            *r == old(self)@.profile,
            final(self)@ == (GuardView { profile: *final(r), ..old(self)@ }),
    {
        &mut self.profile
    }

    /// Ends the measurement and gives the lock back: what was counted is forgotten, and
    /// the profile counts only if it did so before.
    pub fn drop(self, lock: &mut ProfileLock) -> (r: HotPathProfile)
        requires
            old(lock).taken(),
        ensures
            r == self@.ended(),
            !final(lock).taken(),
    {
        let mut profile = self.profile;
        reset_hot_path_profile(&mut profile);
        set_hot_path_profile_enabled(&mut profile, self.previous_enabled);
        lock.held = false;
        profile
    }
}

/// A measurement leaves the profile switched as it was, with nothing left of what was
/// counted, whatever became of the counters and of the switch while it lasted: `guard`
/// came of asking for a measurement of `before`, and has the profile `last` when it ends.
pub proof fn law_guard_restores(
    before: HotPathProfile,
    guard: GuardView,
    last: HotPathProfile,
)
    requires
        granted(false, before) == Some(guard),
    ensures
        (GuardView { profile: last, ..guard }).ended().enabled == before.enabled,
        (GuardView { profile: last, ..guard }).ended().counters == no_counts(),
{
}

/// Measurements one after the other: however many there are, each finds the switch as
/// it was before the first, and the last leaves it so. Guard `i` came of asking for a
/// measurement of the profile `free[i]`, and leaves `free[i + 1]`.
pub proof fn law_guards_in_turn(free: Seq<HotPathProfile>, guards: Seq<GuardView>)
    requires
        free.len() == guards.len() + 1,
        forall|i: int|
            0 <= i < guards.len() ==> {
                &&& (#[trigger] guards[i]).previous == GuardView::started(free[i]).previous
                &&& free[i + 1] == guards[i].ended()
            },
    ensures
        forall|i: int| 0 <= i < free.len() ==> (#[trigger] free[i]).enabled == free[0].enabled,
    decreases guards.len(),
{
    if guards.len() > 0 {
        let n = guards.len() - 1;
        assert forall|i: int| 0 <= i < guards.drop_last().len() implies {
            &&& (#[trigger] guards.drop_last()[i]).previous == GuardView::started(
                free.drop_last()[i],
            ).previous
            &&& free.drop_last()[i + 1] == guards.drop_last()[i].ended()
        } by {
            assert(guards.drop_last()[i] == guards[i]);
        }
        law_guards_in_turn(free.drop_last(), guards.drop_last());
        assert(free.drop_last()[n].enabled == free[0].enabled);
        assert(guards[n].previous == free[n].enabled);
        assert forall|i: int| 0 <= i < free.len() implies (#[trigger] free[i]).enabled
            == free[0].enabled by {
            if i <= n {
                assert(free.drop_last()[i] == free[i]);
            }
        }
    }
}

/// Something that a caller does, on whatever thread: the calls take effect one after
/// the other.
pub enum GuardEvent {
    /// Asks lock `lock` for a measurement of `profile`.
    Asked { lock: int, profile: HotPathProfile },
    /// Leaves `profile` in the guard that is the `guard`th of those alive.
    Counted { guard: int, profile: HotPathProfile },
    /// Ends the guard that is the `guard`th of those alive, and gives lock `lock` back.
    Ended { guard: int, lock: int },
}

/// The locks and the guards of a process.
pub struct Guards {
    /// Of each lock, whether it is taken.
    pub taken: Seq<bool>,
    /// The guards that are alive, in the order in which they were made.
    pub alive: Seq<GuardView>,
}

impl Guards {
    /// Locks that nobody has, and no guard.
    pub open spec fn none(locks: nat) -> Guards {
        Guards { taken: Seq::new(locks, |i: int| false), alive: seq![] }
    }

    /// What a call leaves: `ProfileGuard::new` for a measurement asked for, `profile_mut`
    /// for what is counted in it, `drop` for its end. What cannot be called changes
    /// nothing: on a lock that is not there, of a guard that is not alive, or giving back
    /// a lock that is not taken.
    pub open spec fn after(self, event: GuardEvent) -> Guards {
        match event {
            GuardEvent::Asked { lock, profile } => if 0 <= lock < self.taken.len() {
                Guards {
                    taken: self.taken.update(lock, true),
                    alive: match granted(self.taken[lock], profile) {
                        Some(guard) => self.alive.push(guard),
                        None => self.alive,
                    },
                }
            } else {
                self
            },
            GuardEvent::Counted { guard, profile } => if 0 <= guard < self.alive.len() {
                Guards {
                    alive: self.alive.update(guard, GuardView { profile, ..self.alive[guard] }),
                    ..self
                }
            } else {
                self
            },
            GuardEvent::Ended { guard, lock } => if 0 <= lock < self.taken.len()
                && self.taken[lock] && 0 <= guard < self.alive.len() {
                Guards {
                    taken: self.taken.update(lock, false),
                    alive: self.alive.remove(guard),
                }
            } else {
                self
            },
        }
    }

    /// The locks and guards after `events`, at first `locks` locks that nobody has.
    pub open spec fn history(locks: nat, events: Seq<GuardEvent>) -> Guards
        decreases events.len(),
    {
        if events.len() == 0 {
            Guards::none(locks)
        } else {
            Guards::history(locks, events.drop_last()).after(events.last())
        }
    }
}

/// How many of `taken` are true.
pub open spec fn count_taken(taken: Seq<bool>) -> nat
    decreases taken.len(),
{
    if taken.len() == 0 {
        0
    } else if taken.last() {
        count_taken(taken.drop_last()) + 1
    } else {
        count_taken(taken.drop_last())
    }
}

/// Counting after one entry was changed.
proof fn lemma_count_update(taken: Seq<bool>, i: int, b: bool)
    requires
        0 <= i < taken.len(),
    ensures
        count_taken(taken) <= taken.len(),
        count_taken(taken.update(i, b)) + (if taken[i] {
            1int
        } else {
            0
        }) == count_taken(taken) + (if b {
            1int
        } else {
            0
        }),
    decreases taken.len(),
{
    if i == taken.len() - 1 {
        assert(taken.update(i, b).drop_last() =~= taken.drop_last());
        if taken.len() > 1 {
            lemma_count_update(taken.drop_last(), 0, true);
        }
    } else {
        assert(taken.update(i, b).drop_last() =~= taken.drop_last().update(i, b));
        lemma_count_update(taken.drop_last(), i, b);
    }
}

/// Of locks that nobody has none is taken.
proof fn lemma_none_taken(n: nat)
    ensures
        count_taken(Guards::none(n).taken) == 0,
    decreases n,
{
    if n > 0 {
        assert(Guards::none(n).taken.drop_last() =~= Guards::none((n - 1) as nat).taken);
        lemma_none_taken((n - 1) as nat);
    }
}

/// With any number of locks, at every moment as many guards are alive as locks are
/// taken, so never more than there are locks. This holds even where a guard gives back
/// a lock that another one took.
pub proof fn law_no_more_guards_than_locks(locks: nat, events: Seq<GuardEvent>)
    ensures
        Guards::history(locks, events).taken.len() == locks,
        Guards::history(locks, events).alive.len() == count_taken(
            Guards::history(locks, events).taken,
        ),
        Guards::history(locks, events).alive.len() <= locks,
    decreases events.len(),
{
    let now = Guards::history(locks, events);
    if events.len() == 0 {
        lemma_none_taken(locks);
    } else {
        law_no_more_guards_than_locks(locks, events.drop_last());
        let before = Guards::history(locks, events.drop_last());
        match events.last() {
            GuardEvent::Asked { lock, .. } => {
                if 0 <= lock < before.taken.len() {
                    lemma_count_update(before.taken, lock, true);
                }
            },
            GuardEvent::Counted { .. } => {},
            GuardEvent::Ended { lock, .. } => {
                if 0 <= lock < before.taken.len() {
                    lemma_count_update(before.taken, lock, false);
                }
            },
        }
        if now.taken.len() > 0 {
            lemma_count_update(now.taken, 0, true);
        }
    }
}

/// With one lock, at every moment at most one guard is alive, whatever was called before
/// and in whatever order. While one is, asking for another gives none and changes
/// nothing: neither the lock, nor the guard that is alive, nor its profile.
pub proof fn law_at_most_one_guard(events: Seq<GuardEvent>, profile: HotPathProfile)
    ensures
        Guards::history(1, events).alive.len() <= 1,
        Guards::history(1, events).alive.len() == 1 <==> Guards::history(1, events).taken[0],
        Guards::history(1, events).alive.len() == 1 ==> {
            &&& granted(Guards::history(1, events).taken[0], profile) is None
            &&& Guards::history(1, events).after(GuardEvent::Asked { lock: 0, profile })
                == Guards::history(1, events)
        },
{
    law_no_more_guards_than_locks(1, events);
    let now = Guards::history(1, events);
    assert(count_taken(now.taken.drop_last()) == 0);
    assert(now.taken[0] ==> now.taken.update(0, true) =~= now.taken);
}

} // verus!
