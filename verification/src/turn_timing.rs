//! Per-turn timing: when the turn and each of its items started, and the
//! turn's time profile.

use vstd::prelude::*;

use crate::str_map::StrMap;
use crate::turn_profile::{
    classified_ms, duration_to_u64_ms, elapsed_since, whole_millis, TurnProfile, TurnProfilePhase,
    TurnProfileState,
};

verus! {

/// Timing state of one turn. Instants are monotonic clock readings in
/// nanoseconds; wall-clock times are Unix milliseconds or seconds.
pub struct TurnTimingState {
    pub started_at: Option<u64>,
    pub started_at_unix_secs: Option<i64>,
    pub item_started_at_ms: StrMap<i64>,
    pub profile: TurnProfileState,
}

/// An open phase of the turn profile; it ends when handed back to
/// `TurnTimingState::end_guard`. A guard whose phase could not begin is
/// inactive and ends nothing.
pub struct TurnProfileTimingGuard {
    pub phase: TurnProfilePhase,
    pub active: bool,
}

/// Whole seconds in a non-negative number of Unix milliseconds, rounded toward zero.
pub open spec fn unix_secs_of_ms(ms: i64) -> i64 {
    if ms >= 0 {
        (ms / 1000) as i64
    } else {
        -((-ms) / 1000) as i64
    }
}

/// The turn duration reported at `now`: whole milliseconds since the turn
/// started, if it did.
pub open spec fn turn_duration_ms(started_at: Option<u64>, now: u64) -> Option<i64> {
    match started_at {
        Some(s) => Some(whole_millis(elapsed_since(s, now)) as i64),
        None => None,
    }
}

impl TurnTimingState {
    /// While the profile is running, it charges every nanosecond since the
    /// turn started exactly once (`TurnProfileState::consistent`), it started
    /// with the turn, and no phase is open before it started.
    pub open spec fn timing_consistent(self) -> bool {
        self.profile.completed_profile is None ==> {
            &&& self.profile.consistent()
            &&& self.profile.started_at == self.started_at
            &&& self.profile.started_at is None ==> self.profile.active_phase is None
        }
    }

    /// A turn that has not started and has no items.
    pub fn new() -> (s: Self)
        ensures
            s.started_at is None,
            s.started_at_unix_secs is None,
            s.item_started_at_ms@ == Map::<Seq<char>, i64>::empty(),
            s.profile == TurnProfileState::default_state(),
            s.timing_consistent(),
    {
        TurnTimingState {
            started_at: None,
            started_at_unix_secs: None,
            item_started_at_ms: StrMap::new(),
            profile: TurnProfileState::new(),
        }
    }

    /// Marks the turn as started at instant `started_at`, the wall clock then
    /// reading `started_at_unix_ms`. Forgets the items of any earlier turn and
    /// restarts the profile. Returns `started_at_unix_ms`.
    pub fn mark_turn_started(&mut self, started_at: u64, started_at_unix_ms: i64) -> (r: i64)
        ensures
            r == started_at_unix_ms,
            final(self).started_at == Some(started_at),
            final(self).started_at_unix_secs == Some(unix_secs_of_ms(started_at_unix_ms)),
            final(self).item_started_at_ms@ == Map::<Seq<char>, i64>::empty(),
            final(self).profile == TurnProfileState::started(started_at),
            final(self).timing_consistent(),
    {
        self.started_at = Some(started_at);
        self.started_at_unix_secs = Some(started_at_unix_ms / 1000);
        self.item_started_at_ms = StrMap::new();
        self.profile.start(started_at);
        started_at_unix_ms
    }

    /// Records that item `item_id` started at `started_at_ms`, unless it already
    /// has a start; returns the item's (first) start.
    pub fn record_item_started(&mut self, item_id: String, started_at_ms: i64) -> (r: i64)
        ensures
            old(self).item_started_at_ms@.contains_key(item_id@) ==> r
                == old(self).item_started_at_ms@[item_id@] && final(self).item_started_at_ms@
                == old(self).item_started_at_ms@,
            !old(self).item_started_at_ms@.contains_key(item_id@) ==> r == started_at_ms
                && final(self).item_started_at_ms@ == old(self).item_started_at_ms@.insert(
                item_id@,
                started_at_ms,
            ),
            final(self).started_at == old(self).started_at,
            final(self).started_at_unix_secs == old(self).started_at_unix_secs,
            final(self).profile == old(self).profile,
            old(self).timing_consistent() ==> final(self).timing_consistent(),
    {
        match self.item_started_at_ms.get(item_id.as_str()) {
            Some(first) => *first,
            None => {
                self.item_started_at_ms.insert(item_id, started_at_ms);
                started_at_ms
            },
        }
    }

    /// Removes and returns the start of item `item_id`, if recorded.
    pub fn take_item_started(&mut self, item_id: &str) -> (r: Option<i64>)
        ensures
            final(self).item_started_at_ms@ == old(self).item_started_at_ms@.remove(item_id@),
            r == (if old(self).item_started_at_ms@.contains_key(item_id@) {
                Some(old(self).item_started_at_ms@[item_id@])
            } else {
                None::<i64>
            }),
            final(self).started_at == old(self).started_at,
            final(self).started_at_unix_secs == old(self).started_at_unix_secs,
            final(self).profile == old(self).profile,
            old(self).timing_consistent() ==> final(self).timing_consistent(),
    {
        self.item_started_at_ms.remove(item_id)
    }

    /// Completes the turn at instant `now`, the wall clock then reading
    /// `now_unix_secs`. Returns the completion time, the turn's duration in
    /// milliseconds (if it started) and its profile; item starts are kept.
    pub fn complete_profile_and_duration_ms(&mut self, now: u64, now_unix_secs: i64) -> (r: (
        Option<i64>,
        Option<i64>,
        TurnProfile,
    ))
        ensures
            r.0 == Some(now_unix_secs),
            r.1 == turn_duration_ms(old(self).started_at, now),
            old(self).profile.completed_profile matches Some(p) ==> r.2 == p && final(self).profile
                == old(self).profile,
            old(self).profile.completed_profile is None ==> r.2 == old(self).profile.completion(now)
                && final(self).profile == old(self).profile.completed_at(now),
            final(self).started_at == old(self).started_at,
            final(self).started_at_unix_secs == old(self).started_at_unix_secs,
            final(self).item_started_at_ms@ == old(self).item_started_at_ms@,
            old(self).timing_consistent() ==> final(self).timing_consistent(),
    {
        let duration_ms = match self.started_at {
            Some(started_at) => {
                let ms = duration_to_u64_ms(now.saturating_sub(started_at));
                Some(ms as i64)
            },
            None => None,
        };
        let profile = self.profile.complete(now);
        (Some(now_unix_secs), duration_ms, profile)
    }
}

impl TurnTimingState {
    /// The Unix second at which the turn started, if it did.
    pub fn started_at_unix_secs(&self) -> (r: Option<i64>)
        ensures
            r == self.started_at_unix_secs,
    {
        self.started_at_unix_secs
    }

    /// Opens a sampling phase at instant `now`.
    pub fn begin_sampling(&mut self, now: u64) -> (g: TurnProfileTimingGuard)
        ensures
            g.phase == TurnProfilePhase::Sampling,
            g.active == old(self).profile.can_begin(),
            g.active ==> final(self).profile == old(self).profile.sampling_begun(now),
            !g.active ==> final(self).profile == old(self).profile,
            final(self).started_at == old(self).started_at,
            final(self).started_at_unix_secs == old(self).started_at_unix_secs,
            final(self).item_started_at_ms@ == old(self).item_started_at_ms@,
            old(self).timing_consistent() && old(self).profile.not_before_last_transition(now)
                ==> final(self).timing_consistent(),
    {
        let active = self.profile.begin_sampling(now);
        TurnProfileTimingGuard { phase: TurnProfilePhase::Sampling, active }
    }

    /// Counts a retried sampling request.
    pub fn record_sampling_retry(&mut self)
        ensures
            (old(self).profile.completed_profile is None && old(self).profile.started_at is Some)
                ==> final(self).profile == (TurnProfileState {
                sampling_retry_count: old(self).profile.sampling_retry_count.saturating_add(1),
                ..old(self).profile
            }),
            !(old(self).profile.completed_profile is None && old(self).profile.started_at is Some)
                ==> final(self).profile == old(self).profile,
            final(self).started_at == old(self).started_at,
            final(self).started_at_unix_secs == old(self).started_at_unix_secs,
            final(self).item_started_at_ms@ == old(self).item_started_at_ms@,
            old(self).timing_consistent() ==> final(self).timing_consistent(),
    {
        self.profile.record_sampling_retry();
    }

    /// Opens a compaction phase at instant `now`.
    pub fn begin_compaction(&mut self, now: u64) -> (g: TurnProfileTimingGuard)
        ensures
            g.phase == TurnProfilePhase::Compaction,
            g.active == old(self).profile.can_begin(),
            g.active ==> final(self).profile == old(self).profile.phase_begun(
                now,
                TurnProfilePhase::Compaction,
            ),
            !g.active ==> final(self).profile == old(self).profile,
            final(self).started_at == old(self).started_at,
            final(self).started_at_unix_secs == old(self).started_at_unix_secs,
            final(self).item_started_at_ms@ == old(self).item_started_at_ms@,
            old(self).timing_consistent() && old(self).profile.not_before_last_transition(now)
                ==> final(self).timing_consistent(),
    {
        let active = self.profile.begin_compaction(now);
        TurnProfileTimingGuard { phase: TurnProfilePhase::Compaction, active }
    }

    /// Opens a phase blocked on tools at instant `now`.
    pub fn begin_tool_blocking(&mut self, now: u64) -> (g: TurnProfileTimingGuard)
        ensures
            g.phase == TurnProfilePhase::ToolBlocking,
            g.active == old(self).profile.can_begin(),
            g.active ==> final(self).profile == old(self).profile.phase_begun(
                now,
                TurnProfilePhase::ToolBlocking,
            ),
            !g.active ==> final(self).profile == old(self).profile,
            final(self).started_at == old(self).started_at,
            final(self).started_at_unix_secs == old(self).started_at_unix_secs,
            final(self).item_started_at_ms@ == old(self).item_started_at_ms@,
            old(self).timing_consistent() && old(self).profile.not_before_last_transition(now)
                ==> final(self).timing_consistent(),
    {
        let active = self.profile.begin_tool_blocking(now);
        TurnProfileTimingGuard { phase: TurnProfilePhase::ToolBlocking, active }
    }

    /// Closes the phase of `guard` at instant `now`, if it was opened.
    pub fn end_guard(&mut self, guard: TurnProfileTimingGuard, now: u64)
        ensures
            guard.active ==> final(self).profile == old(self).profile.phase_ended(now, guard.phase),
            !guard.active ==> final(self).profile == old(self).profile,
            final(self).started_at == old(self).started_at,
            final(self).started_at_unix_secs == old(self).started_at_unix_secs,
            final(self).item_started_at_ms@ == old(self).item_started_at_ms@,
            old(self).timing_consistent() && old(self).profile.not_before_last_transition(now)
                ==> final(self).timing_consistent(),
    {
        if guard.active {
            self.profile.end_phase(now, guard.phase);
        }
    }
}

/// The current Unix time in milliseconds, from the time elapsed since the
/// epoch (none when the clock reads before it); saturates at `i64::MAX`.
pub fn now_unix_timestamp_ms(since_epoch_ms: Option<u128>) -> (r: i64)
    ensures
        r == match since_epoch_ms {
            Some(ms) => if ms <= i64::MAX {
                ms as i64
            } else {
                i64::MAX
            },
            None => 0,
        },
{
    match since_epoch_ms {
        Some(ms) => if ms <= 9223372036854775807u128 {
            ms as i64
        } else {
            i64::MAX
        },
        None => 0,
    }
}

/// The current Unix time in whole seconds, from the current Unix milliseconds.
pub fn now_unix_timestamp_secs(now_unix_ms: i64) -> (r: i64)
    ensures
        r == unix_secs_of_ms(now_unix_ms),
{
    now_unix_ms / 1000
}

/// On every state that the timing operations reach (each keeps
/// `timing_consistent` while time does not run backwards), completing the
/// turn reports a duration equal to the sum of the profile's phases.
pub proof fn turn_duration_matches_profile(s: TurnTimingState, now: u64)
    requires
        s.timing_consistent(),
        s.profile.completed_profile is None,
        s.profile.not_before_last_transition(now),
    ensures
        turn_duration_ms(s.started_at, now) == (match s.started_at {
            Some(_) => Some(classified_ms(s.profile.completion(now)) as i64),
            None => None::<i64>,
        }),
{
    crate::turn_profile::completed_profile_covers_turn(s.profile, now);
}

} // verus!
