//! Classification of a turn's wall-clock time into exclusive phases.
//!
//! Instants are monotonic clock readings in nanoseconds (`u64`), durations are
//! nanoseconds too; a profile reports whole milliseconds.

use vstd::prelude::*;

verus! {

/// Nanoseconds per millisecond.
pub const NANOS_PER_MILLI: u64 = 1_000_000;

/// Classified wall-clock time spent in each phase of a turn.
#[derive(Clone, Copy, Debug, Default, PartialEq, Eq)]
pub struct TurnProfile {
    pub before_first_sampling_ms: u64,
    pub sampling_ms: u64,
    pub compaction_ms: u64,
    pub between_sampling_overhead_ms: u64,
    pub tool_blocking_ms: u64,
    pub after_last_sampling_ms: u64,
    pub sampling_request_count: u32,
    pub sampling_retry_count: u32,
}

/// The exclusive phases a turn can be in.
#[derive(Clone, Copy, Debug, PartialEq, Eq)]
pub enum TurnProfilePhase {
    Sampling,
    Compaction,
    ToolBlocking,
}

/// Running state of a turn profile.
#[derive(Debug, Default)]
pub struct TurnProfileState {
    pub started_at: Option<u64>,
    pub last_transition_at: Option<u64>,
    pub active_phase: Option<TurnProfilePhase>,
    pub seen_sampling: bool,
    pub before_first_sampling: u64,
    pub sampling: u64,
    pub compaction: u64,
    pub between_sampling_overhead: u64,
    pub tool_blocking: u64,
    pub pending_idle_after_sampling: u64,
    pub sampling_request_count: u32,
    pub sampling_retry_count: u32,
    pub completed_profile: Option<TurnProfile>,
}

/// Time from `previous` to `now`, zero when `now` is earlier.
pub open spec fn elapsed_since(previous: u64, now: u64) -> u64 {
    if now >= previous {
        (now - previous) as u64
    } else {
        0
    }
}

/// Whole milliseconds in a nanosecond duration.
pub open spec fn whole_millis(nanos: u64) -> u64 {
    nanos / NANOS_PER_MILLI
}

/// Sum of the classified phase times of a profile.
pub open spec fn classified_ms(p: TurnProfile) -> int {
    p.before_first_sampling_ms + p.sampling_ms + p.compaction_ms
        + p.between_sampling_overhead_ms + p.tool_blocking_ms + p.after_last_sampling_ms
}

/// Converts a nanosecond duration to whole milliseconds.
pub fn duration_to_u64_ms(nanos: u64) -> (ms: u64)
    ensures
        ms == whole_millis(nanos),
{
    nanos / NANOS_PER_MILLI
}

impl TurnProfileState {
    /// The state of a profile that has started at `started_at` and seen nothing else.
    pub open spec fn started(started_at: u64) -> Self {
        TurnProfileState {
            started_at: Some(started_at),
            last_transition_at: Some(started_at),
            active_phase: None,
            seen_sampling: false,
            before_first_sampling: 0,
            sampling: 0,
            compaction: 0,
            between_sampling_overhead: 0,
            tool_blocking: 0,
            pending_idle_after_sampling: 0,
            sampling_request_count: 0,
            sampling_retry_count: 0,
            completed_profile: None,
        }
    }

    /// The state of a profile that has not started.
    pub open spec fn default_state() -> Self {
        TurnProfileState {
            started_at: None,
            last_transition_at: None,
            active_phase: None,
            seen_sampling: false,
            before_first_sampling: 0,
            sampling: 0,
            compaction: 0,
            between_sampling_overhead: 0,
            tool_blocking: 0,
            pending_idle_after_sampling: 0,
            sampling_request_count: 0,
            sampling_retry_count: 0,
            completed_profile: None,
        }
    }

    /// A new phase may begin: the profile is running, not completed, and idle.
    pub open spec fn can_begin(self) -> bool {
        self.completed_profile is None && self.started_at is Some && self.active_phase is None
    }

    /// The state after charging the time since the last transition to the
    /// current phase (or to idle time) and moving the transition mark to `now`;
    /// without a mark there is nothing to charge, and the mark is set to `now`.
    pub open spec fn advanced(self, now: u64) -> Self {
        match self.last_transition_at {
            None => TurnProfileState { last_transition_at: Some(now), ..self },
            Some(previous) => {
                let e = elapsed_since(previous, now);
                match self.active_phase {
                    Some(TurnProfilePhase::Sampling) => TurnProfileState {
                        last_transition_at: Some(now),
                        sampling: self.sampling.saturating_add(e),
                        ..self
                    },
                    Some(TurnProfilePhase::Compaction) => TurnProfileState {
                        last_transition_at: Some(now),
                        compaction: self.compaction.saturating_add(e),
                        ..self
                    },
                    Some(TurnProfilePhase::ToolBlocking) => TurnProfileState {
                        last_transition_at: Some(now),
                        tool_blocking: self.tool_blocking.saturating_add(e),
                        ..self
                    },
                    None => if self.seen_sampling {
                        TurnProfileState {
                            last_transition_at: Some(now),
                            pending_idle_after_sampling: self.pending_idle_after_sampling.saturating_add(e),
                            ..self
                        }
                    } else {
                        TurnProfileState {
                            last_transition_at: Some(now),
                            before_first_sampling: self.before_first_sampling.saturating_add(e),
                            ..self
                        }
                    },
                }
            },
        }
    }

    /// The state after a sampling request begins at `now` (when it may begin).
    pub open spec fn sampling_begun(self, now: u64) -> Self {
        let a = self.advanced(now);
        TurnProfileState {
            between_sampling_overhead: if a.seen_sampling {
                a.between_sampling_overhead.saturating_add(a.pending_idle_after_sampling)
            } else {
                a.between_sampling_overhead
            },
            pending_idle_after_sampling: if a.seen_sampling {
                0
            } else {
                a.pending_idle_after_sampling
            },
            seen_sampling: true,
            active_phase: Some(TurnProfilePhase::Sampling),
            sampling_request_count: a.sampling_request_count.saturating_add(1),
            ..a
        }
    }

    /// The state after an exclusive non-sampling phase begins at `now`.
    pub open spec fn phase_begun(self, now: u64, phase: TurnProfilePhase) -> Self {
        TurnProfileState { active_phase: Some(phase), ..self.advanced(now) }
    }

    /// The state after `phase` ends at `now`, when it is the active phase of a
    /// running profile; otherwise the state is unchanged.
    pub open spec fn phase_ended(self, now: u64, phase: TurnProfilePhase) -> Self {
        if self.completed_profile is Some || self.active_phase != Some(phase) {
            self
        } else {
            TurnProfileState { active_phase: None, ..self.advanced(now) }
        }
    }

    /// The idle time after the last sampling request that `complete` reports.
    pub open spec fn trailing_idle(a: Self) -> u64 {
        if a.seen_sampling {
            a.pending_idle_after_sampling
        } else {
            0
        }
    }

    /// Whole milliseconds from the start of the profile to `now`.
    pub open spec fn total_ms(self, now: u64) -> u64 {
        match self.started_at {
            Some(started_at) => whole_millis(elapsed_since(started_at, now)),
            None => 0,
        }
    }

    /// The profile before the rounding remainder is assigned, from the advanced state.
    pub open spec fn truncated_profile(a: Self) -> TurnProfile {
        TurnProfile {
            before_first_sampling_ms: whole_millis(a.before_first_sampling),
            sampling_ms: whole_millis(a.sampling),
            compaction_ms: whole_millis(a.compaction),
            between_sampling_overhead_ms: whole_millis(a.between_sampling_overhead),
            tool_blocking_ms: whole_millis(a.tool_blocking),
            after_last_sampling_ms: whole_millis(Self::trailing_idle(a)),
            sampling_request_count: a.sampling_request_count,
            sampling_retry_count: a.sampling_retry_count,
        }
    }

    /// The profile that completing at `now` reports: every phase total in whole
    /// milliseconds, with the milliseconds lost to truncation (the turn's total
    /// minus the classified sum, when positive) charged to the phase the turn
    /// ended in, or to the idle time before/after sampling.
    pub open spec fn completion(self, now: u64) -> TurnProfile {
        let p = Self::truncated_profile(self.advanced(now));
        let rounding: u64 = if self.total_ms(now) >= classified_ms(p) {
            (self.total_ms(now) - classified_ms(p)) as u64
        } else {
            0
        };
        match self.active_phase {
            Some(TurnProfilePhase::Sampling) => TurnProfile {
                sampling_ms: (p.sampling_ms + rounding) as u64,
                ..p
            },
            Some(TurnProfilePhase::Compaction) => TurnProfile {
                compaction_ms: (p.compaction_ms + rounding) as u64,
                ..p
            },
            Some(TurnProfilePhase::ToolBlocking) => TurnProfile {
                tool_blocking_ms: (p.tool_blocking_ms + rounding) as u64,
                ..p
            },
            None => if self.seen_sampling {
                TurnProfile { after_last_sampling_ms: (p.after_last_sampling_ms + rounding) as u64, ..p }
            } else {
                TurnProfile {
                    before_first_sampling_ms: (p.before_first_sampling_ms + rounding) as u64,
                    ..p
                }
            },
        }
    }

    /// The state after completing at `now`, for a profile not completed before.
    pub open spec fn completed_at(self, now: u64) -> Self {
        let a = self.advanced(now);
        TurnProfileState {
            pending_idle_after_sampling: if a.seen_sampling {
                0
            } else {
                a.pending_idle_after_sampling
            },
            active_phase: None,
            completed_profile: Some(self.completion(now)),
            ..a
        }
    }

    /// A profile that has not started.
    pub fn new() -> (s: Self)
        ensures
            s == Self::default_state(),
    {
        TurnProfileState {
            started_at: None,
            last_transition_at: None,
            active_phase: None,
            seen_sampling: false,
            before_first_sampling: 0,
            sampling: 0,
            compaction: 0,
            between_sampling_overhead: 0,
            tool_blocking: 0,
            pending_idle_after_sampling: 0,
            sampling_request_count: 0,
            sampling_retry_count: 0,
            completed_profile: None,
        }
    }

    /// Restarts the profile at `started_at`.
    pub fn start(&mut self, started_at: u64)
        ensures
            *final(self) == Self::started(started_at),
    {
        *self = TurnProfileState {
            started_at: Some(started_at),
            last_transition_at: Some(started_at),
            active_phase: None,
            seen_sampling: false,
            before_first_sampling: 0,
            sampling: 0,
            compaction: 0,
            between_sampling_overhead: 0,
            tool_blocking: 0,
            pending_idle_after_sampling: 0,
            sampling_request_count: 0,
            sampling_retry_count: 0,
            completed_profile: None,
        };
    }

    /// Charges the time since the last transition and moves the mark to `now`.
    pub fn advance(&mut self, now: u64)
        ensures
            *final(self) == old(self).advanced(now),
    {
        let previous = match self.last_transition_at {
            None => {
                self.last_transition_at = Some(now);
                return;
            },
            Some(previous) => previous,
        };
        self.last_transition_at = Some(now);
        let elapsed = now.saturating_sub(previous);
        match self.active_phase {
            Some(TurnProfilePhase::Sampling) => {
                self.sampling = self.sampling.saturating_add(elapsed);
            },
            Some(TurnProfilePhase::Compaction) => {
                self.compaction = self.compaction.saturating_add(elapsed);
            },
            Some(TurnProfilePhase::ToolBlocking) => {
                self.tool_blocking = self.tool_blocking.saturating_add(elapsed);
            },
            None => {
                if self.seen_sampling {
                    self.pending_idle_after_sampling =
                        self.pending_idle_after_sampling.saturating_add(elapsed);
                } else {
                    self.before_first_sampling = self.before_first_sampling.saturating_add(elapsed);
                }
            },
        }
    }
    /// Begins a sampling request at `now`. Returns whether the phase began: it
    /// does only for a running, uncompleted profile with no active phase. Idle
    /// time since the previous sampling request counts as overhead between
    /// sampling requests.
    pub fn begin_sampling(&mut self, now: u64) -> (began: bool)
        ensures
            began == old(self).can_begin(),
            began ==> *final(self) == old(self).sampling_begun(now),
            !began ==> *final(self) == *old(self),
    {
        if self.completed_profile.is_some() || self.started_at.is_none()
            || self.active_phase.is_some() {
            return false;
        }
        self.advance(now);
        if self.seen_sampling {
            self.between_sampling_overhead =
                self.between_sampling_overhead.saturating_add(self.pending_idle_after_sampling);
            self.pending_idle_after_sampling = 0;
        }
        self.seen_sampling = true;
        self.active_phase = Some(TurnProfilePhase::Sampling);
        self.sampling_request_count = self.sampling_request_count.saturating_add(1);
        true
    }

    /// Counts a sampling retry while the profile is running and not completed.
    pub fn record_sampling_retry(&mut self)
        ensures
            (old(self).completed_profile is None && old(self).started_at is Some) ==> *final(self)
                == (TurnProfileState {
                sampling_retry_count: old(self).sampling_retry_count.saturating_add(1),
                ..*old(self)
            }),
            !(old(self).completed_profile is None && old(self).started_at is Some) ==> *final(self)
                == *old(self),
    {
        if self.completed_profile.is_none() && self.started_at.is_some() {
            self.sampling_retry_count = self.sampling_retry_count.saturating_add(1);
        }
    }

    /// Begins a blocking tool call at `now`; returns whether the phase began.
    pub fn begin_tool_blocking(&mut self, now: u64) -> (began: bool)
        ensures
            began == old(self).can_begin(),
            began ==> *final(self) == old(self).phase_begun(now, TurnProfilePhase::ToolBlocking),
            !began ==> *final(self) == *old(self),
    {
        if self.completed_profile.is_some() || self.started_at.is_none()
            || self.active_phase.is_some() {
            return false;
        }
        self.advance(now);
        self.active_phase = Some(TurnProfilePhase::ToolBlocking);
        true
    }

    /// Begins a compaction at `now`; returns whether the phase began.
    pub fn begin_compaction(&mut self, now: u64) -> (began: bool)
        ensures
            began == old(self).can_begin(),
            began ==> *final(self) == old(self).phase_begun(now, TurnProfilePhase::Compaction),
            !began ==> *final(self) == *old(self),
    {
        if self.completed_profile.is_some() || self.started_at.is_none()
            || self.active_phase.is_some() {
            return false;
        }
        self.advance(now);
        self.active_phase = Some(TurnProfilePhase::Compaction);
        true
    }

    /// Ends `phase` at `now` when it is the active phase of an uncompleted profile.
    pub fn end_phase(&mut self, now: u64, phase: TurnProfilePhase)
        ensures
            *final(self) == old(self).phase_ended(now, phase),
    {
        if self.completed_profile.is_some() {
            return;
        }
        match (self.active_phase, phase) {
            (Some(TurnProfilePhase::Sampling), TurnProfilePhase::Sampling)
            | (Some(TurnProfilePhase::Compaction), TurnProfilePhase::Compaction)
            | (Some(TurnProfilePhase::ToolBlocking), TurnProfilePhase::ToolBlocking) => {},
            _ => {
                return;
            },
        }
        self.advance(now);
        self.active_phase = None;
    }

    /// Completes the profile at `now` and returns it. Once completed, the same
    /// profile is returned again and the state no longer changes.
    pub fn complete(&mut self, now: u64) -> (profile: TurnProfile)
        ensures
            old(self).completed_profile matches Some(p) ==> profile == p && *final(self)
                == *old(self),
            old(self).completed_profile is None ==> profile == old(self).completion(now)
                && *final(self) == old(self).completed_at(now),
    {
        if let Some(profile) = self.completed_profile {
            return profile;
        }
        let final_phase = self.active_phase;
        let ghost before = *self;
        self.advance(now);
        let after_last_sampling = if self.seen_sampling {
            let pending = self.pending_idle_after_sampling;
            self.pending_idle_after_sampling = 0;
            pending
        } else {
            0
        };
        let mut profile = TurnProfile {
            before_first_sampling_ms: duration_to_u64_ms(self.before_first_sampling),
            sampling_ms: duration_to_u64_ms(self.sampling),
            compaction_ms: duration_to_u64_ms(self.compaction),
            between_sampling_overhead_ms: duration_to_u64_ms(self.between_sampling_overhead),
            tool_blocking_ms: duration_to_u64_ms(self.tool_blocking),
            after_last_sampling_ms: duration_to_u64_ms(after_last_sampling),
            sampling_request_count: self.sampling_request_count,
            sampling_retry_count: self.sampling_retry_count,
        };
        let total_ms = match self.started_at {
            Some(started_at) => duration_to_u64_ms(now.saturating_sub(started_at)),
            None => 0,
        };
        let classified = profile.before_first_sampling_ms.saturating_add(profile.sampling_ms).saturating_add(
            profile.compaction_ms,
        ).saturating_add(profile.between_sampling_overhead_ms).saturating_add(
            profile.tool_blocking_ms,
        ).saturating_add(profile.after_last_sampling_ms);
        let rounding_ms = total_ms.saturating_sub(classified);
        match final_phase {
            Some(TurnProfilePhase::Sampling) => {
                profile.sampling_ms = profile.sampling_ms + rounding_ms;
            },
            Some(TurnProfilePhase::Compaction) => {
                profile.compaction_ms = profile.compaction_ms + rounding_ms;
            },
            Some(TurnProfilePhase::ToolBlocking) => {
                profile.tool_blocking_ms = profile.tool_blocking_ms + rounding_ms;
            },
            None => {
                if self.seen_sampling {
                    profile.after_last_sampling_ms = profile.after_last_sampling_ms + rounding_ms;
                } else {
                    profile.before_first_sampling_ms = profile.before_first_sampling_ms
                        + rounding_ms;
                }
            },
        }
        self.active_phase = None;
        self.completed_profile = Some(profile);
        profile
    }
}

impl TurnProfileState {
    /// Nanoseconds charged so far to the phases and to pending idle time.
    pub open spec fn accounted_nanos(self) -> int {
        self.before_first_sampling + self.sampling + self.compaction
            + self.between_sampling_overhead + self.tool_blocking + self.pending_idle_after_sampling
    }

    /// Every nanosecond from the start to the last transition is charged exactly
    /// once, and no idle time is pending before the first sampling request.
    pub open spec fn consistent(self) -> bool {
        &&& !self.seen_sampling ==> self.pending_idle_after_sampling == 0
        &&& match self.started_at {
            None => self.last_transition_at is None && self.accounted_nanos() == 0,
            Some(started_at) => self.last_transition_at matches Some(last) && started_at <= last
                && self.accounted_nanos() == last - started_at,
        }
    }

    /// `now` is not earlier than the last transition.
    pub open spec fn not_before_last_transition(self, now: u64) -> bool {
        self.last_transition_at matches Some(last) ==> last <= now
    }
}

proof fn lemma_advanced_consistent(s: TurnProfileState, now: u64)
    requires
        s.consistent(),
        s.not_before_last_transition(now),
    ensures
        s.started_at is Some ==> s.advanced(now).consistent(),
        s.started_at is None ==> s.advanced(now).accounted_nanos() == 0 && s.advanced(
            now,
        ).pending_idle_after_sampling == s.pending_idle_after_sampling,
        s.advanced(now).started_at == s.started_at,
        s.advanced(now).seen_sampling == s.seen_sampling,
        s.started_at matches Some(t) ==> s.advanced(now).last_transition_at == Some(now)
            && s.advanced(now).accounted_nanos() == now - t,
{
}

proof fn lemma_div_sum(a: u64, b: u64)
    requires
        a + b <= u64::MAX,
    ensures
        whole_millis(a) + whole_millis(b) <= whole_millis((a + b) as u64),
{
    let m = NANOS_PER_MILLI as int;
    let qa = a as int / m;
    let qb = b as int / m;
    assert(qa * m <= a && qb * m <= b) by (nonlinear_arith)
        requires
            qa == a as int / m,
            qb == b as int / m,
            m > 0,
            a >= 0,
            b >= 0,
    ;
    assert((qa + qb) * m <= a + b) by (nonlinear_arith)
        requires
            qa * m <= a,
            qb * m <= b,
    ;
    assert(qa + qb <= (a + b) / m) by (nonlinear_arith)
        requires
            (qa + qb) * m <= a + b,
            m > 0,
            a + b >= 0,
    ;
}

/// A freshly started profile is consistent.
pub proof fn started_profile_is_consistent(started_at: u64)
    ensures
        TurnProfileState::started(started_at).consistent(),
{
}

/// As long as time does not run backwards, every operation on a running,
/// uncompleted profile keeps each nanosecond charged exactly once.
pub proof fn profile_operations_keep_consistency(
    s: TurnProfileState,
    now: u64,
    phase: TurnProfilePhase,
)
    requires
        s.consistent(),
        s.started_at is Some,
        s.completed_profile is None,
        s.not_before_last_transition(now),
    ensures
        s.advanced(now).consistent(),
        s.can_begin() ==> s.sampling_begun(now).consistent(),
        s.can_begin() ==> s.phase_begun(now, phase).consistent(),
        s.phase_ended(now, phase).consistent(),
        (TurnProfileState {
            sampling_retry_count: s.sampling_retry_count.saturating_add(1),
            ..s
        }).consistent(),
{
    lemma_advanced_consistent(s, now);
}

/// Completing a consistent profile at a time not before its last transition
/// classifies the whole turn: the phase milliseconds add up to the turn's
/// total milliseconds.
pub proof fn completed_profile_covers_turn(s: TurnProfileState, now: u64)
    requires
        s.consistent(),
        s.completed_profile is None,
        s.not_before_last_transition(now),
    ensures
        classified_ms(s.completion(now)) == s.total_ms(now),
{
    lemma_advanced_consistent(s, now);
    let a = s.advanced(now);
    let idle = TurnProfileState::trailing_idle(a);
    let p = TurnProfileState::truncated_profile(a);
    let x1 = a.before_first_sampling;
    let x2 = a.sampling;
    let x3 = a.compaction;
    let x4 = a.between_sampling_overhead;
    let x5 = a.tool_blocking;
    assert(x1 + x2 + x3 + x4 + x5 + idle == a.accounted_nanos());
    let total_nanos: int = match s.started_at {
        Some(t) => now - t,
        None => 0,
    };
    assert(x1 + x2 + x3 + x4 + x5 + idle == total_nanos);
    lemma_div_sum(x1, x2);
    let s12 = (x1 + x2) as u64;
    lemma_div_sum(s12, x3);
    let s123 = (s12 + x3) as u64;
    lemma_div_sum(s123, x4);
    let s1234 = (s123 + x4) as u64;
    lemma_div_sum(s1234, x5);
    let s12345 = (s1234 + x5) as u64;
    lemma_div_sum(s12345, idle);
    assert(classified_ms(p) <= s.total_ms(now));
}

} // verus!
