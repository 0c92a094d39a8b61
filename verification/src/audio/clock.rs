//! The playback clock: how long the current track has been playing, with
//! every paused interval left out.
//!
//! The clock never reads the time itself. Each operation takes the current
//! instant as a count of nanoseconds on a monotonic scale that the caller
//! chooses, so the whole behaviour is a function of its inputs.

use vstd::prelude::*;

verus! {

/// Nanoseconds in one second.
pub const NANOS_PER_SEC: u64 = 1_000_000_000;

/// `a - b`, or zero where `b` lies after `a`.
pub open spec fn span_between(a: u64, b: u64) -> u64 {
    if a >= b {
        (a - b) as u64
    } else {
        0
    }
}

/// `a + b`, held at the largest value where the sum does not fit.
pub open spec fn span_sum(a: u64, b: u64) -> u64 {
    if a + b <= u64::MAX {
        (a + b) as u64
    } else {
        u64::MAX
    }
}

/// Start instant, pause checkpoint and accumulated paused time of one track's
/// playback.
#[derive(Clone, Copy, Debug)]
pub struct PlaybackClock {
    /// The instant at which the current track began, if one has begun.
    pub started_at: Option<u64>,
    /// The instant of the pause in progress, if playback is paused.
    pub paused_at: Option<u64>,
    /// The total length of the pauses that have ended.
    pub paused_total: u64,
}

impl PlaybackClock {
    /// The clock before any track has begun.
    pub open spec fn fresh() -> PlaybackClock {
        PlaybackClock { started_at: None, paused_at: None, paused_total: 0 }
    }

    /// The clock of a track that begins at `now`.
    pub open spec fn started(now: u64) -> PlaybackClock {
        PlaybackClock { started_at: Some(now), paused_at: None, paused_total: 0 }
    }

    /// The clock after a request to pause at `now`.
    pub open spec fn paused(self, now: u64) -> PlaybackClock {
        if self.paused_at.is_none() {
            PlaybackClock { paused_at: Some(now), ..self }
        } else {
            self
        }
    }

    /// The clock after a request to resume at `now`.
    pub open spec fn resumed(self, now: u64) -> PlaybackClock {
        match self.paused_at {
            Some(checkpoint) => PlaybackClock {
                started_at: self.started_at,
                paused_at: None,
                paused_total: span_sum(self.paused_total, span_between(now, checkpoint)),
            },
            None => self,
        }
    }

    /// The play time that the clock shows at `now`, in nanoseconds.
    pub open spec fn elapsed_at(self, now: u64) -> u64 {
        match self.started_at {
            Some(origin) => {
                let until = match self.paused_at {
                    Some(checkpoint) => checkpoint,
                    None => now,
                };
                span_between(span_between(until, origin), self.paused_total)
            },
            None => 0,
        }
    }

    /// Once a track has begun, the clock's instants lie in order, none lies
    /// after `now`, and the pauses that have ended fit into the time since the
    /// start. Before that nothing is asked: the next start resets every field.
    pub open spec fn consistent_at(self, now: u64) -> bool {
        match self.started_at {
            Some(origin) => match self.paused_at {
                Some(checkpoint) => origin <= checkpoint <= now && self.paused_total <= checkpoint
                    - origin,
                None => origin <= now && self.paused_total <= now - origin,
            },
            None => true,
        }
    }

    /// A clock on which no track has begun.
    pub fn new() -> (clock: PlaybackClock)
        ensures
            clock == PlaybackClock::fresh(),
    {
        PlaybackClock { started_at: None, paused_at: None, paused_total: 0 }
    }

    /// Makes `now` the origin, and forgets every pause.
    pub fn start(&mut self, now: u64)
        ensures
            *final(self) == PlaybackClock::started(now),
    {
        self.started_at = Some(now);
        self.paused_at = None;
        self.paused_total = 0;
    }

    /// Records `now` as the pause checkpoint, unless a pause is in progress.
    pub fn pause(&mut self, now: u64)
        ensures
            *final(self) == old(self).paused(now),
    {
        if self.paused_at.is_none() {
            self.paused_at = Some(now);
        }
    }

    /// Ends the pause in progress, if there is one, and adds its length to the
    /// accumulated paused time.
    pub fn resume(&mut self, now: u64)
        ensures
            *final(self) == old(self).resumed(now),
    {
        match self.paused_at {
            Some(checkpoint) => {
                let pause_length: u64 = now.saturating_sub(checkpoint);
                self.paused_total = self.paused_total.saturating_add(pause_length);
                self.paused_at = None;
            },
            None => {},
        }
    }

    /// The play time at `now` in nanoseconds: zero before the first start, and
    /// never counting time spent paused.
    pub fn elapsed(&self, now: u64) -> (played: u64)
        ensures
            played == self.elapsed_at(now),
    {
        match self.started_at {
            Some(origin) => {
                let until: u64 = match self.paused_at {
                    Some(checkpoint) => checkpoint,
                    None => now,
                };
                until.saturating_sub(origin).saturating_sub(self.paused_total)
            },
            None => 0,
        }
    }

    /// Whether a pause is in progress.
    pub fn is_paused(&self) -> (paused: bool)
        ensures
            paused == self.paused_at.is_some(),
    {
        self.paused_at.is_some()
    }

    /// Whether a track has begun.
    pub fn is_started(&self) -> (begun: bool)
        ensures
            begun == self.started_at.is_some(),
    {
        self.started_at.is_some()
    }

    /// Starting, pausing and resuming at instants that do not go backwards keep
    /// the clock consistent, and a consistent clock stays so as time passes.
    pub proof fn lemma_consistency_is_kept(self, earlier: u64, now: u64)
        requires
            self.consistent_at(earlier),
            earlier <= now,
        ensures
            PlaybackClock::fresh().consistent_at(now),
            PlaybackClock::started(now).consistent_at(now),
            self.consistent_at(now),
            self.paused(now).consistent_at(now),
            self.resumed(now).consistent_at(now),
    {
    }

    /// The play time that a clock shows never decreases as time passes.
    pub proof fn lemma_elapsed_never_decreases(self, earlier: u64, later: u64)
        requires
            earlier <= later,
        ensures
            self.elapsed_at(earlier) <= self.elapsed_at(later),
    {
    }

    /// While playback runs, the play time grows by exactly the time that passes.
    pub proof fn lemma_running_clock_follows_time(self, earlier: u64, later: u64)
        requires
            self.consistent_at(earlier),
            self.started_at.is_some(),
            self.paused_at.is_none(),
            earlier <= later,
        ensures
            self.elapsed_at(later) == self.elapsed_at(earlier) + (later - earlier),
    {
    }

    /// A pause freezes the play time at its value at the checkpoint, however
    /// long the pause lasts.
    pub proof fn lemma_pause_freezes_elapsed(self, checkpoint: u64, later: u64)
        requires
            self.paused_at.is_none(),
        ensures
            self.paused(checkpoint).elapsed_at(later) == self.elapsed_at(checkpoint),
    {
    }

    /// Resuming takes up the play time where the pause froze it: the paused
    /// interval is left out once, and the time after the resume counts in full.
    pub proof fn lemma_resume_excludes_pause(self, resumed_at: u64, later: u64)
        requires
            self.consistent_at(resumed_at),
            self.started_at.is_some(),
            self.paused_at.is_some(),
            resumed_at <= later,
        ensures
            self.resumed(resumed_at).elapsed_at(later) == self.elapsed_at(resumed_at) + (later
                - resumed_at),
    {
    }

    /// One pause between a start and a reading: the play time is the time since
    /// the start less the length of the pause.
    pub proof fn lemma_one_pause_is_excluded(origin: u64, pause_at: u64, resume_at: u64, now: u64)
        requires
            origin <= pause_at <= resume_at <= now,
        ensures
            PlaybackClock::started(origin).paused(pause_at).resumed(resume_at).elapsed_at(now) == (
            now - origin) - (resume_at - pause_at),
    {
    }
}

} // verus!
