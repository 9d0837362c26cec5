use vstd::prelude::*;

verus! {

pub const NANOS_PER_SEC: u64 = 1_000_000_000;

/// std's `Instant`, carried through as an opaque value.
#[verifier::external_type_specification]
#[verifier::external_body]
pub struct ExInstant(std::time::Instant);

/// Relies on `Instant::now`: a reading of the monotonic clock. Nothing is
/// promised of its value.
pub assume_specification[ std::time::Instant::now ]() -> std::time::Instant;

/// Relies on `Instant::elapsed`: the time since the instant. It depends on the
/// clock, so nothing is promised of its value.
pub assume_specification[ std::time::Instant::elapsed ](this: &std::time::Instant) -> std::time::Duration;

/// Relies on `Duration::as_nanos`: the whole nanoseconds of the duration.
pub assume_specification[ std::time::Duration::as_nanos ](this: &std::time::Duration) -> u128;

/// A monotonic clock read as nanoseconds since the clock was made.
pub struct Clock {
    origin: std::time::Instant,
}

impl Clock {
    pub fn new() -> Clock {
        Clock { origin: std::time::Instant::now() }
    }

    /// Nanoseconds since the clock was made, saturated at `u64::MAX`.
    pub fn now_nanos(&self) -> u64 {
        let d = self.origin.elapsed();
        let n: u128 = d.as_nanos();
        if n > u64::MAX as u128 {
            u64::MAX
        } else {
            n as u64
        }
    }
}

/// Adds two counts of nanoseconds, saturating at `u64::MAX`.
pub open spec fn sat_add(a: u64, b: u64) -> u64 {
    if a + b > u64::MAX {
        u64::MAX
    } else {
        (a + b) as u64
    }
}

/// The time between a start reading and a later reading; a reading that lies
/// before the start counts as no time at all.
pub open spec fn span(start: u64, now: u64) -> u64 {
    if now >= start {
        (now - start) as u64
    } else {
        0
    }
}

/// What a timer holds: the accumulated nanoseconds, and the clock reading at
/// which the running interval began (none while paused).
pub struct TimerView {
    pub times: u64,
    pub running_since: Option<u64>,
}

impl TimerView {
    pub open spec fn is_paused(self) -> bool {
        self.running_since is None
    }

    /// The accumulated time, with the running interval folded in, at clock
    /// reading `now`.
    pub open spec fn elapsed_at(self, now: u64) -> u64 {
        match self.running_since {
            Some(s) => sat_add(self.times, span(s, now)),
            None => self.times,
        }
    }

    pub open spec fn started(self, now: u64) -> TimerView {
        TimerView { times: self.times, running_since: Some(now) }
    }

    pub open spec fn paused_at(self, now: u64) -> TimerView {
        TimerView { times: self.elapsed_at(now), running_since: None }
    }

    pub open spec fn resumed(self, now: u64) -> TimerView {
        match self.running_since {
            Some(_) => self,
            None => TimerView { times: self.times, running_since: Some(now) },
        }
    }

    pub open spec fn updated(self, now: u64) -> TimerView {
        match self.running_since {
            Some(_) => TimerView { times: self.elapsed_at(now), running_since: Some(now) },
            None => self,
        }
    }

    pub open spec fn cleared() -> TimerView {
        TimerView { times: 0, running_since: None }
    }

    pub open spec fn added(self, nanos: u64, now: u64) -> TimerView {
        let u = self.updated(now);
        TimerView { times: sat_add(u.times, nanos), running_since: u.running_since }
    }

    pub open spec fn subtracted(self, nanos: u64, now: u64) -> TimerView {
        let u = self.updated(now);
        TimerView {
            times: if u.times >= nanos {
                (u.times - nanos) as u64
            } else {
                0
            },
            running_since: u.running_since,
        }
    }

    /// Whole seconds accumulated at clock reading `now`.
    pub open spec fn secs_at(self, now: u64) -> u64 {
        self.elapsed_at(now) / NANOS_PER_SEC
    }
}

/// A pausable accumulator of elapsed playback time.
pub struct Timer {
    times: u64,
    current: Option<u64>,
    clock: Clock,
}

impl View for Timer {
    type V = TimerView;

    closed spec fn view(&self) -> TimerView {
        TimerView { times: self.times, running_since: self.current }
    }
}

fn add_saturating(a: u64, b: u64) -> (r: u64)
    ensures
        r == sat_add(a, b),
{
    if a > u64::MAX - b {
        u64::MAX
    } else {
        a + b
    }
}

fn span_of(start: u64, now: u64) -> (r: u64)
    ensures
        r == span(start, now),
{
    if now >= start {
        now - start
    } else {
        0
    }
}

impl Timer {
    /// A paused timer at zero.
    pub fn new() -> (t: Timer)
        ensures
            t@ == TimerView::cleared(),
    {
        Timer { times: 0, current: None, clock: Clock::new() }
    }

    pub fn is_paused(&self) -> (r: bool)
        ensures
            r == self@.is_paused(),
    {
        self.current.is_none()
    }

    /// The accumulated time at `now` with the running interval folded in,
    /// leaving the timer as it is.
    pub fn elapsed_at(&self, now: u64) -> (r: u64)
        ensures
            r == self@.elapsed_at(now),
    {
        match self.current {
            Some(inst) => add_saturating(self.times, span_of(inst, now)),
            None => self.times,
        }
    }

    /// Starts a running interval at clock reading `now`; any interval that
    /// was running is dropped, the accumulated time is kept.
    pub fn start_at(&mut self, now: u64)
        ensures
            final(self)@ == old(self)@.started(now),
    {
        self.current = Some(now);
    }

    /// Folds the running interval into the accumulated time and freezes it.
    pub fn pause_at(&mut self, now: u64)
        ensures
            final(self)@ == old(self)@.paused_at(now),
    {
        if let Some(inst) = self.current {
            self.times = add_saturating(self.times, span_of(inst, now));
            self.current = None;
        }
    }

    /// Starts a running interval at `now` if the timer is paused.
    pub fn resume_at(&mut self, now: u64)
        ensures
            final(self)@ == old(self)@.resumed(now),
    {
        if self.current.is_none() {
            self.current = Some(now);
        }
    }

    /// Back to zero, paused.
    pub fn reset(&mut self)
        ensures
            final(self)@ == TimerView::cleared(),
    {
        self.times = 0;
        self.current = None;
    }

    /// Folds the running interval up to `now` into the accumulated time.
    pub fn update_at(&mut self, now: u64)
        ensures
            final(self)@ == old(self)@.updated(now),
    {
        if let Some(inst) = self.current {
            self.times = add_saturating(self.times, span_of(inst, now));
            self.current = Some(now);
        }
    }

    /// Whole seconds accumulated at `now`, after folding the running interval.
    pub fn as_secs_at(&mut self, now: u64) -> (r: u64)
        ensures
            final(self)@ == old(self)@.updated(now),
            r == old(self)@.secs_at(now),
    {
        self.update_at(now);
        self.times / NANOS_PER_SEC
    }

    /// Adds `nanos` to the accumulated time (saturating).
    pub fn add_at(&mut self, nanos: u64, now: u64)
        ensures
            final(self)@ == old(self)@.added(nanos, now),
    {
        self.update_at(now);
        self.times = add_saturating(self.times, nanos);
    }

    /// Takes `nanos` off the accumulated time; below zero it stops at zero.
    pub fn sub_at(&mut self, nanos: u64, now: u64)
        ensures
            final(self)@ == old(self)@.subtracted(nanos, now),
    {
        self.update_at(now);
        if self.times >= nanos {
            self.times = self.times - nanos;
        } else {
            self.times = 0;
        }
    }

    /// Starts a running interval now.
    pub fn start(&mut self)
        ensures
            exists|now: u64| final(self)@ == old(self)@.started(now),
    {
        let now: u64 = self.clock.now_nanos();
        self.start_at(now);
    }

    /// Folds the running interval in and freezes the timer.
    pub fn pause(&mut self)
        ensures
            exists|now: u64| final(self)@ == old(self)@.paused_at(now),
    {
        let now: u64 = self.clock.now_nanos();
        self.pause_at(now);
    }

    /// Continues accumulating from now, if paused.
    pub fn resume(&mut self)
        ensures
            exists|now: u64| final(self)@ == old(self)@.resumed(now),
    {
        let now: u64 = self.clock.now_nanos();
        self.resume_at(now);
    }

    /// Folds the running interval up to now into the accumulated time.
    pub fn update(&mut self)
        ensures
            exists|now: u64| final(self)@ == old(self)@.updated(now),
    {
        let now: u64 = self.clock.now_nanos();
        self.update_at(now);
    }

    /// Whole seconds of playback so far.
    pub fn as_secs(&mut self) -> (r: u64)
        ensures
            exists|now: u64|
                final(self)@ == old(self)@.updated(now) && r == old(self)@.secs_at(now),
    {
        let now: u64 = self.clock.now_nanos();
        self.as_secs_at(now)
    }

    /// Adds `nanos` to the accumulated time (saturating).
    pub fn add(&mut self, nanos: u64)
        ensures
            exists|now: u64| final(self)@ == old(self)@.added(nanos, now),
    {
        let now: u64 = self.clock.now_nanos();
        self.add_at(nanos, now);
    }

    /// Takes `nanos` off the accumulated time, stopping at zero.
    pub fn sub(&mut self, nanos: u64)
        ensures
            exists|now: u64| final(self)@ == old(self)@.subtracted(nanos, now),
    {
        let now: u64 = self.clock.now_nanos();
        self.sub_at(nanos, now);
    }
}

impl Default for Timer {
    /// A paused timer at zero.
    fn default() -> (t: Timer)
        ensures
            t@ == TimerView::cleared(),
    {
        Timer::new()
    }
}

/// Starting at reading `s`, pausing at a later reading `p`, and then reading
/// the seconds at any reading `q` gives the time accumulated before the pause;
/// a second read at any reading `q2` gives the same value.
pub proof fn lemma_pause_freezes(t: TimerView, s: u64, p: u64, q: u64, q2: u64)
    requires
        s <= p,
        t.times + (p - s) <= u64::MAX,
    ensures
        t.started(s).paused_at(p).secs_at(q) == (t.times + (p - s)) as u64 / NANOS_PER_SEC,
        t.started(s).paused_at(p).updated(q).secs_at(q2) == t.started(s).paused_at(p).secs_at(q),
{
}

/// While a timer runs, its reading never goes down as the clock advances.
pub proof fn lemma_running_monotonic(t: TimerView, q1: u64, q2: u64)
    requires
        q1 <= q2,
    ensures
        t.elapsed_at(q1) <= t.updated(q1).elapsed_at(q2),
        t.secs_at(q1) <= t.updated(q1).secs_at(q2),
{
    let a: u64 = t.elapsed_at(q1);
    let b: u64 = t.updated(q1).elapsed_at(q2);
    assert(a <= b);
    assert(a / NANOS_PER_SEC <= b / NANOS_PER_SEC) by (nonlinear_arith)
        requires
            a <= b,
            NANOS_PER_SEC > 0,
    ;
}

} // verus!
