//! Cooldown timers in nanoseconds, advanced by elapsed tick time.

use vstd::prelude::*;

verus! {

/// A one-shot countdown. It finishes on the first tick that brings the
/// elapsed time to its duration, and then stays finished until restarted.
#[derive(Clone, Copy, Debug, PartialEq, Eq, Structural)]
pub struct CastTimer {
    pub duration: u64,
    pub elapsed: u64,
    pub finished: bool,
}

/// A timer that was just (re)started with `duration`.
pub open spec fn fresh_timer(duration: u64) -> CastTimer {
    CastTimer { duration, elapsed: 0, finished: false }
}

/// The timer after `delta` nanoseconds.
pub open spec fn ticked(t: CastTimer, delta: u64) -> CastTimer {
    if t.finished {
        t
    } else if delta >= t.duration - t.elapsed {
        CastTimer { elapsed: t.duration, finished: true, ..t }
    } else {
        CastTimer { elapsed: (t.elapsed + delta) as u64, ..t }
    }
}

/// The timer after each of `deltas`, in order.
pub open spec fn ticked_all(t: CastTimer, deltas: Seq<u64>) -> CastTimer
    decreases deltas.len(),
{
    if deltas.len() == 0 {
        t
    } else {
        ticked_all(ticked(t, deltas[0]), deltas.drop_first())
    }
}

/// Total of a run of tick lengths.
pub open spec fn total_time(deltas: Seq<u64>) -> nat
    decreases deltas.len(),
{
    if deltas.len() == 0 {
        0
    } else {
        (deltas[0] + total_time(deltas.drop_first())) as nat
    }
}

proof fn lemma_finished_stays(t: CastTimer, deltas: Seq<u64>)
    requires
        t.finished,
    ensures
        ticked_all(t, deltas) == t,
    decreases deltas.len(),
{
    if deltas.len() > 0 {
        lemma_finished_stays(ticked(t, deltas[0]), deltas.drop_first());
    }
}

proof fn lemma_ticks_finish(t: CastTimer, deltas: Seq<u64>)
    requires
        t.wf(),
        !t.finished,
    ensures
        ticked_all(t, deltas).finished <==> deltas.len() > 0 && t.elapsed + total_time(deltas) >= t.duration,
    decreases deltas.len(),
{
    if deltas.len() > 0 {
        let t1 = ticked(t, deltas[0]);
        assert(total_time(deltas) == deltas[0] + total_time(deltas.drop_first()));
        assert(ticked_all(t, deltas) == ticked_all(t1, deltas.drop_first()));
        if t1.finished {
            lemma_finished_stays(t1, deltas.drop_first());
        } else {
            lemma_ticks_finish(t1, deltas.drop_first());
        }
    }
}

/// A timer started with `duration` finishes exactly when at least one tick
/// has happened and the ticks add up to the duration: no cooldown ends
/// early.
pub proof fn lemma_cooldown(duration: u64, deltas: Seq<u64>)
    ensures
        ticked_all(fresh_timer(duration), deltas).finished <==> deltas.len() > 0 && total_time(deltas)
            >= duration,
{
    lemma_ticks_finish(fresh_timer(duration), deltas);
}

impl CastTimer {
    pub open spec fn wf(&self) -> bool {
        &&& self.elapsed <= self.duration
        &&& self.finished ==> self.elapsed == self.duration
    }

    /// A timer of `duration` that has not run yet.
    pub fn new(duration: u64) -> (r: CastTimer)
        ensures
            r == fresh_timer(duration),
    {
        CastTimer { duration, elapsed: 0, finished: false }
    }

    pub fn finished(&self) -> (r: bool)
        ensures
            r == self.finished,
    {
        self.finished
    }

    /// Advances the timer by `delta` nanoseconds.
    pub fn tick(&mut self, delta: u64)
        requires
            old(self).wf(),
        ensures
            *final(self) == ticked(*old(self), delta),
            final(self).wf(),
    {
        if !self.finished {
            if delta >= self.duration - self.elapsed {
                self.elapsed = self.duration;
                self.finished = true;
            } else {
                self.elapsed = self.elapsed + delta;
            }
        }
    }

    /// Sets a new duration and starts over.
    pub fn restart(&mut self, duration: u64)
        ensures
            *final(self) == fresh_timer(duration),
    {
        self.duration = duration;
        self.elapsed = 0;
        self.finished = false;
    }
}

/// A timer that finishes every `duration` nanoseconds and reports, after
/// each tick, whether it finished during that tick.
#[derive(Clone, Copy, Debug, PartialEq, Eq, Structural)]
pub struct RepeatingTimer {
    pub duration: u64,
    pub elapsed: u64,
    pub just_finished: bool,
}

/// The repeating timer after `delta` nanoseconds: the elapsed time wraps
/// around the duration.
pub open spec fn repeated_tick(t: RepeatingTimer, delta: u64) -> RepeatingTimer {
    let total = t.elapsed + delta;
    if total >= t.duration {
        RepeatingTimer {
            elapsed: if t.duration == 0 { 0 } else { (total % (t.duration as int)) as u64 },
            just_finished: true,
            ..t
        }
    } else {
        RepeatingTimer { elapsed: total as u64, just_finished: false, ..t }
    }
}

impl RepeatingTimer {
    pub open spec fn wf(&self) -> bool {
        self.duration == 0 || self.elapsed < self.duration
    }

    pub fn new(duration: u64) -> (r: RepeatingTimer)
        ensures
            r == (RepeatingTimer { duration, elapsed: 0, just_finished: false }),
            r.wf(),
    {
        RepeatingTimer { duration, elapsed: 0, just_finished: false }
    }

    pub fn just_finished(&self) -> (r: bool)
        ensures
            r == self.just_finished,
    {
        self.just_finished
    }

    /// Advances the timer by `delta` nanoseconds.
    pub fn tick(&mut self, delta: u64)
        requires
            old(self).wf(),
        ensures
            *final(self) == repeated_tick(*old(self), delta),
            final(self).wf(),
    {
        let total: u128 = self.elapsed as u128 + delta as u128;
        if total >= self.duration as u128 {
            if self.duration == 0 {
                self.elapsed = 0;
            } else {
                let rem: u128 = total % (self.duration as u128);
                assert(rem < self.duration);
                self.elapsed = rem as u64;
            }
            self.just_finished = true;
        } else {
            self.elapsed = total as u64;
            self.just_finished = false;
        }
    }
}

} // verus!
