use bevy::time::{Timer, TimerMode};
use std::time::Duration;
use vstd::prelude::*;

verus! {

/// What one tick of `delta` nanoseconds does to a non-repeating timer with the given
/// duration, elapsed time and finished flag: the new elapsed time, finished flag and
/// "just finished" flag.
///
/// A timer that has already finished stays as it is and does not report a new finish.
/// Otherwise the elapsed time grows by `delta`; when it reaches the duration the timer
/// finishes, clamps its elapsed time at the duration and reports that it just finished.
pub open spec fn once_tick(duration: nat, elapsed: nat, finished: bool, delta: nat) -> (nat, bool, bool) {
    if finished {
        (elapsed, true, false)
    } else if elapsed + delta >= duration {
        (duration, true, true)
    } else {
        ((elapsed + delta) as nat, false, false)
    }
}

/// The state after ticking by each of `deltas` in turn.
pub open spec fn once_ticks(duration: nat, elapsed: nat, finished: bool, deltas: Seq<nat>) -> (nat, bool, bool)
    decreases deltas.len(),
{
    if deltas.len() == 0 {
        (elapsed, finished, false)
    } else {
        let (e, f, _) = once_tick(duration, elapsed, finished, deltas[0]);
        let rest = once_ticks(duration, e, f, deltas.drop_first());
        if deltas.len() == 1 {
            once_tick(duration, elapsed, finished, deltas[0])
        } else {
            rest
        }
    }
}

/// The sum of a sequence of time steps.
pub open spec fn total(deltas: Seq<nat>) -> nat
    decreases deltas.len(),
{
    if deltas.len() == 0 {
        0
    } else {
        deltas[0] + total(deltas.drop_first())
    }
}

/// A finished timer stays finished, keeps its elapsed time and reports no new finish.
pub proof fn law_finished_timer_stays_finished(duration: nat, elapsed: nat, delta: nat)
    ensures
        once_tick(duration, elapsed, true, delta) == (elapsed, true, false),
{
}

/// Ticking keeps a timer in a reachable state: its elapsed time does not pass its
/// duration, it sits at its duration once finished, and it only reports a finish in
/// the last tick when it is finished. Its elapsed time never goes back.
pub proof fn law_tick_keeps_timer_consistent(duration: nat, elapsed: nat, finished: bool, delta: nat)
    requires
        elapsed <= duration,
        finished ==> elapsed == duration,
    ensures
        ({
            let (e, f, j) = once_tick(duration, elapsed, finished, delta);
            &&& elapsed <= e <= duration
            &&& f ==> e == duration
            &&& j ==> f
            &&& j ==> !finished
        }),
{
}

/// A timer that has not finished finishes exactly when the time fed to it, over any
/// number of ticks, adds up to what it still lacks; until then its elapsed time is the
/// sum of what it was fed. At least one tick is needed for a timer to finish.
pub proof fn law_timer_finishes_when_time_adds_up(duration: nat, elapsed: nat, deltas: Seq<nat>)
    requires
        elapsed <= duration,
        deltas.len() > 0 || elapsed < duration,
    ensures
        once_ticks(duration, elapsed, false, deltas).1 <==> elapsed + total(deltas) >= duration,
        !once_ticks(duration, elapsed, false, deltas).1 ==> once_ticks(duration, elapsed, false, deltas).0
            == elapsed + total(deltas),
        once_ticks(duration, elapsed, false, deltas).1 ==> once_ticks(duration, elapsed, false, deltas).0
            == duration,
    decreases deltas.len(),
{
    if deltas.len() > 0 {
        assert(total(deltas) == deltas[0] + total(deltas.drop_first()));
    }
    if deltas.len() == 1 {
        assert(total(deltas.drop_first()) == 0);
    }
    if deltas.len() > 1 {
        let (e, f, _) = once_tick(duration, elapsed, false, deltas[0]);
        let rest = deltas.drop_first();
        if f {
            lemma_finished_ticks(duration, rest);
        } else {
            law_timer_finishes_when_time_adds_up(duration, e, rest);
        }
    }
}

proof fn lemma_finished_ticks(duration: nat, deltas: Seq<nat>)
    ensures
        once_ticks(duration, duration, true, deltas).0 == duration,
        once_ticks(duration, duration, true, deltas).1,
    decreases deltas.len(),
{
    if deltas.len() > 0 {
        lemma_finished_ticks(duration, deltas.drop_first());
    }
}

/// Ticks a fresh `bevy::time::Timer` in `TimerMode::Once` with the given duration whose
/// elapsed time was set to `elapsed_ns`, and reads back its elapsed time, `is_finished`
/// and `just_finished`.
///
/// Claimed of bevy's `Timer::tick` (bevy_time 0.17, timer.rs): an unpaused, unfinished
/// once-timer adds `delta` to its stopwatch (saturating), becomes finished when the
/// elapsed time is at least the duration, and then sets its elapsed time to the duration
/// and counts one finish in this tick; otherwise it counts none.
#[verifier::external_body]
fn bevy_tick_unfinished_once(duration_ns: u64, elapsed_ns: u64, delta_ns: u64) -> (r: (u64, bool, bool))
    ensures
        elapsed_ns + delta_ns >= duration_ns ==> r == (duration_ns, true, true),
        elapsed_ns + delta_ns < duration_ns ==> r.0 == elapsed_ns + delta_ns && !r.1 && !r.2,
{
    let mut timer = Timer::new(Duration::from_nanos(duration_ns), TimerMode::Once);
    timer.set_elapsed(Duration::from_nanos(elapsed_ns));
    timer.tick(Duration::from_nanos(delta_ns));
    (timer.elapsed().as_nanos() as u64, timer.is_finished(), timer.just_finished())
}

/// A non-repeating countdown timer, measured in nanoseconds.
///
/// It keeps what a `bevy::time::Timer` in `TimerMode::Once` holds: a duration, the time
/// elapsed so far, whether it has finished, and whether it finished during the last tick.
pub struct OnceTimer {
    duration_ns: u64,
    elapsed_ns: u64,
    finished: bool,
    just_finished: bool,
}

impl OnceTimer {
    pub closed spec fn duration(&self) -> nat {
        self.duration_ns as nat
    }

    pub closed spec fn elapsed(&self) -> nat {
        self.elapsed_ns as nat
    }

    pub closed spec fn finished(&self) -> bool {
        self.finished
    }

    pub closed spec fn finished_last_tick(&self) -> bool {
        self.just_finished
    }

    /// `self` is what ticking `before` by `delta` nanoseconds gives.
    pub open spec fn is_tick_of(&self, before: OnceTimer, delta: nat) -> bool {
        &&& self.duration() == before.duration()
        &&& (self.elapsed(), self.finished(), self.finished_last_tick())
            == once_tick(before.duration(), before.elapsed(), before.finished(), delta)
    }

    /// `self` is what resetting `before` gives.
    pub open spec fn is_reset_of(&self, before: OnceTimer) -> bool {
        &&& self.duration() == before.duration()
        &&& self.elapsed() == 0
        &&& !self.finished()
        &&& !self.finished_last_tick()
    }

    /// A timer of the given duration that has not started.
    pub fn new(duration_ns: u64) -> (t: OnceTimer)
        ensures
            t.duration() == duration_ns,
            t.elapsed() == 0,
            !t.finished(),
            !t.finished_last_tick(),
    {
        OnceTimer { duration_ns, elapsed_ns: 0, finished: false, just_finished: false }
    }

    /// A timer whose elapsed time already equals its duration but that has not been
    /// ticked yet: it reports itself finished after its next tick, whatever its length.
    pub fn new_elapsed(duration_ns: u64) -> (t: OnceTimer)
        ensures
            t.duration() == duration_ns,
            t.elapsed() == duration_ns,
            !t.finished(),
            !t.finished_last_tick(),
    {
        let mut t = OnceTimer::new(duration_ns);
        t.set_elapsed(duration_ns);
        t
    }

    /// A timer that has already run its full length and finished: ticking it changes
    /// nothing and reports no new finish.
    pub fn new_finished(duration_ns: u64) -> (t: OnceTimer)
        ensures
            t.duration() == duration_ns,
            t.elapsed() == duration_ns,
            t.finished(),
            !t.finished_last_tick(),
    {
        OnceTimer { duration_ns, elapsed_ns: duration_ns, finished: true, just_finished: false }
    }

    pub fn duration_ns(&self) -> (r: u64)
        ensures
            r == self.duration(),
    {
        self.duration_ns
    }

    pub fn elapsed_ns(&self) -> (r: u64)
        ensures
            r == self.elapsed(),
    {
        self.elapsed_ns
    }

    pub fn is_finished(&self) -> (r: bool)
        ensures
            r == self.finished(),
    {
        self.finished
    }

    pub fn just_finished(&self) -> (r: bool)
        ensures
            r == self.finished_last_tick(),
    {
        self.just_finished
    }

    /// Sets the elapsed time and leaves the finished flags alone.
    pub fn set_elapsed(&mut self, elapsed_ns: u64)
        ensures
            final(self).elapsed() == elapsed_ns,
            final(self).duration() == old(self).duration(),
            final(self).finished() == old(self).finished(),
            final(self).finished_last_tick() == old(self).finished_last_tick(),
    {
        self.elapsed_ns = elapsed_ns;
    }

    /// Back to the start: no time elapsed, not finished.
    pub fn reset(&mut self)
        ensures
            final(self).is_reset_of(*old(self)),
    {
        self.elapsed_ns = 0;
        self.finished = false;
        self.just_finished = false;
    }

    /// Advances the timer by `delta_ns` nanoseconds.
    pub fn tick(&mut self, delta_ns: u64)
        ensures
            final(self).is_tick_of(*old(self), delta_ns as nat),
    {
        if self.finished {
            self.just_finished = false;
        } else {
            let (elapsed_ns, finished, just_finished) = bevy_tick_unfinished_once(
                self.duration_ns,
                self.elapsed_ns,
                delta_ns,
            );
            self.elapsed_ns = elapsed_ns;
            self.finished = finished;
            self.just_finished = just_finished;
        }
    }
}

} // verus!
