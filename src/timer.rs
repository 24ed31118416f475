use vstd::prelude::*;

verus! {

/// Adds two durations, stopping at the largest one that can be held.
pub open spec fn sat_add(a: u64, b: u64) -> u64 {
    if a + b > u64::MAX { u64::MAX } else { (a + b) as u64 }
}

/// Whether a timer stops once it has run out or starts over.
#[derive(Clone, Copy, Debug, PartialEq, Eq, Structural)]
pub enum TimerMode {
    Once,
    Repeating,
}

/// An accumulator of elapsed time, with no threshold.
#[derive(Clone, Copy, Debug, PartialEq, Eq, Structural)]
pub struct Stopwatch {
    pub elapsed: u64,
}

impl Stopwatch {
    pub fn new() -> (r: Stopwatch)
        ensures
            r.elapsed == 0,
    {
        Stopwatch { elapsed: 0 }
    }

    pub fn tick(&mut self, dt: u64)
        ensures
            final(self).elapsed == sat_add(old(self).elapsed, dt),
    {
        self.elapsed = self.elapsed.saturating_add(dt);
    }

    pub fn reset(&mut self)
        ensures
            final(self).elapsed == 0,
    {
        self.elapsed = 0;
    }

    pub fn set_elapsed(&mut self, e: u64)
        ensures
            final(self).elapsed == e,
    {
        self.elapsed = e;
    }

    pub fn elapsed(&self) -> (r: u64)
        ensures
            r == self.elapsed,
    {
        self.elapsed
    }
}

/// A countdown to `duration`, which either stops when it runs out or wraps
/// the excess time into the next period.
#[derive(Clone, Copy, Debug, PartialEq, Eq, Structural)]
pub struct Timer {
    pub duration: u64,
    pub elapsed: u64,
    pub mode: TimerMode,
    pub finished: bool,
    pub times_finished_this_tick: u64,
}

impl Timer {
    /// A timer that has not run yet.
    pub open spec fn fresh(duration: u64, mode: TimerMode) -> Timer {
        Timer { duration, elapsed: 0, mode, finished: false, times_finished_this_tick: 0 }
    }

    /// The timer after one tick of `dt`.
    ///
    /// A finished one-shot timer stays finished and counts no new finish.
    /// Otherwise the elapsed time grows by `dt`; on reaching `duration` a
    /// one-shot timer stops there, and a repeating one keeps the remainder
    /// after whole periods and counts the periods that were completed.
    pub open spec fn ticked(self, dt: u64) -> Timer {
        if self.mode == TimerMode::Once && self.finished {
            Timer { times_finished_this_tick: 0, ..self }
        } else {
            let e = sat_add(self.elapsed, dt);
            if e >= self.duration {
                if self.mode == TimerMode::Once {
                    Timer { elapsed: self.duration, finished: true, times_finished_this_tick: 1, ..self }
                } else if self.duration == 0 {
                    Timer { elapsed: 0, finished: true, times_finished_this_tick: u64::MAX, ..self }
                } else {
                    Timer {
                        elapsed: (e % self.duration) as u64,
                        finished: true,
                        times_finished_this_tick: (e / self.duration) as u64,
                        ..self
                    }
                }
            } else {
                Timer { elapsed: e, finished: false, times_finished_this_tick: 0, ..self }
            }
        }
    }

    pub fn new(duration: u64, mode: TimerMode) -> (r: Timer)
        ensures
            r == Timer::fresh(duration, mode),
    {
        Timer { duration, elapsed: 0, mode, finished: false, times_finished_this_tick: 0 }
    }

    pub fn tick(&mut self, dt: u64)
        ensures
            *final(self) == old(self).ticked(dt),
    {
        if self.mode == TimerMode::Once && self.finished {
            self.times_finished_this_tick = 0;
            return;
        }
        let e = self.elapsed.saturating_add(dt);
        if e >= self.duration {
            self.finished = true;
            if self.mode == TimerMode::Once {
                self.elapsed = self.duration;
                self.times_finished_this_tick = 1;
            } else if self.duration == 0 {
                self.elapsed = 0;
                self.times_finished_this_tick = u64::MAX;
            } else {
                self.elapsed = e % self.duration;
                self.times_finished_this_tick = e / self.duration;
            }
        } else {
            self.elapsed = e;
            self.finished = false;
            self.times_finished_this_tick = 0;
        }
    }

    /// Starts the timer over.
    pub fn reset(&mut self)
        ensures
            *final(self) == Timer::fresh(old(self).duration, old(self).mode),
    {
        self.elapsed = 0;
        self.finished = false;
        self.times_finished_this_tick = 0;
    }

    pub fn finished(&self) -> (r: bool)
        ensures
            r == self.finished,
    {
        self.finished
    }

    pub fn times_finished_this_tick(&self) -> (r: u64)
        ensures
            r == self.times_finished_this_tick,
    {
        self.times_finished_this_tick
    }

    pub fn elapsed(&self) -> (r: u64)
        ensures
            r == self.elapsed,
    {
        self.elapsed
    }
}

/// The sum of a sequence of tick lengths.
pub open spec fn total(dts: Seq<u64>) -> nat
    decreases dts.len(),
{
    if dts.len() == 0 { 0 } else { (total(dts.drop_last()) + dts.last()) as nat }
}

/// The timer after the ticks of `dts`, in order.
pub open spec fn run(t: Timer, dts: Seq<u64>) -> Timer
    decreases dts.len(),
{
    if dts.len() == 0 { t } else { run(t, dts.drop_last()).ticked(dts.last()) }
}

/// A one-shot timer that starts fresh reports finished after a run of ticks
/// exactly when the ticks add up to at least its duration. (A timer of zero
/// duration that has not been ticked at all has not finished.)
pub proof fn lemma_once_finished_iff_reached(duration: u64, dts: Seq<u64>)
    requires
        duration > 0 || dts.len() > 0,
    ensures
        run(Timer::fresh(duration, TimerMode::Once), dts).finished <==> total(dts) >= duration,
{
    lemma_once_state(duration, dts);
}

proof fn lemma_once_state(duration: u64, dts: Seq<u64>)
    ensures
        ({
            let t = run(Timer::fresh(duration, TimerMode::Once), dts);
            &&& t.mode == TimerMode::Once
            &&& t.duration == duration
            &&& (t.finished ==> total(dts) >= duration)
            &&& (!t.finished ==> t.elapsed == total(dts))
            &&& (!t.finished && dts.len() > 0 ==> total(dts) < duration)
        }),
    decreases dts.len(),
{
    if dts.len() > 0 {
        lemma_once_state(duration, dts.drop_last());
    }
}

/// One tick of a repeating timer whose elapsed time is the remainder of `a`
/// after whole periods: afterwards the elapsed time is the remainder of
/// `a + dt`, and the periods counted are those that `a + dt` completes
/// beyond `a`.
proof fn lemma_repeating_step(t: Timer, a: int, dt: u64)
    requires
        t.mode == TimerMode::Repeating,
        t.duration > 0,
        a >= 0,
        t.elapsed == a % (t.duration as int),
        a + dt <= u64::MAX,
    ensures
        t.ticked(dt).elapsed == (a + dt) % (t.duration as int),
        t.ticked(dt).times_finished_this_tick == (a + dt) / (t.duration as int) - a / (
        t.duration as int),
        t.ticked(dt).finished <==> (a + dt) / (t.duration as int) > a / (t.duration as int),
{
    let d = t.duration as int;
    let q = a as int / d;
    let r = a as int % d;
    vstd::arithmetic::div_mod::lemma_fundamental_div_mod(a as int, d);
    assert(0 <= r < d);
    assert(t.elapsed + dt <= a + dt);
    let e = t.elapsed + dt;
    let q2 = e / d;
    let r2 = e % d;
    vstd::arithmetic::div_mod::lemma_fundamental_div_mod(e, d);
    assert(0 <= r2 < d);
    assert(e == q2 * d + r2);
    assert(a + dt == (q + q2) * d + r2) by (nonlinear_arith)
        requires
            a == q * d + r,
            e == r + dt,
            e == q2 * d + r2,
    ;
    vstd::arithmetic::div_mod::lemma_fundamental_div_mod_converse(a + dt, d, q + q2, r2);
    if e < d {
        vstd::arithmetic::div_mod::lemma_fundamental_div_mod_converse(e, d, 0, e);
    }
}

/// A repeating timer with a positive period that starts fresh keeps, after
/// a run of ticks, the remainder of their total after whole periods, and has
/// counted on the last tick the period boundaries that it crossed.
pub proof fn lemma_repeating_wraps(duration: u64, dts: Seq<u64>)
    requires
        duration > 0,
        dts.len() > 0,
        total(dts) <= u64::MAX,
    ensures
        ({
            let before = total(dts.drop_last()) as int;
            let after = total(dts) as int;
            let t = run(Timer::fresh(duration, TimerMode::Repeating), dts);
            &&& t.elapsed == after % (duration as int)
            &&& t.times_finished_this_tick == after / (duration as int) - before / (duration as int)
            &&& (t.finished <==> after / (duration as int) > before / (duration as int))
        }),
{
    lemma_repeating_remainder(duration, dts.drop_last());
    let t = run(Timer::fresh(duration, TimerMode::Repeating), dts.drop_last());
    lemma_repeating_step(t, total(dts.drop_last()) as int, dts.last());
}

proof fn lemma_repeating_remainder(duration: u64, dts: Seq<u64>)
    requires
        duration > 0,
        total(dts) <= u64::MAX,
    ensures
        ({
            let t = run(Timer::fresh(duration, TimerMode::Repeating), dts);
            &&& t.mode == TimerMode::Repeating
            &&& t.duration == duration
            &&& t.elapsed == total(dts) as int % (duration as int)
        }),
    decreases dts.len(),
{
    if dts.len() == 0 {
        vstd::arithmetic::div_mod::lemma_fundamental_div_mod_converse(0, duration as int, 0, 0);
    } else {
        lemma_repeating_remainder(duration, dts.drop_last());
        let t = run(Timer::fresh(duration, TimerMode::Repeating), dts.drop_last());
        lemma_repeating_step(t, total(dts.drop_last()) as int, dts.last());
    }
}

} // verus!
