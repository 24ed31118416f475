use vstd::prelude::*;
use crate::timer::{Stopwatch, Timer, TimerMode, run, sat_add, total};

verus! {

/// A spawn source triggered by held input: a spawn is allowed once more
/// than `cooldown` has elapsed since the last one.
#[derive(Clone, Copy, Debug, PartialEq, Eq, Structural)]
pub struct CooldownTrigger {
    pub stopwatch: Stopwatch,
    pub cooldown: u64,
}

impl CooldownTrigger {
    /// Whether a tick of `dt` with the input `held` spawns.
    pub open spec fn spawns(self, dt: u64, held: bool) -> bool {
        held && sat_add(self.stopwatch.elapsed, dt) > self.cooldown
    }

    /// The trigger after a tick of `dt` with the input `held`.
    pub open spec fn after(self, dt: u64, held: bool) -> CooldownTrigger {
        if self.spawns(dt, held) {
            CooldownTrigger { stopwatch: Stopwatch { elapsed: 0 }, ..self }
        } else {
            CooldownTrigger { stopwatch: Stopwatch { elapsed: sat_add(self.stopwatch.elapsed, dt) }, ..self }
        }
    }

    /// A trigger that starts with a full cooldown behind it, so that it opens
    /// as soon as any time passes with the input held.
    pub fn new(cooldown: u64) -> (r: CooldownTrigger)
        ensures
            r.cooldown == cooldown,
            r.stopwatch.elapsed == cooldown,
    {
        let mut stopwatch = Stopwatch::new();
        stopwatch.set_elapsed(cooldown);
        CooldownTrigger { stopwatch, cooldown }
    }

    /// Advances the trigger by `dt`; returns whether a spawn happens now, in
    /// which case the elapsed time starts over.
    pub fn tick(&mut self, dt: u64, held: bool) -> (spawned: bool)
        ensures
            spawned == old(self).spawns(dt, held),
            *final(self) == old(self).after(dt, held),
    {
        self.stopwatch.tick(dt);
        if held && self.stopwatch.elapsed() > self.cooldown {
            self.stopwatch.reset();
            true
        } else {
            false
        }
    }
}

/// The trigger after ticks of `dts` with the input held throughout.
pub open spec fn trigger_run(g: CooldownTrigger, dts: Seq<u64>) -> CooldownTrigger
    decreases dts.len(),
{
    if dts.len() == 0 { g } else { trigger_run(g, dts.drop_last()).after(dts.last(), true) }
}

/// The number of spawns over ticks of `dts` with the input held throughout.
pub open spec fn trigger_spawns(g: CooldownTrigger, dts: Seq<u64>) -> nat
    decreases dts.len(),
{
    if dts.len() == 0 {
        0
    } else {
        let now: nat = if trigger_run(g, dts.drop_last()).spawns(dts.last(), true) { 1 } else { 0 };
        trigger_spawns(g, dts.drop_last()) + now
    }
}

/// Right after a spawn, held ticks that add up to no more than the cooldown
/// spawn nothing.
pub proof fn lemma_no_spawn_within_cooldown(g: CooldownTrigger, dts: Seq<u64>)
    requires
        g.stopwatch.elapsed == 0,
        total(dts) <= g.cooldown,
    ensures
        trigger_spawns(g, dts) == 0,
        trigger_run(g, dts).stopwatch.elapsed == total(dts),
        trigger_run(g, dts).cooldown == g.cooldown,
    decreases dts.len(),
{
    if dts.len() > 0 {
        assert(total(dts) == total(dts.drop_last()) + dts.last());
        lemma_no_spawn_within_cooldown(g, dts.drop_last());
    }
}

/// How a periodic source turns a tick of its timer into spawns: at most one
/// per tick, or one per period completed during the tick.
#[derive(Clone, Copy, Debug, PartialEq, Eq, Structural)]
pub enum SpawnPolicy {
    OncePerTick,
    CatchUp,
}

/// The number of spawns that a tick which left the timer as `t` gives.
pub open spec fn spawns_for(t: Timer, policy: SpawnPolicy) -> u64 {
    match policy {
        SpawnPolicy::OncePerTick => if t.finished { 1 } else { 0 },
        SpawnPolicy::CatchUp => t.times_finished_this_tick,
    }
}

/// A spawn source that fires on a repeating timer.
#[derive(Clone, Copy, Debug, PartialEq, Eq, Structural)]
pub struct PeriodicSource {
    pub timer: Timer,
    pub policy: SpawnPolicy,
}

impl PeriodicSource {
    pub fn new(period: u64, policy: SpawnPolicy) -> (r: PeriodicSource)
        ensures
            r.timer == Timer::fresh(period, TimerMode::Repeating),
            r.policy == policy,
    {
        PeriodicSource { timer: Timer::new(period, TimerMode::Repeating), policy }
    }

    /// Advances the source by `dt`; returns how many entities spawn now.
    pub fn advance(&mut self, dt: u64) -> (n: u64)
        ensures
            final(self).timer == old(self).timer.ticked(dt),
            final(self).policy == old(self).policy,
            n == spawns_for(final(self).timer, old(self).policy),
    {
        self.timer.tick(dt);
        match self.policy {
            SpawnPolicy::OncePerTick => if self.timer.finished() { 1 } else { 0 },
            SpawnPolicy::CatchUp => self.timer.times_finished_this_tick(),
        }
    }
}

/// The number of spawns of a source over ticks of `dts`.
pub open spec fn source_spawns(s: PeriodicSource, dts: Seq<u64>) -> nat
    decreases dts.len(),
{
    if dts.len() == 0 {
        0
    } else {
        (source_spawns(s, dts.drop_last()) + spawns_for(run(s.timer, dts), s.policy)) as nat
    }
}

/// A fresh periodic source ticked by whole periods spawns once per tick,
/// under either policy.
pub proof fn lemma_whole_periods_spawn_once_each(period: u64, policy: SpawnPolicy, dts: Seq<u64>)
    requires
        period > 0,
        forall|i: int| 0 <= i < dts.len() ==> dts[i] == period,
    ensures
        source_spawns(
            PeriodicSource { timer: Timer::fresh(period, TimerMode::Repeating), policy },
            dts,
        ) == dts.len(),
        run(Timer::fresh(period, TimerMode::Repeating), dts).elapsed == 0,
        run(Timer::fresh(period, TimerMode::Repeating), dts).mode == TimerMode::Repeating,
        run(Timer::fresh(period, TimerMode::Repeating), dts).duration == period,
    decreases dts.len(),
{
    if dts.len() > 0 {
        lemma_whole_periods_spawn_once_each(period, policy, dts.drop_last());
        assert(dts.last() == period);
        vstd::arithmetic::div_mod::lemma_fundamental_div_mod_converse(
            period as int,
            period as int,
            1,
            0,
        );
        let t = run(Timer::fresh(period, TimerMode::Repeating), dts);
        assert(t.elapsed == 0 && t.finished && t.times_finished_this_tick == 1);
    }
}

} // verus!
