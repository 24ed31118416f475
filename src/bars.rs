use vstd::prelude::*;

verus! {

/// Hit points of an entity.
#[derive(Clone, Copy, Debug, PartialEq, Eq, Structural)]
pub struct Health {
    pub current: u32,
    pub max: u32,
}

impl Health {
    pub open spec fn wf(self) -> bool {
        self.current <= self.max
    }

    /// Health at its maximum.
    pub fn full(max: u32) -> (r: Health)
        ensures
            r == (Health { current: max, max }),
            r.wf(),
    {
        Health { current: max, max }
    }

    /// Sets the current health, clamped to the maximum.
    pub fn set_current(&mut self, value: u32)
        ensures
            final(self).max == old(self).max,
            final(self).current == if value <= old(self).max { value } else { old(self).max },
            final(self).wf(),
    {
        self.current = if value <= self.max { value } else { self.max };
    }
}

/// Health of a freshly spawned player.
pub fn player_health() -> (r: Health)
    ensures
        r == (Health { current: 100, max: 100 }),
{
    Health::full(100)
}

/// Health of a freshly spawned tower.
pub fn tower_health() -> (r: Health)
    ensures
        r == (Health { current: 240, max: 240 }),
{
    Health::full(240)
}

/// Health of a freshly spawned eye monster.
pub fn eye_monster_health() -> (r: Health)
    ensures
        r == (Health { current: 100, max: 100 }),
{
    Health::full(100)
}

/// The two bars drawn above an entity: a background as wide as the
/// maximum health and a foreground as wide as the current health, one unit
/// of width per hit point.
#[derive(Clone, Copy, Debug, PartialEq, Eq, Structural)]
pub struct BarPair {
    pub background_width: u32,
    pub foreground_width: u32,
}

/// An entity with health, and the bars attached to it once they exist.
#[derive(Clone, Copy, Debug, PartialEq, Eq, Structural)]
pub struct BarOwner {
    pub health: Health,
    pub bars: Option<BarPair>,
}

impl BarOwner {
    /// An owner whose bars have not been made yet.
    pub fn new(health: Health) -> (r: BarOwner)
        ensures
            r == (BarOwner { health, bars: None }),
    {
        BarOwner { health, bars: None }
    }

    /// The owner after one sync: bars are made if there are none, and the
    /// foreground takes the current health as its width.
    pub open spec fn synced(self) -> BarOwner {
        match self.bars {
            None => BarOwner {
                bars: Some(
                    BarPair {
                        background_width: self.health.max,
                        foreground_width: self.health.current,
                    },
                ),
                ..self
            },
            Some(p) => BarOwner {
                bars: Some(BarPair { foreground_width: self.health.current, ..p }),
                ..self
            },
        }
    }

    /// Brings the bars up to date with the health; returns whether the bars
    /// were made by this call.
    pub fn sync(&mut self) -> (created: bool)
        ensures
            created == old(self).bars.is_none(),
            *final(self) == old(self).synced(),
    {
        match self.bars {
            None => {
                self.bars = Some(
                    BarPair {
                        background_width: self.health.max,
                        foreground_width: self.health.current,
                    },
                );
                true
            },
            Some(p) => {
                self.bars = Some(BarPair { foreground_width: self.health.current, ..p });
                false
            },
        }
    }

    /// Sets the current health (clamped to the maximum) without touching
    /// the bars.
    pub fn set_health(&mut self, value: u32)
        ensures
            final(self).bars == old(self).bars,
            final(self).health.max == old(self).health.max,
            final(self).health.current == if value <= old(self).health.max {
                value
            } else {
                old(self).health.max
            },
    {
        self.health.set_current(value);
    }
}

/// The owner after each health value of `values` in turn was set and a
/// sync followed.
pub open spec fn sync_run(o: BarOwner, values: Seq<u32>) -> BarOwner
    decreases values.len(),
{
    if values.len() == 0 {
        o
    } else {
        let prev = sync_run(o, values.drop_last());
        let v = values.last();
        let h = Health {
            current: if v <= prev.health.max { v } else { prev.health.max },
            ..prev.health
        };
        BarOwner { health: h, ..prev }.synced()
    }
}

/// The number of syncs in such a run that made bars.
pub open spec fn creations(o: BarOwner, values: Seq<u32>) -> nat
    decreases values.len(),
{
    if values.len() == 0 {
        0
    } else {
        let now: nat = if sync_run(o, values.drop_last()).bars.is_none() { 1 } else { 0 };
        creations(o, values.drop_last()) + now
    }
}

/// A second sync right after a first changes nothing and makes no bars.
pub proof fn lemma_sync_idempotent(o: BarOwner)
    ensures
        o.synced().synced() == o.synced(),
        o.synced().bars.is_some(),
{
}

/// Over any run of health updates, each followed by a sync, an owner that
/// starts without bars gets them exactly once; afterwards the foreground
/// width is the current health and the background keeps the maximum.
pub proof fn lemma_bars_made_once(health: Health, values: Seq<u32>)
    requires
        values.len() > 0,
    ensures
        creations(BarOwner { health, bars: None }, values) == 1,
        sync_run(BarOwner { health, bars: None }, values).bars == Some(
            BarPair {
                background_width: health.max,
                foreground_width: sync_run(BarOwner { health, bars: None }, values).health.current,
            },
        ),
    decreases values.len(),
{
    let o = BarOwner { health, bars: None };
    if values.len() > 1 {
        lemma_bars_made_once(health, values.drop_last());
    } else {
        assert(creations(o, values.drop_last()) == 0);
        assert(sync_run(o, values.drop_last()) == o);
    }
    lemma_run_keeps_max(BarOwner { health, bars: None }, values);
}

proof fn lemma_run_keeps_max(o: BarOwner, values: Seq<u32>)
    ensures
        sync_run(o, values).health.max == o.health.max,
    decreases values.len(),
{
    if values.len() > 0 {
        lemma_run_keeps_max(o, values.drop_last());
    }
}

} // verus!
