//! Spell casters and the per-tick cast driver.
//!
//! A sequential caster fires its behaviours one at a time in declaration
//! order, waiting for a per-spell cooldown between them and for a per-cycle
//! cooldown once its queue is empty. An instant caster fires its whole list
//! once.

use std::sync::Arc;
use vstd::prelude::*;

use crate::casting::{cast_spec, spawn_views, CastModel, SpawnModel, SpellCastContext, SpellCastValues, SpellSpawn};
use crate::effect::{tree_of, trees_of, SpellEffect};
use crate::spell::SpellTree;
use crate::timer::{fresh_timer, lemma_cooldown, ticked_all, total_time, CastTimer};

verus! {

broadcast use vstd::seq_lib::group_seq_properties;

/// Default cooldown between two spells of a sequential caster: 0.1 s.
pub const BASE_SPELL_DELAY: u64 = 100_000_000;

/// Default cooldown after a sequential caster's queue runs out: 0.5 s.
pub const BASE_CASTER_DELAY: u64 = 500_000_000;

/// A copy of a list of shared behaviours.
pub fn share_all(spells: &Vec<Arc<SpellEffect>>) -> (r: Vec<Arc<SpellEffect>>)
    ensures
        r@ == spells@,
{
    let mut out: Vec<Arc<SpellEffect>> = Vec::new();
    let mut i: usize = 0;
    while i < spells.len()
        invariant
            i <= spells.len(),
            out@ == spells@.subrange(0, i as int),
        decreases spells.len() - i,
    {
        out.push(spells[i].clone());
        i = i + 1;
    }
    assert(out@ =~= spells@);
    out
}

pub struct SequentialCaster {
    /// Behaviours still to fire, the next one last.
    pub spell_queue: Vec<Arc<SpellEffect>>,
    pub cast_values: SpellCastValues,
    pub base_spell_delay: u64,
    pub spell_delay: CastTimer,
    pub base_caster_delay: u64,
    pub caster_delay: CastTimer,
}

/// Whether both cooldowns of a sequential caster have run out.
pub open spec fn seq_ready(c: &SequentialCaster) -> bool {
    c.spell_delay.finished && c.caster_delay.finished
}

/// What the next call of `get_next_cast` hands out.
pub open spec fn seq_fired(c: &SequentialCaster) -> Seq<Arc<SpellEffect>> {
    if seq_ready(c) && c.spell_queue@.len() > 0 {
        seq![c.spell_queue@.last()]
    } else {
        seq![]
    }
}

/// The state `get_next_cast` leaves behind.
pub open spec fn seq_after_next(old: &SequentialCaster, new: &SequentialCaster) -> bool {
    &&& new.cast_values == old.cast_values
    &&& new.base_spell_delay == old.base_spell_delay
    &&& new.base_caster_delay == old.base_caster_delay
    &&& new.spell_delay == old.spell_delay
    &&& if !seq_ready(old) {
        new.spell_queue@ == old.spell_queue@ && new.caster_delay == old.caster_delay
    } else {
        &&& new.spell_queue@ == if old.spell_queue@.len() > 0 {
            old.spell_queue@.drop_last()
        } else {
            old.spell_queue@
        }
        &&& new.caster_delay == if new.spell_queue@.len() == 0 {
            fresh_timer(old.base_caster_delay)
        } else {
            old.caster_delay
        }
    }
}

impl SequentialCaster {
    pub open spec fn wf(&self) -> bool {
        self.spell_delay.wf() && self.caster_delay.wf()
    }

    /// A caster that fires `spells` in order, with the default cooldowns,
    /// ready at the first tick.
    pub fn new(cast_values: SpellCastValues, spells: &Vec<Arc<SpellEffect>>) -> (r: SequentialCaster)
        ensures
            r.spell_queue@ == spells@.reverse(),
            r.cast_values == cast_values,
            r.base_spell_delay == BASE_SPELL_DELAY,
            r.base_caster_delay == BASE_CASTER_DELAY,
            r.spell_delay == fresh_timer(0),
            r.caster_delay == fresh_timer(0),
            r.wf(),
    {
        let mut spell_queue: Vec<Arc<SpellEffect>> = Vec::new();
        let mut i: usize = spells.len();
        while i > 0
            invariant
                i <= spells.len(),
                spell_queue@ == spells@.subrange(i as int, spells.len() as int).reverse(),
            decreases i,
        {
            i = i - 1;
            spell_queue.push(spells[i].clone());
            assert(spells@.subrange(i as int, spells.len() as int).reverse() =~= spells@.subrange(
                (i + 1) as int,
                spells.len() as int,
            ).reverse().push(spells@[i as int]));
        }
        assert(spells@.subrange(0, spells.len() as int) =~= spells@);
        SequentialCaster {
            spell_queue,
            cast_values,
            base_spell_delay: BASE_SPELL_DELAY,
            spell_delay: CastTimer::new(0),
            base_caster_delay: BASE_CASTER_DELAY,
            caster_delay: CastTimer::new(0),
        }
    }

    /// Hands out the next behaviour if both cooldowns have run out; arms the
    /// cycle cooldown when that empties the queue.
    pub fn get_next_cast(&mut self) -> (r: Vec<Arc<SpellEffect>>)
        requires
            old(self).wf(),
        ensures
            r@ == seq_fired(old(self)),
            seq_after_next(old(self), final(self)),
            final(self).wf(),
    {
        if !self.spell_delay.finished() || !self.caster_delay.finished() {
            return Vec::new();
        }
        let spell = self.spell_queue.pop();
        if self.spell_queue.len() == 0 {
            self.caster_delay.restart(self.base_caster_delay);
        }
        match spell {
            Some(spell) => {
                let mut r: Vec<Arc<SpellEffect>> = Vec::new();
                r.push(spell);
                r
            },
            None => Vec::new(),
        }
    }

    /// Starts the per-spell cooldown with `delay` nanoseconds.
    pub fn add_spell_delay(&mut self, delay: u64)
        ensures
            final(self).spell_delay == fresh_timer(delay),
            final(self).spell_queue@ == old(self).spell_queue@,
            final(self).cast_values == old(self).cast_values,
            final(self).base_spell_delay == old(self).base_spell_delay,
            final(self).base_caster_delay == old(self).base_caster_delay,
            final(self).caster_delay == old(self).caster_delay,
    {
        self.spell_delay.restart(delay);
    }

    /// Advances both cooldowns.
    pub fn tick(&mut self, delta: u64)
        requires
            old(self).wf(),
        ensures
            final(self).wf(),
            final(self).spell_delay == crate::timer::ticked(old(self).spell_delay, delta),
            final(self).caster_delay == crate::timer::ticked(old(self).caster_delay, delta),
            final(self).spell_queue@ == old(self).spell_queue@,
            final(self).cast_values == old(self).cast_values,
            final(self).base_spell_delay == old(self).base_spell_delay,
            final(self).base_caster_delay == old(self).base_caster_delay,
    {
        self.spell_delay.tick(delta);
        self.caster_delay.tick(delta);
    }
}

pub struct InstantCaster {
    pub spell_list: Vec<Arc<SpellEffect>>,
    pub cast_values: SpellCastValues,
}

/// One firing of an instant caster: everything it holds goes out, nothing
/// stays.
pub open spec fn instant_fire(list: Seq<Arc<SpellEffect>>) -> (Seq<Arc<SpellEffect>>, Seq<Arc<SpellEffect>>) {
    (list, seq![])
}

/// An instant caster fires its whole list the first time and nothing the
/// second time.
pub proof fn lemma_instant_fires_once(list: Seq<Arc<SpellEffect>>)
    ensures
        instant_fire(list).0 == list,
        instant_fire(instant_fire(list).1).0 == Seq::<Arc<SpellEffect>>::empty(),
{
}

/// Pacing of a sequential caster: if its per-spell cooldown was started
/// with `d` (the delay committed after its last cast) or its cycle cooldown
/// was started with `d` (when its queue ran out), and the ticks since add up
/// to less than `d`, it hands out nothing.
pub proof fn lemma_sequential_cadence(c: &SequentialCaster, d: u64, deltas: Seq<u64>)
    requires
        c.spell_delay == ticked_all(fresh_timer(d), deltas) || c.caster_delay == ticked_all(fresh_timer(d), deltas),
        total_time(deltas) < d,
    ensures
        seq_fired(c) == Seq::<Arc<SpellEffect>>::empty(),
{
    lemma_cooldown(d, deltas);
}

impl InstantCaster {
    pub fn new(cast_values: SpellCastValues, spells: &Vec<Arc<SpellEffect>>) -> (r: InstantCaster)
        ensures
            r.spell_list@ == spells@,
            r.cast_values == cast_values,
    {
        InstantCaster { spell_list: share_all(spells), cast_values }
    }

    /// Takes the whole list out, leaving the caster empty for good.
    pub fn get_next_cast(&mut self) -> (r: Vec<Arc<SpellEffect>>)
        ensures
            (r@, final(self).spell_list@) == instant_fire(old(self).spell_list@),
            final(self).cast_values == old(self).cast_values,
    {
        let mut taken: Vec<Arc<SpellEffect>> = Vec::new();
        std::mem::swap(&mut taken, &mut self.spell_list);
        taken
    }
}

pub enum SpellCaster {
    Sequential(SequentialCaster),
    Instant(InstantCaster),
}

/// Whether the caster has nothing left to do and may be destroyed.
pub open spec fn exhausted(c: &SpellCaster) -> bool {
    match c {
        SpellCaster::Sequential(s) => s.spell_queue@.len() == 0 && s.caster_delay.finished
            && s.spell_delay.finished,
        SpellCaster::Instant(i) => i.spell_list@.len() == 0,
    }
}

/// What the next call of `get_next_casts` hands out.
pub open spec fn fired(c: &SpellCaster) -> Seq<Arc<SpellEffect>> {
    match c {
        SpellCaster::Sequential(s) => seq_fired(s),
        SpellCaster::Instant(i) => i.spell_list@,
    }
}

/// The values a caster casts with.
pub open spec fn values_of(c: &SpellCaster) -> &SpellCastValues {
    match c {
        SpellCaster::Sequential(s) => &s.cast_values,
        SpellCaster::Instant(i) => &i.cast_values,
    }
}

/// The state `get_next_casts` leaves behind.
pub open spec fn after_next(old: &SpellCaster, new: &SpellCaster) -> bool {
    match (old, new) {
        (SpellCaster::Sequential(o), SpellCaster::Sequential(n)) => seq_after_next(o, n),
        (SpellCaster::Instant(o), SpellCaster::Instant(n)) => n.spell_list@.len() == 0
            && n.cast_values == o.cast_values,
        _ => false,
    }
}

/// The per-spell delay the driver commits after a cast.
pub open spec fn base_delay(c: &SpellCaster) -> u64 {
    match c {
        SpellCaster::Sequential(s) => s.base_spell_delay,
        SpellCaster::Instant(_) => 0,
    }
}

/// The caster after the driver commits `delay`.
pub open spec fn delay_added(old: &SpellCaster, new: &SpellCaster, delay: u64) -> bool {
    match (old, new) {
        (SpellCaster::Sequential(o), SpellCaster::Sequential(n)) => {
            &&& n.spell_delay == fresh_timer(delay)
            &&& n.spell_queue@ == o.spell_queue@
            &&& n.cast_values == o.cast_values
            &&& n.base_spell_delay == o.base_spell_delay
            &&& n.base_caster_delay == o.base_caster_delay
            &&& n.caster_delay == o.caster_delay
        },
        (SpellCaster::Instant(o), SpellCaster::Instant(n)) => n.spell_list@ == o.spell_list@
            && n.cast_values == o.cast_values,
        _ => false,
    }
}

impl SpellCaster {
    pub open spec fn wf(&self) -> bool {
        match self {
            SpellCaster::Sequential(s) => s.wf(),
            SpellCaster::Instant(_) => true,
        }
    }

    /// The values to cast with and the behaviours to cast now.
    pub fn get_next_casts(&mut self) -> (r: (SpellCastValues, Vec<Arc<SpellEffect>>))
        requires
            old(self).wf(),
        ensures
            r.0.spread == values_of(old(self)).spread,
            r.0.modifiers@ == values_of(old(self)).modifiers@,
            r.1@ == fired(old(self)),
            after_next(old(self), final(self)),
            final(self).wf(),
    {
        match self {
            SpellCaster::Sequential(caster) => {
                let v = caster.cast_values.share();
                (v, caster.get_next_cast())
            },
            SpellCaster::Instant(caster) => {
                let v = caster.cast_values.share();
                (v, caster.get_next_cast())
            },
        }
    }

    pub fn get_base_spell_delay(&self) -> (r: u64)
        ensures
            r == base_delay(self),
    {
        match self {
            SpellCaster::Sequential(caster) => caster.base_spell_delay,
            SpellCaster::Instant(_) => 0,
        }
    }

    pub fn add_spell_delay(&mut self, delay: u64)
        requires
            old(self).wf(),
        ensures
            delay_added(old(self), final(self), delay),
            final(self).wf(),
    {
        match self {
            SpellCaster::Sequential(caster) => caster.add_spell_delay(delay),
            SpellCaster::Instant(_) => {},
        }
    }

    /// Whether the caster is exhausted and may be removed.
    pub fn can_delete(&self) -> (r: bool)
        ensures
            r == exhausted(self),
    {
        match self {
            SpellCaster::Sequential(caster) => caster.spell_queue.len() == 0
                && caster.caster_delay.finished() && caster.spell_delay.finished(),
            SpellCaster::Instant(caster) => caster.spell_list.len() == 0,
        }
    }

    /// Advances a sequential caster's cooldowns; an instant caster has none.
    pub fn tick(&mut self, delta: u64)
        requires
            old(self).wf(),
        ensures
            final(self).wf(),
            match (*old(self), *final(self)) {
                (SpellCaster::Sequential(o), SpellCaster::Sequential(n)) => {
                    &&& n.spell_delay == crate::timer::ticked(o.spell_delay, delta)
                    &&& n.caster_delay == crate::timer::ticked(o.caster_delay, delta)
                    &&& n.spell_queue@ == o.spell_queue@
                    &&& n.cast_values == o.cast_values
                    &&& n.base_spell_delay == o.base_spell_delay
                    &&& n.base_caster_delay == o.base_caster_delay
                },
                (SpellCaster::Instant(o), SpellCaster::Instant(n)) => n.spell_list@ == o.spell_list@
                    && n.cast_values == o.cast_values,
                _ => false,
            },
    {
        match self {
            SpellCaster::Sequential(caster) => caster.tick(delta),
            SpellCaster::Instant(_) => {},
        }
    }
}

/// What casting a list of trees, each under `ctx`, spawns.
pub open spec fn cast_list(ts: Seq<SpellTree>, ctx: CastModel) -> Seq<SpawnModel>
    decreases ts.len(),
{
    if ts.len() == 0 {
        seq![]
    } else {
        cast_list(ts.drop_last(), ctx) + cast_spec(ts.last(), ctx)
    }
}

/// What the driver decided for one caster this tick.
pub enum CasterAction {
    /// The caster is exhausted: destroy its object, cast nothing.
    Despawn,
    /// Nothing to cast this tick.
    Idle,
    /// Spawn these projectiles.
    Cast(Vec<SpellSpawn>),
}

/// One driver pass over the caster on object `caster_id`: destroy it if it
/// is exhausted; otherwise cast what it hands out, each behaviour with its
/// own copy of a context built from the caster's values, and commit the
/// per-spell delay.
pub fn do_caster(caster: &mut SpellCaster, caster_id: u64) -> (r: CasterAction)
    requires
        old(caster).wf(),
    ensures
        final(caster).wf(),
        exhausted(old(caster)) ==> r is Despawn && *final(caster) == *old(caster),
        !exhausted(old(caster)) ==> {
            let ctx = CastModel {
                caster: caster_id,
                spread: values_of(old(caster)).spread,
                chain: values_of(old(caster)).modifiers@,
            };
            let out = fired(old(caster));
            if out.len() == 0 {
                r is Idle && after_next(old(caster), final(caster))
            } else {
                &&& r matches CasterAction::Cast(v) && spawn_views(v@) == cast_list(trees_of(out), ctx)
                &&& exists|mid: SpellCaster|
                    after_next(old(caster), &mid) && mid.wf() && delay_added(&mid, final(caster), base_delay(old(caster)))
            }
        },
{
    if caster.can_delete() {
        return CasterAction::Despawn;
    }
    let ghost before = *caster;
    let (values, spells) = caster.get_next_casts();
    if spells.len() == 0 {
        return CasterAction::Idle;
    }
    let ghost mid = *caster;
    let delay = caster.get_base_spell_delay();
    let context = SpellCastContext { caster: caster_id, spell_delay: delay, values };
    let mut out: Vec<SpellSpawn> = Vec::new();
    let mut i: usize = 0;
    while i < spells.len()
        invariant
            i <= spells.len(),
            spawn_views(out@) == cast_list(trees_of(spells@.subrange(0, i as int)), context@),
        decreases spells.len() - i,
    {
        let branch = context.fresh_clone();
        spells[i].cast(&branch, &mut out);
        proof {
            let s1 = spells@.subrange(0, (i + 1) as int);
            assert(s1.drop_last() =~= spells@.subrange(0, i as int));
            assert(trees_of(s1).drop_last() =~= trees_of(s1.drop_last()));
        }
        i = i + 1;
    }
    assert(spells@.subrange(0, spells.len() as int) =~= spells@);
    caster.add_spell_delay(context.spell_delay);
    CasterAction::Cast(out)
}

} // verus!
