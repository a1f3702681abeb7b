//! Cast triggers: what decides when a caster is created and fed.

use std::sync::Arc;
use vstd::prelude::*;

use crate::caster::{instant_fire, InstantCaster, SequentialCaster, BASE_CASTER_DELAY, BASE_SPELL_DELAY};
use crate::casting::SpellCastValues;
use crate::effect::SpellEffect;
use crate::modifier::ModifierModel;
use crate::timer::{fresh_timer, repeated_tick, RepeatingTimer};

verus! {

/// Whether `c` is a fresh sequential caster of `spells` with `values`.
pub open spec fn fresh_sequential(c: &SequentialCaster, values: &SpellCastValues, spells: Seq<Arc<SpellEffect>>) -> bool {
    &&& c.spell_queue@ == spells.reverse()
    &&& c.cast_values.spread == values.spread
    &&& c.cast_values.modifiers@ == values.modifiers@
    &&& c.base_spell_delay == BASE_SPELL_DELAY
    &&& c.base_caster_delay == BASE_CASTER_DELAY
    &&& c.spell_delay == fresh_timer(0)
    &&& c.caster_delay == fresh_timer(0)
    &&& c.wf()
}

/// Whether `c` is a fresh instant caster of `spells` with `values`.
pub open spec fn fresh_instant(c: &InstantCaster, values: &SpellCastValues, spells: Seq<Arc<SpellEffect>>) -> bool {
    &&& c.spell_list@ == spells
    &&& c.cast_values.spread == values.spread
    &&& c.cast_values.modifiers@ == values.modifiers@
}

/// Fires on the player's action, keeping at most one live caster.
pub struct PlayerSpellTrigger {
    /// The caster this trigger spawned last, if it was attached.
    pub current_caster: Option<u64>,
    pub values: SpellCastValues,
    pub spells: Arc<Vec<Arc<SpellEffect>>>,
}

impl PlayerSpellTrigger {
    pub fn new(values: SpellCastValues, spells: Arc<Vec<Arc<SpellEffect>>>) -> (r: PlayerSpellTrigger)
        ensures
            r.current_caster.is_none(),
            r.values == values,
            r.spells == spells,
    {
        PlayerSpellTrigger { current_caster: None, values, spells }
    }

    /// One tick. `caster_alive` tells whether the tracked caster still
    /// exists. A new caster comes only while the action is held and no
    /// tracked caster is alive; a dead one is forgotten.
    pub fn do_player_trigger(&mut self, pressed: bool, caster_alive: bool) -> (r: Option<SequentialCaster>)
        ensures
            r.is_some() <==> pressed && !(old(self).current_caster.is_some() && caster_alive),
            r matches Some(c) ==> fresh_sequential(&c, &old(self).values, old(self).spells@),
            final(self).current_caster == if pressed && !caster_alive {
                None
            } else {
                old(self).current_caster
            },
            final(self).values == old(self).values,
            final(self).spells == old(self).spells,
    {
        if !pressed {
            return None;
        }
        if self.current_caster.is_some() {
            if caster_alive {
                return None;
            }
        }
        self.current_caster = None;
        Some(SequentialCaster::new(self.values.share(), &self.spells))
    }

    /// Remembers the object of the caster just spawned.
    pub fn attach(&mut self, caster: u64)
        ensures
            final(self).current_caster == Some(caster),
            final(self).values == old(self).values,
            final(self).spells == old(self).spells,
    {
        self.current_caster = Some(caster);
    }
}

/// Fires periodically.
pub struct TimerSpellTrigger {
    pub values: SpellCastValues,
    pub spells: Arc<Vec<Arc<SpellEffect>>>,
    pub timer: RepeatingTimer,
}

impl TimerSpellTrigger {
    /// A trigger firing every `period` nanoseconds.
    pub fn new(values: SpellCastValues, spells: Arc<Vec<Arc<SpellEffect>>>, period: u64) -> (r: TimerSpellTrigger)
        ensures
            r.values == values,
            r.spells == spells,
            r.timer == (RepeatingTimer { duration: period, elapsed: 0, just_finished: false }),
            r.timer.wf(),
    {
        TimerSpellTrigger { values, spells, timer: RepeatingTimer::new(period) }
    }

    pub fn tick_timer_trigger(&mut self, delta: u64)
        requires
            old(self).timer.wf(),
        ensures
            final(self).timer == repeated_tick(old(self).timer, delta),
            final(self).timer.wf(),
            final(self).values == old(self).values,
            final(self).spells == old(self).spells,
    {
        self.timer.tick(delta);
    }

    /// A new sequential caster when the period ran out during the last tick.
    pub fn do_timer_trigger(&self) -> (r: Option<SequentialCaster>)
        ensures
            r.is_some() == self.timer.just_finished,
            r matches Some(c) ==> fresh_sequential(&c, &self.values, self.spells@),
    {
        if self.timer.just_finished() {
            Some(SequentialCaster::new(self.values.share(), &self.spells))
        } else {
            None
        }
    }
}

/// Attached to a projectile: casts its payload from the target it hits.
pub struct CollisionSpellTrigger {
    pub values: SpellCastValues,
    pub spells: Arc<Vec<Arc<SpellEffect>>>,
}

impl CollisionSpellTrigger {
    /// The trigger a collision-trigger modifier attaches: the payload with no
    /// spread and an empty chain.
    pub fn new(spells: Arc<Vec<Arc<SpellEffect>>>) -> (r: CollisionSpellTrigger)
        ensures
            r.spells == spells,
            r.values.spread == 0,
            r.values.modifiers@ == Seq::<ModifierModel>::empty(),
    {
        CollisionSpellTrigger { values: SpellCastValues::new(), spells }
    }
}

/// A collision trigger fires every time its projectile hits while its data
/// is there: two firings give two casters, each loaded with the whole
/// payload, and firing one of them leaves the other's list untouched (they
/// are separate values). With the trigger's data gone nothing is made.
pub proof fn lemma_collision_trigger_refires(t: &CollisionSpellTrigger, a: &InstantCaster, b: &InstantCaster)
    requires
        fresh_instant(a, &t.values, t.spells@),
        fresh_instant(b, &t.values, t.spells@),
    ensures
        a.spell_list@ == t.spells@,
        b.spell_list@ == t.spells@,
        instant_fire(a.spell_list@).0 == t.spells@,
        instant_fire(b.spell_list@).0 == t.spells@,
{
}

/// On impact: a new instant caster loaded with the trigger's payload, or
/// nothing when the trigger's data or the target is gone.
pub fn do_collision_trigger(trigger: Option<&CollisionSpellTrigger>, target_found: bool) -> (r: Option<InstantCaster>)
    ensures
        r.is_some() <==> trigger.is_some() && target_found,
        r matches Some(c) ==> fresh_instant(&c, &trigger.unwrap().values, trigger.unwrap().spells@),
{
    match trigger {
        Some(t) => if target_found {
            Some(InstantCaster::new(t.values.share(), &t.spells))
        } else {
            None
        },
        None => None,
    }
}

} // verus!
