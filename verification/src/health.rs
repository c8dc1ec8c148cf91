//! The health ledger: hit points per entity, and what damage does to them.

use vstd::prelude::*;
use crate::entity::EntityId;
use crate::projectile::ProjectileCollision;

verus! {

/// Hit points of one entity, in thousandths of a point.
#[derive(Clone, Copy, Debug, PartialEq, Eq, Structural)]
pub struct Health {
    /// The entity whose hit points these are.
    pub entity: EntityId,
    /// Current value. Nothing keeps it at or above zero: an entity at or
    /// below zero is taken out by the sweep, not by the ledger.
    pub health: i64,
    pub max_health: i64,
    /// Size of the bar that shows the value, in thousandths.
    pub size: u32,
}

/// Place of the first entry for `entity` in the ledger, or the ledger's
/// length if it has none.
pub open spec fn ledger_slot(healths: Seq<Health>, entity: EntityId) -> int
    decreases healths.len(),
{
    if healths.len() == 0 {
        0
    } else if healths[0].entity == entity {
        0
    } else {
        1 + ledger_slot(healths.drop_first(), entity)
    }
}

/// The ledger after one collision: the struck entity's entry loses the
/// projectile's damage; a target without an entry changes nothing.
pub open spec fn damaged_ledger(healths: Seq<Health>, ev: ProjectileCollision) -> Seq<Health> {
    let slot = ledger_slot(healths, ev.target);
    if slot < healths.len() {
        healths.update(slot, healths[slot].damaged(ev.projectile.damage))
    } else {
        healths
    }
}

/// The ledger after all of a tick's collisions, taken in order.
pub open spec fn damaged_by_all(healths: Seq<Health>, events: Seq<ProjectileCollision>) -> Seq<
    Health,
>
    decreases events.len(),
{
    if events.len() == 0 {
        healths
    } else {
        damaged_ledger(damaged_by_all(healths, events.drop_last()), events.last())
    }
}

/// The test for entries that the sweep takes out.
pub open spec fn dead() -> spec_fn(Health) -> bool {
    |health: Health| health.spec_is_dead()
}

/// The test for entries that the sweep leaves in.
pub open spec fn alive() -> spec_fn(Health) -> bool {
    |health: Health| !health.spec_is_dead()
}

impl Health {
    /// A full ledger entry.
    pub open spec fn full(entity: EntityId, max_health: i64, size: u32) -> Health {
        Health { entity, health: max_health, max_health, size }
    }

    /// The entry after `damage` has been taken off: exactly the difference,
    /// as far down as the value can be held.
    pub open spec fn damaged(self, damage: u64) -> Health {
        Health {
            health: if self.health - damage >= i64::MIN {
                (self.health - damage) as i64
            } else {
                i64::MIN
            },
            ..self
        }
    }

    /// True when the entity is to be removed: its hit points are at or below
    /// zero.
    pub open spec fn spec_is_dead(self) -> bool {
        self.health <= 0
    }

    /// An entry at full health.
    pub fn new(entity: EntityId, max_health: i64, size: u32) -> (health: Health)
        ensures
            health == Health::full(entity, max_health, size),
    {
        Health { entity, health: max_health, max_health, size }
    }

    /// Takes `damage` off the current value. No floor is applied at zero.
    pub fn apply_damage(&mut self, damage: u64)
        ensures
            *final(self) == old(self).damaged(damage),
            old(self).health - damage >= i64::MIN ==> final(self).health == old(self).health
                - damage,
    {
        let difference: i128 = self.health as i128 - damage as i128;
        if difference >= i64::MIN as i128 {
            self.health = difference as i64;
        } else {
            self.health = i64::MIN;
        }
    }

    /// Whether the entity is to be removed.
    pub fn is_dead(&self) -> (gone: bool)
        ensures
            gone == self.spec_is_dead(),
    {
        self.health <= 0
    }
}

/// Finds the first entry for `entity`.
fn find_slot(healths: &Vec<Health>, entity: EntityId) -> (slot: usize)
    ensures
        slot == ledger_slot(healths@, entity),
        slot <= healths@.len(),
{
    let mut i: usize = 0;
    proof {
        assert(healths@.skip(0) == healths@);
    }
    while i < healths.len()
        invariant
            i <= healths@.len(),
            ledger_slot(healths@, entity) == i + ledger_slot(healths@.skip(i as int), entity),
        decreases healths.len() - i,
    {
        proof {
            assert(healths@.skip(i as int)[0] == healths@[i as int]);
            assert(healths@.skip(i as int).drop_first() == healths@.skip(i + 1));
        }
        if healths[i].entity.bits == entity.bits {
            return i;
        }
        i += 1;
    }
    proof {
        assert(healths@.skip(i as int).len() == 0);
    }
    i
}

/// Applies the damage of every collision of this tick to the entry of the
/// entity it struck. A collision with an entity that has no entry is passed
/// over.
pub fn apply_projectile_damage(healths: &mut Vec<Health>, events: &Vec<ProjectileCollision>)
    ensures
        final(healths)@ == damaged_by_all(old(healths)@, events@),
        final(healths)@.len() == old(healths)@.len(),
{
    let mut i: usize = 0;
    while i < events.len()
        invariant
            i <= events@.len(),
            healths@ == damaged_by_all(old(healths)@, events@.take(i as int)),
            healths@.len() == old(healths)@.len(),
        decreases events.len() - i,
    {
        let ev = events[i];
        proof {
            assert(events@.take(i + 1).drop_last() == events@.take(i as int));
        }
        let slot = find_slot(healths, ev.target);
        if slot < healths.len() {
            let mut health = healths[slot];
            health.apply_damage(ev.projectile.damage);
            healths.set(slot, health);
        }
        i += 1;
    }
    proof {
        assert(events@.take(i as int) == events@);
    }
}

/// Takes a known amount off a known value: the entry of `entity` holds the
/// difference afterwards, exactly, and every other entry is as before.
pub proof fn lemma_damage_is_exact(healths: Seq<Health>, ev: ProjectileCollision)
    ensures
        damaged_ledger(healths, ev).len() == healths.len(),
        forall|k: int|
            0 <= k < healths.len() && k != ledger_slot(healths, ev.target) ==> #[trigger] damaged_ledger(
                healths,
                ev,
            )[k] == healths[k],
        ({
            let slot = ledger_slot(healths, ev.target);
            slot < healths.len() ==> {
                &&& 0 <= slot
                &&& healths[slot].entity == ev.target
                &&& damaged_ledger(healths, ev)[slot] == healths[slot].damaged(
                    ev.projectile.damage,
                )
                &&& (healths[slot].health - ev.projectile.damage >= i64::MIN ==> damaged_ledger(
                    healths,
                    ev,
                )[slot].health == healths[slot].health - ev.projectile.damage)
            }
        }),
{
    lemma_ledger_slot(healths, ev.target);
}

/// The slot of an entity is the first entry that names it.
pub proof fn lemma_ledger_slot(healths: Seq<Health>, entity: EntityId)
    ensures
        0 <= ledger_slot(healths, entity) <= healths.len(),
        ledger_slot(healths, entity) < healths.len() ==> healths[ledger_slot(
            healths,
            entity,
        )].entity == entity,
        forall|k: int|
            0 <= k < ledger_slot(healths, entity) ==> (#[trigger] healths[k]).entity != entity,
    decreases healths.len(),
{
    if healths.len() > 0 && healths[0].entity != entity {
        let rest = healths.drop_first();
        lemma_ledger_slot(rest, entity);
        assert forall|k: int| 0 <= k < ledger_slot(healths, entity) implies
            (#[trigger] healths[k]).entity != entity by {
            if k > 0 {
                assert(rest[k - 1] == healths[k]);
            }
        }
    }
}

/// Damage neither adds entries to the ledger nor takes any away, and it
/// leaves every entry with its entity.
pub proof fn lemma_damage_keeps_the_entries(healths: Seq<Health>, events: Seq<ProjectileCollision>)
    ensures
        damaged_by_all(healths, events).len() == healths.len(),
        forall|k: int|
            0 <= k < healths.len() ==> (#[trigger] damaged_by_all(healths, events)[k]).entity
                == healths[k].entity,
    decreases events.len(),
{
    if events.len() > 0 {
        let earlier = damaged_by_all(healths, events.drop_last());
        lemma_damage_keeps_the_entries(healths, events.drop_last());
        lemma_damage_is_exact(earlier, events.last());
    }
}

} // verus!
