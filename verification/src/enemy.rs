//! The sweep that takes out what has no hit points left.

use vstd::prelude::*;
use crate::entity::EntityId;
use crate::health::{alive, dead, Health};

verus! {

/// The entity of a ledger entry.
pub open spec fn entity_of() -> spec_fn(Health) -> EntityId {
    |health: Health| health.entity
}

/// Takes every entry at or below zero out of the ledger and names the
/// entities to remove, in ledger order. The entries that stay keep their
/// order and are not touched.
pub fn despawn_enemies(healths: &mut Vec<Health>) -> (removed: Vec<EntityId>)
    ensures
        final(healths)@ == old(healths)@.filter(alive()),
        removed@ == old(healths)@.filter(dead()).map_values(entity_of()),
{
    let mut kept: Vec<Health> = Vec::new();
    let mut removed: Vec<EntityId> = Vec::new();
    let mut i: usize = 0;
    while i < healths.len()
        invariant
            i <= healths@.len(),
            healths@ == old(healths)@,
            kept@ == healths@.take(i as int).filter(alive()),
            removed@ == healths@.take(i as int).filter(dead()).map_values(entity_of()),
        decreases healths.len() - i,
    {
        let health = healths[i];
        proof {
            let seen = healths@.take(i as int);
            assert(healths@.take(i + 1) == seen.push(health));
            seen.lemma_filter_push(health, alive());
            seen.lemma_filter_push(health, dead());
            if health.spec_is_dead() {
                assert(seen.filter(dead()).push(health).map_values(entity_of()) == seen.filter(
                    dead(),
                ).map_values(entity_of()).push(health.entity));
            }
        }
        if health.is_dead() {
            removed.push(health.entity);
        } else {
            kept.push(health);
        }
        i += 1;
    }
    proof {
        assert(healths@.take(i as int) == healths@);
    }
    *healths = kept;
    removed
}

} // verus!
