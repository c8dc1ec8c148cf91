//! What a vessel announces when it enters the world.

use vstd::prelude::*;
use crate::entity::EntityId;
use crate::geometry::{Point, Velocity};
use crate::health::Health;
use crate::turret::TurretType;

verus! {

/// What the combat core reads of a vessel that is alive.
#[derive(Clone, Copy, Debug, PartialEq, Eq, Structural)]
pub struct Vessel {
    pub entity: EntityId,
    pub position: Point,
    /// Velocity that its shots inherit.
    pub velocity: Velocity,
}

/// Notice that a vessel has been spawned, with its loadout.
#[derive(Clone, Debug)]
pub struct SpawnVessel {
    pub entity: EntityId,
    /// Power tier, in thousandths of the reference tier.
    pub stats_scale: u32,
    /// The weapon on each mount slot, in slot order; `None` for an empty slot.
    pub turrets: Vec<Option<TurretType>>,
    pub health: Health,
}

/// The first of `vessels` that is `entity`, if there is one.
pub open spec fn lookup(vessels: Seq<Vessel>, entity: EntityId) -> Option<Vessel>
    decreases vessels.len(),
{
    if vessels.len() == 0 {
        None
    } else if vessels[0].entity == entity {
        Some(vessels[0])
    } else {
        lookup(vessels.drop_first(), entity)
    }
}

/// Looks `entity` up among the vessels that are alive.
pub fn find_vessel(vessels: &Vec<Vessel>, entity: EntityId) -> (found: Option<Vessel>)
    ensures
        found == lookup(vessels@, entity),
        found.is_some() <==> exists|k: int|
            0 <= k < vessels@.len() && (#[trigger] vessels@[k]).entity == entity,
        found.is_some() ==> found.unwrap().entity == entity && vessels@.contains(found.unwrap()),
{
    let mut i: usize = 0;
    proof {
        assert(vessels@.skip(0) == vessels@);
    }
    while i < vessels.len()
        invariant
            i <= vessels@.len(),
            lookup(vessels@, entity) == lookup(vessels@.skip(i as int), entity),
            forall|k: int| 0 <= k < i ==> (#[trigger] vessels@[k]).entity != entity,
        decreases vessels.len() - i,
    {
        let vessel = vessels[i];
        proof {
            assert(vessels@.skip(i as int)[0] == vessel);
            assert(vessels@.skip(i as int).drop_first() == vessels@.skip(i + 1));
        }
        if vessel.entity.bits == entity.bits {
            return Some(vessel);
        }
        i += 1;
    }
    proof {
        assert(vessels@.skip(i as int).len() == 0);
    }
    None
}

} // verus!
