//! Factions and the collision layers and masks derived from them.

use vstd::prelude::*;

verus! {

/// Layer of every player-owned vessel.
pub const PLAYER_LAYER: u32 = 0b0001;

/// Layer of every enemy-owned vessel.
pub const ENEMY_LAYER: u32 = 0b0010;

/// Layer of every projectile, whoever fired it.
pub const PROJECTILE_LAYER: u32 = 0b0100;

/// The side a vessel fights on.
#[derive(Clone, Copy, Debug, PartialEq, Eq, Structural)]
pub enum Faction {
    Player,
    Enemy,
}

/// What an entity is (`memberships`) and what it may collide with (`filters`).
#[derive(Clone, Copy, Debug, PartialEq, Eq, Structural)]
pub struct CollisionGroups {
    pub memberships: u32,
    pub filters: u32,
}

/// True when `mask` lets a projectile strike an entity on `layer`.
pub open spec fn mask_admits(mask: u32, layer: u32) -> bool {
    mask & layer != 0
}

/// True when the physics world lets two colliders with these groups meet:
/// each one's memberships share a bit with the other's filters.
pub open spec fn groups_interact(a: CollisionGroups, b: CollisionGroups) -> bool {
    a.memberships & b.filters != 0 && b.memberships & a.filters != 0
}

impl Faction {
    pub open spec fn spec_opposing(self) -> Faction {
        match self {
            Faction::Player => Faction::Enemy,
            Faction::Enemy => Faction::Player,
        }
    }

    pub open spec fn spec_layer(self) -> u32 {
        match self {
            Faction::Player => PLAYER_LAYER,
            Faction::Enemy => ENEMY_LAYER,
        }
    }

    /// Mask stamped onto what this faction fires: the other faction's layer.
    pub open spec fn spec_projectile_mask(self) -> u32 {
        self.spec_opposing().spec_layer()
    }

    pub open spec fn spec_vessel_groups(self) -> CollisionGroups {
        CollisionGroups { memberships: self.spec_layer(), filters: PROJECTILE_LAYER }
    }

    pub open spec fn spec_projectile_groups(self) -> CollisionGroups {
        CollisionGroups { memberships: PROJECTILE_LAYER, filters: self.spec_projectile_mask() }
    }

    /// The faction this one fights.
    pub fn opposing(self) -> (other: Faction)
        ensures
            other == self.spec_opposing(),
            other != self,
    {
        match self {
            Faction::Player => Faction::Enemy,
            Faction::Enemy => Faction::Player,
        }
    }

    /// Layer of this faction's vessels.
    pub fn layer(self) -> (layer: u32)
        ensures
            layer == self.spec_layer(),
    {
        match self {
            Faction::Player => PLAYER_LAYER,
            Faction::Enemy => ENEMY_LAYER,
        }
    }

    /// Mask of this faction's projectiles.
    pub fn projectile_mask(self) -> (mask: u32)
        ensures
            mask == self.spec_projectile_mask(),
    {
        self.opposing().layer()
    }

    /// Groups of a vessel of this faction: it is on the faction's layer and
    /// can be struck by projectiles.
    pub fn vessel_groups(self) -> (groups: CollisionGroups)
        ensures
            groups == self.spec_vessel_groups(),
    {
        CollisionGroups { memberships: self.layer(), filters: PROJECTILE_LAYER }
    }

    /// Groups of a projectile fired by this faction.
    pub fn projectile_groups(self) -> (groups: CollisionGroups)
        ensures
            groups == self.spec_projectile_groups(),
    {
        CollisionGroups { memberships: PROJECTILE_LAYER, filters: self.projectile_mask() }
    }
}

/// Whether `mask` lets a projectile strike an entity on `layer`.
pub fn admits(mask: u32, layer: u32) -> (hit: bool)
    ensures
        hit == mask_admits(mask, layer),
{
    mask & layer != 0
}

/// A faction's projectiles strike the vessels of the other faction and never
/// those of its own, nor other projectiles.
pub proof fn lemma_projectiles_strike_opponents_only(firing: Faction, struck: Faction)
    ensures
        mask_admits(firing.spec_projectile_mask(), struck.spec_layer()) <==> struck
            == firing.spec_opposing(),
        groups_interact(firing.spec_projectile_groups(), struck.spec_vessel_groups()) <==> struck
            == firing.spec_opposing(),
        !mask_admits(firing.spec_projectile_mask(), PROJECTILE_LAYER),
        !groups_interact(firing.spec_projectile_groups(), struck.spec_projectile_groups()),
{
    assert(0b0001u32 & 0b0010u32 == 0) by (bit_vector);
    assert(0b0010u32 & 0b0001u32 == 0) by (bit_vector);
    assert(0b0001u32 & 0b0001u32 != 0) by (bit_vector);
    assert(0b0010u32 & 0b0010u32 != 0) by (bit_vector);
    assert(0b0100u32 & 0b0100u32 != 0) by (bit_vector);
    assert(0b0001u32 & 0b0100u32 == 0) by (bit_vector);
    assert(0b0010u32 & 0b0100u32 == 0) by (bit_vector);
    assert(0b0100u32 & 0b0001u32 == 0) by (bit_vector);
    assert(0b0100u32 & 0b0010u32 == 0) by (bit_vector);
}

} // verus!
