//! Entity handles and lookups over the entities that are alive.

use vstd::prelude::*;
use crate::vessel::Vessel;

verus! {

/// Handle of an entity in the game world. It refers, it does not own: the
/// entity may be gone while the handle is still held.
#[derive(Clone, Copy, Debug, PartialEq, Eq, Hash, Structural)]
pub struct EntityId {
    pub bits: u64,
}

/// Outcome of looking for the one player entity.
#[derive(Clone, Copy, Debug, PartialEq, Eq, Structural)]
pub enum PlayerQuery {
    /// No player entity exists.
    Missing,
    /// Exactly one exists.
    Single(Vessel),
    /// More than one exists.
    Several,
}

impl EntityId {
    pub fn new(bits: u64) -> (id: EntityId)
        ensures
            id.bits == bits,
    {
        EntityId { bits }
    }
}

impl PlayerQuery {
    /// What a lookup among `players` gives.
    pub open spec fn of(players: Seq<Vessel>) -> PlayerQuery {
        if players.len() == 0 {
            PlayerQuery::Missing
        } else if players.len() == 1 {
            PlayerQuery::Single(players[0])
        } else {
            PlayerQuery::Several
        }
    }

    /// True when `entity` is the one player.
    pub open spec fn spec_is_player(self, entity: EntityId) -> bool {
        self matches PlayerQuery::Single(player) && player.entity == entity
    }

    /// Whether `entity` is the one player.
    pub fn is_player(&self, entity: EntityId) -> (same: bool)
        ensures
            same == self.spec_is_player(entity),
    {
        match self {
            PlayerQuery::Single(player) => player.entity.bits == entity.bits,
            _ => false,
        }
    }
}

/// Looks for the one player among the player entities that are alive.
pub fn single_player(players: &Vec<Vessel>) -> (found: PlayerQuery)
    ensures
        found == PlayerQuery::of(players@),
{
    if players.len() == 0 {
        PlayerQuery::Missing
    } else if players.len() == 1 {
        PlayerQuery::Single(players[0])
    } else {
        PlayerQuery::Several
    }
}

} // verus!
