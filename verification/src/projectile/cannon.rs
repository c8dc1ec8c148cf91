//! Cannon shells: one per shot, straight ahead.

use vstd::prelude::*;
use crate::collision::{CollisionGroups, PROJECTILE_LAYER};
use crate::geometry::{Point, Velocity};
use crate::projectile::{Motion, Projectile, ProjectileSpawn, ProjectileTimer, ProjectileType};
use crate::turret::{TurretTriggered, TurretType};

verus! {

/// Hit points a shell takes at the reference power tier.
pub const DAMAGE: u64 = 1;

/// Lifetime of a shell, in nanoseconds.
pub const LIFE_TIME_NS: u64 = 2_000_000_000;

/// Speed of a shell, in thousandths of a world unit per second.
pub const SPEED: u32 = 1_200_000;

/// How a shell moves: at its own speed along its heading, on top of the
/// velocity of the vessel that fired it.
#[derive(Clone, Copy, Debug, PartialEq, Eq, Structural)]
pub struct Cannon {
    pub source_velocity: Velocity,
    pub current_speed: u32,
}

impl Cannon {
    pub fn new(source_velocity: Velocity) -> (cannon: Cannon)
        ensures
            cannon == (Cannon { source_velocity, current_speed: SPEED }),
    {
        Cannon { source_velocity, current_speed: SPEED }
    }
}

/// The shell that a cannon shot spawns: on the turret's own place and
/// heading, with the turret's mask and the damage scaled by the power tier.
pub open spec fn cannon_shell(ev: TurretTriggered) -> ProjectileSpawn {
    ProjectileSpawn {
        projectile: Projectile::fresh(
            ProjectileType::Cannon,
            ev.source,
            ev.turret_mask,
            (DAMAGE * ev.stats_scale) as u64,
        ),
        timer: ProjectileTimer::fresh(LIFE_TIME_NS),
        motion: Motion::Cannon(Cannon { source_velocity: ev.source_velocity, current_speed: SPEED }),
        groups: CollisionGroups { memberships: PROJECTILE_LAYER, filters: ev.turret_mask },
        position: ev.source_position,
        direction: ev.source_direction,
        offset: Point { x: 0, y: 0 },
        heading: 0,
    }
}

/// The shells of one shot: one for a cannon, none for another weapon.
pub open spec fn cannon_shells(ev: TurretTriggered) -> Seq<ProjectileSpawn> {
    if ev.turret_type == TurretType::Cannon {
        seq![cannon_shell(ev)]
    } else {
        Seq::empty()
    }
}

/// All shells of a tick's shots, in the order of the shots.
pub open spec fn all_cannon_shells(events: Seq<TurretTriggered>) -> Seq<ProjectileSpawn>
    decreases events.len(),
{
    if events.len() == 0 {
        Seq::empty()
    } else {
        all_cannon_shells(events.drop_last()) + cannon_shells(events.last())
    }
}

/// Makes the shell of a cannon shot.
pub fn spawn_cannon(ev: &TurretTriggered) -> (shell: ProjectileSpawn)
    ensures
        shell == cannon_shell(*ev),
{
    ProjectileSpawn {
        projectile: Projectile::new(
            ProjectileType::Cannon,
            ev.source,
            ev.turret_mask,
            DAMAGE * (ev.stats_scale as u64),
        ),
        timer: ProjectileTimer::new(LIFE_TIME_NS),
        motion: Motion::Cannon(Cannon::new(ev.source_velocity)),
        groups: CollisionGroups { memberships: PROJECTILE_LAYER, filters: ev.turret_mask },
        position: ev.source_position,
        direction: ev.source_direction,
        offset: Point { x: 0, y: 0 },
        heading: 0,
    }
}

/// Makes the shells of all cannon shots among `events`.
pub fn spawn_cannons(events: &Vec<TurretTriggered>) -> (shells: Vec<ProjectileSpawn>)
    ensures
        shells@ == all_cannon_shells(events@),
{
    let mut shells: Vec<ProjectileSpawn> = Vec::new();
    let mut i: usize = 0;
    while i < events.len()
        invariant
            i <= events@.len(),
            shells@ == all_cannon_shells(events@.take(i as int)),
        decreases events.len() - i,
    {
        proof {
            assert(events@.take(i + 1).drop_last() == events@.take(i as int));
        }
        if events[i].turret_type == TurretType::Cannon {
            shells.push(spawn_cannon(&events[i]));
        }
        i += 1;
    }
    proof {
        assert(events@.take(i as int) == events@);
    }
    shells
}

/// Every shell is live and unaged when it is spawned, and carries the mask
/// and origin of a cannon shot among `events`.
pub proof fn lemma_cannon_shells_are_unused(events: Seq<TurretTriggered>)
    ensures
        forall|k: int|
            0 <= k < all_cannon_shells(events).len() ==> {
                let shell = #[trigger] all_cannon_shells(events)[k];
                &&& shell.unused()
                &&& exists|e: int|
                    0 <= e < events.len() && shell.made_from(#[trigger] events[e])
                        && events[e].turret_type == TurretType::Cannon
            },
    decreases events.len(),
{
    if events.len() > 0 {
        let earlier = events.drop_last();
        lemma_cannon_shells_are_unused(earlier);
        assert forall|k: int| 0 <= k < all_cannon_shells(events).len() implies {
            let shell = #[trigger] all_cannon_shells(events)[k];
            &&& shell.unused()
            &&& exists|e: int|
                0 <= e < events.len() && shell.made_from(#[trigger] events[e])
                    && events[e].turret_type == TurretType::Cannon
        } by {
            let shell = all_cannon_shells(events)[k];
            if k < all_cannon_shells(earlier).len() {
                assert(shell == all_cannon_shells(earlier)[k]);
                let e = choose|e: int|
                    0 <= e < earlier.len() && shell.made_from(#[trigger] earlier[e])
                        && earlier[e].turret_type == TurretType::Cannon;
                assert(events[e] == earlier[e]);
            } else {
                assert(shell == cannon_shell(events.last()));
                assert(events[events.len() - 1] == events.last());
            }
        }
    }
}

} // verus!
