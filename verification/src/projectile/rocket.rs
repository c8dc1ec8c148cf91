//! Rockets: twin launches, and volleys that close in on a target.

use vstd::prelude::*;
use crate::collision::{CollisionGroups, PROJECTILE_LAYER};
use crate::geometry::{distance, distance_between, Point, Velocity};
use crate::projectile::{Motion, Projectile, ProjectileSpawn, ProjectileTimer, ProjectileType};
use crate::turret::{TurretTriggered, TurretType};

verus! {

/// How far each tube sits to the side of the turret's axis, in thousandths
/// of a world unit.
pub const TUBE_OFFSET_SIDE: i32 = 5_000;

/// How far each tube sits ahead of the turret's centre.
pub const TUBE_OFFSET_AHEAD: i32 = 5_000;

/// Hit points a rocket takes at the reference power tier.
pub const DAMAGE: u64 = 5;

/// Hit points a medium rocket takes at the reference power tier.
pub const MEDIUM_DAMAGE: u64 = 20;

/// Lifetime of a rocket, in nanoseconds.
pub const LIFE_TIME_NS: u64 = 1_500_000_000;

/// Speed of a rocket, in thousandths of a world unit per second.
pub const SPEED: u32 = 750_000;

/// Pairs in a volley of medium rockets.
pub const VOLLEY_PAIRS: u32 = 5;

/// Launch angle of the innermost pair of a volley, in sixteenths of a half
/// turn: a quarter of a half turn.
pub const VOLLEY_ANGLE: i32 = 4;

/// How a rocket moves: at its own speed along its heading, on top of the
/// velocity it inherited, while its heading turns evenly by `turn` sixteenths
/// of a half turn (counter-clockwise) over its lifetime.
#[derive(Clone, Copy, Debug, PartialEq, Eq, Structural)]
pub struct Rocket {
    pub source_velocity: Velocity,
    pub current_speed: u32,
    pub turn: i32,
}

impl Rocket {
    pub fn new(source_velocity: Velocity) -> (rocket: Rocket)
        ensures
            rocket == (Rocket { source_velocity, current_speed: SPEED, turn: 0 }),
    {
        Rocket { source_velocity, current_speed: SPEED, turn: 0 }
    }
}

/// Where the left tube sits in the turret's frame.
pub open spec fn left_turret_offset() -> Point {
    Point { x: TUBE_OFFSET_SIDE, y: TUBE_OFFSET_AHEAD }
}

/// Where the right tube sits in the turret's frame: across the axis from the
/// left one.
pub open spec fn right_turret_offset() -> Point {
    Point { x: (-TUBE_OFFSET_SIDE) as i32, y: TUBE_OFFSET_AHEAD }
}

/// Time a rocket takes over `length` thousandths of a world unit, in
/// nanoseconds, rounded down.
pub open spec fn travel_time(length: nat) -> nat {
    length * 1_000_000_000 / (SPEED as nat)
}

/// One rocket of a twin launch, from the tube at `offset`.
pub open spec fn twin_rocket(ev: TurretTriggered, offset: Point) -> ProjectileSpawn {
    ProjectileSpawn {
        projectile: Projectile::fresh(
            ProjectileType::Rocket,
            ev.source,
            ev.turret_mask,
            (DAMAGE * ev.stats_scale) as u64,
        ),
        timer: ProjectileTimer::fresh(LIFE_TIME_NS),
        motion: Motion::Rocket(
            Rocket { source_velocity: ev.source_velocity, current_speed: SPEED, turn: 0 },
        ),
        groups: CollisionGroups { memberships: PROJECTILE_LAYER, filters: ev.turret_mask },
        position: ev.source_position,
        direction: ev.source_direction,
        offset,
        heading: 0,
    }
}

/// The two rockets of a twin launch: left tube first.
pub open spec fn twin_rockets(ev: TurretTriggered) -> Seq<ProjectileSpawn> {
    seq![twin_rocket(ev, left_turret_offset()), twin_rocket(ev, right_turret_offset())]
}

/// Launch angle of pair `pair` of a volley.
pub open spec fn volley_angle(pair: int) -> int {
    VOLLEY_ANGLE + pair
}

/// One medium rocket: launched from the turret's place at `heading` against
/// the turret's heading, turning by `turn` over its lifetime. It does not
/// inherit the vessel's velocity.
pub open spec fn medium_rocket(
    ev: TurretTriggered,
    heading: i32,
    life_time_ns: u64,
    turn: i32,
) -> ProjectileSpawn {
    ProjectileSpawn {
        projectile: Projectile::fresh(
            ProjectileType::MediumRocket,
            ev.source,
            ev.turret_mask,
            (MEDIUM_DAMAGE * ev.stats_scale) as u64,
        ),
        timer: ProjectileTimer::fresh(life_time_ns),
        motion: Motion::Rocket(
            Rocket { source_velocity: Velocity { x: 0, y: 0 }, current_speed: SPEED, turn },
        ),
        groups: CollisionGroups { memberships: PROJECTILE_LAYER, filters: ev.turret_mask },
        position: ev.source_position,
        direction: ev.source_direction,
        offset: Point { x: 0, y: 0 },
        heading,
    }
}

/// Rocket `index` of a volley. Rockets `2 * pair` and `2 * pair + 1` are the
/// left and the right one of pair `pair`. They leave at the pair's angle to
/// the left and to the right of the turret's heading, and each turns back
/// towards it by twice that angle over its lifetime, which is the time a
/// rocket takes straight to the target point.
pub open spec fn volley_rocket(ev: TurretTriggered, index: int) -> ProjectileSpawn {
    let angle = volley_angle(index / 2);
    let life_time = travel_time(distance_between(ev.source_position, ev.target_point)) as u64;
    if index % 2 == 0 {
        medium_rocket(ev, angle as i32, life_time, (-2 * angle) as i32)
    } else {
        medium_rocket(ev, (-angle) as i32, life_time, (2 * angle) as i32)
    }
}

/// The rockets of a volley, pair by pair from the innermost out.
pub open spec fn volley(ev: TurretTriggered) -> Seq<ProjectileSpawn> {
    Seq::new(2 * VOLLEY_PAIRS as nat, |index: int| volley_rocket(ev, index))
}

/// The rockets of one shot: two for a rocket launcher, a volley for a medium
/// rocket launcher, none for a cannon.
pub open spec fn rockets_of(ev: TurretTriggered) -> Seq<ProjectileSpawn> {
    match ev.turret_type {
        TurretType::Cannon => Seq::empty(),
        TurretType::Rocket => twin_rockets(ev),
        TurretType::MediumRocket => volley(ev),
    }
}

/// All rockets of a tick's shots, in the order of the shots.
pub open spec fn all_rockets(events: Seq<TurretTriggered>) -> Seq<ProjectileSpawn>
    decreases events.len(),
{
    if events.len() == 0 {
        Seq::empty()
    } else {
        all_rockets(events.drop_last()) + rockets_of(events.last())
    }
}

/// Makes the two rockets of a twin launch.
pub fn spawn_rocket(ev: &TurretTriggered) -> (rockets: Vec<ProjectileSpawn>)
    ensures
        rockets@ == twin_rockets(*ev),
{
    let projectile = Projectile::new(
        ProjectileType::Rocket,
        ev.source,
        ev.turret_mask,
        DAMAGE * (ev.stats_scale as u64),
    );
    let timer = ProjectileTimer::new(LIFE_TIME_NS);
    let motion = Motion::Rocket(Rocket::new(ev.source_velocity));
    let groups = CollisionGroups { memberships: PROJECTILE_LAYER, filters: ev.turret_mask };
    let left = ProjectileSpawn {
        projectile,
        timer,
        motion,
        groups,
        position: ev.source_position,
        direction: ev.source_direction,
        offset: Point { x: TUBE_OFFSET_SIDE, y: TUBE_OFFSET_AHEAD },
        heading: 0,
    };
    let right = ProjectileSpawn {
        offset: Point { x: -TUBE_OFFSET_SIDE, y: TUBE_OFFSET_AHEAD },
        ..left
    };
    let mut rockets: Vec<ProjectileSpawn> = Vec::new();
    rockets.push(left);
    rockets.push(right);
    rockets
}

/// Makes one medium rocket.
pub fn spawn_medium_rocket(ev: &TurretTriggered, heading: i32, life_time_ns: u64, turn: i32) -> (rocket:
    ProjectileSpawn)
    ensures
        rocket == medium_rocket(*ev, heading, life_time_ns, turn),
{
    ProjectileSpawn {
        projectile: Projectile::new(
            ProjectileType::MediumRocket,
            ev.source,
            ev.turret_mask,
            MEDIUM_DAMAGE * (ev.stats_scale as u64),
        ),
        timer: ProjectileTimer::new(life_time_ns),
        motion: Motion::Rocket(
            Rocket { source_velocity: Velocity { x: 0, y: 0 }, current_speed: SPEED, turn },
        ),
        groups: CollisionGroups { memberships: PROJECTILE_LAYER, filters: ev.turret_mask },
        position: ev.source_position,
        direction: ev.source_direction,
        offset: Point { x: 0, y: 0 },
        heading,
    }
}

/// Makes the volley of a medium rocket launcher.
pub fn spawn_medium_rockets(ev: &TurretTriggered) -> (rockets: Vec<ProjectileSpawn>)
    ensures
        rockets@ == volley(*ev),
{
    let length = distance(ev.source_position, ev.target_point);
    let life_time: u64 = length * 1_000_000_000 / (SPEED as u64);
    let mut rockets: Vec<ProjectileSpawn> = Vec::new();
    let mut pair: u32 = 0;
    while pair < VOLLEY_PAIRS
        invariant
            pair <= VOLLEY_PAIRS,
            life_time == travel_time(distance_between(ev.source_position, ev.target_point)),
            rockets@.len() == 2 * pair,
            forall|k: int| 0 <= k < rockets@.len() ==> #[trigger] rockets@[k] == volley_rocket(*ev, k),
        decreases VOLLEY_PAIRS - pair,
    {
        let angle: i32 = VOLLEY_ANGLE + pair as i32;
        rockets.push(spawn_medium_rocket(ev, angle, life_time, -2 * angle));
        rockets.push(spawn_medium_rocket(ev, -angle, life_time, 2 * angle));
        pair += 1;
    }
    rockets
}

/// Makes the rockets of all rocket shots among `events`.
pub fn spawn_rockets(events: &Vec<TurretTriggered>) -> (rockets: Vec<ProjectileSpawn>)
    ensures
        rockets@ == all_rockets(events@),
{
    let mut rockets: Vec<ProjectileSpawn> = Vec::new();
    let mut i: usize = 0;
    while i < events.len()
        invariant
            i <= events@.len(),
            rockets@ == all_rockets(events@.take(i as int)),
        decreases events.len() - i,
    {
        proof {
            assert(events@.take(i + 1).drop_last() == events@.take(i as int));
        }
        match events[i].turret_type {
            TurretType::Cannon => {},
            TurretType::Rocket => {
                let mut twin = spawn_rocket(&events[i]);
                rockets.append(&mut twin);
            },
            TurretType::MediumRocket => {
                let mut salvo = spawn_medium_rockets(&events[i]);
                rockets.append(&mut salvo);
            },
        }
        i += 1;
    }
    proof {
        assert(events@.take(i as int) == events@);
    }
    rockets
}

/// Every rocket is live and unaged when it is spawned, and carries the mask
/// and origin of a rocket shot among `events`.
pub proof fn lemma_rockets_are_unused(events: Seq<TurretTriggered>)
    ensures
        forall|k: int|
            0 <= k < all_rockets(events).len() ==> {
                let rocket = #[trigger] all_rockets(events)[k];
                &&& rocket.unused()
                &&& exists|e: int|
                    0 <= e < events.len() && rocket.made_from(#[trigger] events[e])
                        && events[e].turret_type != TurretType::Cannon
            },
    decreases events.len(),
{
    if events.len() > 0 {
        let earlier = events.drop_last();
        lemma_rockets_are_unused(earlier);
        assert forall|k: int| 0 <= k < all_rockets(events).len() implies {
            let rocket = #[trigger] all_rockets(events)[k];
            &&& rocket.unused()
            &&& exists|e: int|
                0 <= e < events.len() && rocket.made_from(#[trigger] events[e])
                    && events[e].turret_type != TurretType::Cannon
        } by {
            let rocket = all_rockets(events)[k];
            if k < all_rockets(earlier).len() {
                assert(rocket == all_rockets(earlier)[k]);
                let e = choose|e: int|
                    0 <= e < earlier.len() && rocket.made_from(#[trigger] earlier[e])
                        && earlier[e].turret_type != TurretType::Cannon;
                assert(events[e] == earlier[e]);
            } else {
                assert(rocket == rockets_of(events.last())[k - all_rockets(earlier).len()]);
                assert(events[events.len() - 1] == events.last());
            }
        }
    }
}

} // verus!
