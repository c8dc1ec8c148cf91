//! Projectiles in flight: how they age, what they hit, and when they leave.

use vstd::prelude::*;
use crate::collision::{mask_admits, CollisionGroups, PROJECTILE_LAYER};
use crate::entity::EntityId;
use crate::geometry::{Direction, Point};
use crate::seqs::{firsts, seconds};
use crate::projectile::cannon::Cannon;
use crate::projectile::rocket::Rocket;
use crate::timer::{lemma_elapsed_after_bounded, total, Timer, TimerMode};
use crate::turret::TurretTriggered;

pub mod cannon;
pub mod rocket;
pub mod rocket_explosion;

verus! {

/// The kind of a projectile.
#[derive(Clone, Copy, Debug, PartialEq, Eq, Structural)]
pub enum ProjectileType {
    Cannon,
    Rocket,
    MediumRocket,
}

/// What a projectile is and does on a hit. Kind, origin, mask and damage are
/// fixed when it is spawned; only `disabled` changes afterwards.
#[derive(Clone, Copy, Debug, PartialEq, Eq, Structural)]
pub struct Projectile {
    pub projectile_type: ProjectileType,
    /// The vessel that fired it, which it never strikes.
    pub source: Option<EntityId>,
    /// The layers it may strike.
    pub mask: u32,
    /// Hit points it takes, in thousandths.
    pub damage: u64,
    /// Set when it has aged out or has hit; it is then due for removal and
    /// takes no further part in collisions.
    pub disabled: bool,
}

/// The one-shot countdown of a projectile's lifetime.
#[derive(Clone, Copy, Debug, PartialEq, Eq, Structural)]
pub struct ProjectileTimer {
    pub timer: Timer,
}

/// A projectile in flight together with its lifetime.
#[derive(Clone, Copy, Debug, PartialEq, Eq, Structural)]
pub struct ProjectileBundle {
    pub projectile: Projectile,
    pub timer: ProjectileTimer,
}

/// An entity that overlaps a projectile's shape, with the layer it is on.
#[derive(Clone, Copy, Debug, PartialEq, Eq, Structural)]
pub struct Candidate {
    pub entity: EntityId,
    pub layer: u32,
}

/// Message that a projectile has struck `target`. It carries the projectile
/// as it was before the hit.
#[derive(Clone, Copy, Debug, PartialEq, Eq, Structural)]
pub struct ProjectileCollision {
    pub projectile: Projectile,
    pub target: EntityId,
}

/// Message that a projectile has been removed. `slot` is its place among the
/// projectiles before the removal, by which its last position is found.
#[derive(Clone, Copy, Debug, PartialEq, Eq, Structural)]
pub struct ProjectileDespawn {
    pub projectile: Projectile,
    pub slot: usize,
}

/// How a projectile moves.
#[derive(Clone, Copy, Debug, PartialEq, Eq, Structural)]
pub enum Motion {
    Cannon(Cannon),
    Rocket(Rocket),
}

/// A projectile to be brought into the world.
#[derive(Clone, Copy, Debug, PartialEq, Eq, Structural)]
pub struct ProjectileSpawn {
    pub projectile: Projectile,
    pub timer: ProjectileTimer,
    pub motion: Motion,
    /// Layer and mask of its collider.
    pub groups: CollisionGroups,
    /// Where the turret stood when it fired.
    pub position: Point,
    /// Where the turret pointed when it fired.
    pub direction: Direction,
    /// Where the projectile starts, in the turret's frame.
    pub offset: Point,
    /// Its heading against the turret's, in sixteenths of a half turn,
    /// counter-clockwise.
    pub heading: i32,
}

impl ProjectileSpawn {
    /// True when the projectile is live and the whole of its lifetime is
    /// still ahead of it.
    pub open spec fn unused(self) -> bool {
        &&& !self.projectile.disabled
        &&& self.timer.timer.mode == TimerMode::Once
        &&& self.timer.timer.elapsed_ns == 0
        &&& !self.timer.timer.finished
    }

    /// True when the projectile was made from the shot `ev`: it is on the
    /// projectile layer, it may strike what the shot's mask admits, and the
    /// vessel that fired the shot is its origin.
    pub open spec fn made_from(self, ev: TurretTriggered) -> bool {
        &&& self.projectile.source == Some(ev.source)
        &&& self.projectile.mask == ev.turret_mask
        &&& self.groups == (CollisionGroups {
            memberships: PROJECTILE_LAYER,
            filters: ev.turret_mask,
        })
        &&& self.position == ev.source_position
        &&& self.direction == ev.source_direction
    }
}

impl Projectile {
    /// A fresh projectile.
    pub open spec fn fresh(
        projectile_type: ProjectileType,
        source: EntityId,
        mask: u32,
        damage: u64,
    ) -> Projectile {
        Projectile { projectile_type, source: Some(source), mask, damage, disabled: false }
    }

    /// True when the projectile may strike `candidate`: the candidate is on a
    /// layer that the mask admits and is not the vessel that fired.
    pub open spec fn valid_target(self, candidate: Candidate) -> bool {
        mask_admits(self.mask, candidate.layer) && self.source != Some(candidate.entity)
    }

    /// The first of `candidates` that the projectile may strike.
    pub open spec fn first_hit(self, candidates: Seq<Candidate>) -> Option<Candidate>
        decreases candidates.len(),
    {
        if candidates.len() == 0 {
            None
        } else if self.valid_target(candidates[0]) {
            Some(candidates[0])
        } else {
            self.first_hit(candidates.drop_first())
        }
    }

    /// True when `other` is this projectile but for its `disabled` flag: kind,
    /// origin, mask and damage are the same.
    pub open spec fn same_make(self, other: Projectile) -> bool {
        &&& self.projectile_type == other.projectile_type
        &&& self.source == other.source
        &&& self.mask == other.mask
        &&& self.damage == other.damage
    }

    /// The projectile once it has hit.
    pub open spec fn spent(self) -> Projectile {
        Projectile { disabled: true, ..self }
    }

    /// The message of the projectile striking `target`.
    pub open spec fn collision(self, target: EntityId) -> ProjectileCollision {
        ProjectileCollision { projectile: self, target }
    }

    /// The projectile and its message after it has met one overlapping
    /// entity.
    pub open spec fn struck(self, candidate: Candidate) -> (Projectile, Option<ProjectileCollision>) {
        if !self.disabled && self.valid_target(candidate) {
            (self.spent(), Some(self.collision(candidate.entity)))
        } else {
            (self, None)
        }
    }

    /// The projectile and its message after one pass of the resolver over the
    /// entities that overlap it, in the order the query gave them. A disabled
    /// projectile is passed over; a live one strikes the first entity it may
    /// strike, and no other.
    pub open spec fn resolved(self, candidates: Seq<Candidate>) -> (
        Projectile,
        Option<ProjectileCollision>,
    ) {
        if self.disabled {
            (self, None)
        } else {
            match self.first_hit(candidates) {
                Some(candidate) => (self.spent(), Some(self.collision(candidate.entity))),
                None => (self, None),
            }
        }
    }

    /// A projectile as it leaves the turret.
    pub fn new(projectile_type: ProjectileType, source: EntityId, mask: u32, damage: u64) -> (projectile:
        Projectile)
        ensures
            projectile == Projectile::fresh(projectile_type, source, mask, damage),
    {
        Projectile { projectile_type, source: Some(source), mask, damage, disabled: false }
    }

    /// Whether the projectile may strike `candidate`.
    pub fn may_strike(&self, candidate: Candidate) -> (valid: bool)
        ensures
            valid == self.valid_target(candidate),
    {
        let own = match self.source {
            Some(source) => source.bits == candidate.entity.bits,
            None => false,
        };
        (self.mask & candidate.layer) != 0 && !own
    }

    /// Meets one overlapping entity. A live projectile that may strike it is
    /// disabled and sends its message; otherwise nothing changes and the scan
    /// goes on.
    pub fn strike(&mut self, candidate: Candidate) -> (hit: Option<ProjectileCollision>)
        ensures
            (*final(self), hit) == old(self).struck(candidate),
    {
        if !self.disabled && self.may_strike(candidate) {
            let hit = ProjectileCollision { projectile: *self, target: candidate.entity };
            self.disabled = true;
            Some(hit)
        } else {
            None
        }
    }

    /// Runs the resolver for this projectile over the entities that overlap
    /// it this tick.
    pub fn check_intersections(&mut self, candidates: &Vec<Candidate>) -> (hit: Option<
        ProjectileCollision,
    >)
        ensures
            (*final(self), hit) == old(self).resolved(candidates@),
    {
        if self.disabled {
            return None;
        }
        let mut i: usize = 0;
        proof {
            assert(candidates@.skip(0) == candidates@);
        }
        while i < candidates.len()
            invariant
                i <= candidates@.len(),
                *self == *old(self),
                !self.disabled,
                self.first_hit(candidates@) == self.first_hit(candidates@.skip(i as int)),
            decreases candidates.len() - i,
        {
            let candidate = candidates[i];
            proof {
                assert(candidates@.skip(i as int)[0] == candidate);
                assert(candidates@.skip(i as int).drop_first() == candidates@.skip(i + 1));
            }
            let hit = self.strike(candidate);
            if hit.is_some() {
                return hit;
            }
            i += 1;
        }
        proof {
            assert(candidates@.skip(i as int).len() == 0);
        }
        None
    }
}

impl ProjectileTimer {
    /// A lifetime of `lifetime_ns` nanoseconds, not yet begun.
    pub open spec fn fresh(lifetime_ns: u64) -> ProjectileTimer {
        ProjectileTimer {
            timer: Timer {
                duration_ns: lifetime_ns,
                elapsed_ns: 0,
                mode: TimerMode::Once,
                finished: false,
                times_finished_this_tick: 0,
            },
        }
    }

    /// A one-shot timer over the projectile's lifetime.
    pub fn new(lifetime_ns: u64) -> (timer: ProjectileTimer)
        ensures
            timer == ProjectileTimer::fresh(lifetime_ns),
            timer.timer.wf(),
    {
        ProjectileTimer { timer: Timer::new(lifetime_ns, TimerMode::Once) }
    }
}

impl ProjectileBundle {
    /// The lifetime is a sound one-shot timer, and a projectile whose
    /// lifetime has run out is disabled.
    pub open spec fn wf(self) -> bool {
        &&& self.timer.timer.wf()
        &&& self.timer.timer.mode == TimerMode::Once
        &&& (self.timer.timer.finished ==> self.projectile.disabled)
    }

    /// The projectile after `delta` nanoseconds of flight: its timer has run,
    /// and it is disabled if the timer expired in this tick.
    pub open spec fn aged(self, delta: nat) -> ProjectileBundle {
        let timer = self.timer.timer.ticked(delta);
        ProjectileBundle {
            projectile: Projectile {
                disabled: self.projectile.disabled || timer.spec_just_finished(),
                ..self.projectile
            },
            timer: ProjectileTimer { timer },
        }
    }

    /// The projectile and its message after one pass of the resolver.
    pub open spec fn resolved(self, candidates: Seq<Candidate>) -> (
        ProjectileBundle,
        Option<ProjectileCollision>,
    ) {
        let (projectile, hit) = self.projectile.resolved(candidates);
        (ProjectileBundle { projectile, ..self }, hit)
    }

    /// The projectile after a run of ticks in which nothing but time acted
    /// on it.
    pub open spec fn aged_through(self, deltas: Seq<u64>) -> ProjectileBundle
        decreases deltas.len(),
    {
        if deltas.len() == 0 {
            self
        } else {
            self.aged_through(deltas.drop_last()).aged(deltas.last() as nat)
        }
    }

    /// The projectile and its message after one tick of flight: it ages,
    /// then the resolver runs over the entities that overlap it.
    pub open spec fn flown(self, delta: nat, candidates: Seq<Candidate>) -> (
        ProjectileBundle,
        Option<ProjectileCollision>,
    ) {
        self.aged(delta).resolved(candidates)
    }

    /// The projectile after a run of ticks of flight, with all the messages
    /// it sent on the way. Each tick gives the time passed and the entities
    /// that overlap the projectile.
    pub open spec fn flown_through(self, ticks: Seq<(u64, Seq<Candidate>)>) -> (
        ProjectileBundle,
        Seq<ProjectileCollision>,
    )
        decreases ticks.len(),
    {
        if ticks.len() == 0 {
            (self, Seq::empty())
        } else {
            let (before, hits) = self.flown_through(ticks.drop_last());
            let (after, hit) = before.flown(ticks.last().0 as nat, ticks.last().1);
            (
                after,
                match hit {
                    Some(hit) => hits.push(hit),
                    None => hits,
                },
            )
        }
    }

    /// Ages the projectile by `delta_ns` nanoseconds.
    pub fn tick(&mut self, delta_ns: u64)
        ensures
            *final(self) == old(self).aged(delta_ns as nat),
            old(self).wf() ==> final(self).wf(),
    {
        proof {
            if self.wf() {
                lemma_flight_keeps_wf(*self, delta_ns as nat, Seq::empty());
            }
        }
        let mut timer = self.timer.timer;
        timer.tick(delta_ns);
        self.timer = ProjectileTimer { timer };
        if timer.just_finished() {
            let mut projectile = self.projectile;
            projectile.disabled = true;
            self.projectile = projectile;
        }
    }
}

/// The entities that overlap projectile `slot`; none where the query gave
/// no answer for it.
pub open spec fn overlaps_of(overlaps: Seq<Vec<Candidate>>, slot: int) -> Seq<Candidate> {
    if 0 <= slot < overlaps.len() {
        overlaps[slot]@
    } else {
        Seq::empty()
    }
}

/// Every projectile after `delta` nanoseconds of flight.
pub open spec fn aged_all(projectiles: Seq<ProjectileBundle>, delta: nat) -> Seq<ProjectileBundle> {
    projectiles.map_values(|bundle: ProjectileBundle| bundle.aged(delta))
}

/// Every projectile with its message after one pass of the resolver, each
/// over the entities that overlap it.
pub open spec fn resolved_all(
    projectiles: Seq<ProjectileBundle>,
    overlaps: Seq<Vec<Candidate>>,
) -> Seq<(ProjectileBundle, Option<ProjectileCollision>)> {
    Seq::new(
        projectiles.len(),
        |slot: int| projectiles[slot].resolved(overlaps_of(overlaps, slot)),
    )
}

/// The notice for projectile `slot`, if it is due for removal.
pub open spec fn despawn_notice(projectiles: Seq<ProjectileBundle>, slot: int) -> Option<
    ProjectileDespawn,
> {
    if 0 <= slot < projectiles.len() && projectiles[slot].projectile.disabled {
        Some(ProjectileDespawn { projectile: projectiles[slot].projectile, slot: slot as usize })
    } else {
        None
    }
}

/// The notices for all projectiles that are due for removal, in order.
pub open spec fn despawn_notices(projectiles: Seq<ProjectileBundle>) -> Seq<ProjectileDespawn> {
    Seq::new(projectiles.len(), |slot: int| despawn_notice(projectiles, slot)).filter_map(
        |notice: Option<ProjectileDespawn>| notice,
    )
}

/// The test that keeps a projectile in the world: it is not disabled.
pub open spec fn in_flight() -> spec_fn(ProjectileBundle) -> bool {
    |bundle: ProjectileBundle| !bundle.projectile.disabled
}

/// Ages every projectile by `delta_ns` nanoseconds and disables those whose
/// lifetime ran out in this tick.
pub fn tick_projectile_timers(projectiles: &mut Vec<ProjectileBundle>, delta_ns: u64)
    ensures
        final(projectiles)@ == aged_all(old(projectiles)@, delta_ns as nat),
{
    let mut i: usize = 0;
    while i < projectiles.len()
        invariant
            i <= projectiles@.len(),
            projectiles@.len() == old(projectiles)@.len(),
            forall|k: int|
                0 <= k < i ==> #[trigger] projectiles@[k] == old(projectiles)@[k].aged(
                    delta_ns as nat,
                ),
            forall|k: int|
                i <= k < projectiles@.len() ==> #[trigger] projectiles@[k] == old(projectiles)@[k],
        decreases projectiles.len() - i,
    {
        let mut bundle = projectiles[i];
        bundle.tick(delta_ns);
        projectiles.set(i, bundle);
        i += 1;
    }
    proof {
        assert(projectiles@ =~= aged_all(old(projectiles)@, delta_ns as nat));
    }
}

/// Runs the resolver once for every projectile. `overlaps[i]` holds the
/// entities that overlap projectile `i`, in the order the query gave them.
/// Entry `i` of the result is the message of projectile `i`, if it hit.
pub fn check_projectile_intersections(
    projectiles: &mut Vec<ProjectileBundle>,
    overlaps: &Vec<Vec<Candidate>>,
) -> (hits: Vec<Option<ProjectileCollision>>)
    ensures
        final(projectiles)@ == firsts(resolved_all(old(projectiles)@, overlaps@)),
        hits@ == seconds(resolved_all(old(projectiles)@, overlaps@)),
{
    let mut hits: Vec<Option<ProjectileCollision>> = Vec::new();
    let mut i: usize = 0;
    while i < projectiles.len()
        invariant
            i <= projectiles@.len(),
            projectiles@.len() == old(projectiles)@.len(),
            hits@.len() == i,
            forall|k: int|
                0 <= k < i ==> #[trigger] projectiles@[k] == old(projectiles)@[k].resolved(
                    overlaps_of(overlaps@, k),
                ).0,
            forall|k: int|
                0 <= k < i ==> #[trigger] hits@[k] == old(projectiles)@[k].resolved(
                    overlaps_of(overlaps@, k),
                ).1,
            forall|k: int|
                i <= k < projectiles@.len() ==> #[trigger] projectiles@[k] == old(projectiles)@[k],
        decreases projectiles.len() - i,
    {
        let mut bundle = projectiles[i];
        let mut projectile = bundle.projectile;
        let hit = if i < overlaps.len() {
            projectile.check_intersections(&overlaps[i])
        } else {
            proof {
                assert(projectile.first_hit(Seq::empty()).is_none());
            }
            None
        };
        bundle.projectile = projectile;
        projectiles.set(i, bundle);
        hits.push(hit);
        i += 1;
    }
    proof {
        let pairs = resolved_all(old(projectiles)@, overlaps@);
        assert(projectiles@ =~= firsts(pairs));
        assert(hits@ =~= seconds(pairs));
    }
    hits
}

/// Removes every disabled projectile and reports each removal. The
/// projectiles that stay keep their order and are not touched.
pub fn despawn_projectiles(projectiles: &mut Vec<ProjectileBundle>) -> (notices: Vec<
    ProjectileDespawn,
>)
    ensures
        final(projectiles)@ == old(projectiles)@.filter(in_flight()),
        notices@ == despawn_notices(old(projectiles)@),
{
    let mut kept: Vec<ProjectileBundle> = Vec::new();
    let mut notices: Vec<ProjectileDespawn> = Vec::new();
    let ghost slots = Seq::new(
        projectiles@.len(),
        |slot: int| despawn_notice(projectiles@, slot),
    );
    let ghost pick = |notice: Option<ProjectileDespawn>| notice;
    let mut i: usize = 0;
    while i < projectiles.len()
        invariant
            i <= projectiles@.len(),
            projectiles@ == old(projectiles)@,
            slots == Seq::new(projectiles@.len(), |slot: int| despawn_notice(projectiles@, slot)),
            pick == |notice: Option<ProjectileDespawn>| notice,
            kept@ == projectiles@.take(i as int).filter(in_flight()),
            notices@ == slots.take(i as int).filter_map(pick),
        decreases projectiles.len() - i,
    {
        let bundle = projectiles[i];
        proof {
            assert(projectiles@.take(i + 1) == projectiles@.take(i as int).push(bundle));
            projectiles@.take(i as int).lemma_filter_push(bundle, in_flight());
            slots.lemma_filter_map_take_succ(pick, i as int);
        }
        if bundle.projectile.disabled {
            notices.push(ProjectileDespawn { projectile: bundle.projectile, slot: i });
        } else {
            kept.push(bundle);
        }
        i += 1;
    }
    proof {
        assert(projectiles@.take(i as int) == projectiles@);
        assert(slots.take(i as int) == slots);
    }
    *projectiles = kept;
    notices
}

/// What the first entity struck is: one of the candidates, admitted by the
/// mask, not the vessel that fired, with no candidate before it that the
/// projectile may strike. Where nothing is struck, no candidate may be.
pub proof fn lemma_first_hit(projectile: Projectile, candidates: Seq<Candidate>)
    ensures
        match projectile.first_hit(candidates) {
            Some(candidate) => exists|k: int|
                {
                    &&& 0 <= k < candidates.len()
                    &&& #[trigger] candidates[k] == candidate
                    &&& projectile.valid_target(candidate)
                    &&& forall|j: int| 0 <= j < k ==> !projectile.valid_target(#[trigger] candidates[j])
                },
            None => forall|k: int|
                0 <= k < candidates.len() ==> !projectile.valid_target(#[trigger] candidates[k]),
        },
    decreases candidates.len(),
{
    if candidates.len() > 0 {
        if projectile.valid_target(candidates[0]) {
            assert(candidates[0] == candidates[0]);
        } else {
            let rest = candidates.drop_first();
            lemma_first_hit(projectile, rest);
            match projectile.first_hit(rest) {
                Some(candidate) => {
                    let k = choose|k: int|
                        {
                            &&& 0 <= k < rest.len()
                            &&& #[trigger] rest[k] == candidate
                            &&& projectile.valid_target(candidate)
                            &&& forall|j: int|
                                0 <= j < k ==> !projectile.valid_target(#[trigger] rest[j])
                        };
                    assert(candidates[k + 1] == candidate);
                    assert forall|j: int| 0 <= j < k + 1 implies !projectile.valid_target(
                        #[trigger] candidates[j],
                    ) by {
                        if j > 0 {
                            assert(rest[j - 1] == candidates[j]);
                        }
                    }
                },
                None => {
                    assert forall|k: int| 0 <= k < candidates.len() implies !projectile.valid_target(
                        #[trigger] candidates[k],
                    ) by {
                        if k > 0 {
                            assert(rest[k - 1] == candidates[k]);
                        }
                    }
                },
            }
        }
    }
}

/// A projectile never strikes the vessel that fired it, whatever overlaps
/// it, and never an entity on a layer outside its mask: the entity it
/// strikes is a candidate on a layer that the mask admits.
pub proof fn lemma_hit_respects_origin_and_mask(projectile: Projectile, candidates: Seq<Candidate>)
    ensures
        match projectile.resolved(candidates).1 {
            Some(hit) => {
                &&& projectile.source != Some(hit.target)
                &&& hit.projectile == projectile
                &&& !projectile.disabled
                &&& projectile.resolved(candidates).0 == projectile.spent()
                &&& exists|k: int|
                    {
                        &&& 0 <= k < candidates.len()
                        &&& (#[trigger] candidates[k]).entity == hit.target
                        &&& mask_admits(projectile.mask, candidates[k].layer)
                    }
            },
            None => projectile.resolved(candidates).0 == projectile,
        },
{
    lemma_first_hit(projectile, candidates);
}

/// Over its whole life a projectile sends at most one collision message,
/// and it is disabled by the end of the tick in which it sent one. A
/// projectile that is disabled sends none and stays disabled. Flight changes
/// nothing of a projectile but that flag.
pub proof fn lemma_at_most_one_hit(bundle: ProjectileBundle, ticks: Seq<(u64, Seq<Candidate>)>)
    ensures
        bundle.flown_through(ticks).1.len() <= 1,
        bundle.projectile.same_make(bundle.flown_through(ticks).0.projectile),
        bundle.flown_through(ticks).1.len() == 1 ==> bundle.flown_through(
            ticks,
        ).0.projectile.disabled,
        bundle.projectile.disabled ==> bundle.flown_through(ticks).1.len() == 0,
        bundle.projectile.disabled ==> bundle.flown_through(ticks).0.projectile.disabled,
    decreases ticks.len(),
{
    if ticks.len() > 0 {
        lemma_at_most_one_hit(bundle, ticks.drop_last());
    }
}

/// A projectile with a lifetime that nothing strikes is disabled by the
/// first tick at which the time passed since its launch reaches the
/// lifetime, and not before.
pub proof fn lemma_expires_on_time(bundle: ProjectileBundle, life_time_ns: u64, deltas: Seq<u64>)
    requires
        !bundle.projectile.disabled,
        bundle.timer == ProjectileTimer::fresh(life_time_ns),
    ensures
        bundle.aged_through(deltas).projectile.disabled <==> deltas.len() > 0 && total(deltas)
            >= life_time_ns,
        !bundle.aged_through(deltas).projectile.disabled ==> bundle.aged_through(
            deltas,
        ).timer.timer.elapsed_ns == total(deltas),
        bundle.aged_through(deltas).timer.timer.mode == TimerMode::Once,
        bundle.aged_through(deltas).timer.timer.duration_ns == life_time_ns,
        bundle.aged_through(deltas).timer.timer.finished == bundle.aged_through(
            deltas,
        ).projectile.disabled,
    decreases deltas.len(),
{
    if deltas.len() > 0 {
        let earlier = deltas.drop_last();
        lemma_expires_on_time(bundle, life_time_ns, earlier);
        let before = bundle.aged_through(earlier);
        if !before.projectile.disabled {
            lemma_elapsed_after_bounded(
                life_time_ns as nat,
                total(earlier),
                false,
                deltas.last() as nat,
            );
        }
    }
}

/// Aging and the resolver keep a projectile sound.
pub proof fn lemma_flight_keeps_wf(bundle: ProjectileBundle, delta: nat, candidates: Seq<Candidate>)
    requires
        bundle.wf(),
        delta <= u64::MAX,
    ensures
        bundle.aged(delta).wf(),
        bundle.resolved(candidates).0.wf(),
        bundle.flown(delta, candidates).0.wf(),
{
    let timer = bundle.timer.timer;
    lemma_elapsed_after_bounded(timer.duration_ns as nat, timer.elapsed_ns as nat, false, delta);
}

} // verus!
