//! One simulation tick: the stages of the combat pipeline in their fixed
//! order.
//!
//! The turret controller comes first, then projectiles are spawned from its
//! shots, then the projectiles in flight age, then the resolver runs, then
//! hits become damage and what is spent or dead leaves. The projectiles
//! spawned in a tick join those in flight only at its end, so the resolver
//! first sees them in the tick after. The sweep for dead entities reads the
//! ledger before the tick's damage is applied, so an entity brought to zero
//! in one tick leaves in the next.

use vstd::prelude::*;
use crate::enemy::{despawn_enemies, entity_of};
use crate::entity::{EntityId, PlayerQuery};
use crate::geometry::Point;
use crate::collision::Faction;
use crate::geometry::Velocity;
use crate::health::{
    alive, apply_projectile_damage, damaged_by_all, dead, lemma_damage_keeps_the_entries, Health,
};
use crate::projectile::cannon::{
    all_cannon_shells, lemma_cannon_shells_are_unused, spawn_cannons,
};
use crate::projectile::rocket::{all_rockets, lemma_rockets_are_unused, spawn_rockets};
use crate::projectile::rocket_explosion::{exploding, spawn_rocket_explosion};
use crate::projectile::{
    aged_all, check_projectile_intersections, despawn_notices, despawn_projectiles, in_flight,
    lemma_flight_keeps_wf, overlaps_of, resolved_all, tick_projectile_timers, Candidate,
    ProjectileBundle, ProjectileCollision, ProjectileDespawn, ProjectileSpawn,
};
use crate::seqs::{collect_present, firsts, lemma_present_len, present, seconds};
use crate::turret::{
    aimed_all_for_enemy, aimed_all_for_player, cooldown_turrets, cooled_all, despawn_turrets,
    lemma_cooled_keeps_wf, lemma_passes_keep_wf, mount_of, mounted_turrets, owned_by,
    reposition_turrets, repositioned_all, spawn_turrets, trigger_enemy_turrets,
    trigger_player_turrets, triggered_all_for_enemy, triggered_all_for_player,
    update_enemy_turret_targets, update_player_turret_targets, Turret, TurretStats,
    TurretTriggered,
};
use crate::vessel::{SpawnVessel, Vessel};

verus! {

/// The combat state: every turret, every projectile in flight, and the
/// health ledger.
#[derive(Clone, Debug)]
pub struct Combat {
    pub turrets: Vec<Turret>,
    pub projectiles: Vec<ProjectileBundle>,
    pub healths: Vec<Health>,
}

/// What the world outside reports for one tick.
#[derive(Clone, Debug)]
pub struct TickInput {
    /// Time since the last tick, in nanoseconds. Every timer runs by it.
    pub delta_ns: u64,
    /// Whether the fire input is held.
    pub fire_held: bool,
    /// Where the cursor points in the world.
    pub cursor: Point,
    /// The player entities that exist.
    pub players: Vec<Vessel>,
    /// The enemy entities that exist.
    pub enemies: Vec<Vessel>,
    /// Every vessel that exists and can own a turret.
    pub owners: Vec<Vessel>,
    /// For each turret, where its owner's mount stands; `None` where the
    /// owner could not be found.
    pub mounts: Vec<Option<Point>>,
    /// For each projectile in flight, the entities that overlap it, in the
    /// order the physics query gave them.
    pub overlaps: Vec<Vec<Candidate>>,
}

/// What one tick sends out.
#[derive(Clone, Debug)]
pub struct TickOutput {
    /// The shots fired, the player's first.
    pub shots: Vec<TurretTriggered>,
    /// The projectiles made from the shots, shells first.
    pub spawned: Vec<ProjectileSpawn>,
    /// The hits of the projectiles that were in flight.
    pub collisions: Vec<ProjectileCollision>,
    /// The projectiles that left, by their place before the tick.
    pub despawned: Vec<ProjectileDespawn>,
    /// Those of them that leave an explosion.
    pub explosions: Vec<ProjectileDespawn>,
    /// The entities to remove because they had no hit points left.
    pub removed: Vec<EntityId>,
}

/// The combat state as plain sequences.
pub struct CombatView {
    pub turrets: Seq<Turret>,
    pub projectiles: Seq<ProjectileBundle>,
    pub healths: Seq<Health>,
}

/// A tick's input as plain sequences.
pub struct TickInputView {
    pub delta_ns: u64,
    pub fire_held: bool,
    pub cursor: Point,
    pub players: Seq<Vessel>,
    pub enemies: Seq<Vessel>,
    pub owners: Seq<Vessel>,
    pub mounts: Seq<Option<Point>>,
    pub overlaps: Seq<Vec<Candidate>>,
}

/// A tick's output as plain sequences.
pub struct TickOutputView {
    pub shots: Seq<TurretTriggered>,
    pub spawned: Seq<ProjectileSpawn>,
    pub collisions: Seq<ProjectileCollision>,
    pub despawned: Seq<ProjectileDespawn>,
    pub explosions: Seq<ProjectileDespawn>,
    pub removed: Seq<EntityId>,
}

impl CombatView {
    /// Every turret and every projectile is sound.
    pub open spec fn wf(self) -> bool {
        &&& forall|k: int| 0 <= k < self.turrets.len() ==> (#[trigger] self.turrets[k]).wf()
        &&& forall|k: int|
            0 <= k < self.projectiles.len() ==> (#[trigger] self.projectiles[k]).wf()
    }
}

impl View for Combat {
    type V = CombatView;

    open spec fn view(&self) -> CombatView {
        CombatView {
            turrets: self.turrets@,
            projectiles: self.projectiles@,
            healths: self.healths@,
        }
    }
}

impl View for TickInput {
    type V = TickInputView;

    open spec fn view(&self) -> TickInputView {
        TickInputView {
            delta_ns: self.delta_ns,
            fire_held: self.fire_held,
            cursor: self.cursor,
            players: self.players@,
            enemies: self.enemies@,
            owners: self.owners@,
            mounts: self.mounts@,
            overlaps: self.overlaps@,
        }
    }
}

impl View for TickOutput {
    type V = TickOutputView;

    open spec fn view(&self) -> TickOutputView {
        TickOutputView {
            shots: self.shots@,
            spawned: self.spawned@,
            collisions: self.collisions@,
            despawned: self.despawned@,
            explosions: self.explosions@,
            removed: self.removed@,
        }
    }
}

/// What stays of a spawned projectile in the combat state.
pub open spec fn bundle_of(spawn: ProjectileSpawn) -> ProjectileBundle {
    ProjectileBundle { projectile: spawn.projectile, timer: spawn.timer }
}

/// The spawned projectiles as they join those in flight.
pub open spec fn bundles_of(spawned: Seq<ProjectileSpawn>) -> Seq<ProjectileBundle> {
    spawned.map_values(|spawn: ProjectileSpawn| bundle_of(spawn))
}

/// The turrets before they fire: moved with their owners, those without an
/// owner removed, aimed, and cooled down by the tick's time.
pub open spec fn turrets_made_ready(turrets: Seq<Turret>, input: TickInputView) -> Seq<Turret> {
    let player = PlayerQuery::of(input.players);
    let owned = repositioned_all(turrets, input.mounts).filter(owned_by(input.owners));
    let aimed = aimed_all_for_enemy(
        aimed_all_for_player(owned, player, input.cursor),
        player,
        input.enemies,
    );
    cooled_all(aimed, input.delta_ns as nat)
}

/// The turrets with their messages after the player's firing pass.
pub open spec fn fired_for_player(turrets: Seq<Turret>, input: TickInputView) -> Seq<
    (Turret, Option<TurretTriggered>),
> {
    triggered_all_for_player(
        turrets_made_ready(turrets, input),
        input.fire_held,
        PlayerQuery::of(input.players),
    )
}

/// The turrets with their messages after the enemies' firing pass, which
/// follows the player's.
pub open spec fn fired_for_enemy(turrets: Seq<Turret>, input: TickInputView) -> Seq<
    (Turret, Option<TurretTriggered>),
> {
    triggered_all_for_enemy(firsts(fired_for_player(turrets, input)), input.enemies)
}

/// The shots of a tick: the player's, then the enemies'.
pub open spec fn shots_of(turrets: Seq<Turret>, input: TickInputView) -> Seq<TurretTriggered> {
    present(seconds(fired_for_player(turrets, input))) + present(
        seconds(fired_for_enemy(turrets, input)),
    )
}

/// The projectiles in flight with their messages after they have aged and
/// the resolver has run.
pub open spec fn flown_all(projectiles: Seq<ProjectileBundle>, input: TickInputView) -> Seq<
    (ProjectileBundle, Option<ProjectileCollision>),
> {
    resolved_all(aged_all(projectiles, input.delta_ns as nat), input.overlaps)
}

/// The combat state and the output after one tick.
pub open spec fn ticked(combat: CombatView, input: TickInputView) -> (CombatView, TickOutputView) {
    let shots = shots_of(combat.turrets, input);
    let spawned = all_cannon_shells(shots) + all_rockets(shots);
    let flown = flown_all(combat.projectiles, input);
    let collisions = present(seconds(flown));
    let despawned = despawn_notices(firsts(flown));
    (
        CombatView {
            turrets: firsts(fired_for_enemy(combat.turrets, input)),
            projectiles: firsts(flown).filter(in_flight()) + bundles_of(spawned),
            healths: damaged_by_all(combat.healths.filter(alive()), collisions),
        },
        TickOutputView {
            shots,
            spawned,
            collisions,
            despawned,
            explosions: despawned.filter(exploding()),
            removed: combat.healths.filter(dead()).map_values(entity_of()),
        },
    )
}

/// Takes from each spawned projectile what the combat state keeps of it.
fn bundles(spawned: &Vec<ProjectileSpawn>) -> (kept: Vec<ProjectileBundle>)
    ensures
        kept@ == bundles_of(spawned@),
{
    let mut kept: Vec<ProjectileBundle> = Vec::new();
    let mut i: usize = 0;
    while i < spawned.len()
        invariant
            i <= spawned@.len(),
            kept@.len() == i,
            forall|k: int| 0 <= k < i ==> #[trigger] kept@[k] == bundle_of(spawned@[k]),
        decreases spawned.len() - i,
    {
        kept.push(ProjectileBundle { projectile: spawned[i].projectile, timer: spawned[i].timer });
        i += 1;
    }
    proof {
        assert(kept@ =~= bundles_of(spawned@));
    }
    kept
}

impl Combat {
    /// A world without turrets, projectiles or hit points.
    pub fn new() -> (combat: Combat)
        ensures
            combat@.turrets.len() == 0,
            combat@.projectiles.len() == 0,
            combat@.healths.len() == 0,
            combat@.wf(),
    {
        Combat { turrets: Vec::new(), projectiles: Vec::new(), healths: Vec::new() }
    }

    /// Takes in a vessel that has just been spawned: its turrets are mounted
    /// behind those that are there, and its hit points enter the ledger.
    pub fn spawn_vessel(&mut self, ev: &SpawnVessel, stats: Option<&TurretStats>)
        requires
            ev.stats_scale > 0,
        ensures
            final(self)@.projectiles == old(self)@.projectiles,
            final(self)@.healths == old(self)@.healths.push(ev.health),
            stats.is_none() ==> final(self)@.turrets == old(self)@.turrets,
            stats.is_some() ==> final(self)@.turrets == old(self)@.turrets + mounted_turrets(
                ev.turrets@,
                stats.unwrap().turret_offsets@,
                ev.stats_scale,
                ev.entity,
            ),
            old(self)@.wf() ==> final(self)@.wf(),
    {
        let mut turrets = spawn_turrets(ev, stats);
        proof {
            if stats.is_none() {
                assert(self.turrets@ + turrets@ =~= self.turrets@);
            }
        }
        self.turrets.append(&mut turrets);
        self.healths.push(ev.health);
    }

    /// Runs one tick of the pipeline.
    pub fn tick(&mut self, input: &TickInput) -> (out: TickOutput)
        ensures
            (final(self)@, out@) == ticked(old(self)@, input@),
            old(self)@.wf() ==> final(self)@.wf(),
    {
        proof {
            if self@.wf() {
                lemma_tick_keeps_wf(self@, input@);
            }
        }
        reposition_turrets(&mut self.turrets, &input.mounts);
        despawn_turrets(&mut self.turrets, &input.owners);
        update_player_turret_targets(&mut self.turrets, &input.players, input.cursor);
        update_enemy_turret_targets(&mut self.turrets, &input.players, &input.enemies);
        cooldown_turrets(&mut self.turrets, input.delta_ns);
        let by_player = trigger_player_turrets(&mut self.turrets, input.fire_held, &input.players);
        let by_enemy = trigger_enemy_turrets(&mut self.turrets, &input.enemies);
        let mut shots = collect_present(&by_player);
        let mut enemy_shots = collect_present(&by_enemy);
        shots.append(&mut enemy_shots);

        let mut spawned = spawn_cannons(&shots);
        let mut rockets = spawn_rockets(&shots);
        spawned.append(&mut rockets);

        tick_projectile_timers(&mut self.projectiles, input.delta_ns);
        let hits = check_projectile_intersections(&mut self.projectiles, &input.overlaps);
        let collisions = collect_present(&hits);

        let removed = despawn_enemies(&mut self.healths);
        apply_projectile_damage(&mut self.healths, &collisions);
        let despawned = despawn_projectiles(&mut self.projectiles);
        let explosions = spawn_rocket_explosion(&despawned);

        let mut fresh = bundles(&spawned);
        self.projectiles.append(&mut fresh);
        TickOutput { shots, spawned, collisions, despawned, explosions, removed }
    }
}

/// A projectile spawned in a tick is not tested for collisions in that
/// tick: the tick's hits all come from the projectiles that were in flight
/// before it, and what is spawned joins them at the end, live and unaged.
/// No disabled projectile outlasts the tick.
pub proof fn lemma_spawned_projectiles_wait_a_tick(combat: CombatView, input: TickInputView)
    ensures
        ({
            let (after, out) = ticked(combat, input);
            let flown = flown_all(combat.projectiles, input);
            let kept = firsts(flown).filter(in_flight());
            &&& flown.len() == combat.projectiles.len()
            &&& out.collisions == present(seconds(flown))
            &&& out.collisions.len() <= combat.projectiles.len()
            &&& after.projectiles == kept + bundles_of(out.spawned)
            &&& forall|k: int| 0 <= k < out.spawned.len() ==> (#[trigger] out.spawned[k]).unused()
            &&& forall|k: int|
                0 <= k < after.projectiles.len() ==> !(#[trigger] after.projectiles[k]).projectile.disabled
        }),
{
    let (after, out) = ticked(combat, input);
    let flown = flown_all(combat.projectiles, input);
    let kept = firsts(flown).filter(in_flight());
    lemma_present_len(seconds(flown));
    lemma_cannon_shells_are_unused(out.shots);
    lemma_rockets_are_unused(out.shots);
    assert forall|k: int| 0 <= k < after.projectiles.len() implies
        !(#[trigger] after.projectiles[k]).projectile.disabled by {
        if k < kept.len() {
            firsts(flown).lemma_filter_pred(in_flight(), k);
        } else {
            assert(after.projectiles[k] == bundle_of(out.spawned[k - kept.len()]));
        }
    }
}

/// An entity that a tick's hits bring to zero is still in the ledger after
/// that tick: the sweep removes exactly the entities that were at or below
/// zero when the tick began, and the hits are applied to the others.
pub proof fn lemma_dead_leave_a_tick_late(combat: CombatView, input: TickInputView)
    ensures
        ({
            let (after, out) = ticked(combat, input);
            let survivors = combat.healths.filter(alive());
            &&& out.removed == combat.healths.filter(dead()).map_values(entity_of())
            &&& after.healths == damaged_by_all(survivors, out.collisions)
            &&& after.healths.len() == survivors.len()
            &&& forall|k: int|
                0 <= k < survivors.len() ==> (#[trigger] after.healths[k]).entity
                    == survivors[k].entity
        }),
{
    let (after, out) = ticked(combat, input);
    lemma_damage_keeps_the_entries(combat.healths.filter(alive()), out.collisions);
}

/// What a turret fires carries the layer of its faction and is masked for
/// the faction it fights, and so is every projectile made from the shot,
/// whose origin is the turret's owner.
pub proof fn lemma_shots_are_masked_for_the_opponent(
    turret: Turret,
    faction: Faction,
    velocity: Velocity,
)
    ensures
        ({
            let ev = turret.trigger(faction, velocity);
            &&& ev.turret_layer == faction.spec_layer()
            &&& ev.turret_mask == faction.spec_opposing().spec_layer()
            &&& ev.source == turret.source
            &&& forall|k: int|
                0 <= k < all_cannon_shells(seq![ev]).len() ==> (#[trigger] all_cannon_shells(
                    seq![ev],
                )[k]).made_from(ev)
            &&& forall|k: int|
                0 <= k < all_rockets(seq![ev]).len() ==> (#[trigger] all_rockets(
                    seq![ev],
                )[k]).made_from(ev)
        }),
{
    let ev = turret.trigger(faction, velocity);
    let events = seq![ev];
    lemma_cannon_shells_are_unused(events);
    lemma_rockets_are_unused(events);
    assert forall|k: int| 0 <= k < all_cannon_shells(events).len() implies
        (#[trigger] all_cannon_shells(events)[k]).made_from(ev) by {
        let shell = all_cannon_shells(events)[k];
        let e = choose|e: int| 0 <= e < events.len() && shell.made_from(#[trigger] events[e]);
        assert(events[e] == ev);
    }
    assert forall|k: int| 0 <= k < all_rockets(events).len() implies (#[trigger] all_rockets(
        events,
    )[k]).made_from(ev) by {
        let rocket = all_rockets(events)[k];
        let e = choose|e: int| 0 <= e < events.len() && rocket.made_from(#[trigger] events[e]);
        assert(events[e] == ev);
    }
}

/// A tick keeps every turret and every projectile sound.
pub proof fn lemma_tick_keeps_wf(combat: CombatView, input: TickInputView)
    requires
        combat.wf(),
    ensures
        ticked(combat, input).0.wf(),
{
    let (after, out) = ticked(combat, input);
    let player = PlayerQuery::of(input.players);
    let delta = input.delta_ns as nat;

    let placed = repositioned_all(combat.turrets, input.mounts);
    assert forall|k: int| 0 <= k < placed.len() implies (#[trigger] placed[k]).wf() by {
        lemma_passes_keep_wf(
            combat.turrets[k],
            mount_of(input.mounts, k),
            input.fire_held,
            player,
            input.enemies,
            input.cursor,
        );
    }
    let owned = placed.filter(owned_by(input.owners));
    assert forall|k: int| 0 <= k < owned.len() implies (#[trigger] owned[k]).wf() by {
        assert(owned.contains(owned[k]));
        placed.lemma_filter_contains_rev(owned_by(input.owners), owned[k]);
    }
    let aimed_first = aimed_all_for_player(owned, player, input.cursor);
    assert forall|k: int| 0 <= k < aimed_first.len() implies (#[trigger] aimed_first[k]).wf() by {
        lemma_passes_keep_wf(owned[k], None, input.fire_held, player, input.enemies, input.cursor);
    }
    let aimed = aimed_all_for_enemy(aimed_first, player, input.enemies);
    assert forall|k: int| 0 <= k < aimed.len() implies (#[trigger] aimed[k]).wf() by {
        lemma_passes_keep_wf(
            aimed_first[k],
            None,
            input.fire_held,
            player,
            input.enemies,
            input.cursor,
        );
    }
    let cooled = cooled_all(aimed, delta);
    assert forall|k: int| 0 <= k < cooled.len() implies (#[trigger] cooled[k]).wf() by {
        lemma_cooled_keeps_wf(aimed[k], delta);
    }
    assert(cooled == turrets_made_ready(combat.turrets, input));
    let by_player = firsts(fired_for_player(combat.turrets, input));
    assert forall|k: int| 0 <= k < by_player.len() implies (#[trigger] by_player[k]).wf() by {
        lemma_passes_keep_wf(cooled[k], None, input.fire_held, player, input.enemies, input.cursor);
    }
    assert forall|k: int| 0 <= k < after.turrets.len() implies
        (#[trigger] after.turrets[k]).wf() by {
        lemma_passes_keep_wf(
            by_player[k],
            None,
            input.fire_held,
            player,
            input.enemies,
            input.cursor,
        );
    }

    let aged = aged_all(combat.projectiles, delta);
    let flown = firsts(flown_all(combat.projectiles, input));
    assert forall|k: int| 0 <= k < flown.len() implies (#[trigger] flown[k]).wf() by {
        lemma_flight_keeps_wf(combat.projectiles[k], delta, Seq::empty());
        lemma_flight_keeps_wf(aged[k], 0, overlaps_of(input.overlaps, k));
    }
    let kept = flown.filter(in_flight());
    lemma_cannon_shells_are_unused(out.shots);
    lemma_rockets_are_unused(out.shots);
    assert forall|k: int| 0 <= k < after.projectiles.len() implies
        (#[trigger] after.projectiles[k]).wf() by {
        if k < kept.len() {
            assert(kept.contains(kept[k]));
            flown.lemma_filter_contains_rev(in_flight(), kept[k]);
        } else {
            assert(after.projectiles[k] == bundle_of(out.spawned[k - kept.len()]));
        }
    }
}

} // verus!
