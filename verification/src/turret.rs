//! Weapon mounts: their cooldown, their aim, and when they fire.

use vstd::prelude::*;
use crate::collision::Faction;
use crate::entity::{single_player, EntityId, PlayerQuery};
use crate::geometry::{aim_direction, aim_from, Direction, Point, Velocity};
use crate::seqs::{firsts, seconds};
use crate::timer::{lemma_elapsed_after_bounded, total, Timer, TimerMode};
use crate::vessel::{find_vessel, lookup, SpawnVessel, Vessel};

verus! {

/// Height, in thousandths of a world unit, by which a turret is drawn above
/// the hull it sits on.
pub const TURRET_Z_OFFSET: i32 = 10_000;

/// Reload time of a cannon at the reference power tier, in nanoseconds.
pub const CANNON_COOLDOWN_NS: u64 = 100_000_000;

/// Reload time of a rocket launcher at the reference power tier.
pub const ROCKET_COOLDOWN_NS: u64 = 500_000_000;

/// Reload time of a medium rocket launcher at the reference power tier.
pub const MEDIUM_ROCKET_COOLDOWN_NS: u64 = 1_000_000_000;

/// The kind of weapon on a mount.
#[derive(Clone, Copy, Debug, PartialEq, Eq, Structural)]
pub enum TurretType {
    Cannon,
    Rocket,
    MediumRocket,
}

/// One weapon mount of a vessel.
#[derive(Clone, Copy, Debug, PartialEq, Eq, Structural)]
pub struct Turret {
    pub turret_type: TurretType,
    /// Power tier of the owning vessel, in thousandths; never zero.
    pub stats_scale: u32,
    /// The vessel this turret sits on. The turret does not keep it alive.
    pub source: EntityId,
    /// Where the turret stands in the world.
    pub position: Point,
    /// The point the turret bears on.
    pub target_point: Point,
    /// Where the turret points.
    pub target_direction: Direction,
    /// Place of the mount in the owner's frame.
    pub offset: Point,
    /// True from a shot until the cooldown has run out.
    pub cooling_down: bool,
    pub cooldown_timer: Timer,
}

/// Where the mount slots of a vessel sit in its own frame, in slot order.
#[derive(Clone, Debug)]
pub struct TurretStats {
    pub turret_offsets: Vec<Point>,
}

/// Message that a turret has fired; the projectiles are made from it.
#[derive(Clone, Copy, Debug, PartialEq, Eq, Structural)]
pub struct TurretTriggered {
    pub turret_type: TurretType,
    /// Layer of the faction that fired.
    pub turret_layer: u32,
    /// Layer that the shot may strike.
    pub turret_mask: u32,
    /// The vessel that fired.
    pub source: EntityId,
    /// Where the turret stood when it fired.
    pub source_position: Point,
    /// Where the turret pointed when it fired.
    pub source_direction: Direction,
    /// Velocity of the vessel that fired.
    pub source_velocity: Velocity,
    /// The point the turret bore on.
    pub target_point: Point,
    /// Power tier of that vessel, in thousandths.
    pub stats_scale: u32,
}

/// What the controller does with a turret once it has looked up its owner.
#[derive(Clone, Copy, Debug, PartialEq, Eq, Structural)]
pub enum Placement {
    /// The owner exists: the turret moves with it.
    Follow,
    /// The owner is gone: the turret stays where it is and is to be removed.
    Remove,
}

/// Reload time of a weapon at the reference power tier.
pub open spec fn base_cooldown(turret_type: TurretType) -> nat {
    match turret_type {
        TurretType::Cannon => CANNON_COOLDOWN_NS as nat,
        TurretType::Rocket => ROCKET_COOLDOWN_NS as nat,
        TurretType::MediumRocket => MEDIUM_ROCKET_COOLDOWN_NS as nat,
    }
}

/// Reload time of a weapon on a vessel of the given power tier: the base
/// time divided by the tier, so that a stronger vessel reloads faster.
pub open spec fn cooldown_of(turret_type: TurretType, stats_scale: nat) -> nat
    recommends
        stats_scale > 0,
{
    base_cooldown(turret_type) * 1000 / stats_scale
}

/// Reload time in nanoseconds of a weapon on a vessel whose power tier is
/// `stats_scale` thousandths.
pub fn cooldown_from_turret_type(turret_type: TurretType, stats_scale: u32) -> (cooldown_ns: u64)
    requires
        stats_scale > 0,
    ensures
        cooldown_ns == cooldown_of(turret_type, stats_scale as nat),
        cooldown_ns > 0,
{
    let base: u64 = match turret_type {
        TurretType::Cannon => CANNON_COOLDOWN_NS,
        TurretType::Rocket => ROCKET_COOLDOWN_NS,
        TurretType::MediumRocket => MEDIUM_ROCKET_COOLDOWN_NS,
    };
    let scaled: u64 = base * 1000;
    assert(scaled / (stats_scale as u64) > 0) by (nonlinear_arith)
        requires
            scaled >= 100_000_000_000,
            0 < stats_scale <= 0xffff_ffff,
    ;
    scaled / (stats_scale as u64)
}

impl Turret {
    /// The turret's timer is a sound repeating timer over its reload time.
    pub open spec fn wf(self) -> bool {
        &&& self.stats_scale > 0
        &&& self.cooldown_timer.wf()
        &&& self.cooldown_timer.mode == TimerMode::Repeating
        &&& self.cooldown_timer.duration_ns == cooldown_of(
            self.turret_type,
            self.stats_scale as nat,
        )
    }

    /// A turret as it is mounted: ready, with a full reload time ahead of its
    /// first shot.
    pub open spec fn mounted(
        turret_type: TurretType,
        stats_scale: u32,
        source: EntityId,
        offset: Point,
    ) -> Turret {
        Turret {
            turret_type,
            stats_scale,
            source,
            position: Point { x: 0, y: 0 },
            target_point: Point { x: 0, y: 0 },
            target_direction: Direction { x: 0, y: 0 },
            offset,
            cooling_down: false,
            cooldown_timer: Timer {
                duration_ns: cooldown_of(turret_type, stats_scale as nat) as u64,
                elapsed_ns: 0,
                mode: TimerMode::Repeating,
                finished: false,
                times_finished_this_tick: 0,
            },
        }
    }

    /// The turret after `delta` nanoseconds: a ready turret is left alone; a
    /// cooling one runs its timer and is ready once the timer expires.
    pub open spec fn cooled(self, delta: nat) -> Turret {
        if !self.cooling_down {
            self
        } else {
            let timer = self.cooldown_timer.ticked(delta);
            Turret { cooldown_timer: timer, cooling_down: !timer.spec_just_finished(), ..self }
        }
    }

    /// The turret after a run of ticks, each of which only ran the cooldown.
    pub open spec fn cooled_through(self, deltas: Seq<u64>) -> Turret
        decreases deltas.len(),
    {
        if deltas.len() == 0 {
            self
        } else {
            self.cooled_through(deltas.drop_last()).cooled(deltas.last() as nat)
        }
    }

    /// The turret right after a shot: cooling down, its full reload time
    /// ahead of it.
    pub open spec fn fired(self) -> Turret {
        Turret {
            cooling_down: true,
            cooldown_timer: Timer {
                elapsed_ns: 0,
                finished: false,
                times_finished_this_tick: 0,
                ..self.cooldown_timer
            },
            ..self
        }
    }

    /// The message a shot of this turret sends when it fires for `faction`:
    /// it is stamped with the faction's layer and with the layer of the
    /// faction it fights as its mask.
    pub open spec fn trigger(self, faction: Faction, velocity: Velocity) -> TurretTriggered {
        TurretTriggered {
            turret_type: self.turret_type,
            turret_layer: faction.spec_layer(),
            turret_mask: faction.spec_projectile_mask(),
            source: self.source,
            source_position: self.position,
            source_direction: self.target_direction,
            source_velocity: velocity,
            target_point: self.target_point,
            stats_scale: self.stats_scale,
        }
    }

    /// A player's turret fires while the fire input is held, it is ready, and
    /// its owner is the one player.
    pub open spec fn fires_for_player(self, fire_held: bool, player: PlayerQuery) -> bool {
        fire_held && !self.cooling_down && player.spec_is_player(self.source)
    }

    /// An enemy's turret fires whenever it is ready and its owner is among
    /// the enemies that exist.
    pub open spec fn fires_for_enemy(self, enemies: Seq<Vessel>) -> bool {
        !self.cooling_down && lookup(enemies, self.source).is_some()
    }

    /// The turret after it has moved with its owner, whose mount stands at
    /// `mount`; it stays where it is when the owner could not be found.
    pub open spec fn repositioned(self, mount: Option<Point>) -> Turret {
        match mount {
            Some(position) => Turret { position, ..self },
            None => self,
        }
    }

    /// The turret turned to bear on `target`.
    pub open spec fn aimed_at(self, target: Point) -> Turret {
        Turret {
            target_point: target,
            target_direction: aim_from(self.position, target),
            ..self
        }
    }

    /// The turret after the pass that aims the player's turrets at the
    /// cursor: only a turret of the one player turns.
    pub open spec fn aimed_for_player(self, player: PlayerQuery, cursor: Point) -> Turret {
        if player.spec_is_player(self.source) {
            self.aimed_at(cursor)
        } else {
            self
        }
    }

    /// The turret after the pass that aims the enemies' turrets at the
    /// player: only a turret of an enemy turns, and only while there is
    /// exactly one player.
    pub open spec fn aimed_for_enemy(self, player: PlayerQuery, enemies: Seq<Vessel>) -> Turret {
        match player {
            PlayerQuery::Single(vessel) => if lookup(enemies, self.source).is_some() {
                self.aimed_at(vessel.position)
            } else {
                self
            },
            _ => self,
        }
    }

    /// The turret and its message after the player's firing pass.
    pub open spec fn triggered_for_player(self, fire_held: bool, player: PlayerQuery) -> (
        Turret,
        Option<TurretTriggered>,
    ) {
        match player {
            PlayerQuery::Single(vessel) => if self.fires_for_player(fire_held, player) {
                (self.fired(), Some(self.trigger(Faction::Player, vessel.velocity)))
            } else {
                (self, None)
            },
            _ => (self, None),
        }
    }

    /// The turret and its message after the enemies' firing pass.
    pub open spec fn triggered_for_enemy(self, enemies: Seq<Vessel>) -> (
        Turret,
        Option<TurretTriggered>,
    ) {
        match lookup(enemies, self.source) {
            Some(owner) => if !self.cooling_down {
                (self.fired(), Some(self.trigger(Faction::Enemy, owner.velocity)))
            } else {
                (self, None)
            },
            None => (self, None),
        }
    }

    /// Mounts a weapon on `source` at `offset`.
    pub fn new(turret_type: TurretType, stats_scale: u32, source: EntityId, offset: Point) -> (turret:
        Turret)
        requires
            stats_scale > 0,
        ensures
            turret == Turret::mounted(turret_type, stats_scale, source, offset),
            turret.wf(),
    {
        Turret {
            turret_type,
            stats_scale,
            source,
            position: Point { x: 0, y: 0 },
            target_point: Point { x: 0, y: 0 },
            target_direction: Direction { x: 0, y: 0 },
            offset,
            cooling_down: false,
            cooldown_timer: Timer::new(
                cooldown_from_turret_type(turret_type, stats_scale),
                TimerMode::Repeating,
            ),
        }
    }

    /// Runs the cooldown for `delta_ns` nanoseconds.
    pub fn cooldown(&mut self, delta_ns: u64)
        ensures
            *final(self) == old(self).cooled(delta_ns as nat),
            old(self).wf() ==> final(self).wf(),
    {
        if !self.cooling_down {
            return ;
        }
        let mut timer = self.cooldown_timer;
        timer.tick(delta_ns);
        self.cooldown_timer = timer;
        if timer.just_finished() {
            self.cooling_down = false;
        }
    }

    /// Moves the turret with its owner. `mount` is where the owner's mount
    /// stands in the world, or `None` when the owner could not be found: the
    /// turret then stays where it is and is to be removed.
    pub fn reposition(&mut self, mount: Option<Point>) -> (placement: Placement)
        ensures
            *final(self) == old(self).repositioned(mount),
            placement == (if mount.is_some() {
                Placement::Follow
            } else {
                Placement::Remove
            }),
    {
        match mount {
            Some(position) => {
                self.position = position;
                Placement::Follow
            },
            None => Placement::Remove,
        }
    }

    /// Turns the turret to bear on `target`.
    pub fn aim_at(&mut self, target: Point)
        ensures
            *final(self) == old(self).aimed_at(target),
    {
        self.target_point = target;
        self.target_direction = aim_direction(self.position, target);
    }

    /// Aims the turret at the cursor if it belongs to the one player.
    pub fn aim_for_player(&mut self, player: PlayerQuery, cursor: Point)
        ensures
            *final(self) == old(self).aimed_for_player(player, cursor),
    {
        if player.is_player(self.source) {
            self.aim_at(cursor);
        }
    }

    /// Aims the turret at the player if it belongs to one of `enemies` and
    /// there is exactly one player.
    pub fn aim_for_enemy(&mut self, player: PlayerQuery, enemies: &Vec<Vessel>)
        ensures
            *final(self) == old(self).aimed_for_enemy(player, enemies@),
    {
        match player {
            PlayerQuery::Single(vessel) => {
                if find_vessel(enemies, self.source).is_some() {
                    self.aim_at(vessel.position);
                }
            },
            _ => {},
        }
    }

    /// Whether the turret has lost its owner: the owner is not among
    /// `owners`, the vessels that still exist.
    pub fn is_orphaned(&self, owners: &Vec<Vessel>) -> (orphaned: bool)
        ensures
            orphaned == !owned_by(owners@)(*self),
    {
        find_vessel(owners, self.source).is_none()
    }

    /// Fires a turret: sends its message and starts the cooldown over its
    /// full reload time.
    fn fire(&mut self, faction: Faction, velocity: Velocity) -> (shot: TurretTriggered)
        ensures
            *final(self) == old(self).fired(),
            shot == old(self).trigger(faction, velocity),
    {
        let shot = TurretTriggered {
            turret_type: self.turret_type,
            turret_layer: faction.layer(),
            turret_mask: faction.projectile_mask(),
            source: self.source,
            source_position: self.position,
            source_direction: self.target_direction,
            source_velocity: velocity,
            target_point: self.target_point,
            stats_scale: self.stats_scale,
        };
        let mut timer = self.cooldown_timer;
        timer.reset();
        self.cooldown_timer = timer;
        self.cooling_down = true;
        shot
    }

    /// Fires the turret for the player if it may fire: the fire input is
    /// held, the turret is ready and its owner is the one player. The shot
    /// inherits the player's velocity and may strike enemies.
    pub fn trigger_for_player(&mut self, fire_held: bool, player: PlayerQuery) -> (shot: Option<
        TurretTriggered,
    >)
        ensures
            (*final(self), shot) == old(self).triggered_for_player(fire_held, player),
            shot.is_some() <==> old(self).fires_for_player(fire_held, player),
            old(self).wf() ==> final(self).wf(),
    {
        match player {
            PlayerQuery::Single(vessel) => {
                if fire_held && !self.cooling_down && vessel.entity.bits == self.source.bits {
                    Some(self.fire(Faction::Player, vessel.velocity))
                } else {
                    None
                }
            },
            _ => None,
        }
    }

    /// Fires the turret for an enemy if it may fire: the turret is ready and
    /// its owner is among `enemies`. The shot inherits the owner's velocity
    /// and may strike the player.
    pub fn trigger_for_enemy(&mut self, enemies: &Vec<Vessel>) -> (shot: Option<TurretTriggered>)
        ensures
            (*final(self), shot) == old(self).triggered_for_enemy(enemies@),
            shot.is_some() <==> old(self).fires_for_enemy(enemies@),
            old(self).wf() ==> final(self).wf(),
    {
        if self.cooling_down {
            return None;
        }
        match find_vessel(enemies, self.source) {
            Some(owner) => Some(self.fire(Faction::Enemy, owner.velocity)),
            None => None,
        }
    }
}

/// The turret that mount slot `slot` of a spawned vessel gets, if any: the
/// slot must name a weapon and the vessel must have a mount there.
pub open spec fn mount_slot(
    loadout: Seq<Option<TurretType>>,
    offsets: Seq<Point>,
    stats_scale: u32,
    source: EntityId,
    slot: int,
) -> Option<Turret> {
    if 0 <= slot < loadout.len() && slot < offsets.len() && loadout[slot].is_some() {
        Some(Turret::mounted(loadout[slot].unwrap(), stats_scale, source, offsets[slot]))
    } else {
        None
    }
}

/// The turrets of a spawned vessel, in slot order.
pub open spec fn mounted_turrets(
    loadout: Seq<Option<TurretType>>,
    offsets: Seq<Point>,
    stats_scale: u32,
    source: EntityId,
) -> Seq<Turret> {
    Seq::new(
        loadout.len(),
        |slot: int| mount_slot(loadout, offsets, stats_scale, source, slot),
    ).filter_map(|turret: Option<Turret>| turret)
}

/// Every turret after its cooldown has run for `delta` nanoseconds.
pub open spec fn cooled_all(turrets: Seq<Turret>, delta: nat) -> Seq<Turret> {
    turrets.map_values(|turret: Turret| turret.cooled(delta))
}

/// Every turret after the pass that aims the player's turrets.
pub open spec fn aimed_all_for_player(turrets: Seq<Turret>, player: PlayerQuery, cursor: Point) -> Seq<
    Turret,
> {
    turrets.map_values(|turret: Turret| turret.aimed_for_player(player, cursor))
}

/// Every turret after the pass that aims the enemies' turrets.
pub open spec fn aimed_all_for_enemy(
    turrets: Seq<Turret>,
    player: PlayerQuery,
    enemies: Seq<Vessel>,
) -> Seq<Turret> {
    turrets.map_values(|turret: Turret| turret.aimed_for_enemy(player, enemies))
}

/// Every turret with its message after the player's firing pass.
pub open spec fn triggered_all_for_player(
    turrets: Seq<Turret>,
    fire_held: bool,
    player: PlayerQuery,
) -> Seq<(Turret, Option<TurretTriggered>)> {
    turrets.map_values(|turret: Turret| turret.triggered_for_player(fire_held, player))
}

/// Every turret with its message after the enemies' firing pass.
pub open spec fn triggered_all_for_enemy(turrets: Seq<Turret>, enemies: Seq<Vessel>) -> Seq<
    (Turret, Option<TurretTriggered>),
> {
    turrets.map_values(|turret: Turret| turret.triggered_for_enemy(enemies))
}

/// The mount reported for turret `slot`; none where nothing was reported.
pub open spec fn mount_of(mounts: Seq<Option<Point>>, slot: int) -> Option<Point> {
    if 0 <= slot < mounts.len() {
        mounts[slot]
    } else {
        None
    }
}

/// Every turret after it has moved with its owner: a turret whose mount is
/// known stands there, the others stay where they were.
pub open spec fn repositioned_all(turrets: Seq<Turret>, mounts: Seq<Option<Point>>) -> Seq<Turret> {
    Seq::new(turrets.len(), |slot: int| turrets[slot].repositioned(mount_of(mounts, slot)))
}

/// The test that keeps a turret: its owner is among `owners`.
pub open spec fn owned_by(owners: Seq<Vessel>) -> spec_fn(Turret) -> bool {
    |turret: Turret| lookup(owners, turret.source).is_some()
}

/// Mounts the turrets of a vessel that has just been spawned: one for each
/// slot that names a weapon, at the mount of that slot. A vessel without
/// mount data gets none, and a slot without a mount is passed over.
pub fn spawn_turrets(ev: &SpawnVessel, stats: Option<&TurretStats>) -> (turrets: Vec<Turret>)
    requires
        ev.stats_scale > 0,
    ensures
        stats.is_none() ==> turrets@.len() == 0,
        stats.is_some() ==> turrets@ == mounted_turrets(
            ev.turrets@,
            stats.unwrap().turret_offsets@,
            ev.stats_scale,
            ev.entity,
        ),
        forall|i: int| 0 <= i < turrets@.len() ==> (#[trigger] turrets@[i]).wf(),
{
    let mut turrets: Vec<Turret> = Vec::new();
    let offsets = match stats {
        Some(stats) => &stats.turret_offsets,
        None => {
            return turrets;
        },
    };
    let ghost slots = Seq::new(
        ev.turrets@.len(),
        |slot: int| mount_slot(ev.turrets@, offsets@, ev.stats_scale, ev.entity, slot),
    );
    let ghost pick = |turret: Option<Turret>| turret;
    let mut i: usize = 0;
    while i < ev.turrets.len()
        invariant
            i <= ev.turrets@.len(),
            ev.stats_scale > 0,
            slots == Seq::new(
                ev.turrets@.len(),
                |slot: int| mount_slot(ev.turrets@, offsets@, ev.stats_scale, ev.entity, slot),
            ),
            pick == |turret: Option<Turret>| turret,
            turrets@ == slots.take(i as int).filter_map(pick),
            forall|k: int| 0 <= k < turrets@.len() ==> (#[trigger] turrets@[k]).wf(),
        decreases ev.turrets.len() - i,
    {
        proof {
            slots.lemma_filter_map_take_succ(pick, i as int);
        }
        if i < offsets.len() {
            match ev.turrets[i] {
                Some(turret_type) => {
                    turrets.push(Turret::new(turret_type, ev.stats_scale, ev.entity, offsets[i]));
                },
                None => {},
            }
        }
        i += 1;
    }
    proof {
        assert(slots.take(i as int) == slots);
    }
    turrets
}

/// Moves every turret with its owner. `mounts[i]` is where the mount of
/// turret `i` stands in the world, or `None` when its owner could not be
/// found; such a turret stays where it is. Entry `i` of the result says
/// whether turret `i` follows its owner or is to be removed.
pub fn reposition_turrets(turrets: &mut Vec<Turret>, mounts: &Vec<Option<Point>>) -> (placements:
    Vec<Placement>)
    ensures
        final(turrets)@ == repositioned_all(old(turrets)@, mounts@),
        placements@.len() == old(turrets)@.len(),
        forall|i: int|
            0 <= i < old(turrets)@.len() ==> #[trigger] placements@[i] == (if mount_of(
                mounts@,
                i,
            ).is_some() {
                Placement::Follow
            } else {
                Placement::Remove
            }),
{
    let mut placements: Vec<Placement> = Vec::new();
    let mut i: usize = 0;
    while i < turrets.len()
        invariant
            i <= turrets@.len(),
            turrets@.len() == old(turrets)@.len(),
            placements@.len() == i,
            forall|k: int|
                0 <= k < i ==> #[trigger] turrets@[k] == old(turrets)@[k].repositioned(
                    mount_of(mounts@, k),
                ),
            forall|k: int|
                0 <= k < i ==> #[trigger] placements@[k] == (if mount_of(mounts@, k).is_some() {
                    Placement::Follow
                } else {
                    Placement::Remove
                }),
            forall|k: int| i <= k < turrets@.len() ==> #[trigger] turrets@[k] == old(turrets)@[k],
        decreases turrets.len() - i,
    {
        let mount = if i < mounts.len() {
            mounts[i]
        } else {
            None
        };
        let mut turret = turrets[i];
        let placement = turret.reposition(mount);
        turrets.set(i, turret);
        placements.push(placement);
        i += 1;
    }
    proof {
        assert(turrets@ =~= repositioned_all(old(turrets)@, mounts@));
    }
    placements
}

/// Runs the cooldown of every turret for `delta_ns` nanoseconds.
pub fn cooldown_turrets(turrets: &mut Vec<Turret>, delta_ns: u64)
    ensures
        final(turrets)@ == cooled_all(old(turrets)@, delta_ns as nat),
        forall|i: int|
            0 <= i < old(turrets)@.len() && old(turrets)@[i].wf() ==> (#[trigger] final(turrets)@[i]).wf(),
{
    let mut i: usize = 0;
    while i < turrets.len()
        invariant
            i <= turrets@.len(),
            turrets@.len() == old(turrets)@.len(),
            forall|k: int|
                0 <= k < i ==> #[trigger] turrets@[k] == old(turrets)@[k].cooled(delta_ns as nat),
            forall|k: int| i <= k < turrets@.len() ==> #[trigger] turrets@[k] == old(turrets)@[k],
        decreases turrets.len() - i,
    {
        let mut turret = turrets[i];
        turret.cooldown(delta_ns);
        turrets.set(i, turret);
        i += 1;
    }
    proof {
        assert(turrets@ =~= cooled_all(old(turrets)@, delta_ns as nat));
        assert forall|k: int| 0 <= k < old(turrets)@.len() && old(turrets)@[k].wf() implies
            (#[trigger] turrets@[k]).wf() by {
            lemma_cooled_keeps_wf(old(turrets)@[k], delta_ns as nat);
        }
    }
}

/// Aims the player's turrets at the cursor. Without exactly one player no
/// turret turns.
pub fn update_player_turret_targets(turrets: &mut Vec<Turret>, players: &Vec<Vessel>, cursor: Point)
    ensures
        final(turrets)@ == aimed_all_for_player(old(turrets)@, PlayerQuery::of(players@), cursor),
{
    let player = single_player(players);
    let mut i: usize = 0;
    while i < turrets.len()
        invariant
            i <= turrets@.len(),
            turrets@.len() == old(turrets)@.len(),
            player == PlayerQuery::of(players@),
            forall|k: int|
                0 <= k < i ==> #[trigger] turrets@[k] == old(turrets)@[k].aimed_for_player(
                    player,
                    cursor,
                ),
            forall|k: int| i <= k < turrets@.len() ==> #[trigger] turrets@[k] == old(turrets)@[k],
        decreases turrets.len() - i,
    {
        let mut turret = turrets[i];
        turret.aim_for_player(player, cursor);
        turrets.set(i, turret);
        i += 1;
    }
    proof {
        assert(turrets@ =~= aimed_all_for_player(old(turrets)@, player, cursor));
    }
}

/// Aims the enemies' turrets at the player. Without exactly one player no
/// turret turns.
pub fn update_enemy_turret_targets(
    turrets: &mut Vec<Turret>,
    players: &Vec<Vessel>,
    enemies: &Vec<Vessel>,
)
    ensures
        final(turrets)@ == aimed_all_for_enemy(old(turrets)@, PlayerQuery::of(players@), enemies@),
{
    let player = single_player(players);
    let mut i: usize = 0;
    while i < turrets.len()
        invariant
            i <= turrets@.len(),
            turrets@.len() == old(turrets)@.len(),
            player == PlayerQuery::of(players@),
            forall|k: int|
                0 <= k < i ==> #[trigger] turrets@[k] == old(turrets)@[k].aimed_for_enemy(
                    player,
                    enemies@,
                ),
            forall|k: int| i <= k < turrets@.len() ==> #[trigger] turrets@[k] == old(turrets)@[k],
        decreases turrets.len() - i,
    {
        let mut turret = turrets[i];
        turret.aim_for_enemy(player, enemies);
        turrets.set(i, turret);
        i += 1;
    }
    proof {
        assert(turrets@ =~= aimed_all_for_enemy(old(turrets)@, player, enemies@));
    }
}

/// Fires every turret of the player that may fire. Entry `i` of the result
/// is the message of turret `i`, if it fired.
pub fn trigger_player_turrets(
    turrets: &mut Vec<Turret>,
    fire_held: bool,
    players: &Vec<Vessel>,
) -> (shots: Vec<Option<TurretTriggered>>)
    ensures
        final(turrets)@ == firsts(
            triggered_all_for_player(old(turrets)@, fire_held, PlayerQuery::of(players@)),
        ),
        shots@ == seconds(
            triggered_all_for_player(old(turrets)@, fire_held, PlayerQuery::of(players@)),
        ),
{
    let player = single_player(players);
    let mut shots: Vec<Option<TurretTriggered>> = Vec::new();
    let mut i: usize = 0;
    while i < turrets.len()
        invariant
            i <= turrets@.len(),
            turrets@.len() == old(turrets)@.len(),
            shots@.len() == i,
            player == PlayerQuery::of(players@),
            forall|k: int|
                0 <= k < i ==> #[trigger] turrets@[k] == old(turrets)@[k].triggered_for_player(
                    fire_held,
                    player,
                ).0,
            forall|k: int|
                0 <= k < i ==> #[trigger] shots@[k] == old(turrets)@[k].triggered_for_player(
                    fire_held,
                    player,
                ).1,
            forall|k: int| i <= k < turrets@.len() ==> #[trigger] turrets@[k] == old(turrets)@[k],
        decreases turrets.len() - i,
    {
        let mut turret = turrets[i];
        let shot = turret.trigger_for_player(fire_held, player);
        turrets.set(i, turret);
        shots.push(shot);
        i += 1;
    }
    proof {
        let pairs = triggered_all_for_player(old(turrets)@, fire_held, player);
        assert(turrets@ =~= firsts(pairs));
        assert(shots@ =~= seconds(pairs));
    }
    shots
}

/// Fires every enemy turret that is ready and whose owner is among
/// `enemies`. Entry `i` of the result is the message of turret `i`, if it
/// fired.
pub fn trigger_enemy_turrets(turrets: &mut Vec<Turret>, enemies: &Vec<Vessel>) -> (shots: Vec<
    Option<TurretTriggered>,
>)
    ensures
        final(turrets)@ == firsts(triggered_all_for_enemy(old(turrets)@, enemies@)),
        shots@ == seconds(triggered_all_for_enemy(old(turrets)@, enemies@)),
{
    let mut shots: Vec<Option<TurretTriggered>> = Vec::new();
    let mut i: usize = 0;
    while i < turrets.len()
        invariant
            i <= turrets@.len(),
            turrets@.len() == old(turrets)@.len(),
            shots@.len() == i,
            forall|k: int|
                0 <= k < i ==> #[trigger] turrets@[k] == old(turrets)@[k].triggered_for_enemy(enemies@).0,
            forall|k: int|
                0 <= k < i ==> #[trigger] shots@[k] == old(turrets)@[k].triggered_for_enemy(enemies@).1,
            forall|k: int| i <= k < turrets@.len() ==> #[trigger] turrets@[k] == old(turrets)@[k],
        decreases turrets.len() - i,
    {
        let mut turret = turrets[i];
        let shot = turret.trigger_for_enemy(enemies);
        turrets.set(i, turret);
        shots.push(shot);
        i += 1;
    }
    proof {
        let pairs = triggered_all_for_enemy(old(turrets)@, enemies@);
        assert(turrets@ =~= firsts(pairs));
        assert(shots@ =~= seconds(pairs));
    }
    shots
}

/// Removes every turret whose owner is not among `owners`, the vessels that
/// still exist. The turrets that stay keep their order and are not touched.
pub fn despawn_turrets(turrets: &mut Vec<Turret>, owners: &Vec<Vessel>)
    ensures
        final(turrets)@ == old(turrets)@.filter(owned_by(owners@)),
{
    let mut kept: Vec<Turret> = Vec::new();
    let mut i: usize = 0;
    while i < turrets.len()
        invariant
            i <= turrets@.len(),
            turrets@ == old(turrets)@,
            kept@ == turrets@.take(i as int).filter(owned_by(owners@)),
        decreases turrets.len() - i,
    {
        let turret = turrets[i];
        proof {
            assert(turrets@.take(i + 1) == turrets@.take(i as int).push(turret));
            turrets@.take(i as int).lemma_filter_push(turret, owned_by(owners@));
        }
        if !turret.is_orphaned(owners) {
            kept.push(turret);
        }
        i += 1;
    }
    proof {
        assert(turrets@.take(i as int) == turrets@);
    }
    *turrets = kept;
}

/// Cooling down keeps a turret sound.
pub proof fn lemma_cooled_keeps_wf(turret: Turret, delta: nat)
    requires
        turret.wf(),
        delta <= u64::MAX,
    ensures
        turret.cooled(delta).wf(),
{
    let timer = turret.cooldown_timer;
    lemma_elapsed_after_bounded(
        timer.duration_ns as nat,
        timer.elapsed_ns as nat,
        true,
        delta,
    );
}

/// Once a turret has fired, it cannot fire again, for the player or for an
/// enemy, before the ticks since the shot add up to its full reload time:
/// until then it is cooling down, and what remains on its timer is the reload
/// time less the time passed. It is ready as soon as they do add up to it
/// (short of 2^32 reload times, where the timer's count of expiries wraps).
pub proof fn lemma_no_shot_before_reload(
    turret: Turret,
    deltas: Seq<u64>,
    fire_held: bool,
    player: PlayerQuery,
    enemies: Seq<Vessel>,
)
    requires
        turret.wf(),
    ensures
        ({
            let reload = cooldown_of(turret.turret_type, turret.stats_scale as nat);
            let after = turret.fired().cooled_through(deltas);
            &&& reload > 0
            &&& after.wf()
            &&& after.turret_type == turret.turret_type
            &&& after.stats_scale == turret.stats_scale
            &&& after.source == turret.source
            &&& total(deltas) < reload ==> {
                &&& after.cooling_down
                &&& after.cooldown_timer.elapsed_ns == total(deltas)
                &&& after.cooldown_timer.remaining() == reload - total(deltas)
                &&& !after.fires_for_player(fire_held, player)
                &&& !after.fires_for_enemy(enemies)
                &&& after.triggered_for_player(fire_held, player).1.is_none()
                &&& after.triggered_for_enemy(enemies).1.is_none()
            }
            &&& reload <= total(deltas) < 0x1_0000_0000 * reload ==> !after.cooling_down
        }),
    decreases deltas.len(),
{
    let reload = cooldown_of(turret.turret_type, turret.stats_scale as nat);
    let after = turret.fired().cooled_through(deltas);
    lemma_cooldown_is_positive(turret.turret_type, turret.stats_scale);
    if deltas.len() > 0 {
        let earlier = deltas.drop_last();
        let delta = deltas.last() as nat;
        let before = turret.fired().cooled_through(earlier);
        lemma_no_shot_before_reload(turret, earlier, fire_held, player, enemies);
        lemma_cooled_keeps_wf(before, delta);
        let elapsed = total(earlier);
        if elapsed < reload {
            lemma_elapsed_after_bounded(reload, elapsed, true, delta);
            if elapsed + delta >= reload && elapsed + delta < 0x1_0000_0000 * reload {
                let laps = (elapsed + delta) / reload;
                assert(1 <= laps < 0x1_0000_0000) by (nonlinear_arith)
                    requires
                        reload > 0,
                        reload <= elapsed + delta < 0x1_0000_0000 * reload,
                        laps == (elapsed + delta) / reload,
                ;
                assert(laps % 0x1_0000_0000 == laps);
            }
        }
    }
}

/// No power tier is so high that a weapon reloads in no time.
pub proof fn lemma_cooldown_is_positive(turret_type: TurretType, stats_scale: u32)
    requires
        stats_scale > 0,
    ensures
        cooldown_of(turret_type, stats_scale as nat) > 0,
{
    let scaled = base_cooldown(turret_type) * 1000;
    assert(scaled / (stats_scale as nat) > 0) by (nonlinear_arith)
        requires
            scaled >= 100_000_000_000,
            0 < stats_scale <= 0xffff_ffff,
    ;
}

/// Moving, aiming and firing keep a turret sound.
pub proof fn lemma_passes_keep_wf(
    turret: Turret,
    mount: Option<Point>,
    fire_held: bool,
    player: PlayerQuery,
    enemies: Seq<Vessel>,
    cursor: Point,
)
    requires
        turret.wf(),
    ensures
        turret.repositioned(mount).wf(),
        turret.aimed_for_player(player, cursor).wf(),
        turret.aimed_for_enemy(player, enemies).wf(),
        turret.fired().wf(),
        turret.triggered_for_player(fire_held, player).0.wf(),
        turret.triggered_for_enemy(enemies).0.wf(),
{
}

} // verus!
