use guardian::collision::{ENEMY_LAYER, PLAYER_LAYER};
use guardian::enemy::despawn_enemies;
use guardian::entity::EntityId;
use guardian::geometry::{Direction, Point, Velocity};
use guardian::health::{apply_projectile_damage, Health};
use guardian::projectile::cannon::spawn_cannons;
use guardian::projectile::rocket::{spawn_rocket, spawn_rockets};
use guardian::projectile::{
    check_projectile_intersections, despawn_projectiles, tick_projectile_timers, Candidate,
    Projectile, ProjectileBundle, ProjectileCollision, ProjectileSpawn, ProjectileTimer,
    ProjectileType,
};
use guardian::turret::{
    cooldown_turrets, despawn_turrets, trigger_enemy_turrets, trigger_player_turrets, Turret,
    TurretTriggered, TurretType,
};
use guardian::vessel::Vessel;

const FRAME_NS: u64 = 16_666_667;

fn still(bits: u64) -> Vessel {
    Vessel {
        entity: EntityId::new(bits),
        position: Point { x: 0, y: 0 },
        velocity: Velocity { x: 0, y: 0 },
    }
}

fn fired(shots: Vec<Option<TurretTriggered>>) -> Vec<TurretTriggered> {
    shots.into_iter().flatten().collect()
}

#[test]
fn cannon_held_for_a_second_fires_ten_shells() {
    let player = still(1);
    let players = vec![player];
    let mut turrets = vec![Turret::new(
        TurretType::Cannon,
        1_000,
        player.entity,
        Point { x: 0, y: 0 },
    )];
    let mut triggers: Vec<(u64, TurretTriggered)> = Vec::new();
    let mut shells: Vec<ProjectileSpawn> = Vec::new();
    for frame in 0..60u64 {
        cooldown_turrets(&mut turrets, FRAME_NS);
        let events = fired(trigger_player_turrets(&mut turrets, true, &players));
        shells.extend(spawn_cannons(&events));
        assert!(spawn_rockets(&events).is_empty());
        for event in events {
            triggers.push((frame, event));
        }
    }
    assert_eq!(triggers.len(), 10);
    let frames: Vec<u64> = triggers.iter().map(|(frame, _)| *frame).collect();
    assert_eq!(frames, vec![0, 6, 12, 18, 24, 30, 36, 42, 48, 54]);
    assert_eq!(shells.len(), 10);
    for shell in &shells {
        assert_eq!(shell.projectile.projectile_type, ProjectileType::Cannon);
        assert_eq!(shell.projectile.damage, 1_000);
        assert_eq!(shell.projectile.source, Some(player.entity));
    }
}

#[test]
fn rocket_pair_is_symmetric() {
    let ev = TurretTriggered {
        turret_type: TurretType::Rocket,
        turret_layer: PLAYER_LAYER,
        turret_mask: ENEMY_LAYER,
        source: EntityId::new(1),
        source_position: Point { x: 40_000, y: -7_000 },
        source_direction: Direction { x: 3, y: 4 },
        source_velocity: Velocity { x: 0, y: 0 },
        target_point: Point { x: 0, y: 0 },
        stats_scale: 1_000,
    };
    let rockets = spawn_rockets(&vec![ev]);
    assert_eq!(rockets.len(), 2);
    assert_eq!(rockets, spawn_rocket(&ev));
    let (left, right) = (rockets[0], rockets[1]);
    assert_eq!(left.offset, Point { x: 5_000, y: 5_000 });
    assert_eq!(right.offset, Point { x: -5_000, y: 5_000 });
    assert_eq!(left.offset.x, -right.offset.x);
    assert_eq!(left.offset.y, right.offset.y);
    assert_eq!(left.position, ev.source_position);
    assert_eq!(right.position, ev.source_position);
    assert_eq!(left.direction, ev.source_direction);
    assert_eq!(right.direction, ev.source_direction);
    assert_eq!(left.projectile.damage, 5_000);
    assert_eq!(left.projectile, right.projectile);
    assert_eq!(left.timer, right.timer);
    assert_eq!(left.timer.timer.duration_ns, 1_500_000_000);
    assert_eq!(left.motion, right.motion);
}

#[test]
fn lethal_hit_removes_the_entity_by_the_next_sweep() {
    let target = EntityId::new(2);
    let mut health = Health::new(target, 100_000, 1_000);
    health.apply_damage(95_000);
    assert_eq!(health.health, 5_000);
    let mut healths = vec![health, Health::new(EntityId::new(3), 100_000, 1_000)];
    assert!(despawn_enemies(&mut healths).is_empty());

    let event = ProjectileCollision {
        projectile: Projectile::new(ProjectileType::Rocket, EntityId::new(1), ENEMY_LAYER, 5_000),
        target,
    };
    apply_projectile_damage(&mut healths, &vec![event]);
    assert_eq!(healths[0].health, 0);
    assert_eq!(healths[0].max_health, 100_000);
    assert_eq!(healths.len(), 2);

    let removed = despawn_enemies(&mut healths);
    assert_eq!(removed, vec![target]);
    assert_eq!(healths.len(), 1);
    assert_eq!(healths[0].entity, EntityId::new(3));
}

#[test]
fn orphaned_turret_is_removed_without_firing_again() {
    let enemy = still(5);
    let mut enemies = vec![enemy];
    let mut turrets = vec![
        Turret::new(TurretType::Cannon, 1_000, enemy.entity, Point { x: 0, y: 0 }),
        Turret::new(TurretType::Cannon, 1_000, EntityId::new(6), Point { x: 0, y: 0 }),
    ];
    enemies.push(still(6));
    assert_eq!(fired(trigger_enemy_turrets(&mut turrets, &enemies)).len(), 2);
    cooldown_turrets(&mut turrets, 100_000_000);
    assert!(!turrets[0].cooling_down);

    enemies.remove(0);
    let shots = trigger_enemy_turrets(&mut turrets, &enemies);
    assert_eq!(shots[0], None);
    assert_eq!(shots[1].unwrap().source, EntityId::new(6));
    let shots = trigger_player_turrets(&mut turrets, true, &Vec::new());
    assert_eq!(shots, vec![None, None]);

    despawn_turrets(&mut turrets, &enemies);
    assert_eq!(turrets.len(), 1);
    assert_eq!(turrets[0].source, EntityId::new(6));
    cooldown_turrets(&mut turrets, 100_000_000);
    assert_eq!(fired(trigger_enemy_turrets(&mut turrets, &enemies)).len(), 1);
}

#[test]
fn shot_flies_hits_and_kills() {
    let player = still(1);
    let target = EntityId::new(2);
    let mut turrets = vec![Turret::new(
        TurretType::Rocket,
        1_000,
        player.entity,
        Point { x: 0, y: 0 },
    )];
    let mut healths = vec![Health::new(target, 8_000, 1_000)];
    let mut projectiles: Vec<ProjectileBundle> = Vec::new();
    let mut removed: Vec<EntityId> = Vec::new();
    let mut despawned = 0;
    for frame in 0..40 {
        cooldown_turrets(&mut turrets, FRAME_NS);
        let events = fired(trigger_player_turrets(&mut turrets, frame == 0, &vec![player]));
        let spawned = spawn_rockets(&events);
        tick_projectile_timers(&mut projectiles, FRAME_NS);
        let overlaps: Vec<Vec<Candidate>> = projectiles
            .iter()
            .map(|_| {
                if frame >= 10 {
                    vec![
                        Candidate { entity: player.entity, layer: PLAYER_LAYER },
                        Candidate { entity: target, layer: ENEMY_LAYER },
                    ]
                } else {
                    Vec::new()
                }
            })
            .collect();
        let hits: Vec<ProjectileCollision> =
            check_projectile_intersections(&mut projectiles, &overlaps).into_iter().flatten().collect();
        apply_projectile_damage(&mut healths, &hits);
        despawned += despawn_projectiles(&mut projectiles).len();
        removed.extend(despawn_enemies(&mut healths));
        for spawn in spawned {
            projectiles.push(ProjectileBundle { projectile: spawn.projectile, timer: spawn.timer });
        }
    }
    assert_eq!(despawned, 2);
    assert!(projectiles.is_empty());
    assert_eq!(removed, vec![target]);
    assert!(healths.is_empty());
}

#[test]
fn unstruck_shell_leaves_after_its_lifetime() {
    let mut projectiles = vec![ProjectileBundle {
        projectile: Projectile::new(ProjectileType::Cannon, EntityId::new(1), ENEMY_LAYER, 1_000),
        timer: ProjectileTimer::new(2_000_000_000),
    }];
    let mut frames = 0;
    while !projectiles.is_empty() {
        tick_projectile_timers(&mut projectiles, FRAME_NS);
        let hits = check_projectile_intersections(&mut projectiles, &Vec::new());
        assert_eq!(hits, vec![None]);
        despawn_projectiles(&mut projectiles);
        frames += 1;
    }
    assert_eq!(frames, 120);
}
