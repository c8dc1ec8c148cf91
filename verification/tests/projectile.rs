use guardian::collision::{CollisionGroups, ENEMY_LAYER, PLAYER_LAYER, PROJECTILE_LAYER};
use guardian::entity::EntityId;
use guardian::geometry::{Direction, Point, Velocity};
use guardian::projectile::cannon::{spawn_cannon, spawn_cannons, Cannon};
use guardian::projectile::rocket::{
    spawn_medium_rocket, spawn_medium_rockets, spawn_rocket, spawn_rockets, Rocket,
};
use guardian::projectile::rocket_explosion::{leaves_explosion, spawn_rocket_explosion};
use guardian::seqs::collect_present;
use guardian::projectile::{
    check_projectile_intersections, despawn_projectiles, tick_projectile_timers, Candidate,
    Motion, Projectile, ProjectileBundle, ProjectileCollision, ProjectileDespawn,
    ProjectileTimer, ProjectileType,
};
use guardian::timer::TimerMode;
use guardian::turret::{TurretTriggered, TurretType};

fn trigger(turret_type: TurretType, stats_scale: u32) -> TurretTriggered {
    TurretTriggered {
        turret_type,
        turret_layer: PLAYER_LAYER,
        turret_mask: ENEMY_LAYER,
        source: EntityId::new(1),
        source_position: Point { x: 10_000, y: 20_000 },
        source_direction: Direction { x: 0, y: 1 },
        source_velocity: Velocity { x: 300, y: -400 },
        target_point: Point { x: 13_000, y: 24_000 },
        stats_scale,
    }
}

fn bundle(projectile_type: ProjectileType, source: u64, lifetime_ns: u64) -> ProjectileBundle {
    ProjectileBundle {
        projectile: Projectile::new(projectile_type, EntityId::new(source), ENEMY_LAYER, 5_000),
        timer: ProjectileTimer::new(lifetime_ns),
    }
}

fn enemy(bits: u64) -> Candidate {
    Candidate { entity: EntityId::new(bits), layer: ENEMY_LAYER }
}

#[test]
fn new_projectile_is_live() {
    let projectile = Projectile::new(ProjectileType::Rocket, EntityId::new(4), PLAYER_LAYER, 7);
    assert_eq!(projectile.projectile_type, ProjectileType::Rocket);
    assert_eq!(projectile.source, Some(EntityId::new(4)));
    assert_eq!(projectile.mask, PLAYER_LAYER);
    assert_eq!(projectile.damage, 7);
    assert!(!projectile.disabled);
    let timer = ProjectileTimer::new(1_500_000_000);
    assert_eq!(timer.timer.duration_ns, 1_500_000_000);
    assert_eq!(timer.timer.elapsed_ns, 0);
    assert_eq!(timer.timer.mode, TimerMode::Once);
    assert!(!timer.timer.finished);
}

#[test]
fn cannon_shot_spawns_one_shell_on_the_turret() {
    let ev = trigger(TurretType::Cannon, 1_000);
    let shell = spawn_cannon(&ev);
    assert_eq!(
        shell.projectile,
        Projectile {
            projectile_type: ProjectileType::Cannon,
            source: Some(EntityId::new(1)),
            mask: ENEMY_LAYER,
            damage: 1_000,
            disabled: false,
        }
    );
    assert_eq!(shell.timer, ProjectileTimer::new(2_000_000_000));
    assert_eq!(
        shell.motion,
        Motion::Cannon(Cannon { source_velocity: Velocity { x: 300, y: -400 }, current_speed: 1_200_000 })
    );
    assert_eq!(shell.groups, CollisionGroups { memberships: PROJECTILE_LAYER, filters: ENEMY_LAYER });
    assert_eq!(shell.position, Point { x: 10_000, y: 20_000 });
    assert_eq!(shell.direction, Direction { x: 0, y: 1 });
    assert_eq!(shell.offset, Point { x: 0, y: 0 });
    assert_eq!(shell.heading, 0);
}

#[test]
fn damage_is_the_base_damage_times_the_power_tier() {
    assert_eq!(spawn_cannon(&trigger(TurretType::Cannon, 1_000)).projectile.damage, 1_000);
    assert_eq!(spawn_cannon(&trigger(TurretType::Cannon, 2_500)).projectile.damage, 2_500);
    assert_eq!(spawn_rocket(&trigger(TurretType::Rocket, 1_000))[0].projectile.damage, 5_000);
    assert_eq!(spawn_rocket(&trigger(TurretType::Rocket, 300))[1].projectile.damage, 1_500);
    assert_eq!(
        spawn_medium_rockets(&trigger(TurretType::MediumRocket, 1_000))[0].projectile.damage,
        20_000
    );
    assert_eq!(
        spawn_medium_rockets(&trigger(TurretType::MediumRocket, u32::MAX))[9].projectile.damage,
        85_899_345_900
    );
    assert_eq!(spawn_cannon(&trigger(TurretType::Cannon, 0)).projectile.damage, 0);
}

#[test]
fn only_cannon_shots_spawn_shells() {
    let events = vec![
        trigger(TurretType::Rocket, 1_000),
        trigger(TurretType::Cannon, 1_000),
        trigger(TurretType::MediumRocket, 1_000),
        trigger(TurretType::Cannon, 2_000),
    ];
    let shells = spawn_cannons(&events);
    assert_eq!(shells, vec![spawn_cannon(&events[1]), spawn_cannon(&events[3])]);
    assert!(spawn_cannons(&Vec::new()).is_empty());
}

#[test]
fn rocket_shot_spawns_a_pair_side_by_side() {
    let ev = trigger(TurretType::Rocket, 2_000);
    let rockets = spawn_rocket(&ev);
    assert_eq!(rockets.len(), 2);
    assert_eq!(rockets[0].offset, Point { x: 5_000, y: 5_000 });
    assert_eq!(rockets[1].offset, Point { x: -5_000, y: 5_000 });
    for rocket in &rockets {
        assert_eq!(rocket.projectile.projectile_type, ProjectileType::Rocket);
        assert_eq!(rocket.projectile.damage, 10_000);
        assert_eq!(rocket.projectile.mask, ENEMY_LAYER);
        assert_eq!(rocket.projectile.source, Some(EntityId::new(1)));
        assert_eq!(rocket.timer, ProjectileTimer::new(1_500_000_000));
        assert_eq!(rocket.position, ev.source_position);
        assert_eq!(rocket.direction, ev.source_direction);
        assert_eq!(rocket.heading, 0);
        assert_eq!(
            rocket.motion,
            Motion::Rocket(Rocket {
                source_velocity: Velocity { x: 300, y: -400 },
                current_speed: 750_000,
                turn: 0,
            })
        );
    }
}

#[test]
fn medium_rocket_does_not_inherit_the_vessel_velocity() {
    let ev = trigger(TurretType::MediumRocket, 1_000);
    let rocket = spawn_medium_rocket(&ev, 5, 123, -10);
    assert_eq!(rocket.projectile.projectile_type, ProjectileType::MediumRocket);
    assert_eq!(rocket.projectile.damage, 20_000);
    assert_eq!(rocket.timer, ProjectileTimer::new(123));
    assert_eq!(rocket.heading, 5);
    assert_eq!(rocket.offset, Point { x: 0, y: 0 });
    assert_eq!(
        rocket.motion,
        Motion::Rocket(Rocket {
            source_velocity: Velocity { x: 0, y: 0 },
            current_speed: 750_000,
            turn: -10,
        })
    );
}

#[test]
fn volley_is_five_pairs_at_widening_angles() {
    let ev = trigger(TurretType::MediumRocket, 1_000);
    let rockets = spawn_medium_rockets(&ev);
    assert_eq!(rockets.len(), 10);
    let headings: Vec<i32> = rockets.iter().map(|rocket| rocket.heading).collect();
    assert_eq!(headings, vec![4, -4, 5, -5, 6, -6, 7, -7, 8, -8]);
    for rocket in &rockets {
        let turn = match rocket.motion {
            Motion::Rocket(motion) => motion.turn,
            Motion::Cannon(_) => panic!("a volley holds rockets only"),
        };
        assert_eq!(turn, -2 * rocket.heading);
        assert_eq!(rocket.position, ev.source_position);
        assert_eq!(rocket.timer, ProjectileTimer::new(6_666_666));
    }
}

#[test]
fn volley_flies_for_the_time_a_rocket_takes_to_the_target() {
    let mut ev = trigger(TurretType::MediumRocket, 1_000);
    ev.source_position = Point { x: 0, y: 0 };
    ev.target_point = Point { x: 750_000, y: 0 };
    assert_eq!(spawn_medium_rockets(&ev)[0].timer.timer.duration_ns, 1_000_000_000);
    ev.target_point = Point { x: 0, y: -1_500_000 };
    assert_eq!(spawn_medium_rockets(&ev)[3].timer.timer.duration_ns, 2_000_000_000);
    ev.target_point = Point { x: 1, y: 0 };
    assert_eq!(spawn_medium_rockets(&ev)[0].timer.timer.duration_ns, 1_333);
    ev.target_point = ev.source_position;
    assert_eq!(spawn_medium_rockets(&ev)[0].timer.timer.duration_ns, 0);
    ev.source_position = Point { x: i32::MIN, y: i32::MIN };
    ev.target_point = Point { x: i32::MAX, y: i32::MAX };
    assert_eq!(spawn_medium_rockets(&ev)[0].timer.timer.duration_ns, 8_098_667_997_333);
}

#[test]
fn rocket_shots_spawn_in_the_order_of_the_shots() {
    let events = vec![
        trigger(TurretType::Cannon, 1_000),
        trigger(TurretType::Rocket, 1_000),
        trigger(TurretType::MediumRocket, 2_000),
        trigger(TurretType::Rocket, 3_000),
    ];
    let rockets = spawn_rockets(&events);
    let mut expected = spawn_rocket(&events[1]);
    expected.extend(spawn_medium_rockets(&events[2]));
    expected.extend(spawn_rocket(&events[3]));
    assert_eq!(rockets.len(), 14);
    assert_eq!(rockets, expected);
}

#[test]
fn projectile_strikes_the_first_entity_it_may_strike() {
    let mut projectile = Projectile::new(ProjectileType::Cannon, EntityId::new(1), ENEMY_LAYER, 9);
    let before = projectile;
    let candidates = vec![
        Candidate { entity: EntityId::new(1), layer: ENEMY_LAYER },
        Candidate { entity: EntityId::new(2), layer: PLAYER_LAYER },
        enemy(3),
        enemy(4),
    ];
    let hit = projectile.check_intersections(&candidates);
    assert_eq!(hit, Some(ProjectileCollision { projectile: before, target: EntityId::new(3) }));
    assert!(projectile.disabled);
    assert_eq!(projectile.damage, 9);
}

#[test]
fn projectile_never_strikes_the_vessel_that_fired_it() {
    let mut projectile = Projectile::new(ProjectileType::Rocket, EntityId::new(1), ENEMY_LAYER, 9);
    assert!(!projectile.may_strike(enemy(1)));
    assert_eq!(projectile.strike(enemy(1)), None);
    assert_eq!(projectile.check_intersections(&vec![enemy(1), enemy(1)]), None);
    assert!(!projectile.disabled);
}

#[test]
fn projectile_never_strikes_outside_its_mask() {
    let mut projectile = Projectile::new(ProjectileType::Rocket, EntityId::new(1), ENEMY_LAYER, 9);
    let own_side = Candidate { entity: EntityId::new(2), layer: PLAYER_LAYER };
    let other_shot = Candidate { entity: EntityId::new(3), layer: PROJECTILE_LAYER };
    let unlayered = Candidate { entity: EntityId::new(4), layer: 0 };
    assert!(!projectile.may_strike(own_side));
    assert_eq!(projectile.check_intersections(&vec![own_side, other_shot, unlayered]), None);
    assert!(!projectile.disabled);
    let both = Candidate { entity: EntityId::new(5), layer: PLAYER_LAYER | ENEMY_LAYER };
    assert!(projectile.may_strike(both));
}

#[test]
fn projectile_without_an_origin_strikes_anything_its_mask_admits() {
    let mut projectile = Projectile {
        projectile_type: ProjectileType::Cannon,
        source: None,
        mask: ENEMY_LAYER,
        damage: 1,
        disabled: false,
    };
    assert!(projectile.may_strike(enemy(0)));
    assert_eq!(projectile.strike(enemy(0)).unwrap().target, EntityId::new(0));
}

#[test]
fn disabled_projectile_is_passed_over() {
    let mut projectile = Projectile::new(ProjectileType::Cannon, EntityId::new(1), ENEMY_LAYER, 9);
    projectile.disabled = true;
    assert_eq!(projectile.strike(enemy(2)), None);
    assert_eq!(projectile.check_intersections(&vec![enemy(2)]), None);
    assert!(projectile.disabled);
}

#[test]
fn projectile_hits_at_most_once_in_its_life() {
    let mut projectiles = vec![bundle(ProjectileType::Rocket, 1, 1_500_000_000)];
    let overlaps = vec![vec![enemy(2), enemy(3)]];
    let mut hits = 0;
    for _ in 0..200 {
        tick_projectile_timers(&mut projectiles, 16_666_667);
        let found = check_projectile_intersections(&mut projectiles, &overlaps);
        if let Some(hit) = found[0] {
            hits += 1;
            assert_eq!(hit.target, EntityId::new(2));
            assert!(projectiles[0].projectile.disabled);
        }
    }
    assert_eq!(hits, 1);
}

#[test]
fn resolver_runs_once_for_every_projectile() {
    let mut projectiles = vec![
        bundle(ProjectileType::Cannon, 1, 100),
        bundle(ProjectileType::Rocket, 2, 100),
        bundle(ProjectileType::Rocket, 3, 100),
    ];
    let overlaps = vec![vec![enemy(7)], vec![enemy(2)]];
    let hits = check_projectile_intersections(&mut projectiles, &overlaps);
    assert_eq!(hits.len(), 3);
    assert_eq!(hits[0].unwrap().target, EntityId::new(7));
    assert_eq!(hits[0].unwrap().projectile.damage, 5_000);
    assert!(!hits[0].unwrap().projectile.disabled);
    assert_eq!(hits[1], None);
    assert_eq!(hits[2], None);
    assert!(projectiles[0].projectile.disabled);
    assert!(!projectiles[1].projectile.disabled);
    assert!(!projectiles[2].projectile.disabled);
}

#[test]
fn projectile_is_disabled_when_its_lifetime_is_up_and_not_before() {
    let mut shot = bundle(ProjectileType::Cannon, 1, 2_000_000_000);
    let mut passed: u64 = 0;
    while passed + 16_666_667 < 2_000_000_000 {
        shot.tick(16_666_667);
        passed += 16_666_667;
        assert!(!shot.projectile.disabled);
        assert_eq!(shot.timer.timer.elapsed_ns, passed);
    }
    assert_eq!(passed, 1_983_333_373);
    shot.tick(16_666_626);
    assert!(!shot.projectile.disabled);
    shot.tick(1);
    assert!(shot.projectile.disabled);
    shot.tick(16_666_667);
    assert!(shot.projectile.disabled);
    assert_eq!(shot.timer.timer.elapsed_ns, 2_000_000_000);
}

#[test]
fn projectile_without_a_lifetime_lasts_until_its_first_tick() {
    let mut shot = bundle(ProjectileType::MediumRocket, 1, 0);
    assert!(!shot.projectile.disabled);
    shot.tick(0);
    assert!(shot.projectile.disabled);
}

#[test]
fn spent_projectile_stays_disabled_while_it_ages() {
    let mut shot = bundle(ProjectileType::Cannon, 1, 1_000);
    assert!(shot.projectile.strike(enemy(2)).is_some());
    shot.tick(10);
    assert!(shot.projectile.disabled);
    assert_eq!(shot.timer.timer.elapsed_ns, 10);
}

#[test]
fn aging_runs_on_every_projectile() {
    let mut projectiles = vec![
        bundle(ProjectileType::Cannon, 1, 100),
        bundle(ProjectileType::Rocket, 1, 50),
        bundle(ProjectileType::Rocket, 1, 51),
    ];
    tick_projectile_timers(&mut projectiles, 50);
    assert!(!projectiles[0].projectile.disabled);
    assert!(projectiles[1].projectile.disabled);
    assert!(!projectiles[2].projectile.disabled);
    assert_eq!(projectiles[0].timer.timer.elapsed_ns, 50);
    assert_eq!(projectiles[2].timer.timer.elapsed_ns, 50);
}

#[test]
fn disabled_projectiles_are_removed_and_reported() {
    let first = bundle(ProjectileType::Cannon, 1, 100);
    let mut second = bundle(ProjectileType::Rocket, 2, 100);
    let third = bundle(ProjectileType::MediumRocket, 3, 100);
    let mut fourth = bundle(ProjectileType::Cannon, 4, 100);
    second.projectile.disabled = true;
    fourth.projectile.disabled = true;
    let mut projectiles = vec![first, second, third, fourth];
    let notices = despawn_projectiles(&mut projectiles);
    assert_eq!(projectiles, vec![first, third]);
    assert_eq!(
        notices,
        vec![
            ProjectileDespawn { projectile: second.projectile, slot: 1 },
            ProjectileDespawn { projectile: fourth.projectile, slot: 3 },
        ]
    );
    assert!(despawn_projectiles(&mut projectiles).is_empty());
    assert_eq!(projectiles.len(), 2);
}

#[test]
fn only_rockets_leave_an_explosion() {
    let notice = |projectile_type: ProjectileType, slot: usize| ProjectileDespawn {
        projectile: Projectile::new(projectile_type, EntityId::new(1), ENEMY_LAYER, 1),
        slot,
    };
    let notices = vec![
        notice(ProjectileType::Cannon, 0),
        notice(ProjectileType::Rocket, 2),
        notice(ProjectileType::MediumRocket, 5),
        notice(ProjectileType::Cannon, 6),
    ];
    let explosions = spawn_rocket_explosion(&notices);
    assert_eq!(explosions, vec![notices[1], notices[2]]);
    assert!(!leaves_explosion(&notices[0]));
    assert!(leaves_explosion(&notices[1]));
    assert!(leaves_explosion(&notices[2]));
    assert!(spawn_rocket_explosion(&Vec::new()).is_empty());
}

#[test]
fn present_values_are_collected_in_order() {
    assert_eq!(collect_present(&vec![None, Some(3), None, Some(1), Some(2)]), vec![3, 1, 2]);
    assert_eq!(collect_present::<u8>(&vec![None, None]), Vec::<u8>::new());
    assert_eq!(collect_present::<u8>(&Vec::new()), Vec::<u8>::new());
}
