use guardian::collision::ENEMY_LAYER;
use guardian::enemy::despawn_enemies;
use guardian::entity::EntityId;
use guardian::health::{apply_projectile_damage, Health};
use guardian::projectile::{Projectile, ProjectileCollision, ProjectileType};

fn collision(target: u64, damage: u64) -> ProjectileCollision {
    ProjectileCollision {
        projectile: Projectile::new(ProjectileType::Rocket, EntityId::new(99), ENEMY_LAYER, damage),
        target: EntityId::new(target),
    }
}

#[test]
fn new_entry_is_at_full_health() {
    let health = Health::new(EntityId::new(7), 1_000_000, 2_000);
    assert_eq!(health.entity, EntityId::new(7));
    assert_eq!(health.health, 1_000_000);
    assert_eq!(health.max_health, 1_000_000);
    assert_eq!(health.size, 2_000);
    assert!(!health.is_dead());
}

#[test]
fn damage_is_taken_off_exactly() {
    let mut health = Health::new(EntityId::new(7), 100_000, 1_000);
    health.apply_damage(5_000);
    assert_eq!(health.health, 95_000);
    assert_eq!(health.max_health, 100_000);
    health.apply_damage(0);
    assert_eq!(health.health, 95_000);
    health.apply_damage(1);
    assert_eq!(health.health, 94_999);
}

#[test]
fn health_is_not_held_at_zero() {
    let mut health = Health::new(EntityId::new(7), 3_000, 1_000);
    health.apply_damage(5_000);
    assert_eq!(health.health, -2_000);
    assert!(health.is_dead());
    health.apply_damage(5_000);
    assert_eq!(health.health, -7_000);
}

#[test]
fn health_sticks_at_the_lowest_value_it_can_hold() {
    let mut health = Health::new(EntityId::new(7), 10, 1_000);
    health.apply_damage(u64::MAX);
    assert_eq!(health.health, i64::MIN);
    health.apply_damage(1);
    assert_eq!(health.health, i64::MIN);
    let mut high = Health::new(EntityId::new(7), i64::MAX, 1_000);
    high.apply_damage(9_223_372_036_854_775_808);
    assert_eq!(high.health, -1);
    high.apply_damage(9_223_372_036_854_775_807);
    assert_eq!(high.health, i64::MIN);
    let mut zero = Health::new(EntityId::new(7), 0, 1_000);
    zero.apply_damage(9_223_372_036_854_775_808);
    assert_eq!(zero.health, i64::MIN);
}

#[test]
fn entity_is_dead_at_zero_and_below() {
    let mut health = Health::new(EntityId::new(7), 1, 1_000);
    assert!(!health.is_dead());
    health.apply_damage(1);
    assert_eq!(health.health, 0);
    assert!(health.is_dead());
}

#[test]
fn each_collision_damages_the_entity_it_struck() {
    let mut healths = vec![
        Health::new(EntityId::new(1), 100_000, 1_000),
        Health::new(EntityId::new(2), 50_000, 1_000),
        Health::new(EntityId::new(3), 10_000, 1_000),
    ];
    let events = vec![collision(2, 5_000), collision(3, 20_000), collision(2, 1_000)];
    apply_projectile_damage(&mut healths, &events);
    assert_eq!(healths[0].health, 100_000);
    assert_eq!(healths[1].health, 44_000);
    assert_eq!(healths[2].health, -10_000);
    assert_eq!(healths[1].max_health, 50_000);
}

#[test]
fn collision_with_an_entity_without_health_changes_nothing() {
    let mut healths = vec![Health::new(EntityId::new(1), 100_000, 1_000)];
    let before = healths.clone();
    apply_projectile_damage(&mut healths, &vec![collision(2, 5_000)]);
    assert_eq!(healths, before);
    let mut empty: Vec<Health> = Vec::new();
    apply_projectile_damage(&mut empty, &vec![collision(2, 5_000)]);
    assert!(empty.is_empty());
    apply_projectile_damage(&mut healths, &Vec::new());
    assert_eq!(healths, before);
}

#[test]
fn damage_goes_to_the_first_entry_of_the_entity() {
    let mut healths = vec![
        Health::new(EntityId::new(1), 100_000, 1_000),
        Health::new(EntityId::new(1), 100_000, 1_000),
    ];
    apply_projectile_damage(&mut healths, &vec![collision(1, 5_000)]);
    assert_eq!(healths[0].health, 95_000);
    assert_eq!(healths[1].health, 100_000);
}

#[test]
fn sweep_removes_what_is_at_or_below_zero() {
    let mut first = Health::new(EntityId::new(1), 100_000, 1_000);
    let mut second = Health::new(EntityId::new(2), 5_000, 1_000);
    let mut third = Health::new(EntityId::new(3), 5_000, 1_000);
    let fourth = Health::new(EntityId::new(4), 1, 1_000);
    first.apply_damage(99_999);
    second.apply_damage(5_000);
    third.apply_damage(6_000);
    let mut healths = vec![first, second, third, fourth];
    let removed = despawn_enemies(&mut healths);
    assert_eq!(removed, vec![EntityId::new(2), EntityId::new(3)]);
    assert_eq!(healths, vec![first, fourth]);
    assert!(despawn_enemies(&mut healths).is_empty());
    assert_eq!(healths.len(), 2);
}
