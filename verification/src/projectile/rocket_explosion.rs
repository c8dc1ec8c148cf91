//! Explosions left behind by rockets.

use vstd::prelude::*;
use crate::projectile::{ProjectileDespawn, ProjectileType};

verus! {

/// Size of an explosion against its sprite, in thousandths.
pub const EXPLOSION_SIZE: u32 = 4_000;

/// True when the removal of this projectile leaves an explosion: rockets of
/// either kind do, shells do not.
pub open spec fn explodes(notice: ProjectileDespawn) -> bool {
    notice.projectile.projectile_type != ProjectileType::Cannon
}

/// The test for notices that leave an explosion.
pub open spec fn exploding() -> spec_fn(ProjectileDespawn) -> bool {
    |notice: ProjectileDespawn| explodes(notice)
}

/// Whether the removal of this projectile leaves an explosion.
pub fn leaves_explosion(notice: &ProjectileDespawn) -> (explosion: bool)
    ensures
        explosion == explodes(*notice),
{
    match notice.projectile.projectile_type {
        ProjectileType::Cannon => false,
        _ => true,
    }
}

/// Picks the removals that leave an explosion, in order. The explosion
/// appears where the projectile was last.
pub fn spawn_rocket_explosion(notices: &Vec<ProjectileDespawn>) -> (explosions: Vec<
    ProjectileDespawn,
>)
    ensures
        explosions@ == notices@.filter(exploding()),
{
    let mut explosions: Vec<ProjectileDespawn> = Vec::new();
    let mut i: usize = 0;
    while i < notices.len()
        invariant
            i <= notices@.len(),
            explosions@ == notices@.take(i as int).filter(exploding()),
        decreases notices.len() - i,
    {
        let notice = notices[i];
        proof {
            assert(notices@.take(i + 1) == notices@.take(i as int).push(notice));
            notices@.take(i as int).lemma_filter_push(notice, exploding());
        }
        if leaves_explosion(&notice) {
            explosions.push(notice);
        }
        i += 1;
    }
    proof {
        assert(notices@.take(i as int) == notices@);
    }
    explosions
}

} // verus!
