//! Combat core of a top-down ship game: turrets that aim, cool down and fire,
//! projectiles that fly, age and hit, and the health ledger they act on.
//!
//! Every quantity is an integer. Time is counted in nanoseconds, hit points
//! and lengths in thousandths, a vessel's power tier in thousandths of the
//! reference tier, and angles in sixteenths of a half turn.

pub mod collision;
pub mod combat;
pub mod enemy;
pub mod entity;
pub mod geometry;
pub mod health;
pub mod projectile;
pub mod seqs;
pub mod timer;
pub mod turret;
pub mod vessel;
