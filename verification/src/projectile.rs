//! Transient projectile entities: they despawn when their lifetime runs
//! out (see `utils::Lifetime`) or as soon as any hitbox collision strikes
//! them.

use vstd::prelude::*;

use crate::hitbox::HitboxCollision;

verus! {

/// Marks a transient same-shape entity with a lifetime countdown.
#[derive(Clone, Copy, Debug, PartialEq, Eq, Structural)]
pub struct Projectile;

/// A projectile struck by anything this tick despawns; its lifetime only
/// covers the unobstructed flight.
pub fn despawn_collided_projectile(hits: &Vec<HitboxCollision>) -> (despawn: bool)
    ensures
        despawn == (hits@.len() > 0),
{
    hits.len() > 0
}

} // verus!
