//! Which of two colliding entities plays which part.
//!
//! A collision between entities of two kinds is reported with the entity of
//! the first kind first, whichever order the physics engine gave them in.
use vstd::prelude::*;

verus! {

/// What the physics engine knows of one entity of a colliding pair: its id,
/// and whether it is of the first and of the second kind.
#[derive(Debug, Clone, Copy, PartialEq, Eq, Structural)]
pub struct Collider {
    pub entity: u64,
    pub is_first_kind: bool,
    pub is_second_kind: bool,
}

/// The pair `(first kind, second kind)` for a collision between `a` and `b`,
/// trying the given order first; `None` where neither order fits.
pub open spec fn ordered_pair_spec(a: Collider, b: Collider) -> Option<(u64, u64)> {
    if a.is_first_kind && b.is_second_kind {
        Some((a.entity, b.entity))
    } else if b.is_first_kind && a.is_second_kind {
        Some((b.entity, a.entity))
    } else {
        None
    }
}

/// The ids of a colliding pair with the entity of the first kind first, or
/// `None` where the pair is not one of each kind.
pub fn ordered_pair(a: Collider, b: Collider) -> (r: Option<(u64, u64)>)
    ensures
        r == ordered_pair_spec(a, b),
{
    if a.is_first_kind && b.is_second_kind {
        Some((a.entity, b.entity))
    } else if b.is_first_kind && a.is_second_kind {
        Some((b.entity, a.entity))
    } else {
        None
    }
}

} // verus!
