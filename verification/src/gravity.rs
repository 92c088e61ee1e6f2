//! Ground-contact tracking: an actor is grounded when its bottom edge
//! rests exactly on some terrain top edge with horizontal overlap.
//!
//! The vertical test is an exact equality with no tolerance band — a
//! deliberate, fragile design choice: an actor one unit above the floor is
//! airborne.

use vstd::prelude::*;
use crate::{Vec3i, abs, abs_i64, in_pos};
use crate::collision::AABBCollider;
use crate::motion::Velocity;

verus! {

/// Marker for entities that qualify as terrain for the downward scan. The
/// host tags its floor entities with this and hands the tagged set to
/// `update_ground_state` as `Terrain` entries.
#[derive(Clone, Copy, Debug)]
pub struct Ground;

/// Whether an actor stands on terrain this frame. Recomputed from scratch
/// every frame by the ground tracker (no hysteresis); read by the force
/// integrator to gate gravity.
#[derive(Clone, Copy, Debug, PartialEq, Eq, Structural)]
pub struct GroundState {
    pub is_grounded: bool,
}

/// One terrain entity as the ground tracker sees it: the position and
/// collider of an entity tagged `Ground`.
#[derive(Clone, Copy, Debug, PartialEq, Eq, Structural)]
pub struct Terrain {
    pub position: Vec3i,
    pub collider: AABBCollider,
}

impl Terrain {
    /// Position and extents within the proved arithmetic range.
    pub open spec fn wf(self) -> bool {
        in_pos(self.position.x as int) && in_pos(self.position.y as int) && self.collider.wf()
    }
}

/// The terrain supports the actor: the actor's bottom edge
/// (`pos.y - h/2`) equals the terrain's top edge (`pos.y + h/2`) exactly,
/// and the two overlap horizontally (inclusive bound).
pub open spec fn supports(apos: Vec3i, ac: AABBCollider, t: Terrain) -> bool {
    t.position.y + t.collider.height / 2 == apos.y - ac.height / 2 && 2 * abs(
        t.position.x - apos.x,
    ) <= t.collider.width + ac.width
}

/// The grounded flag after one tracker pass: an ascending actor is left as
/// it was; otherwise it is grounded exactly when some terrain supports it
/// — an OR across all terrain candidates.
pub open spec fn grounded_after(
    apos: Vec3i,
    vel: Velocity,
    ac: AABBCollider,
    prev: bool,
    terrain: Seq<Terrain>,
) -> bool {
    if vel.value.y > 0 {
        prev
    } else {
        exists|i: int| 0 <= i < terrain.len() && supports(apos, ac, terrain[i])
    }
}

/// The ground tracker, for one actor: scan every terrain entry and set the
/// grounded flag to whether any of them supports the actor; an actor
/// moving upward is not re-evaluated this frame. A match anywhere in the
/// scan grounds the actor — later non-matching terrain cannot revert it.
pub fn update_ground_state(
    position: &Vec3i,
    velocity: &Velocity,
    collider: &AABBCollider,
    state: &mut GroundState,
    terrain: &Vec<Terrain>,
)
    requires
        in_pos(position.x as int),
        in_pos(position.y as int),
        collider.wf(),
        forall|i: int| 0 <= i < terrain@.len() ==> terrain@[i].wf(),
    ensures
        final(state).is_grounded == grounded_after(
            *position,
            *velocity,
            *collider,
            old(state).is_grounded,
            terrain@,
        ),
{
    if velocity.value.y > 0 {
        return ;
    }
    let check_y = position.y - collider.height / 2;
    let mut grounded = false;
    let mut i: usize = 0;
    while i < terrain.len()
        invariant
            i <= terrain@.len(),
            in_pos(position.x as int),
            in_pos(position.y as int),
            collider.wf(),
            forall|m: int| 0 <= m < terrain@.len() ==> terrain@[m].wf(),
            check_y == position.y - collider.height / 2,
            grounded == exists|m: int| 0 <= m < i && supports(*position, *collider, terrain@[m]),
        decreases terrain@.len() - i,
    {
        let t = terrain[i];
        let floor_y = t.position.y + t.collider.height / 2;
        if floor_y == check_y && 2 * abs_i64(t.position.x - position.x) <= t.collider.width
            + collider.width {
            grounded = true;
            proof {
                assert(supports(*position, *collider, terrain@[i as int]));
            }
        }
        i += 1;
    }
    state.is_grounded = grounded;
}

/// Exact contact grounds: a descending (or resting) actor supported by
/// some terrain entry comes out of the tracker pass grounded.
pub proof fn lemma_exact_contact_grounds(
    apos: Vec3i,
    vel: Velocity,
    ac: AABBCollider,
    prev: bool,
    terrain: Seq<Terrain>,
    i: int,
)
    requires
        vel.value.y <= 0,
        0 <= i < terrain.len(),
        supports(apos, ac, terrain[i]),
    ensures
        grounded_after(apos, vel, ac, prev, terrain),
{
}

/// Raising a supported actor by any positive offset breaks the exact
/// vertical equality: the same terrain no longer supports it — there is no
/// tolerance band.
pub proof fn lemma_raised_not_supported(apos: Vec3i, raised: Vec3i, ac: AABBCollider, t: Terrain)
    requires
        supports(apos, ac, t),
        raised.x == apos.x,
        raised.y > apos.y,
    ensures
        !supports(raised, ac, t),
{
}

/// Over a single terrain entry that supports the actor, any positive lift
/// makes the next tracker evaluation report the actor airborne.
pub proof fn lemma_raised_not_grounded(
    apos: Vec3i,
    raised: Vec3i,
    vel: Velocity,
    ac: AABBCollider,
    prev: bool,
    terrain: Seq<Terrain>,
)
    requires
        vel.value.y <= 0,
        terrain.len() == 1,
        supports(apos, ac, terrain[0]),
        raised.x == apos.x,
        raised.y > apos.y,
    ensures
        !grounded_after(raised, vel, ac, prev, terrain),
{
    assert forall|i: int| 0 <= i < terrain.len() implies !supports(raised, ac, terrain[i]) by {
        lemma_raised_not_supported(apos, raised, ac, terrain[0]);
    }
}

} // verus!
