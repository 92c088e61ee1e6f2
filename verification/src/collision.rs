//! Collision detection and resolution between axis-aligned rectangles.
//!
//! The detector enumerates all unordered pairs of bodies, keeps those where
//! at least one body is `Dynamic` and the two rectangles overlap (an
//! inclusive bound: exact edge touch counts), and emits one event per pair.
//! The resolver consumes the events and pushes overlapping bodies apart
//! along the axis of least penetration.

use vstd::prelude::*;
use crate::{Vec3i, abs, abs_i64, clamp_i64, clamp_pos, in_pos, in_extent, EXTENT_LIMIT, POS_LIMIT};

verus! {

/// An axis-aligned rectangular collider, centered on the owning entity's
/// position. `width` and `height` are full extents (half-extent = value/2).
///
/// Negative extents would silently invert the overlap arithmetic, so the
/// constructor rejects them up front: extents are non-negative by
/// construction.
#[derive(Clone, Copy, Debug, PartialEq, Eq, Structural)]
pub struct AABBCollider {
    pub width: i64,
    pub height: i64,
}

impl AABBCollider {
    /// Extents non-negative and within the range the arithmetic is proved
    /// free of overflow for.
    pub open spec fn wf(self) -> bool {
        in_extent(self.width as int) && in_extent(self.height as int)
    }

    pub fn new(width: i64, height: i64) -> (r: AABBCollider)
        requires
            0 <= width <= EXTENT_LIMIT,
            0 <= height <= EXTENT_LIMIT,
        ensures
            r.width == width,
            r.height == height,
            r.wf(),
    {
        AABBCollider { width, height }
    }
}

/// How a body takes part in collision handling.
#[derive(Clone, Copy, Debug, PartialEq, Eq, Structural)]
pub enum CollideType {
    /// Moves, and is displaced by resolution.
    Dynamic,
    /// Never moves; an immovable obstacle for resolution.
    Static,
    /// Detected only; never displaced and never displaces others.
    Trigger,
}

/// One detected overlap between two entities, identified by the host's
/// entity ids. Transient: raised by the detector, consumed once by the
/// resolver in the same tick.
#[derive(Clone, Copy, Debug, PartialEq, Eq, Structural)]
pub struct CollisionEvent {
    pub entity: u64,
    pub collided_entity: u64,
}

impl CollisionEvent {
    pub fn new(entity: u64, collided_entity: u64) -> (r: CollisionEvent)
        ensures
            r.entity == entity,
            r.collided_entity == collided_entity,
    {
        CollisionEvent { entity, collided_entity }
    }
}

/// Two rectangles with center distance `(dx, dy)` overlap or touch:
/// `|dx| <= (wa+wb)/2 && |dy| <= (ha+hb)/2`, stated without the halving so
/// that no rounding enters. The bound is inclusive: exact touch counts.
pub open spec fn overlaps(a: AABBCollider, b: AABBCollider, dx: int, dy: int) -> bool {
    2 * abs(dx) <= a.width + b.width && 2 * abs(dy) <= a.height + b.height
}

/// The inclusive AABB overlap test on the difference of the two centers.
/// Only the x and y components of the delta take part.
pub fn aabb_collision(a: &AABBCollider, b: &AABBCollider, transform_delta: &Vec3i) -> (r: bool)
    requires
        a.wf(),
        b.wf(),
        -2 * POS_LIMIT <= transform_delta.x <= 2 * POS_LIMIT,
        -2 * POS_LIMIT <= transform_delta.y <= 2 * POS_LIMIT,
    ensures
        r == overlaps(*a, *b, transform_delta.x as int, transform_delta.y as int),
{
    2 * abs_i64(transform_delta.x) <= a.width + b.width
        && 2 * abs_i64(transform_delta.y) <= a.height + b.height
}

/// The overlap test is symmetric: swapping the two bodies and negating the
/// center delta reports the same answer.
pub proof fn lemma_overlap_symmetric(a: AABBCollider, b: AABBCollider, dx: int, dy: int)
    ensures
        overlaps(a, b, dx, dy) == overlaps(b, a, -dx, -dy),
{
}

/// Two bodies whose center distance equals the sum of their half-extents
/// on both axes — an exact edge touch — are reported as overlapping.
pub proof fn lemma_exact_touch_overlaps(a: AABBCollider, b: AABBCollider, dx: int, dy: int)
    requires
        2 * abs(dx) == a.width + b.width,
        2 * abs(dy) == a.height + b.height,
    ensures
        overlaps(a, b, dx, dy),
{
}

/// One physics body as the detector and resolver see it: the host's entity
/// id plus the position and collision components fetched for it.
#[derive(Clone, Copy, Debug, PartialEq, Eq, Structural)]
pub struct Body {
    pub id: u64,
    pub position: Vec3i,
    pub collider: AABBCollider,
    pub category: CollideType,
}

impl Body {
    /// Position and extents within the proved arithmetic range.
    pub open spec fn wf(self) -> bool {
        in_pos(self.position.x as int) && in_pos(self.position.y as int) && self.collider.wf()
    }
}

/// A pair is a collision: at least one body is `Dynamic` (pairs of
/// non-moving bodies are never tested) and the two rectangles overlap.
pub open spec fn pair_collides(a: Body, b: Body) -> bool {
    (a.category is Dynamic || b.category is Dynamic) && overlaps(
        a.collider,
        b.collider,
        a.position.x - b.position.x,
        a.position.y - b.position.y,
    )
}

/// The events the detector emits for body `i` against bodies `j..`, in
/// index order.
pub open spec fn row_events(s: Seq<Body>, i: int, j: int) -> Seq<CollisionEvent>
    decreases s.len() - j,
{
    if j < 0 || j >= s.len() || !(0 <= i < s.len()) {
        Seq::empty()
    } else {
        let rest = row_events(s, i, j + 1);
        if pair_collides(s[i], s[j]) {
            seq![CollisionEvent { entity: s[i].id, collided_entity: s[j].id }] + rest
        } else {
            rest
        }
    }
}

/// The events the detector emits for all unordered pairs drawn from
/// `s[i..]`, each pair considered once, in index order.
pub open spec fn events_from(s: Seq<Body>, i: int) -> Seq<CollisionEvent>
    decreases s.len() - i,
{
    if i < 0 || i >= s.len() {
        Seq::empty()
    } else {
        row_events(s, i, i + 1) + events_from(s, i + 1)
    }
}

/// Every collision event the detector emits for the given bodies.
pub open spec fn all_events(s: Seq<Body>) -> Seq<CollisionEvent> {
    events_from(s, 0)
}

/// The detector: test every unordered pair of bodies once, keep the pairs
/// where at least one body is `Dynamic` and the rectangles overlap
/// (inclusive), and emit one event per kept pair, in index order.
pub fn find_collisions(bodies: &Vec<Body>) -> (events: Vec<CollisionEvent>)
    requires
        forall|k: int| 0 <= k < bodies@.len() ==> bodies@[k].wf(),
    ensures
        events@ == all_events(bodies@),
{
    let ghost s = bodies@;
    let mut events: Vec<CollisionEvent> = Vec::new();
    let n = bodies.len();
    let mut i: usize = 0;
    while i < n
        invariant
            s == bodies@,
            n == s.len(),
            i <= n,
            forall|k: int| 0 <= k < s.len() ==> s[k].wf(),
            events@ + events_from(s, i as int) == all_events(s),
        decreases n - i,
    {
        let mut j: usize = i + 1;
        proof {
            assert(events@ + (row_events(s, i as int, i + 1) + events_from(s, i + 1)) =~= (
            events@ + row_events(s, i as int, i + 1)) + events_from(s, i + 1));
        }
        while j < n
            invariant
                s == bodies@,
                n == s.len(),
                i < n,
                i < j <= n,
                forall|k: int| 0 <= k < s.len() ==> s[k].wf(),
                (events@ + row_events(s, i as int, j as int)) + events_from(s, i + 1)
                    == all_events(s),
            decreases n - j,
        {
            let a = bodies[i];
            let b = bodies[j];
            let ghost before = events@;
            if a.category == CollideType::Dynamic || b.category == CollideType::Dynamic {
                let delta = Vec3i {
                    x: a.position.x - b.position.x,
                    y: a.position.y - b.position.y,
                    z: 0,
                };
                if aabb_collision(&a.collider, &b.collider, &delta) {
                    events.push(CollisionEvent::new(a.id, b.id));
                }
            }
            proof {
                let iv = i as int;
                let jv = j as int;
                if pair_collides(s[iv], s[jv]) {
                    let ev = CollisionEvent { entity: s[iv].id, collided_entity: s[jv].id };
                    assert(events@ =~= before + seq![ev]);
                    assert(row_events(s, iv, jv) == seq![ev] + row_events(s, iv, jv + 1));
                    assert(events@ + row_events(s, iv, jv + 1) =~= before + row_events(s, iv, jv));
                } else {
                    assert(events@ == before);
                    assert(row_events(s, iv, jv) == row_events(s, iv, jv + 1));
                }
            }
            j += 1;
        }
        proof {
            assert(row_events(s, i as int, j as int) =~= Seq::<CollisionEvent>::empty());
            assert(events@ + row_events(s, i as int, j as int) =~= events@);
            assert(events_from(s, i as int) == row_events(s, i as int, i + 1) + events_from(
                s,
                i + 1,
            ));
            assert((events@ + row_events(s, i as int, i + 1)) + events_from(s, i + 1) =~= events@
                + (row_events(s, i as int, i + 1) + events_from(s, i + 1)));
        }
        i += 1;
    }
    proof {
        assert(events_from(s, i as int) =~= Seq::<CollisionEvent>::empty());
        assert(events@ + events_from(s, i as int) =~= events@);
    }
    events
}

/// A `Trigger x Dynamic` contact. Trigger volumes are never displaced and
/// never displace others; instead of a positional resolution the resolver
/// reports each such pair on this distinct notification path, for a future
/// trigger-response collaborator to consume.
#[derive(Clone, Copy, Debug, PartialEq, Eq, Structural)]
pub struct TriggerContact {
    pub entity: u64,
    pub collided_entity: u64,
}

/// The pair is a trigger contact: one side is a `Trigger`, the other
/// `Dynamic`.
pub open spec fn trigger_pair(a: Body, b: Body) -> bool {
    (a.category is Trigger && b.category is Dynamic) || (a.category is Dynamic
        && b.category is Trigger)
}

/// Penetration depth on x as the resolver measures it: the sum of the
/// half-extents (rounded down once) minus the center distance. Positive
/// means the rectangles overlap on this axis.
pub open spec fn overlap_x(a: Body, b: Body) -> int {
    (a.collider.width + b.collider.width) / 2 - abs(b.position.x - a.position.x)
}

/// Penetration depth on y, as `overlap_x`.
pub open spec fn overlap_y(a: Body, b: Body) -> int {
    (a.collider.height + b.collider.height) / 2 - abs(b.position.y - a.position.y)
}

/// The minimum-translation-vector axis choice: separate on x when the x
/// penetration is strictly smaller in magnitude and not exactly zero; an
/// exact edge touch on x is not treated as the separating axis, so the
/// resolution falls onto y.
pub open spec fn resolve_on_x(a: Body, b: Body) -> bool {
    abs(overlap_x(a, b)) < abs(overlap_y(a, b)) && overlap_x(a, b) != 0
}

/// The unit direction that moves body A away from body B on an axis where
/// their centers differ by `d` = B - A. When the centers coincide on that
/// axis the tie is broken by the entity ids — the body with the smaller id
/// moves toward the negative side — so the rule does not depend on which
/// body is named first.
pub open spec fn away_dir(d: int, a_id: u64, b_id: u64) -> int {
    if d > 0 {
        -1
    } else if d < 0 {
        1
    } else if a_id < b_id {
        -1
    } else {
        1
    }
}

/// `body` with its position's x replaced (y and z untouched). The new
/// coordinate saturates at the world bounds, so a resolved body never
/// leaves the proved coordinate range.
pub open spec fn with_x(body: Body, x: int) -> Body {
    Body {
        position: Vec3i { x: clamp_pos(x) as i64, y: body.position.y, z: body.position.z },
        ..body
    }
}

/// `body` with its position's y replaced (x and z untouched), saturating
/// at the world bounds as `with_x` does.
pub open spec fn with_y(body: Body, y: int) -> Body {
    Body {
        position: Vec3i { x: body.position.x, y: clamp_pos(y) as i64, z: body.position.z },
        ..body
    }
}

/// Positional resolution of one collided pair, by category:
/// - `Dynamic x Dynamic`: each body moves half the penetration magnitude
///   along the chosen axis, away from the other (ties at coincident
///   centers broken by entity id, so the rule is order-symmetric);
/// - `Dynamic x Static` (either order): the dynamic body alone absorbs the
///   full penetration, the static body does not move;
/// - every pair with a `Trigger`, and `Static x Static`: no displacement.
pub open spec fn resolve_pair(a: Body, b: Body) -> (Body, Body) {
    let ox = overlap_x(a, b);
    let oy = overlap_y(a, b);
    match (a.category, b.category) {
        (CollideType::Dynamic, CollideType::Dynamic) => if resolve_on_x(a, b) {
            let dir = away_dir(b.position.x - a.position.x, a.id, b.id);
            let m = abs(ox) / 2;
            (with_x(a, a.position.x + dir * m), with_x(b, b.position.x - dir * m))
        } else {
            let dir = away_dir(b.position.y - a.position.y, a.id, b.id);
            let m = abs(oy) / 2;
            (with_y(a, a.position.y + dir * m), with_y(b, b.position.y - dir * m))
        },
        (CollideType::Dynamic, CollideType::Static) => if resolve_on_x(a, b) {
            let dir = away_dir(b.position.x - a.position.x, a.id, b.id);
            (with_x(a, a.position.x + dir * abs(ox)), b)
        } else {
            let dir = away_dir(b.position.y - a.position.y, a.id, b.id);
            (with_y(a, a.position.y + dir * abs(oy)), b)
        },
        (CollideType::Static, CollideType::Dynamic) => if resolve_on_x(a, b) {
            let dir = away_dir(b.position.x - a.position.x, a.id, b.id);
            (a, with_x(b, b.position.x - dir * abs(ox)))
        } else {
            let dir = away_dir(b.position.y - a.position.y, a.id, b.id);
            (a, with_y(b, b.position.y - dir * abs(oy)))
        },
        _ => (a, b),
    }
}

/// Resolve one collided pair. Returns the two bodies after displacement
/// and, for a `Trigger x Dynamic` pair, the trigger contact notification.
#[verifier::rlimit(60)]
pub fn resolve_collision(a: &Body, b: &Body) -> (r: (Body, Body, Option<TriggerContact>))
    requires
        a.wf(),
        b.wf(),
    ensures
        r.0 == resolve_pair(*a, *b).0,
        r.1 == resolve_pair(*a, *b).1,
        r.0.wf(),
        r.1.wf(),
        r.2 == if trigger_pair(*a, *b) {
            Some(TriggerContact { entity: a.id, collided_entity: b.id })
        } else {
            None::<TriggerContact>
        },
{
    let dx = b.position.x - a.position.x;
    let dy = b.position.y - a.position.y;
    let ox = (a.collider.width + b.collider.width) / 2 - abs_i64(dx);
    let oy = (a.collider.height + b.collider.height) / 2 - abs_i64(dy);
    let on_x = abs_i64(ox) < abs_i64(oy) && ox != 0;
    match (a.category, b.category) {
        (CollideType::Dynamic, CollideType::Dynamic) => {
            if on_x {
                let m = abs_i64(ox) / 2;
                let shift: i64 = if dx > 0 {
                    -m
                } else if dx < 0 {
                    m
                } else if a.id < b.id {
                    -m
                } else {
                    m
                };
                (
                    Body {
                        position: Vec3i {
                            x: clamp_i64(a.position.x + shift, -POS_LIMIT, POS_LIMIT),
                            y: a.position.y,
                            z: a.position.z,
                        },
                        ..*a
                    },
                    Body {
                        position: Vec3i {
                            x: clamp_i64(b.position.x - shift, -POS_LIMIT, POS_LIMIT),
                            y: b.position.y,
                            z: b.position.z,
                        },
                        ..*b
                    },
                    None,
                )
            } else {
                let m = abs_i64(oy) / 2;
                let shift: i64 = if dy > 0 {
                    -m
                } else if dy < 0 {
                    m
                } else if a.id < b.id {
                    -m
                } else {
                    m
                };
                (
                    Body {
                        position: Vec3i {
                            x: a.position.x,
                            y: clamp_i64(a.position.y + shift, -POS_LIMIT, POS_LIMIT),
                            z: a.position.z,
                        },
                        ..*a
                    },
                    Body {
                        position: Vec3i {
                            x: b.position.x,
                            y: clamp_i64(b.position.y - shift, -POS_LIMIT, POS_LIMIT),
                            z: b.position.z,
                        },
                        ..*b
                    },
                    None,
                )
            }
        },
        (CollideType::Dynamic, CollideType::Static) => {
            if on_x {
                let shift: i64 = if dx > 0 {
                    -abs_i64(ox)
                } else if dx < 0 {
                    abs_i64(ox)
                } else if a.id < b.id {
                    -abs_i64(ox)
                } else {
                    abs_i64(ox)
                };
                (
                    Body {
                        position: Vec3i {
                            x: clamp_i64(a.position.x + shift, -POS_LIMIT, POS_LIMIT),
                            y: a.position.y,
                            z: a.position.z,
                        },
                        ..*a
                    },
                    *b,
                    None,
                )
            } else {
                let shift: i64 = if dy > 0 {
                    -abs_i64(oy)
                } else if dy < 0 {
                    abs_i64(oy)
                } else if a.id < b.id {
                    -abs_i64(oy)
                } else {
                    abs_i64(oy)
                };
                (
                    Body {
                        position: Vec3i {
                            x: a.position.x,
                            y: clamp_i64(a.position.y + shift, -POS_LIMIT, POS_LIMIT),
                            z: a.position.z,
                        },
                        ..*a
                    },
                    *b,
                    None,
                )
            }
        },
        (CollideType::Static, CollideType::Dynamic) => {
            if on_x {
                let shift: i64 = if dx > 0 {
                    -abs_i64(ox)
                } else if dx < 0 {
                    abs_i64(ox)
                } else if a.id < b.id {
                    -abs_i64(ox)
                } else {
                    abs_i64(ox)
                };
                (
                    *a,
                    Body {
                        position: Vec3i {
                            x: clamp_i64(b.position.x - shift, -POS_LIMIT, POS_LIMIT),
                            y: b.position.y,
                            z: b.position.z,
                        },
                        ..*b
                    },
                    None,
                )
            } else {
                let shift: i64 = if dy > 0 {
                    -abs_i64(oy)
                } else if dy < 0 {
                    abs_i64(oy)
                } else if a.id < b.id {
                    -abs_i64(oy)
                } else {
                    abs_i64(oy)
                };
                (
                    *a,
                    Body {
                        position: Vec3i {
                            x: b.position.x,
                            y: clamp_i64(b.position.y - shift, -POS_LIMIT, POS_LIMIT),
                            z: b.position.z,
                        },
                        ..*b
                    },
                    None,
                )
            }
        },
        (CollideType::Trigger, CollideType::Dynamic) | (
            CollideType::Dynamic,
            CollideType::Trigger,
        ) => (*a, *b, Some(trigger_contact(a, b))),
        _ => (*a, *b, None),
    }
}

/// The trigger-response seam: build the notification for a
/// `Trigger x Dynamic` pair. The physical no-op for such pairs is the
/// intended contract; responding to the contact is left to a future
/// collaborator that drains the returned notifications.
pub fn trigger_contact(a: &Body, b: &Body) -> (r: TriggerContact)
    ensures
        r.entity == a.id,
        r.collided_entity == b.id,
{
    TriggerContact { entity: a.id, collided_entity: b.id }
}

/// A body well inside the world bounds: no displacement a resolution can
/// produce for it reaches the world edge, so nothing saturates.
pub open spec fn interior(b: Body) -> bool {
    abs(b.position.x as int) <= POS_LIMIT / 2 && abs(b.position.y as int) <= POS_LIMIT / 2 && 0
        <= b.collider.width <= POS_LIMIT / 2 && 0 <= b.collider.height <= POS_LIMIT / 2
}

/// Resolving an overlapped `Dynamic x Dynamic` pair separates it on the
/// chosen axis: the remaining penetration there is exactly the parity
/// remainder of halving the old one — zero whenever the old penetration is
/// even — it never exceeds the old penetration, and the other axis is left
/// untouched.
pub proof fn lemma_dynamic_pair_separates(a: Body, b: Body)
    requires
        a.category is Dynamic,
        b.category is Dynamic,
        interior(a),
        interior(b),
        overlap_x(a, b) >= 0,
        overlap_y(a, b) >= 0,
    ensures
        resolve_on_x(a, b) ==> {
            let (na, nb) = resolve_pair(a, b);
            overlap_x(na, nb) == overlap_x(a, b) % 2 && 0 <= overlap_x(na, nb) <= overlap_x(a, b)
                && overlap_y(na, nb) == overlap_y(a, b)
        },
        !resolve_on_x(a, b) ==> {
            let (na, nb) = resolve_pair(a, b);
            overlap_y(na, nb) == overlap_y(a, b) % 2 && 0 <= overlap_y(na, nb) <= overlap_y(a, b)
                && overlap_x(na, nb) == overlap_x(a, b)
        },
{
    let (na, nb) = resolve_pair(a, b);
    if resolve_on_x(a, b) {
        let ox = overlap_x(a, b);
        let d = b.position.x - a.position.x;
        let m = ox / 2;
        assert(ox == 2 * m + ox % 2);
        assert(0 <= ox % 2 < 2);
        assert(na.position.x == a.position.x + away_dir(d, a.id, b.id) * m);
        assert(nb.position.x == b.position.x - away_dir(d, a.id, b.id) * m);
        if d > 0 {
            assert(abs(nb.position.x - na.position.x) == d + 2 * m);
        } else {
            assert(abs(nb.position.x - na.position.x) == abs(d) + 2 * m);
        }
    } else {
        let oy = overlap_y(a, b);
        let d = b.position.y - a.position.y;
        let m = oy / 2;
        assert(oy == 2 * m + oy % 2);
        assert(0 <= oy % 2 < 2);
        assert(na.position.y == a.position.y + away_dir(d, a.id, b.id) * m);
        assert(nb.position.y == b.position.y - away_dir(d, a.id, b.id) * m);
        if d > 0 {
            assert(abs(nb.position.y - na.position.y) == d + 2 * m);
        } else {
            assert(abs(nb.position.y - na.position.y) == abs(d) + 2 * m);
        }
    }
}

/// Resolution never moves a `Static` body, whichever side of the pair it
/// stands on.
pub proof fn lemma_static_body_unmoved(a: Body, b: Body)
    ensures
        a.category is Static ==> resolve_pair(a, b).0 == a,
        b.category is Static ==> resolve_pair(a, b).1 == b,
{
}

/// The resolution rule is order-symmetric: for two bodies with distinct
/// ids, swapping which is named first and negating the displacement
/// yields the same physical result — each body ends in the same place.
pub proof fn lemma_resolve_order_symmetric(a: Body, b: Body)
    requires
        a.id != b.id,
    ensures
        resolve_pair(b, a).0 == resolve_pair(a, b).1,
        resolve_pair(b, a).1 == resolve_pair(a, b).0,
{
}

/// A pair with a `Trigger` in it is never displaced: detection only, no
/// physical resolution.
pub proof fn lemma_trigger_pair_unmoved(a: Body, b: Body)
    requires
        a.category is Trigger || b.category is Trigger,
    ensures
        resolve_pair(a, b) == (a, b),
{
}

/// With exactly one `Dynamic` body at index `k`, the detector's category
/// filter admits exactly the pairs that contain `k` — one per other body,
/// never a pair among the remaining non-dynamic bodies.
pub proof fn lemma_single_dynamic_candidates(s: Seq<Body>, k: int)
    requires
        0 <= k < s.len(),
        s[k].category is Dynamic,
        forall|m: int| 0 <= m < s.len() && m != k ==> !(s[m].category is Dynamic),
    ensures
        forall|i: int, j: int|
            0 <= i < s.len() && 0 <= j < s.len() && i != j ==> ((s[i].category is Dynamic
                || s[j].category is Dynamic) <==> (i == k || j == k)),
{
}

/// The detector's category filter: a pair is a candidate — tested for
/// overlap at all — only when at least one side is `Dynamic`.
pub open spec fn candidate(a: Body, b: Body) -> bool {
    a.category is Dynamic || b.category is Dynamic
}

/// How many candidate pairs `(i, j)` the detector considers for body `i`
/// against bodies `j..`.
pub open spec fn row_candidates(s: Seq<Body>, i: int, j: int) -> int
    decreases s.len() - j,
{
    if j < 0 || j >= s.len() || !(0 <= i < s.len()) {
        0
    } else {
        (if candidate(s[i], s[j]) {
            1int
        } else {
            0int
        }) + row_candidates(s, i, j + 1)
    }
}

/// How many candidate pairs the detector considers among `s[i..]`.
pub open spec fn candidates_from(s: Seq<Body>, i: int) -> int
    decreases s.len() - i,
{
    if i < 0 || i >= s.len() {
        0
    } else {
        row_candidates(s, i, i + 1) + candidates_from(s, i + 1)
    }
}

proof fn lemma_row_dynamic(s: Seq<Body>, i: int, j: int)
    requires
        0 <= i < s.len(),
        s[i].category is Dynamic,
        0 <= j <= s.len(),
    ensures
        row_candidates(s, i, j) == s.len() - j,
    decreases s.len() - j,
{
    if j < s.len() {
        lemma_row_dynamic(s, i, j + 1);
    }
}

proof fn lemma_row_single(s: Seq<Body>, i: int, j: int, k: int)
    requires
        0 <= i < s.len(),
        !(s[i].category is Dynamic),
        0 <= k < s.len(),
        s[k].category is Dynamic,
        forall|m: int| 0 <= m < s.len() && m != k ==> !(s[m].category is Dynamic),
        0 <= j <= s.len(),
    ensures
        row_candidates(s, i, j) == if j <= k {
            1int
        } else {
            0int
        },
    decreases s.len() - j,
{
    if j < s.len() {
        lemma_row_single(s, i, j + 1, k);
    }
}

proof fn lemma_candidates_past(s: Seq<Body>, i: int, k: int)
    requires
        0 <= k < s.len(),
        s[k].category is Dynamic,
        forall|m: int| 0 <= m < s.len() && m != k ==> !(s[m].category is Dynamic),
        k < i <= s.len(),
    ensures
        candidates_from(s, i) == 0,
    decreases s.len() - i,
{
    if i < s.len() {
        lemma_row_single(s, i, i + 1, k);
        lemma_candidates_past(s, i + 1, k);
    }
}

proof fn lemma_candidates_upto(s: Seq<Body>, i: int, k: int)
    requires
        0 <= k < s.len(),
        s[k].category is Dynamic,
        forall|m: int| 0 <= m < s.len() && m != k ==> !(s[m].category is Dynamic),
        0 <= i <= k,
    ensures
        candidates_from(s, i) == (k - i) + (s.len() - k - 1),
    decreases k - i,
{
    if i == k {
        lemma_row_dynamic(s, k, k + 1);
        lemma_candidates_past(s, k + 1, k);
    } else {
        lemma_row_single(s, i, i + 1, k);
        lemma_candidates_upto(s, i + 1, k);
    }
}

/// With n bodies of which exactly one — at index `k` — is `Dynamic`, the
/// detector considers exactly n - 1 candidate pairs: one per other body,
/// and none among the remaining non-dynamic bodies.
pub proof fn lemma_single_dynamic_count(s: Seq<Body>, k: int)
    requires
        0 <= k < s.len(),
        s[k].category is Dynamic,
        forall|m: int| 0 <= m < s.len() && m != k ==> !(s[m].category is Dynamic),
    ensures
        candidates_from(s, 0) == s.len() - 1,
{
    lemma_candidates_upto(s, 0, k);
}

/// The first index in `s` whose body carries `id`, or -1 if none does —
/// the resolver's re-fetch of an entity by identifier.
pub open spec fn body_index(s: Seq<Body>, id: u64) -> int
    decreases s.len(),
{
    if s.len() == 0 {
        -1
    } else if s[0].id == id {
        0
    } else {
        let rest = body_index(s.drop_first(), id);
        if rest < 0 {
            -1
        } else {
            rest + 1
        }
    }
}

/// `body_index` returns -1 exactly when no body carries the id, and the
/// first matching index otherwise.
pub proof fn lemma_body_index(s: Seq<Body>, id: u64)
    ensures
        body_index(s, id) < 0 ==> forall|m: int| 0 <= m < s.len() ==> s[m].id != id,
        body_index(s, id) >= 0 ==> 0 <= body_index(s, id) < s.len() && s[body_index(s, id)].id
            == id && forall|m: int| 0 <= m < body_index(s, id) ==> s[m].id != id,
    decreases s.len(),
{
    if s.len() == 0 {
    } else if s[0].id == id {
    } else {
        lemma_body_index(s.drop_first(), id);
        let rest = body_index(s.drop_first(), id);
        if rest < 0 {
            assert forall|m: int| 0 <= m < s.len() implies s[m].id != id by {
                if m >= 1 {
                    assert(s.drop_first()[m - 1] == s[m]);
                }
            }
        } else {
            assert(s.drop_first()[rest] == s[rest + 1]);
            assert forall|m: int| 0 <= m < rest + 1 implies s[m].id != id by {
                if m >= 1 {
                    assert(s.drop_first()[m - 1] == s[m]);
                }
            }
        }
    }
}

/// One event's effect on the body set: re-fetch both entities by id; when
/// either is gone, or both ids land on the same body, the event is
/// silently dropped; otherwise both bodies are replaced by the resolved
/// pair.
pub open spec fn resolve_event(s: Seq<Body>, e: CollisionEvent) -> Seq<Body> {
    let i = body_index(s, e.entity);
    let j = body_index(s, e.collided_entity);
    if i < 0 || j < 0 || i == j {
        s
    } else {
        let (na, nb) = resolve_pair(s[i], s[j]);
        s.update(i, na).update(j, nb)
    }
}

/// The body set after resolving a queue of events in order.
pub open spec fn resolve_all(s: Seq<Body>, evs: Seq<CollisionEvent>) -> Seq<Body>
    decreases evs.len(),
{
    if evs.len() == 0 {
        s
    } else {
        resolve_all(resolve_event(s, evs[0]), evs.drop_first())
    }
}

/// The trigger contacts one event yields on the given body set: one
/// notification when both bodies are found, distinct, and form a
/// `Trigger x Dynamic` pair.
pub open spec fn event_contacts(s: Seq<Body>, e: CollisionEvent) -> Seq<TriggerContact> {
    let i = body_index(s, e.entity);
    let j = body_index(s, e.collided_entity);
    if i < 0 || j < 0 || i == j {
        Seq::empty()
    } else if trigger_pair(s[i], s[j]) {
        seq![TriggerContact { entity: s[i].id, collided_entity: s[j].id }]
    } else {
        Seq::empty()
    }
}

/// All trigger contacts a queue of events yields, each measured on the
/// body set as it stood when that event was resolved.
pub open spec fn all_contacts(s: Seq<Body>, evs: Seq<CollisionEvent>) -> Seq<TriggerContact>
    decreases evs.len(),
{
    if evs.len() == 0 {
        Seq::empty()
    } else {
        event_contacts(s, evs[0]) + all_contacts(resolve_event(s, evs[0]), evs.drop_first())
    }
}

/// Linear scan for the first body carrying `id`.
pub fn find_body(bodies: &Vec<Body>, id: u64) -> (r: Option<usize>)
    ensures
        match r {
            Some(idx) => idx == body_index(bodies@, id),
            None => body_index(bodies@, id) < 0,
        },
{
    proof {
        lemma_body_index(bodies@, id);
    }
    let mut i: usize = 0;
    while i < bodies.len()
        invariant
            i <= bodies@.len(),
            forall|m: int| 0 <= m < i ==> bodies@[m].id != id,
            body_index(bodies@, id) < 0 ==> forall|m: int|
                0 <= m < bodies@.len() ==> bodies@[m].id != id,
            body_index(bodies@, id) >= 0 ==> 0 <= body_index(bodies@, id) < bodies@.len()
                && bodies@[body_index(bodies@, id)].id == id && forall|m: int|
                0 <= m < body_index(bodies@, id) ==> bodies@[m].id != id,
        decreases bodies@.len() - i,
    {
        if bodies[i].id == id {
            return Some(i);
        }
        i += 1;
    }
    None
}

/// The resolver: drain a queue of collision events against the current
/// body set. Each event re-fetches both entities by id — a missing entity
/// drops the event silently — and displaces the pair by category; the
/// returned vector carries the `Trigger x Dynamic` contact notifications
/// in queue order.
pub fn handle_collision(bodies: &mut Vec<Body>, events: &Vec<CollisionEvent>) -> (contacts: Vec<
    TriggerContact,
>)
    requires
        forall|k: int| 0 <= k < old(bodies)@.len() ==> old(bodies)@[k].wf(),
    ensures
        final(bodies)@ == resolve_all(old(bodies)@, events@),
        contacts@ == all_contacts(old(bodies)@, events@),
        final(bodies)@.len() == old(bodies)@.len(),
        forall|k: int| 0 <= k < final(bodies)@.len() ==> final(bodies)@[k].wf(),
{
    let ghost s0 = bodies@;
    let ghost evs = events@;
    proof {
        assert(evs.subrange(0, evs.len() as int) =~= evs);
    }
    let mut contacts: Vec<TriggerContact> = Vec::new();
    let mut k: usize = 0;
    while k < events.len()
        invariant
            evs == events@,
            k <= evs.len(),
            forall|m: int| 0 <= m < bodies@.len() ==> bodies@[m].wf(),
            bodies@.len() == s0.len(),
            resolve_all(bodies@, evs.subrange(k as int, evs.len() as int)) == resolve_all(
                s0,
                evs,
            ),
            contacts@ + all_contacts(bodies@, evs.subrange(k as int, evs.len() as int))
                == all_contacts(s0, evs),
        decreases evs.len() - k,
    {
        let e = events[k];
        let ghost pre = bodies@;
        let ghost rest = evs.subrange(k as int, evs.len() as int);
        proof {
            assert(rest[0] == e);
            assert(rest.drop_first() =~= evs.subrange(k + 1, evs.len() as int));
            lemma_body_index(pre, e.entity);
            lemma_body_index(pre, e.collided_entity);
        }
        let ia = find_body(bodies, e.entity);
        let ib = find_body(bodies, e.collided_entity);
        match (ia, ib) {
            (Some(i), Some(j)) if i != j => {
                let a = bodies[i];
                let b = bodies[j];
                let (na, nb, contact) = resolve_collision(&a, &b);
                bodies.set(i, na);
                bodies.set(j, nb);
                if let Some(c) = contact {
                    contacts.push(c);
                }
                proof {
                    assert(bodies@ =~= resolve_event(pre, e));
                    if trigger_pair(pre[i as int], pre[j as int]) {
                        assert(contacts@ =~= (contacts@.drop_last() + event_contacts(pre, e)));
                        assert(contacts@.drop_last() + (event_contacts(pre, e) + all_contacts(
                            bodies@,
                            rest.drop_first(),
                        )) =~= (contacts@.drop_last() + event_contacts(pre, e)) + all_contacts(
                            bodies@,
                            rest.drop_first(),
                        ));
                    } else {
                        assert(event_contacts(pre, e) =~= Seq::<TriggerContact>::empty());
                        assert(contacts@ + (event_contacts(pre, e) + all_contacts(
                            bodies@,
                            rest.drop_first(),
                        )) =~= contacts@ + all_contacts(bodies@, rest.drop_first()));
                    }
                }
            },
            _ => {
                proof {
                    assert(bodies@ == resolve_event(pre, e));
                    assert(event_contacts(pre, e) =~= Seq::<TriggerContact>::empty());
                    assert(contacts@ + (event_contacts(pre, e) + all_contacts(
                        bodies@,
                        rest.drop_first(),
                    )) =~= contacts@ + all_contacts(bodies@, rest.drop_first()));
                }
            },
        }
        k += 1;
    }
    proof {
        assert(evs.subrange(k as int, evs.len() as int) =~= Seq::<CollisionEvent>::empty());
        assert(contacts@ + Seq::<TriggerContact>::empty() =~= contacts@);
    }
    contacts
}

} // verus!
