//! Collision notifications, as the physics engine reports them.

use bevy::ecs::entity::Entity;
use bevy_rapier3d::pipeline::CollisionEvent;
use vstd::prelude::*;

verus! {

/// `bevy::ecs::entity::Entity`: an opaque identifier.
#[verifier::external_type_specification]
#[verifier::external_body]
pub struct ExEntity(bevy::ecs::entity::Entity);

/// `bevy_rapier3d::rapier::geometry::CollisionEventFlags`: carried, never
/// read.
#[verifier::external_type_specification]
#[verifier::external_body]
pub struct ExCollisionEventFlags(bevy_rapier3d::rapier::geometry::CollisionEventFlags);

/// `bevy_rapier3d::pipeline::CollisionEvent`, declared with its variants:
/// two colliders started or stopped touching.
#[verifier::external_type_specification]
pub struct ExCollisionEvent(bevy_rapier3d::pipeline::CollisionEvent);

/// `==` on `Entity`, which compares the identifier and its generation, the
/// whole of an entity: trusted to hold exactly of equal entities.
#[verifier::external_body]
pub(crate) fn same_entity(a: &Entity, b: &Entity) -> (same: bool)
    ensures
        same == (*a == *b),
{
    a == b
}

/// `event` reports that `entity` started touching something.
pub open spec fn touches(event: CollisionEvent, entity: Entity) -> bool {
    match event {
        CollisionEvent::Started(a, b, _) => a == entity || b == entity,
        CollisionEvent::Stopped(_, _, _) => false,
    }
}

/// Some event of `events` reports that `entity` started touching something.
pub open spec fn touched(events: Seq<CollisionEvent>, entity: Entity) -> bool {
    exists|k: int| 0 <= k < events.len() && touches(#[trigger] events[k], entity)
}

/// An entity was touched in the first `k + 1` events if it was in the first
/// `k` or the next event touches it.
pub proof fn lemma_touched_one_more(events: Seq<CollisionEvent>, k: int, entity: Entity)
    requires
        0 <= k < events.len(),
    ensures
        touched(events.take(k + 1), entity) == (touched(events.take(k), entity) || touches(
            events[k],
            entity,
        )),
{
    let seen = events.take(k);
    let seen_next = events.take(k + 1);
    if touched(seen, entity) {
        let w = choose|w: int| 0 <= w < seen.len() && touches(#[trigger] seen[w], entity);
        assert(seen_next[w] == seen[w]);
    }
    if touches(events[k], entity) {
        assert(seen_next[k] == events[k]);
    }
    if touched(seen_next, entity) {
        let w = choose|w: int| 0 <= w < seen_next.len() && touches(#[trigger] seen_next[w], entity);
        if w < k {
            assert(seen[w] == seen_next[w]);
        }
    }
}

} // verus!
