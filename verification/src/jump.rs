//! The jump state machine: grounded or airborne.
//!
//! A jumper leaves the ground when the jump key goes down, and counts as
//! grounded again as soon as it starts touching anything, be it the floor, a
//! wall or another body.

use crate::contact::lemma_touched_one_more;
use crate::contact::same_entity;
use crate::contact::touched;
use crate::contact::touches;
use crate::device::fresh_keys;
use crate::device::held_keys;
use crate::device::key_just_pressed;
use crate::device::key_pressed;
use crate::fixed::Vec3;
use bevy::ecs::entity::Entity;
use bevy::input::keyboard::KeyCode;
use bevy::input::Input;
use bevy_rapier3d::pipeline::CollisionEvent;
use vstd::prelude::*;

verus! {

/// The jump state of a body: airborne while `is_jumping`, else grounded.
#[derive(Clone, Copy, Debug, PartialEq, Eq, Structural)]
pub struct Jumper {
    /// The upward speed that a jump starts with.
    pub jump_impulse: i64,
    pub is_jumping: bool,
}

/// The velocity of a body.
#[derive(Clone, Copy, Debug, PartialEq, Eq, Structural)]
pub struct Velocity {
    pub linvel: Vec3,
    pub angvel: Vec3,
}

impl Jumper {
    /// Whether a jump starts: the key is newly pressed and the jumper is
    /// grounded.
    pub open spec fn launches(self, newly_pressed: bool) -> bool {
        newly_pressed && !self.is_jumping
    }

    /// This jumper after the jump key was looked at.
    pub open spec fn launched(self, newly_pressed: bool) -> Jumper {
        if self.launches(newly_pressed) {
            Jumper { is_jumping: true, ..self }
        } else {
            self
        }
    }

    /// The velocity of this jumper's body after the jump key was looked at:
    /// a jump sets the vertical speed to the jump impulse and leaves the
    /// rest of the velocity as it is.
    pub open spec fn launch_velocity(self, velocity: Velocity, newly_pressed: bool) -> Velocity {
        if self.launches(newly_pressed) {
            Velocity { linvel: Vec3 { y: self.jump_impulse, ..velocity.linvel }, ..velocity }
        } else {
            velocity
        }
    }

    /// This jumper after the collisions were looked at: grounded if it
    /// started touching anything.
    pub open spec fn landed(self, touched: bool) -> Jumper {
        Jumper { is_jumping: self.is_jumping && !touched, ..self }
    }
}

/// Starts a jump if the jump key is newly pressed, that is down now and not
/// down in the tick before, and the jumper is grounded. Holding the key
/// starts no second jump.
pub fn jump_on_press(newly_pressed: bool, jumper: &mut Jumper, velocity: &mut Velocity)
    ensures
        *final(jumper) == old(jumper).launched(newly_pressed),
        *final(velocity) == old(jumper).launch_velocity(*old(velocity), newly_pressed),
{
    if newly_pressed && !jumper.is_jumping {
        velocity.linvel.y = jumper.jump_impulse;
        jumper.is_jumping = true;
    }
}

/// Whether the jump key, the space bar, is newly pressed: it is down now and
/// went down since the last tick. A key that was pressed and released again
/// within the tick is not down, and so not newly pressed.
pub open spec fn jump_key_newly_pressed(held: Set<KeyCode>, fresh: Set<KeyCode>) -> bool {
    fresh.contains(KeyCode::Space) && held.contains(KeyCode::Space)
}

/// Lets every grounded player jump if the jump key is newly pressed. While
/// the key is not down, nothing changes.
pub fn player_jumps(keyboard: &Input<KeyCode>, players: &mut Vec<(Jumper, Velocity)>)
    ensures
        final(players)@.len() == old(players)@.len(),
        forall|i: int|
            0 <= i < old(players)@.len() ==> {
                let newly_pressed = jump_key_newly_pressed(
                    held_keys(*keyboard),
                    fresh_keys(*keyboard),
                );
                let (jumper, velocity) = #[trigger] old(players)@[i];
                final(players)@[i] == (
                    jumper.launched(newly_pressed),
                    jumper.launch_velocity(velocity, newly_pressed),
                )
            },
        !held_keys(*keyboard).contains(KeyCode::Space) ==> final(players)@ == old(players)@,
{
    let newly_pressed = key_just_pressed(keyboard, KeyCode::Space) && key_pressed(
        keyboard,
        KeyCode::Space,
    );
    let mut i: usize = 0;
    while i < players.len()
        invariant
            i <= players.len(),
            players@.len() == old(players)@.len(),
            newly_pressed == jump_key_newly_pressed(held_keys(*keyboard), fresh_keys(*keyboard)),
            forall|j: int|
                0 <= j < i ==> {
                    let (jumper, velocity) = #[trigger] old(players)@[j];
                    players@[j] == (
                        jumper.launched(newly_pressed),
                        jumper.launch_velocity(velocity, newly_pressed),
                    )
                },
            forall|j: int| i <= j < players@.len() ==> players@[j] == old(players)@[j],
        decreases players.len() - i,
    {
        let (mut jumper, mut velocity) = players[i];
        jump_on_press(newly_pressed, &mut jumper, &mut velocity);
        players.set(i, (jumper, velocity));
        i += 1;
    }
    assert(!held_keys(*keyboard).contains(KeyCode::Space) ==> players@ =~= old(players)@);
}

/// Grounds the jumper of `entity` if `event` reports that the entity started
/// touching something. Any contact counts, not only one with the floor; an
/// event that reports the end of a contact changes nothing.
pub fn set_jumping_false_if_touching_floor(
    entity: &Entity,
    jumper: &mut Jumper,
    event: &CollisionEvent,
)
    ensures
        *final(jumper) == old(jumper).landed(touches(*event, *entity)),
{
    match event {
        CollisionEvent::Started(a, b, _) => {
            if same_entity(a, entity) || same_entity(b, entity) {
                jumper.is_jumping = false;
            }
        },
        CollisionEvent::Stopped(_, _, _) => {},
    }
}

/// Grounds every jumper whose entity one of the collision events of the tick
/// names as starting to touch something. Each event is visited once, in the
/// order given.
pub fn jump_reset(jumpers: &mut Vec<(Entity, Jumper)>, contact_events: &Vec<CollisionEvent>)
    ensures
        final(jumpers)@.len() == old(jumpers)@.len(),
        forall|i: int|
            0 <= i < old(jumpers)@.len() ==> {
                let (entity, jumper) = #[trigger] old(jumpers)@[i];
                final(jumpers)@[i] == (entity, jumper.landed(touched(contact_events@, entity)))
            },
{
    let mut k: usize = 0;
    while k < contact_events.len()
        invariant
            k <= contact_events.len(),
            jumpers@.len() == old(jumpers)@.len(),
            forall|j: int|
                0 <= j < jumpers@.len() ==> {
                    let (entity, jumper) = #[trigger] old(jumpers)@[j];
                    jumpers@[j] == (
                        entity,
                        jumper.landed(touched(contact_events@.take(k as int), entity)),
                    )
                },
        decreases contact_events.len() - k,
    {
        let ghost seen = contact_events@.take(k as int);
        let ghost seen_next = contact_events@.take(k + 1);
        let mut i: usize = 0;
        while i < jumpers.len()
            invariant
                k < contact_events.len(),
                seen == contact_events@.take(k as int),
                seen_next == contact_events@.take(k + 1),
                i <= jumpers.len(),
                jumpers@.len() == old(jumpers)@.len(),
                forall|j: int|
                    0 <= j < i ==> {
                        let (entity, jumper) = #[trigger] old(jumpers)@[j];
                        jumpers@[j] == (entity, jumper.landed(touched(seen_next, entity)))
                    },
                forall|j: int|
                    i <= j < jumpers@.len() ==> {
                        let (entity, jumper) = #[trigger] old(jumpers)@[j];
                        jumpers@[j] == (entity, jumper.landed(touched(seen, entity)))
                    },
            decreases jumpers.len() - i,
        {
            let (entity, mut jumper) = jumpers[i];
            set_jumping_false_if_touching_floor(&entity, &mut jumper, &contact_events[k]);
            proof {
                lemma_touched_one_more(contact_events@, k as int, old(jumpers)@[i as int].0);
            }
            jumpers.set(i, (entity, jumper));
            i += 1;
        }
        k += 1;
    }
    assert(contact_events@.take(k as int) == contact_events@);
}

/// What one tick shows a jumper.
pub struct JumpTick {
    /// The jump key is down and went down in this tick. A key that is held
    /// down is newly pressed in the first tick of the hold only.
    pub newly_pressed: bool,
    /// A collision event of this tick names the jumper's entity as starting
    /// to touch something.
    pub touched: bool,
}

impl Jumper {
    /// This jumper after one tick, in which the jump key is looked at before
    /// the collisions are.
    pub open spec fn after_tick(self, tick: JumpTick) -> Jumper {
        self.launched(tick.newly_pressed).landed(tick.touched)
    }
}

/// The number of jumps that start in the course of `ticks`.
pub open spec fn launch_count(jumper: Jumper, ticks: Seq<JumpTick>) -> nat
    decreases ticks.len(),
{
    if ticks.len() == 0 {
        0
    } else {
        let first: nat = if jumper.launches(ticks[0].newly_pressed) {
            1
        } else {
            0
        };
        first + launch_count(jumper.after_tick(ticks[0]), ticks.skip(1))
    }
}

/// While the jump key is not newly pressed, no jump starts.
pub proof fn lemma_no_press_no_launch(jumper: Jumper, ticks: Seq<JumpTick>)
    requires
        forall|i: int| 0 <= i < ticks.len() ==> !(#[trigger] ticks[i]).newly_pressed,
    ensures
        launch_count(jumper, ticks) == 0,
    decreases ticks.len(),
{
    if ticks.len() > 0 {
        lemma_no_press_no_launch(jumper.after_tick(ticks[0]), ticks.skip(1));
    }
}

/// Holding the jump key for any number of ticks starts exactly one jump of a
/// grounded jumper, in the first tick, whatever the jumper touches meanwhile.
pub proof fn lemma_held_key_launches_once(jumper: Jumper, ticks: Seq<JumpTick>)
    requires
        !jumper.is_jumping,
        ticks.len() >= 1,
        ticks[0].newly_pressed,
        forall|i: int| 1 <= i < ticks.len() ==> !(#[trigger] ticks[i]).newly_pressed,
    ensures
        jumper.launches(ticks[0].newly_pressed),
        launch_count(jumper, ticks) == 1,
        launch_count(jumper.after_tick(ticks[0]), ticks.skip(1)) == 0,
{
    let rest = ticks.skip(1);
    assert forall|i: int| 0 <= i < rest.len() implies !(#[trigger] rest[i]).newly_pressed by {
        assert(rest[i] == ticks[i + 1]);
    }
    lemma_no_press_no_launch(jumper.after_tick(ticks[0]), rest);
}

/// An airborne jumper that starts touching something is grounded after the
/// tick; one that does not stays airborne, whatever the jump key does.
pub proof fn lemma_contact_grounds(jumper: Jumper, tick: JumpTick)
    requires
        jumper.is_jumping,
    ensures
        jumper.after_tick(tick).is_jumping == !tick.touched,
        jumper.after_tick(tick).jump_impulse == jumper.jump_impulse,
{
}

} // verus!
