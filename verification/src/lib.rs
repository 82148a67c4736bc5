//! Input-to-motion control for a first-person camera and its player body.
//!
//! Once per tick the input mapper ([`input`]) turns the state of keyboard and
//! pointer into control events, the look controller ([`look`]) applies them
//! to the rig of the enabled camera and tells how the players' bodies move
//! along, the jump machine ([`jump`]) starts jumps and grounds jumpers from
//! the collisions of the tick, and the cursor controller ([`cursor`])
//! captures or releases the pointer.
//!
//! Every quantity is a fixed-point number: an `i64` that counts millionths
//! (see [`fixed::ONE`]). Angles are in radians, so one unit of an angle is a
//! microradian. Arithmetic saturates at the bounds of `i64`. The trigonometry
//! that turns angles into directions is left to the caller, who hands the
//! results in as fixed-point values.
//!
//! The state of keyboard and mouse buttons is Bevy's `Input`, and collisions
//! are Rapier's `CollisionEvent`s between Bevy's entities.

pub mod contact;
pub mod control;
pub mod cursor;
pub mod device;
pub mod fixed;
pub mod game;
pub mod input;
pub mod jump;
pub mod look;
