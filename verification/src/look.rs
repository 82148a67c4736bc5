//! The look rig: where the camera is and where it looks, and how control
//! events move it.

use crate::control::is_first_enabled;
use crate::control::none_enabled;
use crate::control::ControlEvent;
use crate::control::FpsCameraController;
use crate::fixed::rescale;
use crate::fixed::rescaled;
use crate::fixed::saturate;
use crate::fixed::saturate_wide;
use crate::fixed::scaled_product;
use crate::fixed::Vec2;
use crate::fixed::Vec3;
use crate::fixed::ONE;
use vstd::arithmetic::div_mod::lemma_mod_bound;
use vstd::arithmetic::div_mod::lemma_small_mod;
use vstd::arithmetic::div_mod::lemma_sub_mod_noop;
use vstd::arithmetic::div_mod::lemma_sub_mod_noop_right;
use vstd::prelude::*;

verus! {

/// A full turn, in microradians.
pub const TAU: i64 = 6_283_185;

/// A quarter turn: the pitch of looking straight up.
pub const HALF_PI: i64 = 1_570_796;

/// How far the pitch stays away from straight up and straight down.
pub const UP_EPS: i64 = 10_000;

/// The largest pitch, up or down.
pub const PITCH_LIMIT: i64 = HALF_PI - UP_EPS;

/// The yaw in `[0, TAU)` that points where `yaw` points.
pub open spec fn wrap_yaw(yaw: int) -> i64 {
    (yaw % (TAU as int)) as i64
}

/// The pitch nearest to `pitch` that keeps away from the vertical.
pub open spec fn clamp_pitch(pitch: int) -> i64 {
    if pitch > PITCH_LIMIT {
        PITCH_LIMIT
    } else if pitch < -PITCH_LIMIT {
        (-PITCH_LIMIT) as i64
    } else {
        pitch as i64
    }
}

fn wrap_wide(yaw: i128) -> (wrapped: i64)
    ensures
        wrapped == wrap_yaw(yaw as int),
        0 <= wrapped < TAU,
{
    let rem: i128 = yaw % (TAU as i128);
    if rem < 0 {
        (rem + TAU as i128) as i64
    } else {
        rem as i64
    }
}

fn clamp_wide(pitch: i128) -> (clamped: i64)
    ensures
        clamped == clamp_pitch(pitch as int),
        -PITCH_LIMIT <= clamped <= PITCH_LIMIT,
{
    if pitch > PITCH_LIMIT as i128 {
        PITCH_LIMIT
    } else if pitch < -PITCH_LIMIT as i128 {
        -PITCH_LIMIT
    } else {
        pitch as i64
    }
}

/// A look direction as a heading and an elevation.
#[derive(Clone, Copy, Debug, PartialEq, Eq, Structural)]
pub struct LookAngles {
    /// The heading about the vertical axis, in `[0, TAU)`.
    pub yaw: i64,
    /// The elevation, within `PITCH_LIMIT` of level.
    pub pitch: i64,
}

impl LookAngles {
    /// The yaw is wrapped and the pitch keeps away from the vertical, where
    /// the direction would leave no heading to turn about.
    pub open spec fn wf(self) -> bool {
        &&& 0 <= self.yaw < TAU
        &&& -PITCH_LIMIT <= self.pitch <= PITCH_LIMIT
    }

    /// These angles after a rotation by `delta`, which is subtracted.
    pub open spec fn turned(self, delta: Vec2) -> LookAngles {
        LookAngles {
            yaw: wrap_yaw(self.yaw - delta.x),
            pitch: clamp_pitch(self.pitch - delta.y),
        }
    }

    /// The angles of a direction given by any yaw and pitch: the yaw is
    /// wrapped and the pitch clamped.
    pub fn new(yaw: i64, pitch: i64) -> (angles: LookAngles)
        ensures
            angles.wf(),
            angles.yaw == wrap_yaw(yaw as int),
            angles.pitch == clamp_pitch(pitch as int),
    {
        LookAngles { yaw: wrap_wide(yaw as i128), pitch: clamp_wide(pitch as i128) }
    }

    /// Whether these angles are well formed.
    pub fn is_wf(&self) -> (ok: bool)
        ensures
            ok == self.wf(),
    {
        0 <= self.yaw && self.yaw < TAU && -PITCH_LIMIT <= self.pitch && self.pitch
            <= PITCH_LIMIT
    }

    /// Rotates by `delta`: the yaw wraps, the pitch stops short of the
    /// vertical.
    pub fn turn(&mut self, delta: Vec2)
        ensures
            *final(self) == old(self).turned(delta),
            final(self).wf(),
            -HALF_PI < final(self).pitch < HALF_PI,
    {
        self.yaw = wrap_wide(self.yaw as i128 - delta.x as i128);
        self.pitch = clamp_wide(self.pitch as i128 - delta.y as i128);
    }
}

/// How far the squared length of a heading may be from 1: what is left of
/// it when sine and cosine are rounded to a millionth each.
pub const UNIT_SLACK: i64 = 2 * ONE;

/// The sine and cosine of a yaw, as the caller computed them.
#[derive(Clone, Copy, Debug, PartialEq, Eq, Structural)]
pub struct Heading {
    pub sin: i64,
    pub cos: i64,
}

impl Heading {
    /// Neither component exceeds 1, and together they are of length 1, as
    /// far as rounding allows: a heading turns, it does not stretch.
    pub open spec fn wf(self) -> bool {
        &&& -ONE <= self.sin <= ONE
        &&& -ONE <= self.cos <= ONE
        &&& -UNIT_SLACK <= self.sin * self.sin + self.cos * self.cos - ONE * ONE <= UNIT_SLACK
    }

    /// Whether this heading is well formed.
    pub fn is_wf(&self) -> (ok: bool)
        ensures
            ok == self.wf(),
    {
        if -ONE <= self.sin && self.sin <= ONE && -ONE <= self.cos && self.cos <= ONE {
            proof {
                lemma_product_fits(self.sin as int, self.sin as int);
                lemma_product_fits(self.cos as int, self.cos as int);
            }
            let length: i128 = self.sin as i128 * self.sin as i128 + self.cos as i128
                * self.cos as i128;
            let unit: i128 = 1_000_000_000_000;
            assert(unit == ONE * ONE) by (nonlinear_arith)
                requires
                    unit == 1_000_000_000_000,
                    ONE == 1_000_000,
            ;
            -(UNIT_SLACK as i128) <= length - unit && length - unit <= UNIT_SLACK as i128
        } else {
            false
        }
    }
}

/// The `x` component of a translation in world coordinates, before it is
/// saturated.
pub open spec fn world_x(delta: Vec3, heading: Heading) -> int {
    rescaled(delta.x * heading.cos + delta.z * heading.sin)
}

/// The `z` component of a translation in world coordinates, before it is
/// saturated.
pub open spec fn world_z(delta: Vec3, heading: Heading) -> int {
    rescaled(delta.z * heading.cos - delta.x * heading.sin)
}

/// A translation given in the camera's frame, in world coordinates. The
/// frame is the world's, turned about the vertical axis by the yaw of
/// `heading`: right is `(cos, 0, -sin)`, up is `(0, 1, 0)`, ahead is
/// `(sin, 0, cos)`. The pitch has no part in it.
pub open spec fn in_world(delta: Vec3, heading: Heading) -> Vec3 {
    Vec3 {
        x: saturate(world_x(delta, heading)),
        y: delta.y,
        z: saturate(world_z(delta, heading)),
    }
}

/// A component times a sine or cosine stays far within `i128`.
proof fn lemma_product_fits(component: int, part: int)
    requires
        i64::MIN <= component <= i64::MAX,
        -ONE <= part <= ONE,
    ensures
        -0x8000_0000_0000_0000 * 1_000_000 <= component * part <= 0x8000_0000_0000_0000
            * 1_000_000,
{
    assert(-0x8000_0000_0000_0000 * 1_000_000 <= component * part <= 0x8000_0000_0000_0000
        * 1_000_000) by (nonlinear_arith)
        requires
            -0x8000_0000_0000_0000 <= component <= 0x8000_0000_0000_0000,
            -1_000_000 <= part <= 1_000_000,
    ;
}

/// Turns a translation in the camera's frame into one in world coordinates.
pub fn to_world(delta: Vec3, heading: Heading) -> (world: Vec3)
    requires
        heading.wf(),
    ensures
        world == in_world(delta, heading),
{
    let x: i128 = delta.x as i128;
    let z: i128 = delta.z as i128;
    let sin: i128 = heading.sin as i128;
    let cos: i128 = heading.cos as i128;
    proof {
        lemma_product_fits(x as int, cos as int);
        lemma_product_fits(z as int, sin as int);
        lemma_product_fits(z as int, cos as int);
        lemma_product_fits(x as int, sin as int);
    }
    Vec3 { x: rescale(x * cos + z * sin), y: delta.y, z: rescale(z * cos - x * sin) }
}

/// The eye of a camera and where it looks: the angles of the look direction
/// and the distance to the target along it.
#[derive(Clone, Copy, Debug, PartialEq, Eq, Structural)]
pub struct LookRig {
    pub eye: Vec3,
    pub angles: LookAngles,
    /// The distance from the eye to the target.
    pub radius: i64,
    /// The weight of the previous frame when the rig is smoothed.
    pub smoothing_weight: i64,
}

impl LookRig {
    /// The angles are well formed and the target is apart from the eye.
    pub open spec fn wf(self) -> bool {
        &&& self.angles.wf()
        &&& self.radius > 0
    }

    /// Whether this rig is well formed.
    pub fn is_wf(&self) -> (ok: bool)
        ensures
            ok == self.wf(),
    {
        self.angles.is_wf() && self.radius > 0
    }

    /// The rig of a camera under `controller`, whose smoothing weight it
    /// takes: at `eye`, looking along `angles` at a target `radius` away.
    pub fn new(
        controller: &FpsCameraController,
        eye: Vec3,
        angles: LookAngles,
        radius: i64,
    ) -> (rig: LookRig)
        requires
            angles.wf(),
            radius > 0,
        ensures
            rig.wf(),
            rig == (LookRig {
                eye,
                angles,
                radius,
                smoothing_weight: controller.smoothing_weight,
            }),
    {
        LookRig { eye, angles, radius, smoothing_weight: controller.smoothing_weight }
    }

    /// The point `radius` away from the eye along `direction`.
    pub open spec fn target_along(self, direction: Vec3) -> Vec3 {
        self.eye.translated(
            Vec3 {
                x: saturate(rescaled(self.radius * direction.x)),
                y: saturate(rescaled(self.radius * direction.y)),
                z: saturate(rescaled(self.radius * direction.z)),
            },
        )
    }

    /// The target of the rig, given the unit vector of its look angles.
    pub fn target(&self, direction: Vec3) -> (target: Vec3)
        ensures
            target == self.target_along(direction),
    {
        self.eye.translate(
            Vec3 {
                x: scaled_product(self.radius, direction.x as i128),
                y: scaled_product(self.radius, direction.y as i128),
                z: scaled_product(self.radius, direction.z as i128),
            },
        )
    }

    /// This rig after one control event. A rotation turns the look
    /// direction; a translation moves the eye, and the target with it.
    pub open spec fn after_event(self, heading: Heading, event: ControlEvent) -> LookRig {
        match event {
            ControlEvent::Rotate(delta) => LookRig { angles: self.angles.turned(delta), ..self },
            ControlEvent::TranslateEye(delta) => LookRig {
                eye: self.eye.translated(in_world(delta, heading)),
                ..self
            },
        }
    }

    /// This rig after `events`, applied in their order.
    pub open spec fn after(self, heading: Heading, events: Seq<ControlEvent>) -> LookRig
        decreases events.len(),
    {
        if events.len() == 0 {
            self
        } else {
            self.after(heading, events.drop_last()).after_event(heading, events.last())
        }
    }
}

/// What a control event does to the body of a player.
#[derive(Clone, Copy, Debug, PartialEq, Eq, Structural)]
pub enum PlayerMotion {
    /// Turn about the world's vertical axis by this angle.
    Turn(i64),
    /// Move by this vector, in world coordinates.
    Shift(Vec3),
}

/// The motion that keeps a player's body in step with the camera under
/// `event`: it turns by the yaw of a rotation and moves as the eye moves.
pub open spec fn motion_of(event: ControlEvent, heading: Heading) -> PlayerMotion {
    match event {
        ControlEvent::Rotate(delta) => PlayerMotion::Turn(saturate(-delta.x)),
        ControlEvent::TranslateEye(delta) => PlayerMotion::Shift(in_world(delta, heading)),
    }
}

/// Applies the control events of one tick to a rig, in their order, and
/// returns the motion of the players' bodies, one per event.
///
/// `heading` holds the sine and cosine of the rig's yaw at the start of the
/// tick; every translation of the tick is taken in that frame.
pub fn drive_rig(rig: &mut LookRig, heading: Heading, events: &Vec<ControlEvent>) -> (motions: Vec<
    PlayerMotion,
>)
    requires
        old(rig).wf(),
        heading.wf(),
    ensures
        *final(rig) == old(rig).after(heading, events@),
        final(rig).wf(),
        -HALF_PI < final(rig).angles.pitch < HALF_PI,
        events@.len() == 0 ==> *final(rig) == *old(rig),
        motions@.len() == events@.len(),
        forall|i: int|
            0 <= i < events@.len() ==> motions@[i] == motion_of(#[trigger] events@[i], heading),
{
    let mut motions: Vec<PlayerMotion> = Vec::new();
    let mut i: usize = 0;
    while i < events.len()
        invariant
            i <= events.len(),
            heading.wf(),
            rig.wf(),
            *rig == old(rig).after(heading, events@.take(i as int)),
            motions@.len() == i,
            forall|j: int| 0 <= j < i ==> motions@[j] == motion_of(#[trigger] events@[j], heading),
        decreases events.len() - i,
    {
        assert(events@.take(i + 1).drop_last() == events@.take(i as int));
        match events[i] {
            ControlEvent::Rotate(delta) => {
                rig.angles.turn(delta);
                motions.push(PlayerMotion::Turn(saturate_wide(-(delta.x as i128))));
            },
            ControlEvent::TranslateEye(delta) => {
                let shift = to_world(delta, heading);
                rig.eye = rig.eye.translate(shift);
                motions.push(PlayerMotion::Shift(shift));
            },
        }
        i += 1;
    }
    assert(events@.take(i as int) == events@);
    motions
}

/// A camera that input may drive.
#[derive(Clone, Copy, Debug, PartialEq, Eq, Structural)]
pub struct Camera {
    pub controller: FpsCameraController,
    pub rig: LookRig,
    /// The sine and cosine of the rig's yaw at the start of the tick.
    pub heading: Heading,
}

impl Camera {
    /// This camera after input drove it through `events`.
    pub open spec fn driven(self, events: Seq<ControlEvent>) -> Camera {
        Camera { rig: self.rig.after(self.heading, events), ..self }
    }
}

/// The controllers of `cameras`, in their order.
pub open spec fn controllers_of(cameras: Seq<Camera>) -> Seq<FpsCameraController> {
    cameras.map_values(|camera: Camera| camera.controller)
}

/// Finds the camera that input drives: the first whose controller is
/// enabled.
fn enabled_camera(cameras: &Vec<Camera>) -> (found: Option<usize>)
    ensures
        match found {
            Some(i) => is_first_enabled(controllers_of(cameras@), i as int),
            None => none_enabled(controllers_of(cameras@)),
        },
{
    let mut i: usize = 0;
    while i < cameras.len()
        invariant
            i <= cameras.len(),
            forall|j: int| 0 <= j < i ==> !(#[trigger] controllers_of(cameras@)[j]).enabled,
        decreases cameras.len() - i,
    {
        if cameras[i].controller.enabled {
            return Some(i);
        }
        i += 1;
    }
    None
}

/// Applies the control events of one tick to the one camera that input
/// drives, the first whose controller is enabled, and returns the motion of
/// the players' bodies, one per event, in their order.
///
/// Without an enabled controller nothing is driven and nothing moves,
/// whatever the events. No other camera than the driven one is ever changed.
/// The driven camera must be well formed; the others need not be.
pub fn control_system(cameras: &mut Vec<Camera>, events: &Vec<ControlEvent>) -> (motions: Vec<
    PlayerMotion,
>)
    requires
        forall|i: int|
            is_first_enabled(controllers_of(old(cameras)@), i) ==> old(cameras)@[i].rig.wf() && old(
                cameras,
            )@[i].heading.wf(),
    ensures
        none_enabled(controllers_of(old(cameras)@)) ==> final(cameras)@ == old(cameras)@
            && motions@.len() == 0,
        forall|i: int|
            is_first_enabled(controllers_of(old(cameras)@), i) ==> {
                &&& final(cameras)@ == old(cameras)@.update(i, old(cameras)@[i].driven(events@))
                &&& final(cameras)@[i].rig.wf()
                &&& motions@.len() == events@.len()
                &&& forall|k: int|
                    0 <= k < events@.len() ==> motions@[k] == motion_of(
                        #[trigger] events@[k],
                        old(cameras)@[i].heading,
                    )
            },
{
    match enabled_camera(cameras) {
        Some(i) => {
            let mut camera = cameras[i];
            let motions = drive_rig(&mut camera.rig, camera.heading, events);
            cameras.set(i, camera);
            motions
        },
        None => Vec::new(),
    }
}

/// Every event of `events` is a rotation.
pub open spec fn only_rotations(events: Seq<ControlEvent>) -> bool {
    forall|i: int| 0 <= i < events.len() ==> #[trigger] events[i] is Rotate
}

/// The yaw that `event` asks to turn by: 0 for a translation.
pub open spec fn yaw_of(event: ControlEvent) -> int {
    match event {
        ControlEvent::Rotate(delta) => delta.x as int,
        ControlEvent::TranslateEye(_) => 0,
    }
}

/// The pitch that `event` asks to turn by: 0 for a translation.
pub open spec fn pitch_of(event: ControlEvent) -> int {
    match event {
        ControlEvent::Rotate(delta) => delta.y as int,
        ControlEvent::TranslateEye(_) => 0,
    }
}

/// The sum of the yaw deltas of `events`.
pub open spec fn total_yaw(events: Seq<ControlEvent>) -> int
    decreases events.len(),
{
    if events.len() == 0 {
        0
    } else {
        total_yaw(events.drop_last()) + yaw_of(events.last())
    }
}

/// The sum of the pitch deltas of `events`.
pub open spec fn total_pitch(events: Seq<ControlEvent>) -> int
    decreases events.len(),
{
    if events.len() == 0 {
        0
    } else {
        total_pitch(events.drop_last()) + pitch_of(events.last())
    }
}

/// What the pitch limit took away over `events`: the pitch that the rig ends
/// with, less the pitch that the deltas alone would give.
pub open spec fn pitch_lost(rig: LookRig, heading: Heading, events: Seq<ControlEvent>) -> int {
    rig.after(heading, events).angles.pitch - (rig.angles.pitch - total_pitch(events))
}

/// From `pitch`, the deltas of `events` alone never lead beyond the pitch
/// limit.
pub open spec fn within_pitch_limit(pitch: i64, events: Seq<ControlEvent>) -> bool {
    forall|k: int|
        0 <= k <= events.len() ==> -PITCH_LIMIT <= pitch - #[trigger] total_pitch(events.take(k))
            <= PITCH_LIMIT
}

/// Whatever the events, a well-formed rig stays well formed: no sequence of
/// events brings the pitch to the vertical.
pub proof fn lemma_rig_stays_well_formed(rig: LookRig, heading: Heading, events: Seq<ControlEvent>)
    requires
        rig.wf(),
    ensures
        rig.after(heading, events).wf(),
        -HALF_PI < rig.after(heading, events).angles.pitch < HALF_PI,
    decreases events.len(),
{
    if events.len() > 0 {
        lemma_rig_stays_well_formed(rig, heading, events.drop_last());
    }
}

/// Wrapping in between changes nothing: a wrapped yaw less `b` wraps to
/// what the yaw itself less `b` wraps to.
proof fn lemma_wrap_step(a: int, b: int)
    ensures
        wrap_yaw(wrap_yaw(a) - b) == wrap_yaw(a - b),
        0 <= wrap_yaw(a) < TAU,
{
    let m = TAU as int;
    lemma_sub_mod_noop(a, b, m);
    lemma_sub_mod_noop_right(a % m, b, m);
    lemma_mod_bound(a, m);
    lemma_mod_bound(a % m - b, m);
    lemma_mod_bound(a - b, m);
}

/// A yaw that is wrapped already wraps to itself.
proof fn lemma_wrap_of_wrapped(yaw: int)
    requires
        0 <= yaw < TAU,
    ensures
        wrap_yaw(yaw) == yaw,
{
    lemma_small_mod(yaw as nat, TAU as nat);
}

/// The yaw after any events is the yaw before less the sum of the yaw
/// deltas, wrapped; the radius and the smoothing weight never change.
pub proof fn lemma_yaw_after(rig: LookRig, heading: Heading, events: Seq<ControlEvent>)
    requires
        rig.wf(),
    ensures
        rig.after(heading, events).angles.yaw == wrap_yaw(rig.angles.yaw - total_yaw(events)),
        rig.after(heading, events).radius == rig.radius,
        rig.after(heading, events).smoothing_weight == rig.smoothing_weight,
    decreases events.len(),
{
    if events.len() == 0 {
        lemma_wrap_of_wrapped(rig.angles.yaw as int);
    } else {
        let front = events.drop_last();
        let before = rig.after(heading, front);
        lemma_yaw_after(rig, heading, front);
        lemma_rig_stays_well_formed(rig, heading, front);
        match events.last() {
            ControlEvent::Rotate(delta) => {
                // One more turn: the yaw so far, itself wrapped, less the delta.
                lemma_wrap_step(rig.angles.yaw - total_yaw(front), delta.x as int);
                assert(before.after_event(heading, events.last()).angles.yaw == wrap_yaw(
                    before.angles.yaw - delta.x,
                ));
            },
            ControlEvent::TranslateEye(_) => {
                assert(before.after_event(heading, events.last()).angles == before.angles);
            },
        }
    }
}

/// Rotations leave the eye where it is.
pub proof fn lemma_rotations_keep_eye(rig: LookRig, heading: Heading, events: Seq<ControlEvent>)
    requires
        only_rotations(events),
    ensures
        rig.after(heading, events).eye == rig.eye,
    decreases events.len(),
{
    if events.len() > 0 {
        assert(events.last() is Rotate);
        lemma_rotations_keep_eye(rig, heading, events.drop_last());
    }
}

/// Where the deltas alone never lead beyond the pitch limit, the limit takes
/// nothing away: the pitch ends as the pitch before less the sum of the pitch
/// deltas.
pub proof fn lemma_pitch_within_limit(rig: LookRig, heading: Heading, events: Seq<ControlEvent>)
    requires
        rig.wf(),
        within_pitch_limit(rig.angles.pitch, events),
    ensures
        pitch_lost(rig, heading, events) == 0,
    decreases events.len(),
{
    if events.len() > 0 {
        let front = events.drop_last();
        assert forall|k: int| 0 <= k <= front.len() implies -PITCH_LIMIT <= rig.angles.pitch
            - #[trigger] total_pitch(front.take(k)) <= PITCH_LIMIT by {
            assert(front.take(k) == events.take(k));
        }
        lemma_pitch_within_limit(rig, heading, front);
        assert(events.take(events.len() as int) == events);
    }
}

/// A tick of rotations whose deltas sum to zero leaves the rig as it was:
/// the eye, the look direction and with it the target, and the radius. This
/// holds wherever the pitch limit took nothing away in total, which
/// [`lemma_pitch_within_limit`] shows for rotations that stay within it.
pub proof fn lemma_zero_rotation_keeps_rig(
    rig: LookRig,
    heading: Heading,
    events: Seq<ControlEvent>,
)
    requires
        rig.wf(),
        only_rotations(events),
        total_yaw(events) == 0,
        total_pitch(events) == 0,
        pitch_lost(rig, heading, events) == 0,
    ensures
        rig.after(heading, events) == rig,
        forall|direction: Vec3|
            #[trigger] rig.after(heading, events).target_along(direction) == rig.target_along(
                direction,
            ),
{
    lemma_yaw_after(rig, heading, events);
    lemma_wrap_of_wrapped(rig.angles.yaw as int);
    lemma_rotations_keep_eye(rig, heading, events);
}

/// The rotation of a tick in which the pointer did not move is applied like
/// any other, and changes nothing.
pub proof fn lemma_zero_rotation_changes_nothing(rig: LookRig, heading: Heading)
    requires
        rig.wf(),
    ensures
        rig.after_event(heading, ControlEvent::Rotate(Vec2 { x: 0, y: 0 })) == rig,
{
    lemma_wrap_of_wrapped(rig.angles.yaw as int);
}

/// Turning the yaw by `d` and then by `-d` within one tick restores the rig.
pub proof fn lemma_yaw_round_trip(rig: LookRig, heading: Heading, d: i64)
    requires
        rig.wf(),
        d > i64::MIN,
    ensures
        rig.after(
            heading,
            seq![
                ControlEvent::Rotate(Vec2 { x: d, y: 0 }),
                ControlEvent::Rotate(Vec2 { x: (-d) as i64, y: 0 }),
            ],
        ) == rig,
{
    let there = ControlEvent::Rotate(Vec2 { x: d, y: 0 });
    let back = ControlEvent::Rotate(Vec2 { x: (-d) as i64, y: 0 });
    let events = seq![there, back];
    assert(events.drop_last() == seq![there]);
    assert(seq![there].drop_last() == Seq::<ControlEvent>::empty());
    reveal_with_fuel(LookRig::after, 3);
    // There and back: the yaw less `d`, wrapped, plus `d` wraps to the yaw.
    lemma_wrap_step(rig.angles.yaw - d, -d);
    lemma_wrap_of_wrapped(rig.angles.yaw as int);
    assert(rig.after(heading, events).angles.yaw == wrap_yaw(wrap_yaw(rig.angles.yaw - d) - (-d)));
}

/// The vertical part of a translation is its `y` component, whatever the
/// heading: moving ahead or sideways never moves the eye up or down.
pub proof fn lemma_translation_keeps_level(delta: Vec3, heading: Heading)
    ensures
        in_world(delta, heading).y == delta.y,
        delta.y == 0 ==> in_world(delta, heading).y == 0,
{
}

/// The magnitude of `x`.
pub open spec fn magnitude(x: int) -> int {
    if x >= 0 {
        x
    } else {
        -x
    }
}

/// Rescaling shortens a product by less than one unit, and never lengthens
/// it.
proof fn lemma_rescaled_square(product: int)
    ensures
        1_000_000_000_000 * (rescaled(product) * rescaled(product)) <= product * product,
        product * product <= 1_000_000_000_000 * ((magnitude(rescaled(product)) + 1) * (magnitude(
            rescaled(product),
        ) + 1)),
{
    let m = magnitude(product);
    let k = m / 1_000_000;
    let r = rescaled(product);
    assert(magnitude(r) == k);
    assert(r * r == k * k) by (nonlinear_arith)
        requires
            r == k || r == -k,
    ;
    assert(product * product == m * m) by (nonlinear_arith)
        requires
            m == product || m == -product,
    ;
    assert(1_000_000_000_000 * (k * k) <= m * m) by (nonlinear_arith)
        requires
            0 <= 1_000_000 * k <= m,
    ;
    assert(m * m <= 1_000_000_000_000 * ((k + 1) * (k + 1))) by (nonlinear_arith)
        requires
            0 <= m <= 1_000_000 * (k + 1),
    ;
}

/// Turning `(x, z)` by a sine and a cosine multiplies its squared length by
/// theirs.
proof fn lemma_turn_keeps_square(x: int, z: int, s: int, c: int)
    ensures
        (x * c + z * s) * (x * c + z * s) + (z * c - x * s) * (z * c - x * s) == (x * x + z * z)
            * (s * s + c * c),
{
    let xc = x * c;
    let zs = z * s;
    let zc = z * c;
    let xs = x * s;
    let xx = x * x;
    let zz = z * z;
    let ss = s * s;
    let cc = c * c;
    assert((xc + zs) * (xc + zs) == xc * xc + 2 * (xc * zs) + zs * zs) by (nonlinear_arith);
    assert((zc - xs) * (zc - xs) == zc * zc - 2 * (zc * xs) + xs * xs) by (nonlinear_arith);
    assert(xc * zs == zc * xs) by (nonlinear_arith)
        requires
            xc == x * c,
            zs == z * s,
            zc == z * c,
            xs == x * s,
    ;
    assert(xc * xc == xx * cc) by (nonlinear_arith)
        requires
            xc == x * c,
            xx == x * x,
            cc == c * c,
    ;
    assert(zs * zs == zz * ss) by (nonlinear_arith)
        requires
            zs == z * s,
            zz == z * z,
            ss == s * s,
    ;
    assert(zc * zc == zz * cc) by (nonlinear_arith)
        requires
            zc == z * c,
            zz == z * z,
            cc == c * c,
    ;
    assert(xs * xs == xx * ss) by (nonlinear_arith)
        requires
            xs == x * s,
            xx == x * x,
            ss == s * s,
    ;
    assert((xx + zz) * (ss + cc) == xx * ss + xx * cc + zz * ss + zz * cc) by (nonlinear_arith);
}

/// A translation keeps its horizontal length when it is brought into world
/// coordinates, up to the rounding of the heading and of the result: the
/// result is no longer than the slack of the heading allows, and shorter by
/// no more than that and one unit in each component.
pub proof fn lemma_heading_keeps_length(delta: Vec3, heading: Heading)
    requires
        heading.wf(),
    ensures
        ({
            let x = world_x(delta, heading);
            let z = world_z(delta, heading);
            let flat = delta.x * delta.x + delta.z * delta.z;
            &&& ONE * ONE * (x * x + z * z) <= (ONE * ONE + UNIT_SLACK) * flat
            &&& (ONE * ONE - UNIT_SLACK) * flat <= ONE * ONE * ((magnitude(x) + 1) * (magnitude(x)
                + 1) + (magnitude(z) + 1) * (magnitude(z) + 1))
        }),
{
    let dx = delta.x as int;
    let dz = delta.z as int;
    let s = heading.sin as int;
    let c = heading.cos as int;
    let p = dx * c + dz * s;
    let q = dz * c - dx * s;
    let x = world_x(delta, heading);
    let z = world_z(delta, heading);
    let flat = dx * dx + dz * dz;
    let norm = s * s + c * c;
    assert(p * p + q * q == flat * norm) by {
        lemma_turn_keeps_square(dx, dz, s, c);
    }
    assert(flat >= 0) by (nonlinear_arith)
        requires
            flat == dx * dx + dz * dz,
    ;
    assert(998_000_000_000 <= 999_998_000_000 <= norm <= 1_000_002_000_000);
    assert(flat * norm <= 1_000_002_000_000 * flat) by (nonlinear_arith)
        requires
            flat >= 0,
            norm <= 1_000_002_000_000,
    ;
    assert(999_998_000_000 * flat <= flat * norm) by (nonlinear_arith)
        requires
            flat >= 0,
            999_998_000_000 <= norm,
    ;
    lemma_rescaled_square(p);
    lemma_rescaled_square(q);
    let xx = x * x;
    let zz = z * z;
    let over_x = (magnitude(x) + 1) * (magnitude(x) + 1);
    let over_z = (magnitude(z) + 1) * (magnitude(z) + 1);
    assert(1_000_000_000_000 * (xx + zz) <= 1_000_002_000_000 * flat);
    assert(999_998_000_000 * flat <= 1_000_000_000_000 * (over_x + over_z));
    assert(ONE * ONE == 1_000_000_000_000) by (nonlinear_arith)
        requires
            ONE == 1_000_000,
    ;
    assert(ONE * ONE * (xx + zz) == 1_000_000_000_000 * (xx + zz)) by (nonlinear_arith)
        requires
            ONE * ONE == 1_000_000_000_000,
    ;
    assert(ONE * ONE * (over_x + over_z) == 1_000_000_000_000 * (over_x + over_z))
        by (nonlinear_arith)
        requires
            ONE * ONE == 1_000_000_000_000,
    ;
}

/// The translations among `events`, in their order.
pub open spec fn translations_of(events: Seq<ControlEvent>) -> Seq<ControlEvent> {
    events.filter(|event: ControlEvent| event is TranslateEye)
}

/// Where the eye ends up depends on the translations alone: two rigs that
/// start at the same eye end at the same eye under any two sequences of
/// events with the same translations, however the look direction is pitched
/// or turned before or between them.
pub proof fn lemma_eye_ignores_rotations(
    rig: LookRig,
    other: LookRig,
    heading: Heading,
    events: Seq<ControlEvent>,
    others: Seq<ControlEvent>,
)
    requires
        rig.eye == other.eye,
        translations_of(events) == translations_of(others),
    ensures
        rig.after(heading, events).eye == other.after(heading, others).eye,
{
    lemma_eye_follows_translations(rig, heading, events);
    lemma_eye_follows_translations(other, heading, others);
    lemma_eye_from_eye(rig, other, heading, translations_of(events));
}

proof fn lemma_eye_follows_translations(rig: LookRig, heading: Heading, events: Seq<ControlEvent>)
    ensures
        rig.after(heading, events).eye == rig.after(heading, translations_of(events)).eye,
    decreases events.len(),
{
    reveal(Seq::filter);
    if events.len() > 0 {
        lemma_eye_follows_translations(rig, heading, events.drop_last());
        if events.last() is TranslateEye {
            let kept = translations_of(events.drop_last()).push(events.last());
            assert(translations_of(events) == kept);
            assert(kept.drop_last() == translations_of(events.drop_last()));
        }
    }
}

proof fn lemma_eye_from_eye(
    rig: LookRig,
    other: LookRig,
    heading: Heading,
    events: Seq<ControlEvent>,
)
    requires
        rig.eye == other.eye,
    ensures
        rig.after(heading, events).eye == other.after(heading, events).eye,
    decreases events.len(),
{
    if events.len() > 0 {
        lemma_eye_from_eye(rig, other, heading, events.drop_last());
    }
}

} // verus!
