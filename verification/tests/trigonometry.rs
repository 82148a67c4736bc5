use bevy::input::keyboard::KeyCode;
use bevy::input::Input;
use bevy::math::Quat;
use darkest::control::ControlEvent;
use darkest::control::FpsCameraController;
use darkest::fixed::Vec2;
use darkest::fixed::Vec3;
use darkest::fixed::ONE;
use darkest::input::default_input_map;
use darkest::look::control_system;
use darkest::look::to_world;
use darkest::look::Camera;
use darkest::look::Heading;
use darkest::look::LookAngles;
use darkest::look::LookRig;
use darkest::look::PlayerMotion;
use darkest::look::TAU;
use smooth_bevy_cameras::LookTransform;

fn fixed(value: f32) -> i64 {
    (value as f64 * 1e6).round() as i64
}

fn float(value: i64) -> f32 {
    (value as f64 / 1e6) as f32
}

fn fixed3(v: bevy::math::Vec3) -> Vec3 {
    Vec3 { x: fixed(v.x), y: fixed(v.y), z: fixed(v.z) }
}

fn heading_of(yaw: f32) -> Heading {
    let heading = Heading { sin: fixed(yaw.sin()), cos: fixed(yaw.cos()) };
    assert!(heading.is_wf());
    heading
}

fn angles_of(angles: smooth_bevy_cameras::LookAngles) -> LookAngles {
    LookAngles::new(fixed(angles.get_yaw()), fixed(angles.get_pitch()))
}

/// How far two yaws are apart, round the circle.
fn yaw_gap(a: i64, b: i64) -> i64 {
    let gap = (a - b).rem_euclid(TAU);
    gap.min(TAU - gap)
}

fn length(v: Vec3) -> f64 {
    ((v.x as f64).powi(2) + (v.y as f64).powi(2) + (v.z as f64).powi(2)).sqrt()
}

#[test]
fn one_rotation_turns_the_rig_about_its_eye() {
    let eye = bevy::math::Vec3::new(0.0, 1.0, 5.0);
    let target = bevy::math::Vec3::new(0.0, 0.0, 0.0);
    let look = LookTransform::new(eye, target);
    let mut angles = smooth_bevy_cameras::LookAngles::from_vector(look.look_direction().unwrap());

    let controller = FpsCameraController {
        mouse_rotate_sensitivity: Vec2 { x: ONE, y: ONE },
        ..FpsCameraController::default()
    };
    let before = LookRig::new(&controller, fixed3(eye), angles_of(angles), fixed(look.radius()));
    // Half a turn about, atan(1/5) below level, sqrt(26) away, as far as
    // single precision tells.
    assert!((before.angles.yaw - 3_141_593).abs() <= 2);
    assert!((before.angles.pitch + 197_396).abs() <= 2);
    assert!((before.radius - 5_099_020).abs() <= 2);

    let keyboard: Input<KeyCode> = Input::default();
    let motion = vec![Vec2 { x: 100_000, y: 0 }];
    let events = default_input_map(&vec![controller], &keyboard, &motion);
    assert_eq!(events, vec![ControlEvent::Rotate(Vec2 { x: 100_000, y: 0 })]);

    let heading = heading_of(angles.get_yaw());
    let mut cameras = vec![Camera { controller, rig: before, heading }];
    let motions = control_system(&mut cameras, &events);
    let rig = cameras[0].rig;

    // The yaw went down by 0.1 rad, nothing else changed.
    assert_eq!(rig.angles.yaw, before.angles.yaw - 100_000);
    assert_eq!(rig.angles.pitch, before.angles.pitch);
    assert_eq!(rig.eye, Vec3 { x: 0, y: 1_000_000, z: 5_000_000 });
    assert_eq!(rig.radius, before.radius);
    assert_eq!(motions, vec![PlayerMotion::Turn(-100_000)]);

    // The new target lies at the same radius from the eye.
    angles.set_yaw(float(rig.angles.yaw));
    angles.set_pitch(float(rig.angles.pitch));
    let new_target = rig.target(fixed3(angles.unit_vector()));
    let offset = Vec3 {
        x: new_target.x - rig.eye.x,
        y: new_target.y - rig.eye.y,
        z: new_target.z - rig.eye.z,
    };
    assert!((length(offset) - rig.radius as f64).abs() < 20.0);
    assert_ne!(new_target, fixed3(target));

    // It is where the camera crate puts it.
    let mut expected = smooth_bevy_cameras::LookAngles::from_vector(look.look_direction().unwrap());
    expected.add_yaw(-0.1);
    let expected_target = fixed3(eye + look.radius() * expected.unit_vector());
    assert!((new_target.x - expected_target.x).abs() < 20);
    assert!((new_target.y - expected_target.y).abs() < 20);
    assert!((new_target.z - expected_target.z).abs() < 20);
}

#[test]
fn turns_agree_with_the_camera_crate() {
    let directions = [
        bevy::math::Vec3::new(0.0, 0.0, 1.0),
        bevy::math::Vec3::new(1.0, 0.0, 0.0),
        bevy::math::Vec3::new(-1.0, 0.5, 0.0),
        bevy::math::Vec3::new(0.3, -0.8, -0.5),
        bevy::math::Vec3::new(-0.2, 0.1, -1.0),
        bevy::math::Vec3::new(0.0, 1.0, 0.0),
        bevy::math::Vec3::new(0.0, -1.0, 0.0),
    ];
    let deltas = [
        (0.0, 0.0),
        (0.1, 0.0),
        (-0.1, 0.05),
        (1.0, -1.0),
        (-2.5, 2.0),
        (4.0, -3.0),
        (-7.0, 0.3),
        (9.5, 1.5),
    ];
    for direction in directions {
        for (dx, dy) in deltas {
            let mut theirs = smooth_bevy_cameras::LookAngles::from_vector(direction);
            let mut ours = angles_of(theirs);
            assert!(ours.is_wf());
            for _ in 0..3 {
                theirs.add_yaw(-dx);
                theirs.add_pitch(-dy);
                ours.turn(Vec2 { x: fixed(dx), y: fixed(dy) });
                assert!(ours.is_wf());
                assert!(yaw_gap(ours.yaw, fixed(theirs.get_yaw())) < 20);
                assert!((ours.pitch - fixed(theirs.get_pitch())).abs() < 20);
                theirs.assert_not_looking_up();
            }
        }
    }
}

#[test]
fn translations_agree_with_a_rotation_about_the_vertical() {
    let yaws = [0.0f32, 0.1, 0.7853982, 1.5707964, 2.0, 3.1415927, -1.0, -2.5, 5.5];
    let deltas = [
        bevy::math::Vec3::new(0.0, 0.0, 0.5),
        bevy::math::Vec3::new(0.5, 0.0, 0.0),
        bevy::math::Vec3::new(0.0, 0.25, 0.0),
        bevy::math::Vec3::new(-1.0, 2.0, 3.0),
        bevy::math::Vec3::new(10.0, -20.0, -30.0),
    ];
    for yaw in yaws {
        let turn = Quat::from_axis_angle(bevy::math::Vec3::Y, yaw);
        let right = turn * bevy::math::Vec3::X;
        let up = turn * bevy::math::Vec3::Y;
        let ahead = turn * bevy::math::Vec3::Z;
        for delta in deltas {
            let theirs = fixed3(delta.x * right + delta.y * up + delta.z * ahead);
            let ours = to_world(fixed3(delta), heading_of(yaw));
            assert!((ours.x - theirs.x).abs() < 100);
            assert!((ours.y - theirs.y).abs() < 100);
            assert!((ours.z - theirs.z).abs() < 100);
            assert_eq!(ours.y, fixed(delta.y));
        }
    }
}
