use gl_cookbook::{
    Controller, FreeCamera, InputEvent, Key, MoveCommand, PITCH_LIMIT_URAD, TURN_URAD,
};

#[test]
fn camera_starts_level() {
    let c = FreeCamera::new();
    assert_eq!(c.yaw_microradians(), 0);
    assert_eq!(c.pitch_microradians(), 0);
}

#[test]
fn rotate_left_accumulates_and_wraps() {
    let mut c = FreeCamera::new();
    c.rotate_left(123_456);
    assert_eq!(c.yaw_microradians(), 123_456);
    c.rotate_left(TURN_URAD + 5);
    assert_eq!(c.yaw_microradians(), 123_461);
    let mut d = FreeCamera::new();
    d.rotate_left(-1);
    assert_eq!(d.yaw_microradians(), TURN_URAD - 1);
}

#[test]
fn rotate_left_roundtrip() {
    let mut c = FreeCamera::new();
    c.rotate_left(777_777);
    c.rotate_left(-777_777);
    assert_eq!(c.yaw_microradians(), 0);
    c.rotate_left(-5_000_000);
    c.rotate_left(5_000_000);
    assert_eq!(c.yaw_microradians(), 0);
}

#[test]
fn rotate_up_roundtrip_inside_band() {
    let mut c = FreeCamera::new();
    c.rotate_up(100_000);
    c.rotate_up(-100_000);
    assert_eq!(c.pitch_microradians(), 0);
}

#[test]
fn rotate_up_clamps_at_vertical() {
    let mut c = FreeCamera::new();
    c.rotate_up(2_000_000);
    assert_eq!(c.pitch_microradians(), PITCH_LIMIT_URAD);
    c.rotate_up(-4_000_000);
    assert_eq!(c.pitch_microradians(), -PITCH_LIMIT_URAD);
}

#[test]
fn controller_starts_idle() {
    let c = Controller::new();
    assert_eq!(c.rotation_delta(), (0, 0));
    assert_eq!(c.flags(), (false, false, false, false));
    assert_eq!(c.center(), (0, 0));
}

#[test]
fn resize_moves_reference_center() {
    let mut c = Controller::new();
    c.process_event(InputEvent::Resized { width: 800, height: 600 });
    assert_eq!(c.center(), (400, 300));
}

#[test]
fn pointer_move_sets_frame_delta() {
    let mut c = Controller::new();
    c.process_event(InputEvent::Resized { width: 800, height: 600 });
    c.process_event(InputEvent::PointerMoved { x: 410, y: 290 });
    assert_eq!(c.rotation_delta(), (10, 10));
    // a later move replaces the delta, it does not accumulate
    c.process_event(InputEvent::PointerMoved { x: 395, y: 300 });
    assert_eq!(c.rotation_delta(), (-5, 0));
    // back at the center: no pending rotation
    c.process_event(InputEvent::PointerMoved { x: 400, y: 300 });
    assert_eq!(c.rotation_delta(), (0, 0));
}

#[test]
fn key_changes_toggle_flags() {
    let mut c = Controller::new();
    c.process_event(InputEvent::KeyChanged { key: Key::Forward, pressed: true });
    c.process_event(InputEvent::KeyChanged { key: Key::StrafeRight, pressed: true });
    assert_eq!(c.flags(), (true, false, false, true));
    c.process_event(InputEvent::KeyChanged { key: Key::Forward, pressed: false });
    assert_eq!(c.flags(), (false, false, false, true));
    c.process_event(InputEvent::KeyChanged { key: Key::Other, pressed: true });
    assert_eq!(c.flags(), (false, false, false, true));
}

#[test]
fn closed_event_changes_nothing() {
    let mut c = Controller::new();
    c.process_event(InputEvent::Resized { width: 100, height: 100 });
    c.process_event(InputEvent::PointerMoved { x: 60, y: 40 });
    let before = (c.rotation_delta(), c.flags(), c.center());
    c.process_event(InputEvent::Closed);
    assert_eq!((c.rotation_delta(), c.flags(), c.center()), before);
}

#[test]
fn update_resets_rotation_deltas() {
    let mut c = Controller::new();
    let mut cam = FreeCamera::new();
    c.set_rot_speed(1_000);
    c.process_event(InputEvent::Resized { width: 800, height: 600 });
    c.process_event(InputEvent::PointerMoved { x: 410, y: 290 });
    c.update(&mut cam);
    assert_eq!(c.rotation_delta(), (0, 0));
    // a second update therefore leaves the camera orientation alone
    let yaw = cam.yaw_microradians();
    let pitch = cam.pitch_microradians();
    c.update(&mut cam);
    assert_eq!(cam.yaw_microradians(), yaw);
    assert_eq!(cam.pitch_microradians(), pitch);
}

#[test]
fn update_applies_scaled_rotation() {
    let mut c = Controller::new();
    let mut cam = FreeCamera::new();
    c.set_rot_speed(1_000);
    c.process_event(InputEvent::Resized { width: 800, height: 600 });
    c.process_event(InputEvent::PointerMoved { x: 410, y: 290 });
    c.update(&mut cam);
    // ten pixels up: pitch rises by 10 * 1000 microradians
    assert_eq!(cam.pitch_microradians(), 10_000);
    // ten pixels right: yaw turns right, wrapping below zero
    assert_eq!(cam.yaw_microradians(), TURN_URAD - 10_000);
}

#[test]
fn update_emits_movement_command() {
    let mut c = Controller::new();
    let mut cam = FreeCamera::new();
    c.process_event(InputEvent::Resized { width: 640, height: 480 });
    c.process_event(InputEvent::KeyChanged { key: Key::Forward, pressed: true });
    c.process_event(InputEvent::KeyChanged { key: Key::StrafeLeft, pressed: true });
    let cmd = c.update(&mut cam);
    assert_eq!(
        cmd,
        MoveCommand { advance: 1, strafe: -1, center_x: 320, center_y: 240 }
    );
    // opposite keys held together cancel out
    c.process_event(InputEvent::KeyChanged { key: Key::Backward, pressed: true });
    c.process_event(InputEvent::KeyChanged { key: Key::StrafeRight, pressed: true });
    let cmd2 = c.update(&mut cam);
    assert_eq!(cmd2.advance, 0);
    assert_eq!(cmd2.strafe, 0);
}
