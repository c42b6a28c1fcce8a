use spectator_cam::input::{FovStep, InputId, OrbitLimit, PadEffects, ZoomStep};
use spectator_cam::messages::NetMessage;
use spectator_cam::state::{AutoRotation, CameraContext, CameraState};

fn running_camera() -> CameraContext {
    let mut c = CameraContext::new();
    c.camera_state = CameraState::On;
    c.player_count = 4;
    c.player_index = 1;
    c
}

const NO_EFFECTS: PadEffects = PadEffects { fov: None, zoom: None, reset_distance: false, message: None };

#[test]
fn check_id_maps_every_button_code() {
    let table = [
        (16, InputId::DPadUp),
        (19, InputId::DPadDown),
        (18, InputId::DPadLeft),
        (17, InputId::DPadRight),
        (9, InputId::PadL1),
        (7, InputId::PadR1),
        (20, InputId::PadR3),
        (21, InputId::PadL3),
        (8, InputId::PadR2),
        (10, InputId::PadL2),
        (11, InputId::PadTri),
        (15, InputId::PadSq),
        (12, InputId::PadCir),
        (14, InputId::PadX),
    ];
    for (code, button) in table {
        assert_eq!(InputId::check_id(code), Some(button));
        assert_eq!(button.code(), code);
    }
}

#[test]
fn check_id_rejects_unknown_codes() {
    assert_eq!(InputId::check_id(0), None);
    assert_eq!(InputId::check_id(13), None);
    assert_eq!(InputId::check_id(-1), None);
    assert_eq!(InputId::check_id(22), None);
    assert_eq!(InputId::NoInput.code(), 0);
}

#[test]
fn pad_input_ignored_while_camera_off() {
    let mut c = CameraContext::new();
    c.player_count = 3;
    let e = c.on_pad_input(true, InputId::PadSq.code(), 1000);
    assert_eq!(e, NO_EFFECTS);
    assert!(!c.fps_boost);
    assert_eq!(c.last_input_time_ms, 0);
}

#[test]
fn pad_input_ignored_without_focus_or_validity() {
    let mut c = running_camera();
    c.window_infocus = false;
    assert_eq!(c.on_pad_input(true, InputId::PadSq.code(), 1000), NO_EFFECTS);
    c.window_infocus = true;
    assert_eq!(c.on_pad_input(false, InputId::PadSq.code(), 1000), NO_EFFECTS);
    assert_eq!(c.on_pad_input(true, 13, 1000), NO_EFFECTS);
    assert!(!c.fps_boost);
}

#[test]
fn fps_boost_toggles_with_messages() {
    let mut c = running_camera();
    let e = c.on_pad_input(true, InputId::PadSq.code(), 1000);
    assert!(c.fps_boost);
    assert_eq!(e.message, Some(NetMessage::FpsBoostEnabled));
    assert_eq!(c.current_input, 15);
    assert_eq!(c.last_input_time_ms, 1000);
    let e = c.on_pad_input(true, InputId::PadSq.code(), 1200);
    assert!(!c.fps_boost);
    assert_eq!(e.message, Some(NetMessage::FpsBoostDisabled));
}

#[test]
fn collision_toggles_with_messages() {
    let mut c = running_camera();
    let e = c.on_pad_input(true, InputId::PadCir.code(), 500);
    assert!(c.camera_collision);
    assert_eq!(e.message, Some(NetMessage::CollisionEnabled));
    let e = c.on_pad_input(true, InputId::PadCir.code(), 700);
    assert!(!c.camera_collision);
    assert_eq!(e.message, Some(NetMessage::CollisionDisabled));
}

#[test]
fn repeat_within_debounce_window_is_ignored() {
    let mut c = running_camera();
    c.on_pad_input(true, InputId::PadSq.code(), 1000);
    assert!(c.fps_boost);
    let e = c.on_pad_input(true, InputId::PadSq.code(), 1169);
    assert_eq!(e, NO_EFFECTS);
    assert!(c.fps_boost);
    assert_eq!(c.last_input_time_ms, 1000);
    let e = c.on_pad_input(true, InputId::PadSq.code(), 1170);
    assert_eq!(e.message, Some(NetMessage::FpsBoostDisabled));
    assert!(!c.fps_boost);
}

#[test]
fn fov_and_zoom_act_on_every_poll() {
    let mut c = running_camera();
    let e = c.on_pad_input(true, InputId::DPadUp.code(), 1000);
    assert_eq!(e.fov, Some(FovStep::Narrow));
    let e = c.on_pad_input(true, InputId::DPadUp.code(), 1001);
    assert_eq!(e.fov, Some(FovStep::Narrow));
    let e = c.on_pad_input(true, InputId::DPadDown.code(), 1002);
    assert_eq!(e.fov, Some(FovStep::Widen));
    let e = c.on_pad_input(true, InputId::PadR2.code(), 1003);
    assert_eq!(e.zoom, Some(ZoomStep::Closer));
    let e = c.on_pad_input(true, InputId::PadL2.code(), 1004);
    assert_eq!(e.zoom, Some(ZoomStep::Farther));
}

#[test]
fn zoom_disabled_in_follow_mode() {
    let mut c = running_camera();
    c.camera_mode = 2;
    let e = c.on_pad_input(true, InputId::PadR2.code(), 1000);
    assert_eq!(e.zoom, None);
    let e = c.on_pad_input(true, InputId::PadL2.code(), 2000);
    assert_eq!(e.zoom, None);
}

#[test]
fn player_cycling_wraps_over_clients() {
    // 4 players: 3 clients, indices 1..=3
    let mut c = running_camera();
    let right = InputId::DPadRight.code();
    let left = InputId::DPadLeft.code();
    c.on_pad_input(true, right, 1000);
    assert_eq!(c.player_index, 2);
    c.on_pad_input(true, right, 2000);
    assert_eq!(c.player_index, 3);
    c.on_pad_input(true, right, 3000);
    assert_eq!(c.player_index, 1);
    c.on_pad_input(true, left, 4000);
    assert_eq!(c.player_index, 3);
    c.on_pad_input(true, left, 5000);
    assert_eq!(c.player_index, 2);
}

#[test]
fn player_buttons_undo_each_other() {
    let mut c = running_camera();
    c.player_index = 3;
    c.on_pad_input(true, InputId::DPadRight.code(), 1000);
    assert_eq!(c.player_index, 1);
    c.on_pad_input(true, InputId::DPadLeft.code(), 1001);
    assert_eq!(c.player_index, 3);
}

#[test]
fn player_cycling_with_host_alone() {
    let mut c = running_camera();
    c.player_count = 1;
    c.player_index = 0;
    c.on_pad_input(true, InputId::DPadRight.code(), 1000);
    assert_eq!(c.player_index, 1);
    c.on_pad_input(true, InputId::DPadLeft.code(), 2000);
    assert_eq!(c.player_index, 0);
}

#[test]
fn mode_buttons_cycle_and_reset_distance() {
    let mut c = running_camera();
    let r1 = InputId::PadR1.code();
    let l1 = InputId::PadL1.code();
    let e = c.on_pad_input(true, r1, 1000);
    assert_eq!(c.camera_mode, 1);
    assert!(e.reset_distance);
    c.on_pad_input(true, r1, 2000);
    assert_eq!(c.camera_mode, 2);
    c.on_pad_input(true, r1, 3000);
    assert_eq!(c.camera_mode, 0);
    c.on_pad_input(true, l1, 4000);
    assert_eq!(c.camera_mode, -1);
    c.on_pad_input(true, l1, 5000);
    assert_eq!(c.camera_mode, -2);
    c.on_pad_input(true, l1, 6000);
    assert_eq!(c.camera_mode, 0);
}

#[test]
fn mode_buttons_locked_during_auto_transition() {
    let mut c = running_camera();
    c.auto_transition = true;
    let e = c.on_pad_input(true, InputId::PadR1.code(), 1000);
    assert_eq!(c.camera_mode, 0);
    assert!(!e.reset_distance);
    let e = c.on_pad_input(true, InputId::PadL3.code(), 2000);
    assert_eq!(c.auto_rotate_speed, AutoRotation::Off);
    assert_eq!(e.message, None);
}

#[test]
fn rotation_button_cycles_three_speeds() {
    let mut c = running_camera();
    let l3 = InputId::PadL3.code();
    let e = c.on_pad_input(true, l3, 1000);
    assert_eq!(c.auto_rotate_speed, AutoRotation::Clockwise);
    assert_eq!(e.message, Some(NetMessage::AutoRotationEnabled));
    let e = c.on_pad_input(true, l3, 2000);
    assert_eq!(c.auto_rotate_speed, AutoRotation::CounterClockwise);
    assert_eq!(e.message, None);
    let e = c.on_pad_input(true, l3, 3000);
    assert_eq!(c.auto_rotate_speed, AutoRotation::Off);
    assert_eq!(e.message, Some(NetMessage::AutoRotationDisabled));
}

#[test]
fn auto_transition_toggle_clears_rotation() {
    let mut c = running_camera();
    let tri = InputId::PadTri.code();
    let e = c.on_pad_input(true, tri, 1000);
    assert!(c.auto_transition);
    assert_eq!(e.message, Some(NetMessage::AutoTransitionEnabled));
    c.auto_rotate = true;
    c.auto_rotate_speed = AutoRotation::Clockwise;
    c.auto_transition_next = 99;
    let e = c.on_pad_input(true, tri, 2000);
    assert!(!c.auto_transition);
    assert!(!c.auto_rotate);
    assert_eq!(c.auto_rotate_speed, AutoRotation::Off);
    assert_eq!(c.auto_transition_next, 0);
    assert_eq!(e.message, Some(NetMessage::AutoTransitionDisabled));
}

#[test]
fn r3_stops_the_camera() {
    let mut c = running_camera();
    c.on_pad_input(true, InputId::PadR3.code(), 1000);
    assert_eq!(c.camera_state, CameraState::Deactivating);
}

#[test]
fn cross_button_does_nothing_but_is_recorded() {
    let mut c = running_camera();
    let e = c.on_pad_input(true, InputId::PadX.code(), 1000);
    assert_eq!(e, NO_EFFECTS);
    assert_eq!(c.current_input, 14);
}

#[test]
fn orbit_limits_by_mode() {
    let mut c = running_camera();
    assert_eq!(c.vertical_orbit_limit(), Some(OrbitLimit::Vertical));
    assert_eq!(c.horizontal_orbit_limit(), Some(OrbitLimit::SpectateHorizontal));
    c.camera_mode = 1;
    assert_eq!(c.vertical_orbit_limit(), None);
    assert_eq!(c.horizontal_orbit_limit(), Some(OrbitLimit::TopDownHorizontal));
    c.camera_mode = 2;
    assert_eq!(c.horizontal_orbit_limit(), None);
    c.camera_state = CameraState::Off;
    c.camera_mode = 0;
    assert_eq!(c.vertical_orbit_limit(), None);
    assert_eq!(c.horizontal_orbit_limit(), None);
}

#[test]
fn orbit_drift_only_while_on() {
    let mut c = running_camera();
    c.auto_rotate_speed = AutoRotation::CounterClockwise;
    c.orbit_correction = true;
    assert_eq!(c.orbit_drift(), (AutoRotation::CounterClockwise, true));
    assert!(c.suppresses_game_camera());
    c.camera_state = CameraState::Deactivating;
    assert_eq!(c.orbit_drift(), (AutoRotation::Off, false));
    assert!(!c.suppresses_game_camera());
}
