use spectator_cam::frame::{activation_anim_playing, Activation, MainPlayerFrame, ModeHandler};
use spectator_cam::messages::NetMessage;
use spectator_cam::state::{AutoRotation, CameraContext, CameraState};

fn host(area: u8) -> MainPlayerFrame {
    MainPlayerFrame { is_main_player: true, area, in_activation_anim: false }
}

fn triggered() -> CameraContext {
    let mut c = CameraContext::new();
    c.camera_activation_trigger = true;
    c
}

#[test]
fn anim_check_finds_the_item_animation() {
    assert!(activation_anim_playing(&[1, 50560, 3]));
    assert!(!activation_anim_playing(&[1, 2, 3]));
    assert!(!activation_anim_playing(&[]));
}

#[test]
fn start_succeeds_with_checks_met() {
    let mut c = triggered();
    c.auto_rotate = true;
    c.auto_transition = true;
    c.auto_transition_next = 5;
    c.auto_rotate_speed = AutoRotation::Clockwise;
    let p = c.frame_step(3, true, Some(host(10)));
    assert_eq!(p.activation, Activation::Started { save_marker: false });
    assert_eq!(c.camera_state, CameraState::On);
    assert_eq!(c.player_index, 1);
    assert!(!c.camera_activation_trigger);
    assert!(!c.auto_rotate);
    assert!(!c.auto_transition);
    assert_eq!(c.auto_transition_next, 0);
    assert_eq!(c.auto_rotate_speed, AutoRotation::Off);
    assert_eq!(c.player_count, 3);
    // the camera was off at the start of the frame: no mode runs yet
    assert_eq!(p.mode, None);
    assert!(!p.apply_settings);
}

#[test]
fn start_in_open_world_sets_center() {
    let mut c = triggered();
    let p = c.frame_step(3, true, Some(host(60)));
    assert_eq!(p.activation, Activation::Started { save_marker: true });
    assert!(c.camera_marker);
}

#[test]
fn start_refused_when_not_host() {
    let mut c = triggered();
    let m = MainPlayerFrame { is_main_player: false, area: 10, in_activation_anim: false };
    let p = c.frame_step(3, true, Some(m));
    assert_eq!(p.activation, Activation::Refused(NetMessage::NotHost));
    assert_eq!(c.camera_state, CameraState::Off);
    assert!(!c.camera_activation_trigger);
}

#[test]
fn start_refused_without_players() {
    let mut c = triggered();
    let p = c.frame_step(1, true, Some(host(10)));
    assert_eq!(p.activation, Activation::Refused(NetMessage::NoPlayers));
    assert!(!c.camera_activation_trigger);
}

#[test]
fn start_refused_when_lobby_not_ready() {
    let mut c = triggered();
    let p = c.frame_step(2, false, Some(host(10)));
    assert_eq!(p.activation, Activation::Refused(NetMessage::LobbyNotReady));
    assert_eq!(c.camera_state, CameraState::Off);
}

#[test]
fn bypass_skips_start_checks() {
    let mut c = triggered();
    c.camera_bypass = true;
    let m = MainPlayerFrame { is_main_player: false, area: 10, in_activation_anim: false };
    let p = c.frame_step(1, false, Some(m));
    assert_eq!(p.activation, Activation::Started { save_marker: false });
    assert_eq!(c.camera_state, CameraState::On);
}

#[test]
fn start_waits_for_item_animation_and_character() {
    let mut c = triggered();
    let m = MainPlayerFrame { is_main_player: true, area: 10, in_activation_anim: true };
    let p = c.frame_step(3, true, Some(m));
    assert_eq!(p.activation, Activation::Idle);
    assert!(c.camera_activation_anim);
    assert!(c.camera_activation_trigger);
    let p = c.frame_step(3, true, None);
    assert_eq!(p.activation, Activation::Idle);
    assert!(c.camera_activation_trigger);
    let p = c.frame_step(3, true, Some(host(10)));
    assert!(matches!(p.activation, Activation::Started { .. }));
}

#[test]
fn running_camera_dispatches_by_mode() {
    let mut c = CameraContext::new();
    c.camera_state = CameraState::On;
    c.orbit_correction = true;
    let p = c.frame_step(3, true, Some(host(10)));
    assert_eq!(p.mode, Some(ModeHandler::Spectate));
    assert!(p.apply_settings);
    assert!(!p.deactivate);
    assert!(!c.orbit_correction);

    c.camera_mode = -1;
    let p = c.frame_step(3, true, Some(host(10)));
    assert_eq!(p.mode, Some(ModeHandler::TopDown));
    assert_eq!(p.camera_mode, 1);

    c.camera_mode = 2;
    c.orbit_correction = true;
    c.auto_transition = true;
    let p = c.frame_step(3, true, Some(host(10)));
    assert_eq!(p.mode, Some(ModeHandler::Follow));
    assert!(p.auto_transition);
    assert!(c.orbit_correction);

    c.camera_mode = 3;
    let p = c.frame_step(3, true, Some(host(10)));
    assert_eq!(p.mode, None);
    assert!(p.apply_settings);
}

#[test]
fn stopping_camera_plans_deactivation() {
    let mut c = CameraContext::new();
    c.camera_state = CameraState::On;
    c.request_deactivation();
    let p = c.frame_step(3, true, Some(host(10)));
    assert!(p.deactivate);
    assert_eq!(p.mode, None);
    assert!(!p.apply_settings);
}

#[test]
fn start_then_stop_round_trip() {
    let mut c = triggered();
    c.frame_step(3, true, Some(host(10)));
    assert_eq!(c.camera_state, CameraState::On);
    c.camera_mode = 2;
    c.fps_boost = true;
    c.player_index = 2;
    c.request_deactivation();
    let p = c.frame_step(3, true, Some(host(10)));
    assert!(p.deactivate);
    c.finish_deactivation();
    assert_eq!(c.camera_state, CameraState::Off);
    assert_eq!(c.camera_mode, 0);
    assert_eq!(c.player_index, 1);
    assert!(!c.fps_boost);
}
