use spectator_cam::input::MarkerEffects;
use spectator_cam::messages::NetMessage;
use spectator_cam::state::{CameraContext, CameraState, CAMERA_ITEM_ID, CAMERA_MARKER_ITEM_ID};

const KEYDOWN: u32 = 0x100;
const NOTHING: MarkerEffects = MarkerEffects { save_marker: false, reset_marker: false, message: None };

#[test]
fn focus_follows_activation_messages() {
    let mut c = CameraContext::new();
    c.on_window_message(0x0008, 0, true, 10);
    assert!(!c.window_infocus);
    // key presses are ignored without focus
    let e = c.on_window_message(KEYDOWN, 0x77, true, 10);
    assert_eq!(e, NOTHING);
    assert!(!c.camera_bypass);
    c.on_window_message(0x0007, 0, true, 10);
    assert!(c.window_infocus);
}

#[test]
fn f5_starts_and_stops() {
    let mut c = CameraContext::new();
    let e = c.on_window_message(KEYDOWN, 0x74, true, 10);
    assert!(c.camera_activation_trigger);
    assert_eq!(e, NOTHING);
    c.camera_activation_trigger = false;
    c.camera_state = CameraState::On;
    c.on_window_message(KEYDOWN, 0x74, true, 10);
    assert_eq!(c.camera_state, CameraState::Deactivating);
    assert!(!c.camera_activation_trigger);
}

#[test]
fn f5_in_open_world_sets_center() {
    let mut c = CameraContext::new();
    let e = c.on_window_message(KEYDOWN, 0x74, true, 60);
    assert!(e.save_marker);
    assert!(c.camera_marker);
    let e = c.on_window_message(KEYDOWN, 0x74, true, 61);
    assert!(!e.save_marker);
}

#[test]
fn keys_only_for_the_host() {
    let mut c = CameraContext::new();
    let e = c.on_window_message(KEYDOWN, 0x74, false, 60);
    assert_eq!(e, NOTHING);
    assert!(!c.camera_activation_trigger);
    assert!(!c.camera_marker);
}

#[test]
fn f6_sets_and_resets_center() {
    let mut c = CameraContext::new();
    let e = c.on_window_message(KEYDOWN, 0x75, true, 10);
    assert!(e.save_marker);
    assert_eq!(e.message, Some(NetMessage::CenterSetByKey));
    assert!(c.camera_marker);
    let e = c.on_window_message(KEYDOWN, 0x75, true, 10);
    assert!(e.reset_marker);
    assert_eq!(e.message, Some(NetMessage::CenterResetByKey));
    // the reset keeps the flag set
    assert!(c.camera_marker);
    // no reset in the open world
    let e = c.on_window_message(KEYDOWN, 0x75, true, 60);
    assert_eq!(e, NOTHING);
}

#[test]
fn f6_ignored_while_camera_runs_or_starts() {
    let mut c = CameraContext::new();
    c.camera_state = CameraState::On;
    assert_eq!(c.on_window_message(KEYDOWN, 0x75, true, 10), NOTHING);
    c.camera_state = CameraState::Off;
    c.camera_activation_trigger = true;
    assert_eq!(c.on_window_message(KEYDOWN, 0x75, true, 10), NOTHING);
    assert!(!c.camera_marker);
}

#[test]
fn f8_toggles_bypass() {
    let mut c = CameraContext::new();
    let e = c.on_window_message(KEYDOWN, 0x77, true, 10);
    assert!(c.camera_bypass);
    assert_eq!(e.message, Some(NetMessage::BypassEnabled));
    let e = c.on_window_message(KEYDOWN, 0x77, true, 10);
    assert!(!c.camera_bypass);
    assert_eq!(e.message, Some(NetMessage::BypassDisabled));
    assert_eq!(c.on_window_message(KEYDOWN, 0x76, true, 10), NOTHING);
}

#[test]
fn camera_item_asks_for_start() {
    let mut c = CameraContext::new();
    c.on_item_used(CAMERA_ITEM_ID, true, false, 10);
    assert!(!c.camera_activation_trigger);
    c.on_item_used(CAMERA_ITEM_ID, false, true, 10);
    assert!(!c.camera_activation_trigger);
    let e = c.on_item_used(CAMERA_ITEM_ID, true, true, 10);
    assert!(c.camera_activation_trigger);
    assert_eq!(e, NOTHING);
}

#[test]
fn marker_item_sets_and_resets_center() {
    let mut c = CameraContext::new();
    let e = c.on_item_used(CAMERA_MARKER_ITEM_ID, true, true, 60);
    assert!(e.save_marker);
    assert_eq!(e.message, Some(NetMessage::CenterSetByItem));
    assert!(c.camera_marker);
    let e = c.on_item_used(CAMERA_MARKER_ITEM_ID, true, true, 60);
    assert_eq!(e, NOTHING);
    let e = c.on_item_used(CAMERA_MARKER_ITEM_ID, true, true, 12);
    assert!(e.reset_marker);
    assert_eq!(e.message, Some(NetMessage::CenterResetByItem));
    assert!(!c.camera_marker);
}

#[test]
fn other_items_change_nothing() {
    let mut c = CameraContext::new();
    assert_eq!(c.on_item_used(1234, true, true, 12), NOTHING);
    assert!(!c.camera_marker);
    assert!(!c.camera_activation_trigger);
}
