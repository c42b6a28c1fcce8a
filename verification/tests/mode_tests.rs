use spectator_cam::modes::{
    invaders_present, SpectatePlan, SpectateTarget, TopDownAnchor, TopDownPlan,
};
use spectator_cam::state::{AutoRotation, CameraContext, PlayerRole, ZoomDirection};

#[test]
fn spectate_follows_selected_player() {
    let mut c = CameraContext::new();
    c.previous_camera_mode = 1;
    c.player_index = 2;
    let p = c.spectate_mode(4, 4);
    assert_eq!(p, SpectatePlan { reset_distance: true, target: SpectateTarget::Player(2) });
    assert_eq!(c.previous_camera_mode, 0);
    let p = c.spectate_mode(4, 4);
    assert!(!p.reset_distance);
}

#[test]
fn spectate_falls_back_to_return_position() {
    let mut c = CameraContext::new();
    c.player_index = 1;
    assert_eq!(c.spectate_mode(1, 1).target, SpectateTarget::ReturnPosition);
    c.player_index = 5;
    assert_eq!(c.spectate_mode(3, 3).target, SpectateTarget::ReturnPosition);
    c.player_index = 0;
    assert_eq!(c.spectate_mode(3, 3).target, SpectateTarget::Stay);
    c.player_index = -1;
    assert_eq!(c.spectate_mode(3, 3).target, SpectateTarget::Stay);
}

#[test]
fn invaders_detected() {
    assert!(invaders_present(&[PlayerRole::Host, PlayerRole::RedInvasionB]));
    assert!(invaders_present(&[PlayerRole::RedInvasionA]));
    assert!(!invaders_present(&[PlayerRole::Host, PlayerRole::Other]));
    assert!(!invaders_present(&[]));
}

#[test]
fn top_down_skipped_with_invaders() {
    let mut c = CameraContext::new();
    c.camera_mode = 1;
    let p = c.top_down_mode(&[PlayerRole::Host, PlayerRole::RedInvasionA], true);
    assert_eq!(p, TopDownPlan::Skipped);
    assert_eq!(c.camera_mode, 3);
    assert_eq!(c.previous_camera_mode, 0);
}

#[test]
fn top_down_anchors() {
    let mut c = CameraContext::new();
    let p = c.top_down_mode(&[PlayerRole::Host, PlayerRole::Other], true);
    assert_eq!(p, TopDownPlan::Placed { reset_distance: true, anchor: TopDownAnchor::BlockCenter });
    assert_eq!(c.previous_camera_mode, 1);
    let p = c.top_down_mode(&[PlayerRole::Host], false);
    assert_eq!(p, TopDownPlan::Placed { reset_distance: false, anchor: TopDownAnchor::Marker });
}

#[test]
fn follow_needs_three_players() {
    let mut c = CameraContext::new();
    c.camera_mode = 2;
    assert!(!c.follow_mode(2));
    assert_eq!(c.camera_mode, 0);
    c.camera_mode = 2;
    c.auto_rotate = true;
    c.auto_rotate_speed = AutoRotation::Clockwise;
    assert!(c.follow_mode(3));
    assert_eq!(c.previous_camera_mode, 2);
    assert!(!c.auto_rotate);
    assert_eq!(c.auto_rotate_speed, AutoRotation::Off);
    assert_eq!(c.camera_mode, 2);
}

#[test]
fn orbit_correction_follows_proximity() {
    let mut c = CameraContext::new();
    c.set_orbit_correction(true);
    assert!(c.orbit_correction);
    c.set_orbit_correction(false);
    assert!(!c.orbit_correction);
}

#[test]
fn first_transition_only_starts_the_clock() {
    let mut c = CameraContext::new();
    let drift = c.auto_transition_step(4, 0, 50_000, false, false, 2);
    assert_eq!(drift, ZoomDirection::Outward);
    assert!(c.auto_rotate);
    assert_eq!(c.auto_rotate_speed, AutoRotation::Clockwise);
    assert_eq!(c.player_index, 2);
    assert_eq!(c.camera_mode, 0);
    assert_eq!(c.auto_transition_next, 62_000);
}

#[test]
fn transition_cycles_modes_when_due() {
    let mut c = CameraContext::new();
    c.auto_transition_next = 62_000;
    c.auto_transition_step(4, 0, 61_999, false, false, 3);
    assert_eq!(c.camera_mode, 0);
    assert_eq!(c.player_index, 0);
    c.auto_transition_step(4, 0, 62_000, false, false, 3);
    assert_eq!(c.camera_mode, 1);
    assert_eq!(c.player_index, 3);
    assert_eq!(c.auto_transition_next, 74_000);
    c.auto_transition_step(4, 1, 74_000, false, false, 1);
    assert_eq!(c.camera_mode, 2);
    c.auto_transition_step(4, 2, 86_000, false, false, 1);
    assert_eq!(c.camera_mode, 0);
}

#[test]
fn transition_alone_stays_top_down() {
    let mut c = CameraContext::new();
    c.auto_transition_step(1, 0, 1000, false, false, 0);
    assert_eq!(c.camera_mode, 1);
    assert_eq!(c.auto_transition_next, 0);
}

#[test]
fn transition_rotation_alternates_outside_follow() {
    let mut c = CameraContext::new();
    c.auto_transition_step(1, 1, 0, false, false, 0);
    assert_eq!(c.auto_rotate_speed, AutoRotation::Clockwise);
    c.auto_transition_step(1, 1, 0, false, false, 0);
    assert_eq!(c.auto_rotate_speed, AutoRotation::Off);
    c.auto_rotate_speed = AutoRotation::Clockwise;
    c.auto_transition_step(4, 2, 0, false, false, 1);
    assert_eq!(c.auto_rotate_speed, AutoRotation::Off);
}

#[test]
fn transition_zoom_turns_at_bounds() {
    let mut c = CameraContext::new();
    let drift = c.auto_transition_step(1, 1, 0, true, false, 0);
    assert_eq!(drift, ZoomDirection::Outward);
    assert_eq!(c.auto_transition_zoom_direction, ZoomDirection::Inward);
    let drift = c.auto_transition_step(1, 1, 0, false, false, 0);
    assert_eq!(drift, ZoomDirection::Inward);
    assert_eq!(c.auto_transition_zoom_direction, ZoomDirection::Inward);
    c.auto_transition_step(1, 1, 0, false, true, 0);
    assert_eq!(c.auto_transition_zoom_direction, ZoomDirection::Outward);
}

#[test]
fn random_transition_picks_a_client() {
    for _ in 0..50 {
        let mut c = CameraContext::new();
        c.auto_transition_mode(5, 0, 10_000, false, false);
        assert!(c.player_index >= 1 && c.player_index < 5, "index {}", c.player_index);
        assert_eq!(c.auto_transition_next, 22_000);
    }
}

#[test]
fn random_transition_not_drawn_when_not_due() {
    let mut c = CameraContext::new();
    c.auto_transition_next = 50_000;
    c.player_index = 2;
    c.auto_transition_mode(5, 0, 10_000, false, false);
    assert_eq!(c.player_index, 2);
    assert_eq!(c.camera_mode, 0);
}

#[test]
fn random_transition_varies_the_pick() {
    let mut seen = std::collections::HashSet::new();
    for _ in 0..200 {
        let mut c = CameraContext::new();
        c.auto_transition_mode(5, 0, 10_000, false, false);
        seen.insert(c.player_index);
    }
    assert!(seen.len() > 1);
    assert!(seen.iter().all(|i| (1..5).contains(i)));
}
