//! What each operation does, stated field by field over its inputs.

use vstd::prelude::*;

use crate::frame::{Activation, MainPlayerFrame, ModeHandler};
use crate::input::{FovStep, ZoomStep};
use crate::messages::{utf16_of_char, NetMessage};
use crate::modes::SpectateTarget;
use crate::settings::FadeAction;
use crate::state::{
    AutoRotation, CameraContext, CameraState, FadeState, ZoomDirection, CAMERA_ITEM_ID,
    CAMERA_MARKER_ITEM_ID, DEBOUNCE_MS,
};

verus! {

/// A pad press the running camera takes as a new press: the camera is on,
/// the window focused, and the button differs from the last one or the
/// debounce window has passed.
pub open spec fn fresh_press(s: CameraContext, code: i32, now: u64) -> bool {
    &&& s.camera_state == CameraState::On
    &&& s.window_infocus
    &&& (s.current_input != code || now >= s.last_input_time_ms + DEBOUNCE_MS)
}

/// The player buttons step through the players other than the host (1 to
/// `player_count - 1`), wrapping at both ends, whether or not the automatic
/// transition runs.
pub proof fn law_player_buttons(s: CameraContext, now: u64)
    requires
        s.wf(),
        2 <= s.player_count,
        1 <= s.player_index <= s.player_count - 1,
    ensures
        fresh_press(s, 17, now) ==> {
            let t = s.after_pad_input(true, 17, now);
            &&& s.player_index < s.player_count - 1 ==> t.player_index == s.player_index + 1
            &&& s.player_index == s.player_count - 1 ==> t.player_index == 1
            &&& t.camera_mode == s.camera_mode
            &&& t.auto_transition == s.auto_transition
            &&& t.last_input_time_ms == now
            &&& t.current_input == 17
        },
        fresh_press(s, 18, now) ==> {
            let t = s.after_pad_input(true, 18, now);
            &&& s.player_index > 1 ==> t.player_index == s.player_index - 1
            &&& s.player_index == 1 ==> t.player_index == s.player_count - 1
            &&& t.camera_mode == s.camera_mode
            &&& t.auto_transition == s.auto_transition
        },
{
}

/// The mode buttons (L1 previous, R1 next) are locked by the automatic
/// transition; otherwise they step the mode by one, back to 0 once it leaves
/// -2..=2, and put the distance back to its minimum.
pub proof fn law_mode_buttons(s: CameraContext, now: u64)
    requires
        s.wf(),
        -2 <= s.camera_mode <= 2,
    ensures
        fresh_press(s, 7, now) ==> {
            let t = s.after_pad_input(true, 7, now);
            let e = s.pad_input_effects(true, 7, now);
            &&& s.auto_transition ==> t.camera_mode == s.camera_mode && !e.reset_distance
            &&& !s.auto_transition ==> e.reset_distance
            &&& !s.auto_transition && s.camera_mode < 2 ==> t.camera_mode == s.camera_mode + 1
            &&& !s.auto_transition && s.camera_mode == 2 ==> t.camera_mode == 0
            &&& t.player_index == s.player_index
        },
        fresh_press(s, 9, now) ==> {
            let t = s.after_pad_input(true, 9, now);
            let e = s.pad_input_effects(true, 9, now);
            &&& s.auto_transition ==> t.camera_mode == s.camera_mode && !e.reset_distance
            &&& !s.auto_transition ==> e.reset_distance
            &&& !s.auto_transition && s.camera_mode > -2 ==> t.camera_mode == s.camera_mode - 1
            &&& !s.auto_transition && s.camera_mode == -2 ==> t.camera_mode == 0
            &&& t.player_index == s.player_index
        },
{
}

/// The toggles: triangle the automatic transition (turning it off also stops
/// the rotation and its clock), square the FPS boost, circle the collision;
/// each flips its flag and announces the new setting.
pub proof fn law_toggle_buttons(s: CameraContext, now: u64)
    requires
        s.wf(),
    ensures
        fresh_press(s, 11, now) ==> {
            let t = s.after_pad_input(true, 11, now);
            let e = s.pad_input_effects(true, 11, now);
            &&& t.auto_transition == !s.auto_transition
            &&& !s.auto_transition ==> e.message == Some(NetMessage::AutoTransitionEnabled)
                && t.auto_rotate == s.auto_rotate && t.auto_rotate_speed == s.auto_rotate_speed
            &&& s.auto_transition ==> e.message == Some(NetMessage::AutoTransitionDisabled)
                && !t.auto_rotate && t.auto_rotate_speed == AutoRotation::Off
                && t.auto_transition_next == 0
            &&& t.camera_mode == s.camera_mode
            &&& t.player_index == s.player_index
        },
        fresh_press(s, 15, now) ==> {
            let t = s.after_pad_input(true, 15, now);
            let e = s.pad_input_effects(true, 15, now);
            &&& t.fps_boost == !s.fps_boost
            &&& e.message == Some(
                if t.fps_boost {
                    NetMessage::FpsBoostEnabled
                } else {
                    NetMessage::FpsBoostDisabled
                },
            )
            &&& t.camera_collision == s.camera_collision
        },
        fresh_press(s, 12, now) ==> {
            let t = s.after_pad_input(true, 12, now);
            let e = s.pad_input_effects(true, 12, now);
            &&& t.camera_collision == !s.camera_collision
            &&& e.message == Some(
                if t.camera_collision {
                    NetMessage::CollisionEnabled
                } else {
                    NetMessage::CollisionDisabled
                },
            )
            &&& t.fps_boost == s.fps_boost
        },
{
}

/// The rotation button (L3), outside the automatic transition, goes off,
/// clockwise, counter-clockwise, off, announcing when the rotation starts
/// and stops; during the transition it does nothing. The stop button (R3)
/// stops the camera.
pub proof fn law_rotation_and_stop_buttons(s: CameraContext, now: u64)
    requires
        s.wf(),
    ensures
        fresh_press(s, 21, now) ==> {
            let t = s.after_pad_input(true, 21, now);
            let e = s.pad_input_effects(true, 21, now);
            &&& s.auto_transition ==> t.auto_rotate_speed == s.auto_rotate_speed && e.message is None
            &&& !s.auto_transition && s.auto_rotate_speed == AutoRotation::Off ==> t.auto_rotate_speed
                == AutoRotation::Clockwise && e.message == Some(NetMessage::AutoRotationEnabled)
            &&& !s.auto_transition && s.auto_rotate_speed == AutoRotation::Clockwise
                ==> t.auto_rotate_speed == AutoRotation::CounterClockwise && e.message is None
            &&& !s.auto_transition && s.auto_rotate_speed == AutoRotation::CounterClockwise
                ==> t.auto_rotate_speed == AutoRotation::Off && e.message == Some(
                NetMessage::AutoRotationDisabled,
            )
        },
        fresh_press(s, 20, now) ==> s.after_pad_input(true, 20, now).camera_state
            == CameraState::Deactivating,
{
}

/// Field of view and distance react on every poll of a running, focused
/// camera, repeats included: up narrows, down widens the view; R2 brings the
/// camera closer, L2 farther, except in follow mode. They change no state
/// but the input bookkeeping.
pub proof fn law_view_buttons(s: CameraContext, now: u64)
    requires
        s.wf(),
        s.camera_state == CameraState::On,
        s.window_infocus,
    ensures
        s.pad_input_effects(true, 16, now).fov == Some(FovStep::Narrow),
        s.pad_input_effects(true, 19, now).fov == Some(FovStep::Widen),
        s.pad_input_effects(true, 8, now).zoom == (if s.camera_mode != 2 {
            Some(ZoomStep::Closer)
        } else {
            None
        }),
        s.pad_input_effects(true, 10, now).zoom == (if s.camera_mode != 2 {
            Some(ZoomStep::Farther)
        } else {
            None
        }),
        s.after_pad_input(true, 16, now).fps_boost == s.fps_boost,
        s.after_pad_input(true, 16, now).camera_mode == s.camera_mode,
        s.after_pad_input(true, 16, now).player_index == s.player_index,
        s.pad_input_effects(true, 16, now).zoom is None,
        s.pad_input_effects(true, 8, now).fov is None,
{
}

/// The frame runs the mode handler of the absolute value of the mode the
/// camera had at the start of the frame, and only while it was on.
pub proof fn law_frame_dispatch(s: CameraContext, player_count: usize, lobby_ready: bool, m: Option<MainPlayerFrame>)
    requires
        s.wf(),
    ensures
        ({
            let p = s.frame_plan(player_count, lobby_ready, m);
            &&& p.camera_mode >= 0
            &&& p.camera_mode == s.camera_mode || p.camera_mode == -s.camera_mode
            &&& s.camera_state != CameraState::On ==> p.mode is None && !p.apply_settings
            &&& s.camera_state == CameraState::On ==> {
                &&& (p.mode == Some(ModeHandler::Spectate) <==> s.camera_mode == 0)
                &&& (p.mode == Some(ModeHandler::TopDown) <==> (s.camera_mode == 1
                    || s.camera_mode == -1))
                &&& (p.mode == Some(ModeHandler::Follow) <==> (s.camera_mode == 2
                    || s.camera_mode == -2))
                &&& p.apply_settings
            }
            &&& p.deactivate <==> s.camera_state == CameraState::Deactivating
            &&& p.auto_transition <==> (s.camera_state == CameraState::On && s.auto_transition)
        }),
        s.camera_state == CameraState::On && (s.camera_mode == 2 || s.camera_mode == -2) ==> s.after_frame(
            player_count,
            lobby_ready,
            m,
        ).orbit_correction == s.orbit_correction,
        s.camera_state == CameraState::On && s.camera_mode != 2 && s.camera_mode != -2 ==> !s.after_frame(
            player_count,
            lobby_ready,
            m,
        ).orbit_correction,
{
}

/// A pending start (camera off, start asked for, item animation over, host
/// character present) is refused, in this order, when the character is not
/// the host's, when nobody else is in the world, or when the lobby is not
/// ready, unless the bypass is on; a refusal clears the request, a start
/// turns the camera on at the first player with rotation and transition off.
pub proof fn law_start_checks(s: CameraContext, player_count: usize, lobby_ready: bool, m: MainPlayerFrame)
    requires
        s.wf(),
        s.camera_state == CameraState::Off,
        s.camera_activation_trigger,
        !m.in_activation_anim,
    ensures
        ({
            let p = s.frame_plan(player_count, lobby_ready, Some(m));
            let t = s.after_frame(player_count, lobby_ready, Some(m));
            &&& !t.camera_activation_trigger
            &&& t.player_count == player_count
            &&& !m.is_main_player && !s.camera_bypass ==> p.activation == Activation::Refused(
                NetMessage::NotHost,
            )
            &&& m.is_main_player && player_count <= 1 && !s.camera_bypass ==> p.activation
                == Activation::Refused(NetMessage::NoPlayers)
            &&& m.is_main_player && player_count > 1 && !lobby_ready && !s.camera_bypass
                ==> p.activation == Activation::Refused(NetMessage::LobbyNotReady)
            &&& (p.activation is Refused ==> t.camera_state == CameraState::Off)
            &&& (s.camera_bypass || (m.is_main_player && player_count > 1 && lobby_ready)) ==> {
                &&& p.activation == Activation::Started {
                    save_marker: m.area >= 60 && !s.camera_marker,
                }
                &&& t.camera_state == CameraState::On
                &&& t.player_index == 1
                &&& !t.auto_rotate
                &&& !t.auto_transition
                &&& t.auto_transition_next == 0
                &&& t.auto_rotate_speed == AutoRotation::Off
                &&& t.camera_marker == (s.camera_marker || m.area >= 60)
                &&& t.camera_mode == s.camera_mode
            }
        }),
        // a pending start waits while the item animation plays
        s.frame_plan(
            player_count,
            lobby_ready,
            Some(MainPlayerFrame { in_activation_anim: true, ..m }),
        ).activation == Activation::Idle,
        s.after_frame(
            player_count,
            lobby_ready,
            Some(MainPlayerFrame { in_activation_anim: true, ..m }),
        ).camera_activation_trigger,
        // and while the host character is missing
        s.frame_plan(player_count, lobby_ready, None).activation == Activation::Idle,
        s.after_frame(player_count, lobby_ready, None).camera_activation_trigger,
{
}

/// The drift of the automatic transition points inward above the maximum
/// distance and outward below the minimum, whatever it was; within the
/// bounds it keeps its direction. The frame drifts in the direction it
/// started with.
pub proof fn law_transition_drift(
    s: CameraContext,
    player_count: usize,
    camera_mode: i8,
    now: u64,
    above_max: bool,
    below_min: bool,
    r: usize,
)
    ensures
        ({
            let t = s.after_auto_transition(player_count, camera_mode, now, above_max, below_min, r);
            &&& above_max && !below_min ==> t.auto_transition_zoom_direction == ZoomDirection::Inward
            &&& below_min && !above_max ==> t.auto_transition_zoom_direction
                == ZoomDirection::Outward
            &&& !above_max && !below_min ==> t.auto_transition_zoom_direction
                == s.auto_transition_zoom_direction
            &&& t.auto_rotate
            &&& camera_mode == 2 ==> t.auto_rotate_speed == AutoRotation::Off
            &&& camera_mode != 2 && s.auto_rotate_speed == AutoRotation::Clockwise
                ==> t.auto_rotate_speed == AutoRotation::Off
            &&& camera_mode != 2 && s.auto_rotate_speed != AutoRotation::Clockwise
                ==> t.auto_rotate_speed == AutoRotation::Clockwise
            &&& player_count <= 1 && camera_mode != 1 ==> t.camera_mode == 1
            &&& player_count <= 1 ==> t.player_index == s.player_index && t.auto_transition_next
                == s.auto_transition_next
        }),
{
}

/// A due transition after the first moves to the next mode of spectate,
/// top-down, follow; the first one only starts the clock.
pub proof fn law_transition_modes(
    s: CameraContext,
    player_count: usize,
    camera_mode: i8,
    now: u64,
    above_max: bool,
    below_min: bool,
    r: usize,
)
    requires
        player_count > 1,
        now >= s.auto_transition_next,
        0 <= camera_mode <= 2,
        r <= i32::MAX,
        now <= u64::MAX - 12000,
    ensures
        ({
            let t = s.after_auto_transition(player_count, camera_mode, now, above_max, below_min, r);
            &&& s.auto_transition_next != 0 && camera_mode < 2 ==> t.camera_mode == camera_mode + 1
            &&& s.auto_transition_next != 0 && camera_mode == 2 ==> t.camera_mode == 0
            &&& s.auto_transition_next == 0 ==> t.camera_mode == s.camera_mode
            &&& t.player_index == r
            &&& t.auto_transition_next == now + 12000
        }),
{
}

/// Spectate mode follows the selected player whenever that player exists
/// and others are in the world; the return position only stands in when the
/// selected player does not exist or the host is alone; the host's own
/// index (0 or below) leaves the ghost in place.
pub proof fn law_spectate_target(s: CameraContext, player_count: usize, characters: usize)
    requires
        s.wf(),
    ensures
        s.player_index >= 1 && (s.player_index as int) < characters && player_count >= 2
            ==> s.spectate_target(player_count, characters) == SpectateTarget::Player(
            s.player_index as usize,
        ),
        s.spectate_target(player_count, characters) == SpectateTarget::ReturnPosition <==> (
        s.player_index >= 1 && ((s.player_index as int) >= characters || player_count < 2)),
        s.spectate_target(player_count, characters) == SpectateTarget::Stay <==> s.player_index
            <= 0,
        s.spectate_target(player_count, characters) matches SpectateTarget::Player(i) ==> i
            == s.player_index && i < characters,
{
}

/// The marker item, used by the host's own character, sets the custom
/// center where none is set, in any map area; where one is set it resets it
/// outside the open world. The camera item, used the same way, asks for a
/// start. Other players' uses change nothing.
pub proof fn law_item_use(s: CameraContext, item_id: u32, is_host: bool, is_main_player: bool, area: u8)
    requires
        s.wf(),
    ensures
        item_id == CAMERA_MARKER_ITEM_ID && is_host && is_main_player && !s.camera_marker ==> {
            let e = s.item_used_effects(item_id, is_host, is_main_player, area);
            &&& e.save_marker
            &&& !e.reset_marker
            &&& e.message == Some(NetMessage::CenterSetByItem)
            &&& s.after_item_used(item_id, is_host, is_main_player, area).camera_marker
        },
        item_id == CAMERA_MARKER_ITEM_ID && is_host && is_main_player && s.camera_marker && area
            < 60 ==> {
            let e = s.item_used_effects(item_id, is_host, is_main_player, area);
            &&& e.reset_marker
            &&& !e.save_marker
            &&& e.message == Some(NetMessage::CenterResetByItem)
            &&& !s.after_item_used(item_id, is_host, is_main_player, area).camera_marker
        },
        item_id == CAMERA_MARKER_ITEM_ID && s.camera_marker && area >= 60 ==> s.after_item_used(
            item_id,
            is_host,
            is_main_player,
            area,
        ) == s && s.item_used_effects(item_id, is_host, is_main_player, area).message is None,
        item_id == CAMERA_ITEM_ID ==> s.after_item_used(
            item_id,
            is_host,
            is_main_player,
            area,
        ).camera_activation_trigger == (s.camera_activation_trigger || (is_host
            && is_main_player)),
        !(is_host && is_main_player) ==> s.after_item_used(item_id, is_host, is_main_player, area)
            == s && s.item_used_effects(item_id, is_host, is_main_player, area).message is None
            && !s.item_used_effects(item_id, is_host, is_main_player, area).save_marker,
{
}

/// The host's keys, with the window focused: F5 asks for a start when the
/// camera is off and stops it when on, and marks the open-world center; F6
/// sets the custom center while the camera is off and not starting, or
/// resets it outside the open world; F8 flips the bypass. Without focus, or
/// for someone else, keys change nothing; 0x0007 and 0x0008 give and take
/// the focus.
pub proof fn law_window_keys(s: CameraContext, key: usize, is_host: bool, area: u8)
    requires
        s.wf(),
    ensures
        s.after_window_message(0x0007, key, is_host, area).window_infocus,
        !s.after_window_message(0x0008, key, is_host, area).window_infocus,
        !s.window_infocus || !is_host ==> s.after_window_message(0x100, key, is_host, area) == s
            && s.window_message_effects(0x100, key, is_host, area).message is None,
        s.window_infocus && is_host ==> {
            let t = s.after_window_message(0x100, 0x74, is_host, area);
            let e = s.window_message_effects(0x100, 0x74, is_host, area);
            &&& s.camera_state == CameraState::Off ==> t.camera_activation_trigger
            &&& s.camera_state == CameraState::On ==> t.camera_state == CameraState::Deactivating
            &&& e.save_marker == (area >= 60 && !s.camera_marker)
            &&& e.message is None
        },
        s.window_infocus && is_host && s.camera_state == CameraState::Off
            && !s.camera_activation_trigger ==> {
            let t = s.after_window_message(0x100, 0x75, is_host, area);
            let e = s.window_message_effects(0x100, 0x75, is_host, area);
            &&& t.camera_marker
            &&& !s.camera_marker ==> e.save_marker && e.message == Some(NetMessage::CenterSetByKey)
            &&& s.camera_marker && area < 60 ==> e.reset_marker && e.message == Some(
                NetMessage::CenterResetByKey,
            )
        },
        s.window_infocus && is_host ==> s.after_window_message(
            0x100,
            0x77,
            is_host,
            area,
        ).camera_bypass == !s.camera_bypass,
{
}

/// The fade: a clear screen fades out (for two seconds from `now`) when the
/// camera is far, a faded screen fades in when it is near, a fading screen
/// is clear again within the outer bound; at most one step a frame.
pub proof fn law_fade(s: CameraContext, now: u64, far: bool, near: bool, within: bool)
    requires
        now <= u64::MAX - 2000,
    ensures
        ({
            let t = s.after_fade(now, far, near, within);
            let a = s.fade_action(far, near);
            &&& s.fade_state == FadeState::Clear && far ==> t.fade_state == FadeState::FadedOut && a
                == FadeAction::FadeOut && t.fade_duration_end == now + 2000
            &&& s.fade_state == FadeState::Clear && !far ==> t == s && a == FadeAction::Nothing
            &&& s.fade_state == FadeState::FadedOut && near ==> t.fade_state == FadeState::FadingIn
                && a == FadeAction::FadeIn
            &&& s.fade_state == FadeState::FadedOut && !near ==> t == s && a == FadeAction::Nothing
            &&& s.fade_state == FadeState::FadingIn && within ==> t.fade_state == FadeState::Clear
                && a == FadeAction::Nothing
            &&& s.fade_state == FadeState::FadingIn && !within ==> t == s
        }),
{
}

/// Stopping: a stop request only marks the camera as stopping; the stop
/// leaves it off, in spectate mode, on the first player, without FPS boost,
/// touching nothing else.
pub proof fn law_stop(s: CameraContext)
    ensures
        s.stop_requested().camera_state == CameraState::Deactivating,
        s.stop_requested().camera_mode == s.camera_mode,
        s.stop_requested().fps_boost == s.fps_boost,
        s.deactivated().camera_state == CameraState::Off,
        s.deactivated().camera_mode == 0,
        s.deactivated().player_index == 1,
        !s.deactivated().fps_boost,
        s.deactivated().camera_collision == s.camera_collision,
        s.deactivated().camera_marker == s.camera_marker,
        s.deactivated().auto_transition == s.auto_transition,
{
}

/// Pad inputs act only on a running camera with a focused window, for
/// reports the game marks valid and codes of the camera's buttons; a second
/// report of the same button less than the debounce window after the last
/// taken one changes nothing.
pub proof fn law_pad_ignored(s: CameraContext, is_valid_input: bool, code: i32, now: u64)
    requires
        s.wf(),
    ensures
        s.camera_state != CameraState::On || !s.window_infocus || !is_valid_input ==> s.after_pad_input(
            is_valid_input,
            code,
            now,
        ) == s && s.pad_input_effects(is_valid_input, code, now).message is None,
        code < 7 || code == 13 || code > 21 ==> s.after_pad_input(is_valid_input, code, now) == s
            && s.pad_input_effects(is_valid_input, code, now).fov is None && s.pad_input_effects(
            is_valid_input,
            code,
            now,
        ).zoom is None,
        code == s.current_input && s.last_input_time_ms <= now && now < s.last_input_time_ms
            + DEBOUNCE_MS ==> s.after_pad_input(is_valid_input, code, now) == s
            && s.pad_input_effects(is_valid_input, code, now).message is None
            && !s.pad_input_effects(is_valid_input, code, now).reset_distance,
        fresh_press(s, code, now) && is_valid_input && 7 <= code <= 21 && code != 13 ==> {
            let t = s.after_pad_input(is_valid_input, code, now);
            &&& t.last_input_time_ms == now
            &&& t.current_input == code
        },
{
}

/// F5 in the open world also marks the host's position as the custom
/// center, once.
pub proof fn law_start_key_marks_center(s: CameraContext, area: u8)
    requires
        s.wf(),
        s.window_infocus,
    ensures
        s.after_window_message(0x100, 0x74, true, area).camera_marker == (s.camera_marker || area
            >= 60),
        s.after_window_message(0x100, 0x74, true, area).camera_bypass == s.camera_bypass,
{
}

/// A character beyond the basic plane is a surrogate pair that decodes back
/// to it: a high surrogate then a low one carrying ten bits each.
pub proof fn law_surrogate_pair(c: char)
    requires
        (c as int) >= 0x10000,
    ensures
        utf16_of_char(c).len() == 2,
        0xD800 <= utf16_of_char(c)[0] <= 0xDBFF,
        0xDC00 <= utf16_of_char(c)[1] <= 0xDFFF,
        (utf16_of_char(c)[0] - 0xD800) * 0x400 + (utf16_of_char(c)[1] - 0xDC00) + 0x10000 == c as int,
{
    let w = c as int - 0x10000;
    assert(w == (w / 0x400) * 0x400 + w % 0x400) by (nonlinear_arith)
        requires w >= 0;
}

} // verus!
