//! Properties of the camera that span several operations.

use vstd::prelude::*;

use crate::frame::MainPlayerFrame;
use crate::input::{
    button_of, next_camera_mode, next_player_index, prev_camera_mode,
    prev_player_index, InputId, PadEffects,
};
use crate::messages::{utf16_of_char, utf16_units};
use crate::settings::{collision_call_bytes, nop_bytes, patch_needed, FadeAction};
use crate::state::{AutoRotation, CameraContext, CameraState, FadeState, DEBOUNCE_MS};

verus! {

/// Every button other than `NoInput` is found again from its code, and a
/// code names only the button that has it.
pub proof fn lemma_button_code_roundtrip(b: InputId, id: i32)
    ensures
        b != InputId::NoInput ==> button_of(b.spec_code()) == Some(b),
        button_of(id) matches Some(c) ==> c.spec_code() == id && c != InputId::NoInput,
{
}

/// "Next player" and "previous player" undo each other on the players
/// 1..=count, and both stay in that range.
pub proof fn lemma_player_cycle_roundtrip(current: i32, count: i32)
    requires
        1 <= count < i32::MAX,
        1 <= current <= count,
    ensures
        prev_player_index(next_player_index(current, count), count) == current,
        next_player_index(prev_player_index(current, count), count) == current,
        1 <= next_player_index(current, count) <= count,
        1 <= prev_player_index(current, count) <= count,
{
}

/// "Previous mode" then "next mode" is the identity on the three modes,
/// "next mode" then "previous mode" on spectate and top-down, and three
/// "next mode" presses come back to the start.
pub proof fn lemma_mode_cycle(mode: i8)
    requires
        0 <= mode <= 2,
    ensures
        next_camera_mode(prev_camera_mode(mode)) == mode,
        mode < 2 ==> prev_camera_mode(next_camera_mode(mode)) == mode,
        next_camera_mode(next_camera_mode(next_camera_mode(mode))) == mode,
        0 <= next_camera_mode(mode) <= 2,
{
}

/// Three presses of the rotation button come back to the start.
pub proof fn lemma_rotation_cycle(r: AutoRotation)
    ensures
        r.cycled().cycled().cycled() == r,
        r.cycled() != r,
{
}

/// Pad inputs do nothing while the camera is not on.
pub proof fn lemma_pad_inert_unless_on(s: CameraContext, is_valid_input: bool, input_id: i32, now: u64)
    requires
        s.camera_state != CameraState::On,
    ensures
        s.after_pad_input(is_valid_input, input_id, now) == s,
        s.pad_input_effects(is_valid_input, input_id, now) == (PadEffects {
            fov: None,
            zoom: None,
            reset_distance: false,
            message: None,
        }),
{
}

/// A second report of the same button within the debounce window changes
/// nothing and only repeats the field-of-view and distance steps.
pub proof fn lemma_pad_repeat_is_debounced(s: CameraContext, input_id: i32, now: u64)
    requires
        s.is_repeat(input_id, now),
    ensures
        s.after_pad_input(true, input_id, now) == s,
        s.pad_input_effects(true, input_id, now).message is None,
        !s.pad_input_effects(true, input_id, now).reset_distance,
{
}

/// The FPS boost and the camera collision are toggles: two separate presses
/// restore them, the first having flipped them.
pub proof fn lemma_toggle_twice(s: CameraContext, t1: u64, t2: u64)
    requires
        s.camera_state == CameraState::On,
        s.window_infocus,
        t1 >= s.last_input_time_ms + DEBOUNCE_MS,
        t2 >= t1 + DEBOUNCE_MS,
    ensures
        ({
            let sq = InputId::PadSq.spec_code();
            let s1 = s.after_pad_input(true, sq, t1);
            &&& s1.fps_boost == !s.fps_boost
            &&& s1.after_pad_input(true, sq, t2).fps_boost == s.fps_boost
        }),
        ({
            let cir = InputId::PadCir.spec_code();
            let s1 = s.after_pad_input(true, cir, t1);
            &&& s1.camera_collision == !s.camera_collision
            &&& s1.after_pad_input(true, cir, t2).camera_collision == s.camera_collision
        }),
        ({
            let tri = InputId::PadTri.spec_code();
            let s1 = s.after_pad_input(true, tri, t1);
            &&& s1.auto_transition == !s.auto_transition
            &&& s1.after_pad_input(true, tri, t2).auto_transition == s.auto_transition
        }),
{
}

/// Three separate presses of the rotation button, outside the automatic
/// transition, bring the rotation back to where it was.
pub proof fn lemma_rotation_button_cycle(s: CameraContext, t1: u64, t2: u64, t3: u64)
    requires
        s.camera_state == CameraState::On,
        s.window_infocus,
        !s.auto_transition,
        t1 >= s.last_input_time_ms + DEBOUNCE_MS,
        t2 >= t1 + DEBOUNCE_MS,
        t3 >= t2 + DEBOUNCE_MS,
    ensures
        ({
            let l3 = InputId::PadL3.spec_code();
            s.after_pad_input(true, l3, t1).after_pad_input(true, l3, t2).after_pad_input(
                true,
                l3,
                t3,
            ).auto_rotate_speed == s.auto_rotate_speed
        }),
{
}

/// "Next player" then "previous player" on the pad comes back to the
/// spectated player, for any player other than the host.
pub proof fn lemma_player_buttons_undo(s: CameraContext, t1: u64, t2: u64)
    requires
        s.wf(),
        s.camera_state == CameraState::On,
        s.window_infocus,
        2 <= s.player_count,
        1 <= s.player_index <= s.clients(),
        !s.is_repeat(InputId::DPadRight.spec_code(), t1),
    ensures
        s.after_pad_input(true, InputId::DPadRight.spec_code(), t1).after_pad_input(
            true,
            InputId::DPadLeft.spec_code(),
            t2,
        ).player_index == s.player_index,
{
    lemma_player_cycle_roundtrip(s.player_index, s.clients());
}

/// The fade goes round: a clear screen fades out when the camera is far,
/// fades in once it is close, and is clear again within the outer bound.
pub proof fn lemma_fade_cycle(s: CameraContext, now: u64)
    requires
        s.fade_state == FadeState::Clear,
        now <= u64::MAX - 2000,
    ensures
        ({
            let s1 = s.after_fade(now, true, false, false);
            let s2 = s1.after_fade(now, false, true, true);
            let s3 = s2.after_fade(now, false, true, true);
            &&& s.fade_action(true, false) == FadeAction::FadeOut
            &&& s1.fade_state == FadeState::FadedOut
            &&& s1.fade_action(false, true) == FadeAction::FadeIn
            &&& s2.fade_state == FadeState::FadingIn
            &&& s3.fade_state == FadeState::Clear
        }),
{
}

/// A start that passes the checks turns the camera on, on the first player;
/// a stop asked for afterwards is carried out by the next frame and leaves
/// the camera off, in spectate mode, without FPS boost.
pub proof fn lemma_start_then_stop(s: CameraContext, player_count: usize, m: MainPlayerFrame)
    requires
        s.wf(),
        s.camera_state == CameraState::Off,
        s.camera_activation_trigger,
        !m.in_activation_anim,
        m.is_main_player,
        2 <= player_count <= i32::MAX as usize,
    ensures
        ({
            let s1 = s.after_frame(player_count, true, Some(m));
            let s2 = s1.stop_requested();
            let s3 = s2.after_frame(player_count, true, Some(m)).deactivated();
            &&& s.frame_plan(player_count, true, Some(m)).activation is Started
            &&& s1.camera_state == CameraState::On
            &&& s1.player_index == 1
            &&& !s1.camera_activation_trigger
            &&& s2.frame_plan(player_count, true, Some(m)).deactivate
            &&& s3.camera_state == CameraState::Off
            &&& s3.camera_mode == 0
            &&& s3.player_index == 1
            &&& !s3.fps_boost
        }),
{
}

/// A refused start clears the request and leaves the camera off.
pub proof fn lemma_refused_start(s: CameraContext, player_count: usize, lobby_ready: bool, m: MainPlayerFrame)
    requires
        s.camera_state == CameraState::Off,
        s.camera_activation_trigger,
        !m.in_activation_anim,
        s.frame_plan(player_count, lobby_ready, Some(m)).activation is Refused,
    ensures
        s.after_frame(player_count, lobby_ready, Some(m)).camera_state == CameraState::Off,
        !s.after_frame(player_count, lobby_ready, Some(m)).camera_activation_trigger,
{
}

/// The automatic transition runs through spectate, top-down and follow mode
/// and back.
pub proof fn lemma_transition_cycle(mode: i8)
    requires
        0 <= mode <= 2,
    ensures
        CameraContext::transition_next_mode(CameraContext::transition_next_mode(
            CameraContext::transition_next_mode(mode),
        )) == mode,
        0 <= CameraContext::transition_next_mode(mode) <= 2,
        CameraContext::transition_next_mode(mode) != mode,
{
}

/// A due automatic transition spectates a player other than the host and
/// sets the next transition twelve seconds later; before its time nothing
/// but rotation and drift changes.
pub proof fn lemma_transition_timing(
    s: CameraContext,
    player_count: usize,
    camera_mode: i8,
    now: u64,
    above_max: bool,
    below_min: bool,
    r: usize,
)
    requires
        player_count > 1,
        1 <= r < player_count <= i32::MAX as usize,
        now <= u64::MAX - 12000,
    ensures
        ({
            let t = s.after_auto_transition(player_count, camera_mode, now, above_max, below_min, r);
            s.transition_due(player_count, now) ==> {
                &&& 1 <= t.player_index < player_count
                &&& t.auto_transition_next == now + 12000
            }
        }),
        ({
            let t = s.after_auto_transition(player_count, camera_mode, now, above_max, below_min, r);
            !s.transition_due(player_count, now) ==> {
                &&& t.player_index == s.player_index
                &&& t.camera_mode == s.camera_mode
                &&& t.auto_transition_next == s.auto_transition_next
            }
        }),
{
}

/// Writing the collision patch settles it: once the bytes for a setting are
/// in place, that setting asks for no further patch.
pub proof fn lemma_collision_patch_settles(collision_on: bool)
    ensures
        !patch_needed(collision_on, (if collision_on { collision_call_bytes() } else { nop_bytes() })[0]),
        patch_needed(!collision_on, (if collision_on { collision_call_bytes() } else { nop_bytes() })[0]),
{
}

/// Text without characters beyond the basic plane encodes one unit per
/// character, the character's code.
pub proof fn lemma_bmp_encoding(s: Seq<char>)
    requires
        forall|i: int| 0 <= i < s.len() ==> (s[i] as int) < 0x10000,
    ensures
        utf16_units(s).len() == s.len(),
        forall|i: int| 0 <= i < s.len() ==> utf16_units(s)[i] == (s[i] as int) as u16,
    decreases s.len(),
{
    if s.len() > 0 {
        lemma_bmp_encoding(s.drop_last());
        assert(utf16_units(s) == utf16_units(s.drop_last()) + utf16_of_char(s.last()));
        assert forall|i: int| 0 <= i < s.len() implies utf16_units(s)[i] == (s[i] as int) as u16 by {
            if i < s.len() - 1 {
                assert(s.drop_last()[i] == s[i]);
            }
        }
    }
}

} // verus!
