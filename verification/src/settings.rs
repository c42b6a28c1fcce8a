//! What the camera applies while it runs and undoes when it stops: the fade
//! that hides long jumps, the HUD, the wall-collision patch, the chase rates.

use vstd::prelude::*;

use crate::state::{CameraContext, CameraState, FadeState, HudState, FADE_DURATION_MS};

verus! {

/// What the game side does to the screen in a frame.
#[derive(Debug, Clone, Copy, PartialEq, Eq, Structural)]
pub enum FadeAction {
    Nothing,
    /// Fade to black in 0.3 s.
    FadeOut,
    /// Fade back in over 1 s.
    FadeIn,
}

/// The chase-rate preset of the game's follow camera for a mode.
#[derive(Debug, Clone, Copy, PartialEq, Eq, Structural)]
pub enum ChasePreset {
    Spectate,
    TopDown,
    Follow,
}

impl CameraContext {
    /// The state after a frame of the fade logic.
    pub open spec fn after_fade(self, now: u64, beyond_fade_out: bool, within_fade_in: bool, within_reset: bool) -> CameraContext {
        if self.fade_state == FadeState::Clear && beyond_fade_out {
            CameraContext {
                fade_duration_end: (now + FADE_DURATION_MS) as u64,
                fade_state: FadeState::FadedOut,
                ..self
            }
        } else if self.fade_state == FadeState::FadedOut && within_fade_in {
            CameraContext { fade_state: FadeState::FadingIn, ..self }
        } else if self.fade_state == FadeState::FadingIn && within_reset {
            CameraContext { fade_state: FadeState::Clear, ..self }
        } else {
            self
        }
    }

    /// What the game side does to the screen in a frame of the fade logic.
    pub open spec fn fade_action(self, beyond_fade_out: bool, within_fade_in: bool) -> FadeAction {
        if self.fade_state == FadeState::Clear && beyond_fade_out {
            FadeAction::FadeOut
        } else if self.fade_state == FadeState::FadedOut && within_fade_in {
            FadeAction::FadeIn
        } else {
            FadeAction::Nothing
        }
    }

    /// The fade logic of a frame at time `now`, the ground distance between
    /// camera and ghost given as comparisons: `beyond_fade_out` above 300,
    /// `within_fade_in` below 80, `within_reset` below 300. A clear screen
    /// fades out when the camera is far, fades back in once it is close, and
    /// is clear again within the outer bound.
    pub fn dist_fade_logic(&mut self, now: u64, beyond_fade_out: bool, within_fade_in: bool, within_reset: bool) -> (a: FadeAction)
        requires
            old(self).wf(),
            old(self).fade_state == FadeState::Clear && beyond_fade_out ==> now <= u64::MAX
                - FADE_DURATION_MS,
        ensures
            final(self).wf(),
            *final(self) == old(self).after_fade(now, beyond_fade_out, within_fade_in, within_reset),
            a == old(self).fade_action(beyond_fade_out, within_fade_in),
    {
        let fade_state = self.fade_state;
        let mut action = FadeAction::Nothing;
        if fade_state == FadeState::Clear && beyond_fade_out {
            self.fade_duration_end = now + FADE_DURATION_MS;
            self.fade_state = FadeState::FadedOut;
            action = FadeAction::FadeOut;
        }
        if fade_state == FadeState::FadedOut && within_fade_in {
            action = FadeAction::FadeIn;
            self.fade_state = FadeState::FadingIn;
        }
        if fade_state == FadeState::FadingIn && within_reset {
            self.fade_state = FadeState::Clear;
        }
        action
    }

    /// The state once a stop was asked for.
    pub open spec fn stop_requested(self) -> CameraContext {
        CameraContext { camera_state: CameraState::Deactivating, ..self }
    }

    /// Asks the camera to stop; the next frame restores the game's camera.
    pub fn request_deactivation(&mut self)
        requires
            old(self).wf(),
        ensures
            final(self).wf(),
            *final(self) == old(self).stop_requested(),
    {
        self.camera_state = CameraState::Deactivating;
    }

    /// The state once the game's camera is restored.
    pub open spec fn deactivated(self) -> CameraContext {
        CameraContext {
            fps_boost: false,
            player_index: 1,
            camera_state: CameraState::Off,
            camera_mode: 0,
            ..self
        }
    }

    /// Completes a stop once the game side has restored the host's
    /// character and the game's camera: the FPS boost is off, the camera off
    /// in spectate mode, on the first player.
    pub fn finish_deactivation(&mut self)
        requires
            old(self).wf(),
        ensures
            final(self).wf(),
            *final(self) == old(self).deactivated(),
    {
        self.fps_boost = false;
        self.player_index = 1;
        self.camera_state = CameraState::Off;
        self.camera_mode = 0;
    }
}

/// The bytes of the call that makes the camera collide with walls.
pub open spec fn collision_call_bytes() -> Seq<u8> {
    seq![0xe8u8, 0xc1u8, 0xb8u8, 0xc0u8, 0x00u8]
}

/// Five no-op instructions, in place of the collision call.
pub open spec fn nop_bytes() -> Seq<u8> {
    seq![0x90u8, 0x90u8, 0x90u8, 0x90u8, 0x90u8]
}

/// The collision call has to be rewritten: it is in place while collisions
/// are off, or patched out while they are on.
pub open spec fn patch_needed(collision_on: bool, first_byte: u8) -> bool {
    (!collision_on && first_byte == 0xe8) || (collision_on && first_byte == 0x90)
}

fn collision_call() -> (b: [u8; 5])
    ensures
        b@ == collision_call_bytes(),
{
    let b: [u8; 5] = [0xe8, 0xc1, 0xb8, 0xc0, 0x00];
    assert(b@ =~= collision_call_bytes());
    b
}

fn nops() -> (b: [u8; 5])
    ensures
        b@ == nop_bytes(),
{
    let b: [u8; 5] = [0x90, 0x90, 0x90, 0x90, 0x90];
    assert(b@ =~= nop_bytes());
    b
}

/// The bytes to write over the camera's wall-collision call, whose first
/// byte is `first_byte`, while the camera runs: no-ops to turn collisions
/// off, the original call to turn them back on; nothing where the code
/// already is as wanted.
pub fn collision_patch(collision_on: bool, first_byte: u8) -> (p: Option<[u8; 5]>)
    ensures
        p is Some <==> patch_needed(collision_on, first_byte),
        p matches Some(b) ==> b@ == (if collision_on {
            collision_call_bytes()
        } else {
            nop_bytes()
        }),
{
    if !collision_on {
        if first_byte == 0xe8 {
            return Some(nops());
        }
    } else {
        if first_byte == 0x90 {
            return Some(collision_call());
        }
    }
    None
}

/// The bytes to write over the wall-collision call when the camera stops:
/// the original call where it was patched out.
pub fn restore_collision(first_byte: u8) -> (p: Option<[u8; 5]>)
    ensures
        p is Some <==> first_byte == 0x90,
        p matches Some(b) ==> b@ == collision_call_bytes(),
{
    if first_byte == 0x90 {
        Some(collision_call())
    } else {
        None
    }
}

/// The HUD setting to write while the camera runs: everything hidden.
pub fn hud_while_active(current: HudState) -> (r: Option<HudState>)
    ensures
        r == (if current != HudState::HideAll {
            Some(HudState::HideAll)
        } else {
            None
        }),
{
    if current != HudState::HideAll {
        Some(HudState::HideAll)
    } else {
        None
    }
}

/// The HUD setting to write when the camera stops: the gameplay HUD where
/// the camera had hidden it.
pub fn hud_after_deactivation(current: HudState) -> (r: Option<HudState>)
    ensures
        r == (if current == HudState::HideAll {
            Some(HudState::Gameplay)
        } else {
            None
        }),
{
    if current == HudState::HideAll {
        Some(HudState::Gameplay)
    } else {
        None
    }
}

/// The chase-rate preset for the mode of the frame; other modes keep the
/// game's rates.
pub fn chase_preset(camera_mode: i8) -> (r: Option<ChasePreset>)
    ensures
        r == (if camera_mode == 0 {
            Some(ChasePreset::Spectate)
        } else if camera_mode == 1 {
            Some(ChasePreset::TopDown)
        } else if camera_mode == 2 {
            Some(ChasePreset::Follow)
        } else {
            None
        }),
{
    match camera_mode {
        0 => Some(ChasePreset::Spectate),
        1 => Some(ChasePreset::TopDown),
        2 => Some(ChasePreset::Follow),
        _ => None,
    }
}

} // verus!
