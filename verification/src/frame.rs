//! The per-frame task: the start checks of the camera and which mode
//! handler runs.

use vstd::prelude::*;

use crate::input::{abs, is_overworld};
use crate::messages::NetMessage;
use crate::state::{
    AutoRotation, CameraContext, CameraState, CAMERA_ACTIVATION_ANIM_ID, OVERWORLD_AREA_MIN,
};

verus! {

/// What the frame task reads of the host's own character.
#[derive(Debug, Clone, Copy, PartialEq, Eq, Structural)]
pub struct MainPlayerFrame {
    /// The character is the local player's (the game's host check).
    pub is_main_player: bool,
    /// Map area the character is in.
    pub area: u8,
    /// The character plays the camera item's use animation.
    pub in_activation_anim: bool,
}

/// The outcome of the start checks in a frame.
#[derive(Debug, Clone, Copy, PartialEq, Eq, Structural)]
pub enum Activation {
    /// No start was asked for, or it waits for the item animation to end.
    Idle,
    /// The start was refused; the notice says why.
    Refused(NetMessage),
    /// The camera started. The game side unloads the host's character, turns
    /// it into a ghost, disables its item use, puts distance and field of
    /// view back to their defaults and remembers its position as the return
    /// position; with `save_marker`, that position also becomes the custom
    /// center.
    Started { save_marker: bool },
}

/// The mode handler that runs in a frame.
#[derive(Debug, Clone, Copy, PartialEq, Eq, Structural)]
pub enum ModeHandler {
    Spectate,
    TopDown,
    Follow,
}

/// What the game side runs in a frame, after the start checks.
#[derive(Debug, Clone, Copy, PartialEq, Eq, Structural)]
pub struct FramePlan {
    pub activation: Activation,
    pub mode: Option<ModeHandler>,
    /// The camera mode of this frame, as its absolute value.
    pub camera_mode: i8,
    /// Apply the camera settings (HUD, lock-on, camera properties, fade).
    pub apply_settings: bool,
    /// Run the automatic mode transition.
    pub auto_transition: bool,
    /// Finish a deactivation.
    pub deactivate: bool,
}

/// Whether the camera item's use animation is among the queued animations.
pub fn activation_anim_playing(anim_ids: &[i32]) -> (r: bool)
    ensures
        r == anim_ids@.contains(CAMERA_ACTIVATION_ANIM_ID),
{
    let mut i: usize = 0;
    while i < anim_ids.len()
        invariant
            i <= anim_ids@.len(),
            forall|j: int| 0 <= j < i ==> anim_ids@[j] != CAMERA_ACTIVATION_ANIM_ID,
        decreases anim_ids@.len() - i,
    {
        if anim_ids[i] == CAMERA_ACTIVATION_ANIM_ID {
            assert(anim_ids@[i as int] == CAMERA_ACTIVATION_ANIM_ID);
            return true;
        }
        i = i + 1;
    }
    false
}

impl CameraContext {
    /// The state once the frame's readings are stored: the animation flag
    /// (when the host's character exists) and the player count.
    pub open spec fn with_frame_readings(self, player_count: usize, main_player: Option<MainPlayerFrame>) -> CameraContext {
        CameraContext {
            camera_activation_anim: match main_player {
                Some(m) => m.in_activation_anim,
                None => self.camera_activation_anim,
            },
            player_count,
            ..self
        }
    }

    /// A start was asked for, the camera is off, the item animation is over
    /// and the host's character exists.
    pub open spec fn start_pending(self, main_player: Option<MainPlayerFrame>) -> bool {
        &&& self.camera_state == CameraState::Off
        &&& self.camera_activation_trigger
        &&& !self.camera_activation_anim
        &&& main_player is Some
    }

    /// Why a pending start is refused: the character is not the host's,
    /// there is nobody else in the world, or the lobby is not ready; none of
    /// them with the bypass on.
    pub open spec fn refusal(self, m: MainPlayerFrame, lobby_ready: bool) -> Option<NetMessage> {
        if !m.is_main_player && !self.camera_bypass {
            Some(NetMessage::NotHost)
        } else if !(self.player_count > 1) && !self.camera_bypass {
            Some(NetMessage::NoPlayers)
        } else if !lobby_ready && !self.camera_bypass {
            Some(NetMessage::LobbyNotReady)
        } else {
            None
        }
    }

    /// The state after the start checks, on a state whose readings are
    /// stored.
    pub open spec fn after_start_checks(self, lobby_ready: bool, main_player: Option<MainPlayerFrame>) -> CameraContext {
        if !self.start_pending(main_player) {
            self
        } else if self.refusal(main_player.unwrap(), lobby_ready) is Some {
            CameraContext { camera_activation_trigger: false, ..self }
        } else {
            CameraContext {
                camera_activation_trigger: false,
                camera_state: CameraState::On,
                player_index: 1,
                auto_rotate: false,
                auto_transition: false,
                auto_transition_next: 0,
                auto_rotate_speed: AutoRotation::Off,
                camera_marker: self.camera_marker || is_overworld(main_player.unwrap().area),
                ..self
            }
        }
    }

    /// The outcome of the start checks, on a state whose readings are stored.
    pub open spec fn start_outcome(self, lobby_ready: bool, main_player: Option<MainPlayerFrame>) -> Activation {
        if !self.start_pending(main_player) {
            Activation::Idle
        } else if self.refusal(main_player.unwrap(), lobby_ready) is Some {
            Activation::Refused(self.refusal(main_player.unwrap(), lobby_ready).unwrap())
        } else {
            Activation::Started {
                save_marker: is_overworld(main_player.unwrap().area) && !self.camera_marker,
            }
        }
    }

    /// The state after the frame task's own decisions (the mode handlers
    /// aside).
    pub open spec fn after_frame(self, player_count: usize, lobby_ready: bool, main_player: Option<MainPlayerFrame>) -> CameraContext {
        let s = self.with_frame_readings(player_count, main_player).after_start_checks(
            lobby_ready,
            main_player,
        );
        if self.camera_state == CameraState::On && abs(self.camera_mode as int) != 2 {
            CameraContext { orbit_correction: false, ..s }
        } else {
            s
        }
    }

    /// What the frame task runs. The camera state and mode are those at the
    /// start of the frame: a camera started in this frame runs from the next
    /// one on.
    pub open spec fn frame_plan(self, player_count: usize, lobby_ready: bool, main_player: Option<MainPlayerFrame>) -> FramePlan {
        let mode = abs(self.camera_mode as int);
        let on = self.camera_state == CameraState::On;
        FramePlan {
            activation: self.with_frame_readings(player_count, main_player).start_outcome(
                lobby_ready,
                main_player,
            ),
            mode: if !on {
                None
            } else if mode == 0 {
                Some(ModeHandler::Spectate)
            } else if mode == 1 {
                Some(ModeHandler::TopDown)
            } else if mode == 2 {
                Some(ModeHandler::Follow)
            } else {
                None
            },
            camera_mode: mode as i8,
            apply_settings: on,
            auto_transition: on && self.auto_transition,
            deactivate: self.camera_state == CameraState::Deactivating,
        }
    }

    fn start_checks(&mut self, lobby_ready: bool, main_player: Option<MainPlayerFrame>) -> (a: Activation)
        requires
            old(self).wf(),
        ensures
            final(self).wf(),
            *final(self) == old(self).after_start_checks(lobby_ready, main_player),
            a == old(self).start_outcome(lobby_ready, main_player),
    {
        if !(self.camera_state == CameraState::Off && self.camera_activation_trigger
            && !self.camera_activation_anim) {
            return Activation::Idle;
        }
        let m = match main_player {
            Some(m) => m,
            None => return Activation::Idle,
        };
        let bypass = self.camera_bypass;
        let players_in_world = self.player_count > 1;
        if !m.is_main_player && !bypass {
            self.camera_activation_trigger = false;
            Activation::Refused(NetMessage::NotHost)
        } else if !players_in_world && !bypass {
            self.camera_activation_trigger = false;
            Activation::Refused(NetMessage::NoPlayers)
        } else if !lobby_ready && !bypass {
            self.camera_activation_trigger = false;
            Activation::Refused(NetMessage::LobbyNotReady)
        } else {
            self.camera_activation_trigger = false;
            self.camera_state = CameraState::On;
            self.player_index = 1;
            self.auto_rotate = false;
            self.auto_transition = false;
            self.auto_transition_next = 0;
            self.auto_rotate_speed = AutoRotation::Off;
            let save_marker = m.area >= OVERWORLD_AREA_MIN && !self.camera_marker;
            if save_marker {
                self.camera_marker = true;
            }
            Activation::Started { save_marker }
        }
    }

    fn store_readings(&mut self, player_count: usize, main_player: Option<MainPlayerFrame>)
        requires
            old(self).wf(),
            player_count <= i32::MAX as usize,
        ensures
            final(self).wf(),
            *final(self) == old(self).with_frame_readings(player_count, main_player),
    {
        if let Some(m) = main_player {
            self.camera_activation_anim = m.in_activation_anim;
        }
        self.player_count = player_count;
    }

    /// The frame task's decisions: stores the readings of the frame, runs
    /// the start checks of a pending start, lifts the orbit correction
    /// outside follow mode, and says which handlers the game side runs.
    pub fn frame_step(&mut self, player_count: usize, lobby_ready: bool, main_player: Option<MainPlayerFrame>) -> (p: FramePlan)
        requires
            old(self).wf(),
            player_count <= i32::MAX as usize,
        ensures
            final(self).wf(),
            *final(self) == old(self).after_frame(player_count, lobby_ready, main_player),
            p == old(self).frame_plan(player_count, lobby_ready, main_player),
    {
        let camera_state = self.camera_state;
        let camera_mode = if self.camera_mode < 0 { -self.camera_mode } else { self.camera_mode };
        let auto_transition = self.auto_transition;
        self.store_readings(player_count, main_player);
        let activation = self.start_checks(lobby_ready, main_player);
        let on = camera_state == CameraState::On;
        if on && camera_mode != 2 {
            self.orbit_correction = false;
        }
        let mode = if !on {
            None
        } else if camera_mode == 0 {
            Some(ModeHandler::Spectate)
        } else if camera_mode == 1 {
            Some(ModeHandler::TopDown)
        } else if camera_mode == 2 {
            Some(ModeHandler::Follow)
        } else {
            None
        };
        FramePlan {
            activation,
            mode,
            camera_mode,
            apply_settings: on,
            auto_transition: on && auto_transition,
            deactivate: camera_state == CameraState::Deactivating,
        }
    }
}

} // verus!
