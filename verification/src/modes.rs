//! The camera modes: spectate a player, look down on the area, follow the
//! group, and the automatic transition between them.

use vstd::prelude::*;

use crate::rng::{random_index, thread_rng};
use crate::state::{
    AutoRotation, CameraContext, PlayerRole, ZoomDirection, AUTO_TRANSITION_TIME_SECONDS,
};

verus! {

/// Where the spectate camera puts the host's ghost.
#[derive(Debug, Clone, Copy, PartialEq, Eq, Structural)]
pub enum SpectateTarget {
    /// Leave it where it is.
    Stay,
    /// The host's return position.
    ReturnPosition,
    /// The position of the player character at this index.
    Player(usize),
}

/// What the game side does in spectate mode.
#[derive(Debug, Clone, Copy, PartialEq, Eq, Structural)]
pub struct SpectatePlan {
    /// Set the camera distance to 5.0 (the mode was just entered).
    pub reset_distance: bool,
    pub target: SpectateTarget,
}

/// Where the top-down camera looks from.
#[derive(Debug, Clone, Copy, PartialEq, Eq, Structural)]
pub enum TopDownAnchor {
    /// The center of the current map block.
    BlockCenter,
    /// The custom camera center.
    Marker,
}

/// What the game side does in top-down mode.
#[derive(Debug, Clone, Copy, PartialEq, Eq, Structural)]
pub enum TopDownPlan {
    /// Invaders are present; the mode is skipped.
    Skipped,
    /// Put the host's ghost at the anchor; with `reset_distance`, set the
    /// camera distance to 15.0 (the mode was just entered).
    Placed { reset_distance: bool, anchor: TopDownAnchor },
}

/// Whether any of the players is a red invader.
pub fn invaders_present(roles: &[PlayerRole]) -> (r: bool)
    ensures
        r == exists|i: int|
            0 <= i < roles@.len() && (roles@[i] == PlayerRole::RedInvasionA || roles@[i]
                == PlayerRole::RedInvasionB),
{
    let mut i: usize = 0;
    while i < roles.len()
        invariant
            i <= roles@.len(),
            forall|j: int|
                0 <= j < i ==> roles@[j] != PlayerRole::RedInvasionA && roles@[j]
                    != PlayerRole::RedInvasionB,
        decreases roles@.len() - i,
    {
        let role = roles[i];
        if role == PlayerRole::RedInvasionA || role == PlayerRole::RedInvasionB {
            return true;
        }
        i = i + 1;
    }
    false
}

impl CameraContext {
    /// Where spectate mode puts the ghost, for `player_count` players in the
    /// world and `characters` player characters to choose from.
    pub open spec fn spectate_target(self, player_count: usize, characters: usize) -> SpectateTarget {
        if self.player_index <= 0 {
            SpectateTarget::Stay
        } else if player_count < 2 || self.player_index as usize >= characters {
            SpectateTarget::ReturnPosition
        } else {
            SpectateTarget::Player(self.player_index as usize)
        }
    }

    /// Spectate mode: follows the player at the current index, or the host's
    /// return position when there is no such player or nobody else in the
    /// world; the host itself (index 0) leaves the ghost where it is.
    pub fn spectate_mode(&mut self, player_count: usize, characters: usize) -> (p: SpectatePlan)
        requires
            old(self).wf(),
        ensures
            final(self).wf(),
            *final(self) == (CameraContext { previous_camera_mode: 0, ..*old(self) }),
            p == (SpectatePlan {
                reset_distance: old(self).previous_camera_mode != 0,
                target: old(self).spectate_target(player_count, characters),
            }),
    {
        let reset_distance = self.previous_camera_mode != 0;
        self.previous_camera_mode = 0;
        let index = self.player_index;
        let target = if index <= 0 {
            SpectateTarget::Stay
        } else if player_count < 2 || index as usize >= characters {
            SpectateTarget::ReturnPosition
        } else {
            SpectateTarget::Player(index as usize)
        };
        SpectatePlan { reset_distance, target }
    }

    /// Top-down mode: skipped (camera mode 3) while invaders are present;
    /// otherwise the ghost goes to the custom center, or to the block center
    /// where the custom center is the zero position.
    pub fn top_down_mode(&mut self, roles: &[PlayerRole], custom_marker_is_zero: bool) -> (p: TopDownPlan)
        requires
            old(self).wf(),
        ensures
            final(self).wf(),
            ({
                let invaders = exists|i: int|
                    0 <= i < roles@.len() && (roles@[i] == PlayerRole::RedInvasionA || roles@[i]
                        == PlayerRole::RedInvasionB);
                if invaders {
                    &&& *final(self) == (CameraContext { camera_mode: 3, ..*old(self) })
                    &&& p == TopDownPlan::Skipped
                } else {
                    &&& *final(self) == (CameraContext { previous_camera_mode: 1, ..*old(self) })
                    &&& p == (TopDownPlan::Placed {
                        reset_distance: old(self).previous_camera_mode != 1,
                        anchor: if custom_marker_is_zero {
                            TopDownAnchor::BlockCenter
                        } else {
                            TopDownAnchor::Marker
                        },
                    })
                }
            }),
    {
        if invaders_present(roles) {
            self.camera_mode = 3;
            TopDownPlan::Skipped
        } else {
            let reset_distance = self.previous_camera_mode != 1;
            self.previous_camera_mode = 1;
            let anchor = if custom_marker_is_zero {
                TopDownAnchor::BlockCenter
            } else {
                TopDownAnchor::Marker
            };
            TopDownPlan::Placed { reset_distance, anchor }
        }
    }

    /// Follow mode needs the host and two others to center on; with fewer
    /// players it hands over to spectate mode (camera mode 0) and returns
    /// `false`. Otherwise it records itself as the previous mode, stops the
    /// automatic rotation and returns `true`: the game side then centers the
    /// camera on the other players.
    pub fn follow_mode(&mut self, player_count: usize) -> (go_on: bool)
        requires
            old(self).wf(),
        ensures
            final(self).wf(),
            go_on == (player_count >= 3),
            !go_on ==> *final(self) == (CameraContext { camera_mode: 0, ..*old(self) }),
            go_on ==> *final(self) == (CameraContext {
                previous_camera_mode: 2,
                auto_rotate: false,
                auto_rotate_speed: if old(self).auto_rotate {
                    AutoRotation::Off
                } else {
                    old(self).auto_rotate_speed
                },
                ..*old(self)
            }),
    {
        if player_count < 3 {
            self.camera_mode = 0;
            false
        } else {
            self.previous_camera_mode = 2;
            if self.auto_rotate {
                self.auto_rotate = false;
                self.auto_rotate_speed = AutoRotation::Off;
            }
            true
        }
    }

    /// The orbit correction turns the camera while a followed player is too
    /// close to it.
    pub fn set_orbit_correction(&mut self, player_too_close: bool)
        requires
            old(self).wf(),
        ensures
            final(self).wf(),
            *final(self) == (CameraContext { orbit_correction: player_too_close, ..*old(self) }),
    {
        if player_too_close {
            if !self.orbit_correction {
                self.orbit_correction = true;
            }
        } else {
            if self.orbit_correction {
                self.orbit_correction = false;
            }
        }
    }

    /// The automatic rotation the transition mode sets: clockwise outside
    /// follow mode when it is not clockwise yet, otherwise off.
    pub open spec fn transition_rotation(self, camera_mode: i8) -> AutoRotation {
        if self.auto_rotate_speed != AutoRotation::Clockwise && camera_mode != 2 {
            AutoRotation::Clockwise
        } else {
            AutoRotation::Off
        }
    }

    /// The drift direction after the distance was compared with its bounds:
    /// inward above the maximum, outward below the minimum, each compared
    /// with the direction from before.
    pub open spec fn transition_zoom(self, above_max: bool, below_min: bool) -> ZoomDirection {
        let d = self.auto_transition_zoom_direction;
        if below_min && d != ZoomDirection::Outward {
            ZoomDirection::Outward
        } else if above_max && d != ZoomDirection::Inward {
            ZoomDirection::Inward
        } else {
            d
        }
    }

    /// The mode that follows `camera_mode` in the transition cycle
    /// spectate, top-down, follow.
    pub open spec fn transition_next_mode(camera_mode: i8) -> i8 {
        if camera_mode + 1 > 2 {
            0
        } else {
            (camera_mode + 1) as i8
        }
    }

    /// A transition is due: others are in the world and its time has come.
    pub open spec fn transition_due(self, player_count: usize, now: u64) -> bool {
        player_count > 1 && now >= self.auto_transition_next
    }

    /// The rotation and drift direction after a frame of the automatic
    /// transition: the rotation is forced on, the drift turns inward above
    /// the maximum distance and outward below the minimum.
    pub open spec fn after_transition_settings(self, camera_mode: i8, above_max: bool, below_min: bool) -> CameraContext {
        CameraContext {
            auto_rotate: true,
            auto_rotate_speed: self.transition_rotation(camera_mode),
            auto_transition_zoom_direction: self.transition_zoom(above_max, below_min),
            ..self
        }
    }

    /// The mode and spectated player after a frame of the automatic
    /// transition: alone in the world the camera stays top-down; otherwise a
    /// due transition picks `random_index` as the spectated player, moves on
    /// to the next mode (not on the very first one, which only starts the
    /// clock) and sets the time of the next one.
    pub open spec fn after_transition_mode(self, player_count: usize, camera_mode: i8, now: u64, random_index: usize) -> CameraContext {
        if player_count <= 1 {
            if camera_mode != 1 {
                CameraContext { camera_mode: 1, ..self }
            } else {
                self
            }
        } else if !self.transition_due(player_count, now) {
            self
        } else {
            CameraContext {
                player_index: random_index as i32,
                camera_mode: if self.auto_transition_next != 0 {
                    Self::transition_next_mode(camera_mode)
                } else {
                    self.camera_mode
                },
                auto_transition_next: (now + AUTO_TRANSITION_TIME_SECONDS * 1000) as u64,
                ..self
            }
        }
    }

    /// The state after a frame of the automatic transition, with
    /// `random_index` the player picked for a due transition.
    pub open spec fn after_auto_transition(
        self,
        player_count: usize,
        camera_mode: i8,
        now: u64,
        above_max: bool,
        below_min: bool,
        random_index: usize,
    ) -> CameraContext {
        self.after_transition_settings(camera_mode, above_max, below_min).after_transition_mode(
            player_count,
            camera_mode,
            now,
            random_index,
        )
    }

    fn transition_settings(&mut self, camera_mode: i8, above_max: bool, below_min: bool)
        requires
            old(self).wf(),
        ensures
            final(self).wf(),
            *final(self) == old(self).after_transition_settings(camera_mode, above_max, below_min),
    {
        let drift = self.auto_transition_zoom_direction;
        if !self.auto_rotate {
            self.auto_rotate = true;
        }
        if self.auto_rotate_speed != AutoRotation::Clockwise && camera_mode != 2 {
            self.auto_rotate_speed = AutoRotation::Clockwise;
        } else if self.auto_rotate_speed != AutoRotation::Off {
            self.auto_rotate_speed = AutoRotation::Off;
        }
        if above_max && drift != ZoomDirection::Inward {
            self.auto_transition_zoom_direction = ZoomDirection::Inward;
        }
        if below_min && drift != ZoomDirection::Outward {
            self.auto_transition_zoom_direction = ZoomDirection::Outward;
        }
    }

    fn transition_mode(&mut self, player_count: usize, camera_mode: i8, now: u64, random_index: usize)
        requires
            old(self).wf(),
            i8::MIN < camera_mode < i8::MAX,
            old(self).transition_due(player_count, now) ==> 1 <= random_index < player_count,
            player_count <= i32::MAX as usize,
            old(self).transition_due(player_count, now) ==> now <= u64::MAX
                - AUTO_TRANSITION_TIME_SECONDS * 1000,
        ensures
            final(self).wf(),
            *final(self) == old(self).after_transition_mode(
                player_count,
                camera_mode,
                now,
                random_index,
            ),
    {
        let next_transition_time = self.auto_transition_next;
        let transition_time_ms = AUTO_TRANSITION_TIME_SECONDS * 1000;
        if player_count <= 1 {
            if camera_mode != 1 {
                self.camera_mode = 1;
            }
        } else {
            let mut next_mode = camera_mode + 1;
            if next_mode > 2 {
                next_mode = 0;
            }
            if now >= next_transition_time {
                self.player_index = random_index as i32;
                if next_transition_time != 0 {
                    self.camera_mode = next_mode;
                }
                self.auto_transition_next = now + transition_time_ms;
            }
        }
    }

    /// One frame of the automatic transition, with `camera_mode` the mode of
    /// the frame, `above_max` and `below_min` the camera distance compared
    /// with 32.0 and 15.0, and `random_index` the player to spectate next.
    /// Returns the direction the game side drifts the distance in this frame,
    /// which is the one from before the comparison.
    pub fn auto_transition_step(
        &mut self,
        player_count: usize,
        camera_mode: i8,
        now: u64,
        above_max: bool,
        below_min: bool,
        random_index: usize,
    ) -> (drift: ZoomDirection)
        requires
            old(self).wf(),
            i8::MIN < camera_mode < i8::MAX,
            player_count <= i32::MAX as usize,
            old(self).transition_due(player_count, now) ==> 1 <= random_index < player_count,
            old(self).transition_due(player_count, now) ==> now <= u64::MAX
                - AUTO_TRANSITION_TIME_SECONDS * 1000,
        ensures
            final(self).wf(),
            *final(self) == old(self).after_auto_transition(
                player_count,
                camera_mode,
                now,
                above_max,
                below_min,
                random_index,
            ),
            drift == old(self).auto_transition_zoom_direction,
    {
        let drift = self.auto_transition_zoom_direction;
        self.transition_settings(camera_mode, above_max, below_min);
        self.transition_mode(player_count, camera_mode, now, random_index);
        drift
    }

    /// One frame of the automatic transition, the player to spectate next
    /// drawn at random among the players other than the host. Its state is
    /// that of [`Self::auto_transition_step`] for some index in
    /// `1..player_count`.
    pub fn auto_transition_mode(
        &mut self,
        player_count: usize,
        camera_mode: i8,
        now: u64,
        above_max: bool,
        below_min: bool,
    ) -> (drift: ZoomDirection)
        requires
            old(self).wf(),
            i8::MIN < camera_mode < i8::MAX,
            player_count <= i32::MAX as usize,
            old(self).transition_due(player_count, now) ==> now <= u64::MAX
                - AUTO_TRANSITION_TIME_SECONDS * 1000,
        ensures
            final(self).wf(),
            exists|r: usize|
                (old(self).transition_due(player_count, now) ==> 1 <= r < player_count)
                    && *final(self) == old(self).after_auto_transition(
                    player_count,
                    camera_mode,
                    now,
                    above_max,
                    below_min,
                    r,
                ),
            drift == old(self).auto_transition_zoom_direction,
    {
        let random = if player_count > 1 && now >= self.auto_transition_next {
            let mut rng = thread_rng();
            random_index(&mut rng, 1, player_count)
        } else {
            0
        };
        self.auto_transition_step(player_count, camera_mode, now, above_max, below_min, random)
    }
}

} // verus!
