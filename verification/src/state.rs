//! The camera's state: every flag, counter and mode the camera keeps between
//! frames, as plain values.

use vstd::prelude::*;

verus! {

/// Whether the spectator camera is running.
#[derive(Debug, Clone, Copy, PartialEq, Eq, Structural)]
pub enum CameraState {
    Off,
    On,
    Deactivating,
}

impl CameraState {
    pub open spec fn spec_value(self) -> i8 {
        match self {
            CameraState::Off => 0,
            CameraState::On => 1,
            CameraState::Deactivating => 2,
        }
    }

    /// The numeric value the game-side code stores for this state.
    pub fn value(self) -> (v: i8)
        ensures
            v == self.spec_value(),
    {
        match self {
            CameraState::Off => 0,
            CameraState::On => 1,
            CameraState::Deactivating => 2,
        }
    }
}

/// Which name slot of the game's network notice a text replaces.
#[derive(Debug, Clone, Copy, PartialEq, Eq, Structural)]
pub enum LabelReplacementTemplate {
    JoinName,
    HostName,
    DeadName,
    LeaveName,
    RoleName,
    Target,
}

impl LabelReplacementTemplate {
    pub open spec fn spec_value(self) -> i32 {
        match self {
            LabelReplacementTemplate::JoinName => 1,
            LabelReplacementTemplate::HostName => 2,
            LabelReplacementTemplate::DeadName => 3,
            LabelReplacementTemplate::LeaveName => 4,
            LabelReplacementTemplate::RoleName => 5,
            LabelReplacementTemplate::Target => 6,
        }
    }

    /// The numeric value the game's notice function takes for this slot.
    pub fn value(self) -> (v: i32)
        ensures
            v == self.spec_value(),
    {
        match self {
            LabelReplacementTemplate::JoinName => 1,
            LabelReplacementTemplate::HostName => 2,
            LabelReplacementTemplate::DeadName => 3,
            LabelReplacementTemplate::LeaveName => 4,
            LabelReplacementTemplate::RoleName => 5,
            LabelReplacementTemplate::Target => 6,
        }
    }
}

/// The automatic orbit of the camera. The game side turns these into the
/// angular speeds 0.0, 0.008 and -0.008 per frame.
#[derive(Debug, Clone, Copy, PartialEq, Eq, Structural)]
pub enum AutoRotation {
    Off,
    Clockwise,
    CounterClockwise,
}

/// Direction in which the automatic transition mode drifts the camera
/// distance: `Outward` is +1.0, `Inward` is -1.0.
#[derive(Debug, Clone, Copy, PartialEq, Eq, Structural)]
pub enum ZoomDirection {
    Outward,
    Inward,
}

/// Progress of the fade to black that hides long camera jumps.
#[derive(Debug, Clone, Copy, PartialEq, Eq, Structural)]
pub enum FadeState {
    /// Nothing faded (stored as 0).
    Clear,
    /// The screen was faded out (stored as 1).
    FadedOut,
    /// The screen is fading back in (stored as 2).
    FadingIn,
}

/// The game's HUD visibility setting.
#[derive(Debug, Clone, Copy, PartialEq, Eq, Structural)]
pub enum HudState {
    HideAll,
    ShowAll,
    PopupMenu,
    Gameplay,
}

/// What the camera needs to know of a player's multiplayer role.
#[derive(Debug, Clone, Copy, PartialEq, Eq, Structural)]
pub enum PlayerRole {
    Host,
    RedInvasionA,
    RedInvasionB,
    Other,
}

/// Debounce window for repeated pad inputs, in milliseconds.
pub const DEBOUNCE_MS: u64 = 170;

/// Length of the fade to black, in milliseconds.
pub const FADE_DURATION_MS: u64 = 2000;

/// Item that starts the camera.
pub const CAMERA_ITEM_ID: u32 = 4600900;

/// Item that sets or resets the custom camera center.
pub const CAMERA_MARKER_ITEM_ID: u32 = 4601000;

/// Seconds between two automatic mode transitions.
pub const AUTO_TRANSITION_TIME_SECONDS: u64 = 12;

/// Animation the player plays while using the camera item.
pub const CAMERA_ACTIVATION_ANIM_ID: i32 = 50560;

/// Areas from this number on are the open world.
pub const OVERWORLD_AREA_MIN: u8 = 60;

/// Everything the camera remembers between frames and between hook calls.
pub struct CameraContext {
    /// Code of the last pad input that was taken.
    pub current_input: i32,
    /// Time at which `current_input` was taken, in milliseconds.
    pub last_input_time_ms: u64,
    /// Start the camera without the host, player and lobby checks.
    pub camera_bypass: bool,
    /// Whether the game window has the focus.
    pub window_infocus: bool,
    /// Time at which the last fade out ends, in milliseconds.
    pub fade_duration_end: u64,
    pub fade_state: FadeState,
    /// The player is in the camera item's use animation.
    pub camera_activation_anim: bool,
    /// The camera was asked to start.
    pub camera_activation_trigger: bool,
    pub camera_state: CameraState,
    /// 0 spectate, 1 top-down, 2 follow; negative values select the mode of
    /// their absolute value, 3 skips to no mode.
    pub camera_mode: i8,
    pub previous_camera_mode: i8,
    /// A custom camera center is set.
    pub camera_marker: bool,
    pub fps_boost: bool,
    pub auto_transition: bool,
    /// Time of the next automatic mode transition, 0 before the first one.
    pub auto_transition_next: u64,
    pub auto_transition_zoom_direction: ZoomDirection,
    /// Index of the spectated player; 0 is the host.
    pub player_index: i32,
    /// Number of player characters in the world, the host included.
    pub player_count: usize,
    pub orbit_correction: bool,
    pub auto_rotate: bool,
    pub auto_rotate_speed: AutoRotation,
    pub camera_collision: bool,
}

impl CameraContext {
    /// The ranges the camera's counters stay in: the mode of absolute value
    /// below `i8::MAX`,
    /// the player index of absolute value below `i32::MAX`, and the player count
    /// within `i32`.
    pub open spec fn wf(&self) -> bool {
        &&& -i8::MAX < self.camera_mode < i8::MAX
        &&& -i32::MAX < self.player_index < i32::MAX
        &&& self.player_count <= i32::MAX as usize
    }

    /// The state the camera starts in.
    pub open spec fn initial() -> CameraContext {
        CameraContext {
            current_input: 0,
            last_input_time_ms: 0,
            camera_bypass: false,
            window_infocus: true,
            fade_duration_end: 0,
            fade_state: FadeState::Clear,
            camera_activation_anim: false,
            camera_activation_trigger: false,
            camera_state: CameraState::Off,
            camera_mode: 0,
            previous_camera_mode: 0,
            camera_marker: false,
            fps_boost: false,
            auto_transition: false,
            auto_transition_next: 0,
            auto_transition_zoom_direction: ZoomDirection::Outward,
            player_index: 0,
            player_count: 0,
            orbit_correction: false,
            auto_rotate: false,
            auto_rotate_speed: AutoRotation::Off,
            camera_collision: false,
        }
    }

    /// A camera that is off, with every flag and counter at its start value.
    pub fn new() -> (c: CameraContext)
        ensures
            c == CameraContext::initial(),
            c.wf(),
    {
        CameraContext {
            current_input: 0,
            last_input_time_ms: 0,
            camera_bypass: false,
            window_infocus: true,
            fade_duration_end: 0,
            fade_state: FadeState::Clear,
            camera_activation_anim: false,
            camera_activation_trigger: false,
            camera_state: CameraState::Off,
            camera_mode: 0,
            previous_camera_mode: 0,
            camera_marker: false,
            fps_boost: false,
            auto_transition: false,
            auto_transition_next: 0,
            auto_transition_zoom_direction: ZoomDirection::Outward,
            player_index: 0,
            player_count: 0,
            orbit_correction: false,
            auto_rotate: false,
            auto_rotate_speed: AutoRotation::Off,
            camera_collision: false,
        }
    }
}

} // verus!
