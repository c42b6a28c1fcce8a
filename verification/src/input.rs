//! Pad buttons the camera listens to while it is active.

use vstd::prelude::*;

use crate::messages::NetMessage;
use crate::state::{
    AutoRotation, CameraContext, CameraState, CAMERA_ITEM_ID, CAMERA_MARKER_ITEM_ID, DEBOUNCE_MS,
    OVERWORLD_AREA_MIN,
};

verus! {

/// A pad button, identified by the game's input code.
#[derive(Debug, Clone, Copy, PartialEq, Eq, Structural)]
pub enum InputId {
    DPadUp,
    DPadDown,
    DPadLeft,
    DPadRight,
    PadL1,
    PadR1,
    PadR3,
    PadL3,
    PadR2,
    PadL2,
    PadTri,
    PadSq,
    PadCir,
    PadX,
    NoInput,
}

impl InputId {
    /// The game's input code of each button.
    pub open spec fn spec_code(self) -> i32 {
        match self {
            InputId::DPadUp => 16,
            InputId::DPadDown => 19,
            InputId::DPadLeft => 18,
            InputId::DPadRight => 17,
            InputId::PadL1 => 9,
            InputId::PadR1 => 7,
            InputId::PadR3 => 20,
            InputId::PadL3 => 21,
            InputId::PadR2 => 8,
            InputId::PadL2 => 10,
            InputId::PadTri => 11,
            InputId::PadSq => 15,
            InputId::PadCir => 12,
            InputId::PadX => 14,
            InputId::NoInput => 0,
        }
    }

    /// The game's input code of this button.
    pub fn code(self) -> (c: i32)
        ensures
            c == self.spec_code(),
    {
        match self {
            InputId::DPadUp => 16,
            InputId::DPadDown => 19,
            InputId::DPadLeft => 18,
            InputId::DPadRight => 17,
            InputId::PadL1 => 9,
            InputId::PadR1 => 7,
            InputId::PadR3 => 20,
            InputId::PadL3 => 21,
            InputId::PadR2 => 8,
            InputId::PadL2 => 10,
            InputId::PadTri => 11,
            InputId::PadSq => 15,
            InputId::PadCir => 12,
            InputId::PadX => 14,
            InputId::NoInput => 0,
        }
    }

    /// The button, other than `NoInput`, whose code is `id`; `None` where no
    /// button has that code.
    pub fn check_id(id: i32) -> (r: Option<Self>)
        ensures
            r == button_of(id),
            r matches Some(b) ==> b != InputId::NoInput && b.spec_code() == id,
            r is None ==> forall|b: InputId| b != InputId::NoInput ==> #[trigger] b.spec_code() != id,
    {
        match id {
            16 => Some(Self::DPadUp),
            19 => Some(Self::DPadDown),
            18 => Some(Self::DPadLeft),
            17 => Some(Self::DPadRight),
            9 => Some(Self::PadL1),
            7 => Some(Self::PadR1),
            20 => Some(Self::PadR3),
            21 => Some(Self::PadL3),
            8 => Some(Self::PadR2),
            10 => Some(Self::PadL2),
            11 => Some(Self::PadTri),
            15 => Some(Self::PadSq),
            12 => Some(Self::PadCir),
            14 => Some(Self::PadX),
            _ => None,
        }
    }
}

/// The button, other than `NoInput`, that has the code `id`.
pub open spec fn button_of(id: i32) -> Option<InputId> {
    if id == 16 {
        Some(InputId::DPadUp)
    } else if id == 19 {
        Some(InputId::DPadDown)
    } else if id == 18 {
        Some(InputId::DPadLeft)
    } else if id == 17 {
        Some(InputId::DPadRight)
    } else if id == 9 {
        Some(InputId::PadL1)
    } else if id == 7 {
        Some(InputId::PadR1)
    } else if id == 20 {
        Some(InputId::PadR3)
    } else if id == 21 {
        Some(InputId::PadL3)
    } else if id == 8 {
        Some(InputId::PadR2)
    } else if id == 10 {
        Some(InputId::PadL2)
    } else if id == 11 {
        Some(InputId::PadTri)
    } else if id == 15 {
        Some(InputId::PadSq)
    } else if id == 12 {
        Some(InputId::PadCir)
    } else if id == 14 {
        Some(InputId::PadX)
    } else {
        None
    }
}

/// The absolute value of an integer.
pub open spec fn abs(x: int) -> int {
    if x < 0 {
        -x
    } else {
        x
    }
}

/// The spectated player after "next player": one up, back to 1 past `count`
/// or when the result would be 0.
pub open spec fn next_player_index(current: i32, count: i32) -> i32 {
    let next = current + 1;
    if abs(next) > count || abs(next) < 1 {
        1
    } else {
        next as i32
    }
}

/// The spectated player after "previous player": one down, on to `count`
/// when the result would be 0 or out of range.
pub open spec fn prev_player_index(current: i32, count: i32) -> i32 {
    let prev = current - 1;
    if abs(prev) > count || abs(prev) < 1 {
        count
    } else {
        prev as i32
    }
}

/// The camera mode after "next mode": one up, 0 once it leaves -2..=2.
pub open spec fn next_camera_mode(mode: i8) -> i8 {
    let next = mode + 1;
    if abs(next) < 3 {
        next as i8
    } else {
        0
    }
}

/// The camera mode after "previous mode": one down, 0 once it leaves -2..=2.
pub open spec fn prev_camera_mode(mode: i8) -> i8 {
    let prev = mode - 1;
    if abs(prev) < 3 {
        prev as i8
    } else {
        0
    }
}

impl AutoRotation {
    /// The rotation after the rotation button: off, clockwise,
    /// counter-clockwise, off again.
    pub open spec fn cycled(self) -> AutoRotation {
        match self {
            AutoRotation::Off => AutoRotation::Clockwise,
            AutoRotation::Clockwise => AutoRotation::CounterClockwise,
            AutoRotation::CounterClockwise => AutoRotation::Off,
        }
    }
}

/// Whether a map area is part of the open world.
pub open spec fn is_overworld(area: u8) -> bool {
    area >= OVERWORLD_AREA_MIN
}

/// A change of the field of view asked for by the pad (applied by the game
/// side within its bounds, 0.01 at a time).
#[derive(Debug, Clone, Copy, PartialEq, Eq, Structural)]
pub enum FovStep {
    Narrow,
    Widen,
}

/// A change of the camera distance asked for by the pad (applied by the game
/// side within its bounds, 0.07 at a time).
#[derive(Debug, Clone, Copy, PartialEq, Eq, Structural)]
pub enum ZoomStep {
    Closer,
    Farther,
}

/// What the game side does after a pad input.
#[derive(Debug, Clone, Copy, PartialEq, Eq, Structural)]
pub struct PadEffects {
    pub fov: Option<FovStep>,
    pub zoom: Option<ZoomStep>,
    /// Put the camera distance back to its minimum.
    pub reset_distance: bool,
    pub message: Option<NetMessage>,
}

/// What the game side does after a window message.
#[derive(Debug, Clone, Copy, PartialEq, Eq, Structural)]
pub struct MarkerEffects {
    /// Store the player's position as the custom camera center.
    pub save_marker: bool,
    /// Clear the custom camera center.
    pub reset_marker: bool,
    pub message: Option<NetMessage>,
}

/// The speed bound the game side puts on the player's manual orbit.
#[derive(Debug, Clone, Copy, PartialEq, Eq, Structural)]
pub enum OrbitLimit {
    /// 0.25 on the vertical axis, in spectate mode.
    Vertical,
    /// 0.25 on the horizontal axis, in spectate mode.
    SpectateHorizontal,
    /// 0.3 on the horizontal axis, in top-down mode.
    TopDownHorizontal,
}

fn next_index(current: i32, clients: i32) -> (r: i32)
    requires
        -i32::MAX < current < i32::MAX,
        0 <= clients < i32::MAX,
    ensures
        r == next_player_index(current, clients),
        -i32::MAX < r < i32::MAX,
{
    let next = current + 1;
    let size = if next < 0 { -next } else { next };
    if size > clients || size < 1 {
        1
    } else {
        next
    }
}

fn prev_index(current: i32, clients: i32) -> (r: i32)
    requires
        -i32::MAX < current < i32::MAX,
        0 <= clients < i32::MAX,
    ensures
        r == prev_player_index(current, clients),
        -i32::MAX < r < i32::MAX,
{
    let prev = current - 1;
    let size = if prev < 0 { -prev } else { prev };
    if size > clients || size < 1 {
        clients
    } else {
        prev
    }
}

fn step_mode(mode: i8, forward: bool) -> (r: i8)
    requires
        -i8::MAX < mode < i8::MAX,
    ensures
        r == (if forward { next_camera_mode(mode) } else { prev_camera_mode(mode) }),
        -2 <= r <= 2,
{
    let stepped = if forward { mode + 1 } else { mode - 1 };
    let size = if stepped < 0 { -stepped } else { stepped };
    if size < 3 {
        stepped
    } else {
        0
    }
}

impl CameraContext {
    /// A pad input is acted on: the game reported it, the camera is on, the
    /// window has the focus and the code is one of the camera's buttons.
    pub open spec fn pad_input_taken(self, is_valid_input: bool, input_id: i32) -> bool {
        &&& is_valid_input
        &&& self.camera_state == CameraState::On
        &&& self.window_infocus
        &&& button_of(input_id) is Some
    }

    /// The same button again within the debounce window.
    pub open spec fn is_repeat(self, input_id: i32, now: u64) -> bool {
        input_id == self.current_input && now - self.last_input_time_ms < DEBOUNCE_MS
    }

    /// The player count that the pad's player cycling wraps at: the
    /// players other than the host.
    pub open spec fn clients(self) -> i32 {
        (self.player_count - 1) as i32
    }

    /// The state after a fresh press of button `b`; input bookkeeping aside.
    pub open spec fn pressed(self, b: InputId) -> CameraContext {
        match b {
            InputId::PadTri => if !self.auto_transition {
                CameraContext { auto_transition: true, ..self }
            } else {
                CameraContext {
                    auto_rotate: false,
                    auto_rotate_speed: AutoRotation::Off,
                    auto_transition: false,
                    auto_transition_next: 0,
                    ..self
                }
            },
            InputId::PadSq => CameraContext { fps_boost: !self.fps_boost, ..self },
            InputId::PadCir => CameraContext { camera_collision: !self.camera_collision, ..self },
            InputId::DPadRight => CameraContext {
                player_index: next_player_index(self.player_index, self.clients()),
                ..self
            },
            InputId::DPadLeft => CameraContext {
                player_index: prev_player_index(self.player_index, self.clients()),
                ..self
            },
            InputId::PadL1 => if !self.auto_transition {
                CameraContext { camera_mode: prev_camera_mode(self.camera_mode), ..self }
            } else {
                self
            },
            InputId::PadR1 => if !self.auto_transition {
                CameraContext { camera_mode: next_camera_mode(self.camera_mode), ..self }
            } else {
                self
            },
            InputId::PadL3 => if !self.auto_transition {
                CameraContext { auto_rotate_speed: self.auto_rotate_speed.cycled(), ..self }
            } else {
                self
            },
            InputId::PadR3 => CameraContext { camera_state: CameraState::Deactivating, ..self },
            _ => self,
        }
    }

    /// The notice after a fresh press of button `b`.
    pub open spec fn press_message(self, b: InputId) -> Option<NetMessage> {
        if b == InputId::PadTri {
            Some(
                if !self.auto_transition {
                    NetMessage::AutoTransitionEnabled
                } else {
                    NetMessage::AutoTransitionDisabled
                },
            )
        } else if b == InputId::PadSq {
            Some(
                if !self.fps_boost {
                    NetMessage::FpsBoostEnabled
                } else {
                    NetMessage::FpsBoostDisabled
                },
            )
        } else if b == InputId::PadCir {
            Some(
                if !self.camera_collision {
                    NetMessage::CollisionEnabled
                } else {
                    NetMessage::CollisionDisabled
                },
            )
        } else if b == InputId::PadL3 && !self.auto_transition && self.auto_rotate_speed
            == AutoRotation::Off {
            Some(NetMessage::AutoRotationEnabled)
        } else if b == InputId::PadL3 && !self.auto_transition && self.auto_rotate_speed
            == AutoRotation::CounterClockwise {
            Some(NetMessage::AutoRotationDisabled)
        } else {
            None
        }
    }

    /// The state after a pad input.
    pub open spec fn after_pad_input(self, is_valid_input: bool, input_id: i32, now: u64) -> CameraContext {
        if !self.pad_input_taken(is_valid_input, input_id) || self.is_repeat(input_id, now) {
            self
        } else {
            CameraContext { last_input_time_ms: now, current_input: input_id, ..self }.pressed(
                button_of(input_id).unwrap(),
            )
        }
    }

    /// What the game side does after a pad input.
    pub open spec fn pad_input_effects(self, is_valid_input: bool, input_id: i32, now: u64) -> PadEffects {
        let taken = self.pad_input_taken(is_valid_input, input_id);
        let b = button_of(input_id).unwrap();
        let fresh = taken && !self.is_repeat(input_id, now);
        PadEffects {
            fov: if taken && b == InputId::DPadUp {
                Some(FovStep::Narrow)
            } else if taken && b == InputId::DPadDown {
                Some(FovStep::Widen)
            } else {
                None
            },
            zoom: if taken && b == InputId::PadR2 && self.camera_mode != 2 {
                Some(ZoomStep::Closer)
            } else if taken && b == InputId::PadL2 && self.camera_mode != 2 {
                Some(ZoomStep::Farther)
            } else {
                None
            },
            reset_distance: fresh && (b == InputId::PadL1 || b == InputId::PadR1)
                && !self.auto_transition,
            message: if fresh {
                self.press_message(b)
            } else {
                None
            },
        }
    }

    fn press(&mut self, b: InputId) -> (m: Option<NetMessage>)
        requires
            old(self).wf(),
            1 <= old(self).player_count,
        ensures
            final(self).wf(),
            *final(self) == old(self).pressed(b),
            m == old(self).press_message(b),
    {
        match b {
            InputId::PadTri | InputId::PadSq | InputId::PadCir => self.press_toggle(b),
            InputId::DPadRight | InputId::DPadLeft | InputId::PadL1 | InputId::PadR1 => {
                self.press_navigation(b);
                None
            },
            InputId::PadL3 => self.press_rotation(),
            InputId::PadR3 => {
                self.camera_state = CameraState::Deactivating;
                None
            },
            _ => None,
        }
    }

    fn press_toggle(&mut self, b: InputId) -> (m: Option<NetMessage>)
        requires
            old(self).wf(),
            b == InputId::PadTri || b == InputId::PadSq || b == InputId::PadCir,
        ensures
            final(self).wf(),
            *final(self) == old(self).pressed(b),
            m == old(self).press_message(b),
    {
        if b == InputId::PadTri {
            if !self.auto_transition {
                self.auto_transition = true;
                Some(NetMessage::AutoTransitionEnabled)
            } else {
                self.auto_rotate = false;
                self.auto_rotate_speed = AutoRotation::Off;
                self.auto_transition = false;
                self.auto_transition_next = 0;
                Some(NetMessage::AutoTransitionDisabled)
            }
        } else if b == InputId::PadSq {
            if !self.fps_boost {
                self.fps_boost = true;
                Some(NetMessage::FpsBoostEnabled)
            } else {
                self.fps_boost = false;
                Some(NetMessage::FpsBoostDisabled)
            }
        } else {
            if !self.camera_collision {
                self.camera_collision = true;
                Some(NetMessage::CollisionEnabled)
            } else {
                self.camera_collision = false;
                Some(NetMessage::CollisionDisabled)
            }
        }
    }

    fn press_navigation(&mut self, b: InputId)
        requires
            old(self).wf(),
            1 <= old(self).player_count,
            b == InputId::DPadRight || b == InputId::DPadLeft || b == InputId::PadL1 || b
                == InputId::PadR1,
        ensures
            final(self).wf(),
            *final(self) == old(self).pressed(b),
    {
        let clients = (self.player_count - 1) as i32;
        if b == InputId::DPadRight {
            self.player_index = next_index(self.player_index, clients);
        } else if b == InputId::DPadLeft {
            self.player_index = prev_index(self.player_index, clients);
        } else if !self.auto_transition {
            self.camera_mode = step_mode(self.camera_mode, b == InputId::PadR1);
        }
    }

    fn press_rotation(&mut self) -> (m: Option<NetMessage>)
        requires
            old(self).wf(),
        ensures
            final(self).wf(),
            *final(self) == old(self).pressed(InputId::PadL3),
            m == old(self).press_message(InputId::PadL3),
    {
        if !self.auto_transition {
            match self.auto_rotate_speed {
                AutoRotation::Off => {
                    self.auto_rotate_speed = AutoRotation::Clockwise;
                    Some(NetMessage::AutoRotationEnabled)
                },
                AutoRotation::Clockwise => {
                    self.auto_rotate_speed = AutoRotation::CounterClockwise;
                    None
                },
                AutoRotation::CounterClockwise => {
                    self.auto_rotate_speed = AutoRotation::Off;
                    Some(NetMessage::AutoRotationDisabled)
                },
            }
        } else {
            None
        }
    }

    /// Acts on a pad input the game polled at time `now` (milliseconds):
    /// field of view and distance change on every poll; the other buttons
    /// once per press, a press of the same button within the debounce window
    /// counting as the same press.
    pub fn on_pad_input(&mut self, is_valid_input: bool, input_id: i32, now: u64) -> (e: PadEffects)
        requires
            old(self).wf(),
            old(self).pad_input_taken(is_valid_input, input_id) ==> 1 <= old(self).player_count,
            old(self).pad_input_taken(is_valid_input, input_id) && input_id
                == old(self).current_input ==> old(self).last_input_time_ms <= now,
        ensures
            final(self).wf(),
            *final(self) == old(self).after_pad_input(is_valid_input, input_id, now),
            e == old(self).pad_input_effects(is_valid_input, input_id, now),
    {
        let none = PadEffects { fov: None, zoom: None, reset_distance: false, message: None };
        if !(is_valid_input && self.camera_state == CameraState::On && self.window_infocus) {
            return none;
        }
        let input = match InputId::check_id(input_id) {
            Some(b) => b,
            None => return none,
        };
        let is_repeat = input_id == self.current_input && now - self.last_input_time_ms
            < DEBOUNCE_MS;
        let auto_transition = self.auto_transition;
        let camera_mode = self.camera_mode;

        let mut effects = none;
        match input {
            InputId::DPadUp => {
                effects.fov = Some(FovStep::Narrow);
            },
            InputId::DPadDown => {
                effects.fov = Some(FovStep::Widen);
            },
            InputId::PadR2 => {
                if camera_mode != 2 {
                    effects.zoom = Some(ZoomStep::Closer);
                }
            },
            InputId::PadL2 => {
                if camera_mode != 2 {
                    effects.zoom = Some(ZoomStep::Farther);
                }
            },
            _ => {},
        }

        if !is_repeat {
            self.last_input_time_ms = now;
            self.current_input = input_id;
            effects.message = self.press(input);
            effects.reset_distance = (input == InputId::PadL1 || input == InputId::PadR1)
                && !auto_transition;
        }
        effects
    }

    /// The focus after a window message: 0x0007 gains it, 0x0008 loses it.
    pub open spec fn focus_after(self, msg: u32) -> bool {
        if msg == 0x0007 {
            true
        } else if msg == 0x0008 {
            false
        } else {
            self.window_infocus
        }
    }

    /// A host key press that the camera acts on.
    pub open spec fn key_taken(self, msg: u32, is_host: bool) -> bool {
        self.focus_after(msg) && msg == 0x100 && is_host
    }

    /// The state after the host pressed `key` in map area `area`.
    pub open spec fn after_key(self, key: usize, area: u8) -> CameraContext {
        if key == 0x74 {
            CameraContext {
                camera_marker: self.camera_marker || is_overworld(area),
                camera_activation_trigger: self.camera_activation_trigger || self.camera_state
                    == CameraState::Off,
                camera_state: if self.camera_state == CameraState::On {
                    CameraState::Deactivating
                } else {
                    self.camera_state
                },
                ..self
            }
        } else if key == 0x75 {
            CameraContext {
                camera_marker: self.camera_marker || (!self.camera_activation_trigger
                    && self.camera_state == CameraState::Off),
                ..self
            }
        } else if key == 0x77 {
            CameraContext { camera_bypass: !self.camera_bypass, ..self }
        } else {
            self
        }
    }

    /// What the game side does after the host pressed `key` in map area
    /// `area`.
    pub open spec fn key_effects(self, key: usize, area: u8) -> MarkerEffects {
        let may_place = !self.camera_activation_trigger && self.camera_state == CameraState::Off;
        MarkerEffects {
            save_marker: (key == 0x74 && is_overworld(area) && !self.camera_marker) || (key == 0x75
                && may_place && !self.camera_marker),
            reset_marker: key == 0x75 && may_place && self.camera_marker && !is_overworld(area),
            message: if key == 0x75 && may_place && !self.camera_marker {
                Some(NetMessage::CenterSetByKey)
            } else if key == 0x75 && may_place && !is_overworld(area) {
                Some(NetMessage::CenterResetByKey)
            } else if key == 0x77 {
                Some(
                    if self.camera_bypass {
                        NetMessage::BypassDisabled
                    } else {
                        NetMessage::BypassEnabled
                    },
                )
            } else {
                None
            },
        }
    }

    /// The state after a window message.
    pub open spec fn after_window_message(self, msg: u32, key: usize, is_host: bool, area: u8) -> CameraContext {
        let s = CameraContext { window_infocus: self.focus_after(msg), ..self };
        if self.key_taken(msg, is_host) {
            s.after_key(key, area)
        } else {
            s
        }
    }

    /// What the game side does after a window message.
    pub open spec fn window_message_effects(self, msg: u32, key: usize, is_host: bool, area: u8) -> MarkerEffects {
        if self.key_taken(msg, is_host) {
            self.key_effects(key, area)
        } else {
            MarkerEffects { save_marker: false, reset_marker: false, message: None }
        }
    }

    /// Acts on a message of the game window, for a host whose character is in
    /// map area `area`: focus changes (0x0007 gained, 0x0008 lost) and, while
    /// focused, the host's key presses (0x100): F5 (0x74) starts or stops the
    /// camera and sets the open-world center, F6 (0x75) sets or resets the
    /// custom center while the camera is off, F8 (0x77) toggles the bypass of
    /// the start checks.
    pub fn on_window_message(&mut self, msg: u32, key: usize, is_host: bool, area: u8) -> (e: MarkerEffects)
        requires
            old(self).wf(),
        ensures
            final(self).wf(),
            *final(self) == old(self).after_window_message(msg, key, is_host, area),
            e == old(self).window_message_effects(msg, key, is_host, area),
    {
        if msg == 0x0007 {
            self.window_infocus = true;
        }
        if msg == 0x0008 {
            self.window_infocus = false;
        }
        if !self.window_infocus || msg != 0x100 || !is_host {
            return MarkerEffects { save_marker: false, reset_marker: false, message: None };
        }
        self.on_key(key, area)
    }

    fn on_key(&mut self, key: usize, area: u8) -> (e: MarkerEffects)
        requires
            old(self).wf(),
        ensures
            final(self).wf(),
            *final(self) == old(self).after_key(key, area),
            e == old(self).key_effects(key, area),
    {
        if key == 0x74 {
            self.key_start_stop(area)
        } else if key == 0x75 {
            self.key_center(area)
        } else if key == 0x77 {
            if self.camera_bypass {
                self.camera_bypass = false;
                MarkerEffects {
                    save_marker: false,
                    reset_marker: false,
                    message: Some(NetMessage::BypassDisabled),
                }
            } else {
                self.camera_bypass = true;
                MarkerEffects {
                    save_marker: false,
                    reset_marker: false,
                    message: Some(NetMessage::BypassEnabled),
                }
            }
        } else {
            MarkerEffects { save_marker: false, reset_marker: false, message: None }
        }
    }

    fn key_start_stop(&mut self, area: u8) -> (e: MarkerEffects)
        requires
            old(self).wf(),
        ensures
            final(self).wf(),
            *final(self) == old(self).after_key(0x74, area),
            e == old(self).key_effects(0x74, area),
    {
        let camera_state = self.camera_state;
        let save = area >= OVERWORLD_AREA_MIN && !self.camera_marker;
        if save {
            self.camera_marker = true;
        }
        if !self.camera_activation_trigger && camera_state == CameraState::Off {
            self.camera_activation_trigger = true;
        }
        if camera_state == CameraState::On {
            self.camera_state = CameraState::Deactivating;
        }
        MarkerEffects { save_marker: save, reset_marker: false, message: None }
    }

    fn key_center(&mut self, area: u8) -> (e: MarkerEffects)
        requires
            old(self).wf(),
        ensures
            final(self).wf(),
            *final(self) == old(self).after_key(0x75, area),
            e == old(self).key_effects(0x75, area),
    {
        let overworld = area >= OVERWORLD_AREA_MIN;
        let mut effects = MarkerEffects { save_marker: false, reset_marker: false, message: None };
        if !self.camera_activation_trigger && self.camera_state == CameraState::Off {
            if !self.camera_marker {
                effects.save_marker = true;
                effects.message = Some(NetMessage::CenterSetByKey);
                self.camera_marker = true;
            } else if !overworld {
                effects.reset_marker = true;
                effects.message = Some(NetMessage::CenterResetByKey);
                self.camera_marker = true;
            }
        }
        effects
    }

    /// The state after the player used item `item_id`.
    pub open spec fn after_item_used(self, item_id: u32, is_host: bool, is_main_player: bool, area: u8) -> CameraContext {
        let allowed = is_host && is_main_player;
        CameraContext {
            camera_activation_trigger: self.camera_activation_trigger || (item_id
                == CAMERA_ITEM_ID && allowed),
            camera_marker: if item_id == CAMERA_MARKER_ITEM_ID && allowed && !self.camera_marker {
                true
            } else if item_id == CAMERA_MARKER_ITEM_ID && allowed && !is_overworld(area) {
                false
            } else {
                self.camera_marker
            },
            ..self
        }
    }

    /// What the game side does after the player used item `item_id`.
    pub open spec fn item_used_effects(self, item_id: u32, is_host: bool, is_main_player: bool, area: u8) -> MarkerEffects {
        let marker_item = item_id == CAMERA_MARKER_ITEM_ID && is_host && is_main_player;
        let set = marker_item && !self.camera_marker;
        let reset = marker_item && self.camera_marker && !is_overworld(area);
        MarkerEffects {
            save_marker: set,
            reset_marker: reset,
            message: if set {
                Some(NetMessage::CenterSetByItem)
            } else if reset {
                Some(NetMessage::CenterResetByItem)
            } else {
                None
            },
        }
    }

    /// Acts on an item use by a player in map area `area`: the camera item
    /// asks the camera to start, the marker item sets the custom center or,
    /// outside the open world, resets it; both only for the host's own
    /// character.
    pub fn on_item_used(&mut self, item_id: u32, is_host: bool, is_main_player: bool, area: u8) -> (e: MarkerEffects)
        requires
            old(self).wf(),
        ensures
            final(self).wf(),
            *final(self) == old(self).after_item_used(item_id, is_host, is_main_player, area),
            e == old(self).item_used_effects(item_id, is_host, is_main_player, area),
    {
        let overworld = area >= OVERWORLD_AREA_MIN;
        let mut effects = MarkerEffects { save_marker: false, reset_marker: false, message: None };
        if item_id == CAMERA_ITEM_ID {
            if is_host && is_main_player {
                self.camera_activation_trigger = true;
            }
        }
        if item_id == CAMERA_MARKER_ITEM_ID {
            let is_on = self.camera_marker;
            if is_host && is_main_player {
                if !is_on {
                    effects.save_marker = true;
                    effects.message = Some(NetMessage::CenterSetByItem);
                    self.camera_marker = true;
                } else if is_on && !overworld {
                    effects.reset_marker = true;
                    effects.message = Some(NetMessage::CenterResetByItem);
                    self.camera_marker = false;
                }
            }
        }
        effects
    }

    /// While the camera is on, the game's own camera updates that would
    /// fight it (zoom interpolation, action button prompts) are skipped.
    pub fn suppresses_game_camera(&self) -> (r: bool)
        ensures
            r == (self.camera_state == CameraState::On),
    {
        self.camera_state == CameraState::On
    }

    /// The bound on the player's vertical orbit speed: only in spectate mode
    /// while the camera is on.
    pub fn vertical_orbit_limit(&self) -> (r: Option<OrbitLimit>)
        ensures
            r == (if self.camera_state == CameraState::On && self.camera_mode == 0 {
                Some(OrbitLimit::Vertical)
            } else {
                None
            }),
    {
        if self.camera_state == CameraState::On && self.camera_mode == 0 {
            Some(OrbitLimit::Vertical)
        } else {
            None
        }
    }

    /// The bound on the player's horizontal orbit speed while the camera is
    /// on: one for spectate mode, one for top-down mode.
    pub fn horizontal_orbit_limit(&self) -> (r: Option<OrbitLimit>)
        ensures
            r == (if self.camera_state != CameraState::On {
                None
            } else if self.camera_mode == 0 {
                Some(OrbitLimit::SpectateHorizontal)
            } else if self.camera_mode == 1 {
                Some(OrbitLimit::TopDownHorizontal)
            } else {
                None
            }),
    {
        if self.camera_state == CameraState::On {
            if self.camera_mode == 0 {
                return Some(OrbitLimit::SpectateHorizontal);
            } else if self.camera_mode == 1 {
                return Some(OrbitLimit::TopDownHorizontal);
            }
        }
        None
    }

    /// The orbit the game side adds to the camera each frame: the automatic
    /// rotation and the orbit correction, both only while the camera is on.
    pub fn orbit_drift(&self) -> (r: (AutoRotation, bool))
        ensures
            r == (if self.camera_state == CameraState::On {
                (self.auto_rotate_speed, self.orbit_correction)
            } else {
                (AutoRotation::Off, false)
            }),
    {
        if self.camera_state == CameraState::On {
            (self.auto_rotate_speed, self.orbit_correction)
        } else {
            (AutoRotation::Off, false)
        }
    }
}

} // verus!
