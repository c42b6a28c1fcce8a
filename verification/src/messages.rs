//! The notices the camera shows through the game's network message banner,
//! and their encoding for the game.

use vstd::prelude::*;

verus! {

/// A notice shown to the host.
#[derive(Debug, Clone, Copy, PartialEq, Eq, Structural)]
pub enum NetMessage {
    CenterSetByKey,
    CenterResetByKey,
    BypassDisabled,
    BypassEnabled,
    CenterSetByItem,
    CenterResetByItem,
    AutoTransitionEnabled,
    AutoTransitionDisabled,
    FpsBoostEnabled,
    FpsBoostDisabled,
    CollisionEnabled,
    CollisionDisabled,
    AutoRotationEnabled,
    AutoRotationDisabled,
    NotHost,
    NoPlayers,
    LobbyNotReady,
}

impl NetMessage {
    /// The text of the notice.
    pub open spec fn spec_text(self) -> Seq<char> {
        match self {
            NetMessage::CenterSetByKey => "New camera center position has been set"@,
            NetMessage::CenterResetByKey => "Camera center position has been reset"@,
            NetMessage::BypassDisabled => "Bypass Disabled"@,
            NetMessage::BypassEnabled => "Bypass Enabled"@,
            NetMessage::CenterSetByItem => "A new camera center position has been set"@,
            NetMessage::CenterResetByItem => "The camera center position has been reset"@,
            NetMessage::AutoTransitionEnabled => "Auto-Transition Mode Enabled"@,
            NetMessage::AutoTransitionDisabled => "Auto-Transition Mode Disabled"@,
            NetMessage::FpsBoostEnabled => "FPS-Boost Mode Enabled"@,
            NetMessage::FpsBoostDisabled => "FPS-Boost Mode Disabled"@,
            NetMessage::CollisionEnabled => "Camera Collision Enabled"@,
            NetMessage::CollisionDisabled => "Camera Collision Disabled"@,
            NetMessage::AutoRotationEnabled => "Auto-Rotation Mode Enabled"@,
            NetMessage::AutoRotationDisabled => "Auto-Rotation Mode Disabled"@,
            NetMessage::NotHost => "Cannot start camera. You are not the host."@,
            NetMessage::NoPlayers => "Cannot start camera. No players in world."@,
            NetMessage::LobbyNotReady => "Cannot start camera. Lobby is not ready."@,
        }
    }

    /// The text of the notice.
    pub fn text(self) -> (t: &'static str)
        ensures
            t@ == self.spec_text(),
    {
        match self {
            NetMessage::CenterSetByKey => "New camera center position has been set",
            NetMessage::CenterResetByKey => "Camera center position has been reset",
            NetMessage::BypassDisabled => "Bypass Disabled",
            NetMessage::BypassEnabled => "Bypass Enabled",
            NetMessage::CenterSetByItem => "A new camera center position has been set",
            NetMessage::CenterResetByItem => "The camera center position has been reset",
            NetMessage::AutoTransitionEnabled => "Auto-Transition Mode Enabled",
            NetMessage::AutoTransitionDisabled => "Auto-Transition Mode Disabled",
            NetMessage::FpsBoostEnabled => "FPS-Boost Mode Enabled",
            NetMessage::FpsBoostDisabled => "FPS-Boost Mode Disabled",
            NetMessage::CollisionEnabled => "Camera Collision Enabled",
            NetMessage::CollisionDisabled => "Camera Collision Disabled",
            NetMessage::AutoRotationEnabled => "Auto-Rotation Mode Enabled",
            NetMessage::AutoRotationDisabled => "Auto-Rotation Mode Disabled",
            NetMessage::NotHost => "Cannot start camera. You are not the host.",
            NetMessage::NoPlayers => "Cannot start camera. No players in world.",
            NetMessage::LobbyNotReady => "Cannot start camera. Lobby is not ready.",
        }
    }
}

/// The UTF-16 code units of one character: the code point itself below
/// 0x10000, a surrogate pair above.
pub open spec fn utf16_of_char(c: char) -> Seq<u16> {
    let v = c as int;
    if v < 0x10000 {
        seq![v as u16]
    } else {
        let w = v - 0x10000;
        seq![(0xD800 + w / 0x400) as u16, (0xDC00 + w % 0x400) as u16]
    }
}

/// The UTF-16 encoding of a character sequence.
pub open spec fn utf16_units(s: Seq<char>) -> Seq<u16>
    decreases s.len(),
{
    if s.len() == 0 {
        Seq::empty()
    } else {
        utf16_units(s.drop_last()) + utf16_of_char(s.last())
    }
}

fn char_units(c: char, units: &mut Vec<u16>)
    ensures
        final(units)@ == old(units)@ + utf16_of_char(c),
{
    let v: u32 = c as u32;
    if v < 0x10000 {
        units.push(v as u16);
    } else {
        let w: u32 = v - 0x10000;
        assert(w <= 0xFFFFF);
        units.push((0xD800 + w / 0x400) as u16);
        units.push((0xDC00 + w % 0x400) as u16);
    }
}

/// The text as the game's banner takes it: UTF-16 code units ending in a
/// zero unit.
pub fn encode_net_message(text: &str) -> (units: Vec<u16>)
    ensures
        units@ == utf16_units(text@) + seq![0u16],
{
    let mut units: Vec<u16> = Vec::new();
    for c in it: text.chars()
        invariant
            it.seq() == text@,
            units@ == utf16_units(text@.take(it.index() as int)),
    {
        assert(text@.take(it.index() + 1).drop_last() == text@.take(it.index() as int));
        char_units(c, &mut units);
    }
    assert(text@.take(text@.len() as int) == text@);
    units.push(0u16);
    units
}

} // verus!
