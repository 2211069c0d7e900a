//! Plain data carried between the front-end, the engine and the device:
//! colors, effect kinds, commands, device capabilities and error kinds.

use vstd::prelude::*;

verus! {

/// One zone's color, as the device takes it: one byte per channel.
#[derive(Clone, Copy, PartialEq, Eq, Structural, Debug)]
pub struct Rgb {
    pub red: u8,
    pub green: u8,
    pub blue: u8,
}

/// The supported lighting animations. Each is rendered as a pure function of
/// the engine's configuration and an animation tick.
#[derive(Clone, Copy, PartialEq, Eq, Structural, Debug)]
pub enum EffectKind {
    Static,
    Breathing,
    Wave,
    Reactive,
}

/// A user intent, produced by any front-end (menu, tray, CLI) and consumed
/// exactly once by the effect engine.
#[derive(Clone, Copy, PartialEq, Eq, Structural, Debug)]
pub enum Command {
    SetBrightness(u8),
    SetSpeed(u8),
    SetEffect(EffectKind),
    /// Recolor one zone: index into the zone table, then the new color.
    SetColor(u8, Rgb),
    SaveProfile,
    LoadProfile(bool),
    Shutdown,
}

/// The non-fatal and fatal failures the core distinguishes.
#[derive(Clone, Copy, PartialEq, Eq, Structural, Debug)]
pub enum ErrorKind {
    /// The consumer is gone; producers tolerate this silently.
    ChannelClosed,
    /// A frame write failed; the engine goes idle and keeps consuming.
    DeviceWriteFailure,
    /// No usable device at startup; fatal.
    DeviceUnavailable,
    /// Profile bytes could not be read back as a valid state.
    IoError,
}

/// What the device advertises at startup: the valid brightness and speed
/// ranges and how many addressable zones it has.
#[derive(Clone, Copy, PartialEq, Eq, Structural, Debug)]
pub struct Capabilities {
    pub brightness_min: u8,
    pub brightness_max: u8,
    pub speed_min: u8,
    pub speed_max: u8,
    pub zone_count: u8,
}

impl Capabilities {
    /// A usable device: non-empty ranges and at least one zone.
    pub open spec fn wf(self) -> bool {
        &&& self.brightness_min <= self.brightness_max
        &&& self.speed_min <= self.speed_max
        &&& self.zone_count >= 1
    }

    /// The ranges of the four-zone keyboard this was written for:
    /// brightness 1..=2, speed 1..=4.
    pub fn four_zone_defaults() -> (c: Capabilities)
        ensures
            c.wf(),
            c == (Capabilities {
                brightness_min: 1u8,
                brightness_max: 2u8,
                speed_min: 1u8,
                speed_max: 4u8,
                zone_count: 4u8,
            }),
    {
        Capabilities { brightness_min: 1, brightness_max: 2, speed_min: 1, speed_max: 4, zone_count: 4 }
    }
}

/// What a level settles to against a device range: out-of-range input is
/// pulled to the nearest bound, never rejected.
pub open spec fn clamp_spec(v: u8, lo: u8, hi: u8) -> u8 {
    if v < lo {
        lo
    } else if v > hi {
        hi
    } else {
        v
    }
}

/// Clamp a requested level into the device's advertised range.
pub fn clamp_level(v: u8, lo: u8, hi: u8) -> (r: u8)
    requires
        lo <= hi,
    ensures
        r == clamp_spec(v, lo, hi),
        lo <= r <= hi,
        lo <= v <= hi ==> r == v,
{
    if v < lo {
        lo
    } else if v > hi {
        hi
    } else {
        v
    }
}

/// Clamping law: whatever level a command carries, the stored level lands in
/// the device's advertised range, and an in-range level is kept as sent.
pub proof fn lemma_clamp_in_range(v: u8, lo: u8, hi: u8)
    requires
        lo <= hi,
    ensures
        lo <= clamp_spec(v, lo, hi) <= hi,
        lo <= v <= hi ==> clamp_spec(v, lo, hi) == v,
{
}

} // verus!
