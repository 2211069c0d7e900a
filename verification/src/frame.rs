//! Frame rendering: each animated effect computes its next frame as a pure
//! function of the engine's configuration and an animation tick, so a frame
//! is always fully derived from one committed state snapshot.

use vstd::prelude::*;
use crate::types::{EffectKind, Rgb};

verus! {

/// One complete device update: a color per zone plus a global brightness
/// level, written to the hardware in a single update.
pub struct Frame {
    pub colors: Vec<Rgb>,
    pub brightness: u8,
}

/// Animation ticks wrap below this bound, so a tick scaled by any speed
/// level stays far from 64-bit overflow.
pub const TICK_LIMIT: u64 = 4294967296;

/// The breathing triangle wave: intensity climbs 0..=255 and falls back,
/// over a 512-step period.
pub open spec fn breathing_intensity_spec(step: int) -> u8 {
    let phase = step % 512;
    if phase < 256 {
        phase as u8
    } else {
        (511 - phase) as u8
    }
}

/// A channel dimmed to an intensity: full intensity (255) keeps the channel,
/// zero intensity extinguishes it.
pub open spec fn scale_channel_spec(c: u8, intensity: u8) -> u8 {
    ((c * intensity) / 255) as u8
}

/// A whole color dimmed to an intensity.
pub open spec fn dim_spec(c: Rgb, intensity: u8) -> Rgb {
    Rgb {
        red: scale_channel_spec(c.red, intensity),
        green: scale_channel_spec(c.green, intensity),
        blue: scale_channel_spec(c.blue, intensity),
    }
}

/// The color zone `i` shows at animation step `ticks` with the given speed:
/// - Static holds each zone's configured color;
/// - Breathing dims every zone by the triangle wave of the scaled tick;
/// - Wave rotates the zone table by the scaled tick;
/// - Reactive rests dark until keypresses light zones (key events are the
///   device's side; the resting frame is all zones off).
pub open spec fn zone_color_spec(
    effect: EffectKind,
    colors: Seq<Rgb>,
    speed: u8,
    ticks: u64,
    i: int,
) -> Rgb
    recommends
        colors.len() >= 1,
        0 <= i < colors.len(),
{
    match effect {
        EffectKind::Static => colors[i],
        EffectKind::Breathing => dim_spec(colors[i], breathing_intensity_spec(ticks * speed)),
        EffectKind::Wave => {
            let len = colors.len() as int;
            colors[(i + ((ticks * speed / 8) % len)) % len]
        },
        EffectKind::Reactive => Rgb { red: 0, green: 0, blue: 0 },
    }
}

/// The full frame at animation step `ticks`: one color per configured zone.
pub open spec fn frame_colors_spec(
    effect: EffectKind,
    colors: Seq<Rgb>,
    speed: u8,
    ticks: u64,
) -> Seq<Rgb> {
    Seq::new(colors.len(), |i: int| zone_color_spec(effect, colors, speed, ticks, i))
}

/// Dim one channel. The result stays a byte: the scaled product is at most
/// 255 * 255, so the quotient is at most 255.
fn scale_channel(c: u8, intensity: u8) -> (r: u8)
    ensures
        r == scale_channel_spec(c, intensity),
{
    proof {
        assert(c as int * intensity as int <= 65025) by (nonlinear_arith)
            requires
                c <= 255,
                intensity <= 255,
        ;
    }
    let wide: u32 = (c as u32) * (intensity as u32);
    (wide / 255) as u8
}

/// The breathing intensity at a scaled animation step.
fn breathing_intensity(step: u64) -> (r: u8)
    ensures
        r == breathing_intensity_spec(step as int),
{
    let phase: u64 = step % 512;
    if phase < 256 {
        phase as u8
    } else {
        (511 - phase) as u8
    }
}

/// Compute the color one zone shows at the given animation step.
fn zone_color(effect: EffectKind, colors: &Vec<Rgb>, speed: u8, ticks: u64, i: usize) -> (c: Rgb)
    requires
        1 <= colors@.len() <= 255,
        i < colors@.len(),
        ticks < TICK_LIMIT,
    ensures
        c == zone_color_spec(effect, colors@, speed, ticks, i as int),
{
    let step: u64 = scaled_step(ticks, speed);
    match effect {
        EffectKind::Static => colors[i],
        EffectKind::Breathing => {
            let intensity = breathing_intensity(step);
            let base = colors[i];
            Rgb {
                red: scale_channel(base.red, intensity),
                green: scale_channel(base.green, intensity),
                blue: scale_channel(base.blue, intensity),
            }
        },
        EffectKind::Wave => {
            let len: u64 = colors.len() as u64;
            let offset: u64 = (step / 8) % len;
            let idx: u64 = ((i as u64) + offset) % len;
            assert(idx < len);
            colors[idx as usize]
        },
        EffectKind::Reactive => Rgb { red: 0, green: 0, blue: 0 },
    }
}

/// A tick scaled by the speed level; bounded ticks keep this far from
/// overflow.
fn scaled_step(ticks: u64, speed: u8) -> (r: u64)
    requires
        ticks < TICK_LIMIT,
    ensures
        r == ticks * speed,
{
    assert(ticks * speed <= (TICK_LIMIT - 1) * 255) by (nonlinear_arith)
        requires
            ticks <= TICK_LIMIT - 1,
            speed <= 255,
    ;
    ticks * (speed as u64)
}

/// Render the frame a running effect writes at animation step `ticks`. The
/// result is fully determined by the arguments: restarting at the same step
/// with the same configuration reproduces the same frame.
pub fn render_frame(
    effect: EffectKind,
    colors: &Vec<Rgb>,
    speed: u8,
    brightness: u8,
    ticks: u64,
) -> (f: Frame)
    requires
        1 <= colors@.len() <= 255,
        ticks < TICK_LIMIT,
    ensures
        f.colors@ == frame_colors_spec(effect, colors@, speed, ticks),
        f.brightness == brightness,
        f.colors@.len() == colors@.len(),
{
    let mut out: Vec<Rgb> = Vec::new();
    let n = colors.len();
    for i in 0..n
        invariant
            n == colors@.len(),
            1 <= colors@.len() <= 255,
            ticks < TICK_LIMIT,
            out@.len() == i,
            forall|j: int|
                0 <= j < i ==> out@[j] == zone_color_spec(effect, colors@, speed, ticks, j),
    {
        let c = zone_color(effect, colors, speed, ticks, i);
        out.push(c);
    }
    assert(out@ =~= frame_colors_spec(effect, colors@, speed, ticks));
    Frame { colors: out, brightness }
}

} // verus!
