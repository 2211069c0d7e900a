//! The effect engine: the sole consumer of commands and sole owner of the
//! device handle. It keeps its configuration clamped to the device's
//! advertised ranges, renders frames only from a committed snapshot, drains
//! an in-flight frame write before applying anything new, and honors
//! cooperative stop requests with an acknowledgement only from the idle
//! state.

use vstd::prelude::*;
use crate::types::{clamp_level, clamp_spec, Capabilities, Command, EffectKind, ErrorKind, Rgb};
use crate::frame::{frame_colors_spec, render_frame, Frame, TICK_LIMIT};
use crate::stop::StopFlag;

verus! {

/// The engine's configuration: everything a frame is computed from, and
/// everything a profile persists.
pub struct EngineState {
    pub effect: EffectKind,
    pub brightness: u8,
    pub speed: u8,
    pub zone_colors: Vec<Rgb>,
}

/// Deep equality of two configurations (the color tables by contents).
pub open spec fn state_eq(a: EngineState, b: EngineState) -> bool {
    &&& a.effect == b.effect
    &&& a.brightness == b.brightness
    &&& a.speed == b.speed
    &&& a.zone_colors@ == b.zone_colors@
}

impl EngineState {
    /// A configuration valid for a device: levels inside the advertised
    /// ranges and one color per advertised zone.
    pub open spec fn fits(self, caps: Capabilities) -> bool {
        &&& caps.brightness_min <= self.brightness <= caps.brightness_max
        &&& caps.speed_min <= self.speed <= caps.speed_max
        &&& self.zone_colors@.len() == caps.zone_count
    }
}

/// Where the engine stands in its run loop.
#[derive(Clone, Copy, PartialEq, Eq, Structural, Debug)]
pub enum Status {
    /// No animation; the device holds the last written frame.
    Idle,
    /// Computing and writing frames of this effect on the speed cadence.
    Running(EffectKind),
    /// A frame write of this effect is in flight; nothing mutates the
    /// configuration until the write completes (hardware writes are never
    /// torn).
    Draining(EffectKind),
    /// Shutdown received: the engine consumes no more commands.
    Terminated,
}

/// What the run loop (which owns the device and talks to the profile store)
/// must do after a command was applied.
#[derive(Clone, Copy, PartialEq, Eq, Structural, Debug)]
pub enum Action {
    Nothing,
    /// Hand a snapshot of the configuration to the profile store.
    Persist,
    /// Ask the profile store for a saved configuration and adopt it; the
    /// flag is the overwrite choice the front-end made.
    Restore(bool),
    /// Release the device handle and exit the run loop.
    Terminate,
}

/// Where the engine's status lands when it observes a raised stop flag:
/// idle, from every state but the terminal one.
pub open spec fn stop_target(st: Status) -> Status {
    if st is Terminated {
        Status::Terminated
    } else {
        Status::Idle
    }
}

/// The effect engine.
pub struct Engine {
    pub caps: Capabilities,
    pub state: EngineState,
    pub status: Status,
    /// The animation step; resets to zero on every entry into `Running`.
    pub ticks: u64,
    /// The most recent non-fatal failure, until the front-end collects it.
    pub last_error: Option<ErrorKind>,
}

impl Engine {
    /// The engine's invariant: a usable device, a configuration that fits
    /// it, a bounded animation step, and a status that names the current
    /// effect whenever an animation is active.
    pub open spec fn wf(self) -> bool {
        &&& self.caps.wf()
        &&& self.state.fits(self.caps)
        &&& self.ticks < TICK_LIMIT
        &&& (self.status matches Status::Running(k) ==> k == self.state.effect)
        &&& (self.status matches Status::Draining(k) ==> k == self.state.effect)
    }

    /// Bring the engine up from what the device advertised at startup.
    /// Returns the fatal `DeviceUnavailable` if, and only if, there is no
    /// device or its advertised ranges are unusable. The initial
    /// configuration is a static white frame at full brightness and the
    /// slowest speed.
    pub fn start(advertised: Option<Capabilities>) -> (r: Result<Engine, ErrorKind>)
        ensures
            match r {
                Ok(e) => {
                    &&& advertised matches Some(c) && c.wf() && e.caps == c
                    &&& e.wf()
                    &&& e.status == Status::Idle
                    &&& e.ticks == 0
                    &&& e.last_error is None
                    &&& e.state.effect == EffectKind::Static
                    &&& e.state.brightness == e.caps.brightness_max
                    &&& e.state.speed == e.caps.speed_min
                    &&& forall|i: int|
                        0 <= i < e.state.zone_colors@.len() ==> e.state.zone_colors@[i] == (Rgb {
                            red: 255u8,
                            green: 255u8,
                            blue: 255u8,
                        })
                },
                Err(k) => {
                    &&& k == ErrorKind::DeviceUnavailable
                    &&& match advertised {
                        Some(c) => !c.wf(),
                        None => true,
                    }
                },
            },
    {
        match advertised {
            None => Err(ErrorKind::DeviceUnavailable),
            Some(caps) => {
                if caps.brightness_min <= caps.brightness_max && caps.speed_min <= caps.speed_max
                    && caps.zone_count >= 1 {
                    let mut colors: Vec<Rgb> = Vec::new();
                    let n = caps.zone_count as usize;
                    for i in 0..n
                        invariant
                            colors@.len() == i,
                            forall|j: int|
                                0 <= j < i ==> colors@[j] == (Rgb {
                                    red: 255u8,
                                    green: 255u8,
                                    blue: 255u8,
                                }),
                    {
                        colors.push(Rgb { red: 255, green: 255, blue: 255 });
                    }
                    Ok(
                        Engine {
                            caps,
                            state: EngineState {
                                effect: EffectKind::Static,
                                brightness: caps.brightness_max,
                                speed: caps.speed_min,
                                zone_colors: colors,
                            },
                            status: Status::Idle,
                            ticks: 0,
                            last_error: None,
                        },
                    )
                } else {
                    Err(ErrorKind::DeviceUnavailable)
                }
            },
        }
    }

    /// Apply one command at a safe point (no frame write in flight, not
    /// terminated). Levels land clamped inside the advertised ranges, never
    /// rejected; a new effect enters `Running` with the animation phase
    /// reset to zero; level and color changes touch nothing else, so an
    /// active animation keeps its phase.
    pub fn apply_command(&mut self, cmd: Command) -> (act: Action)
        requires
            old(self).wf(),
            !(old(self).status is Draining),
            !(old(self).status is Terminated),
        ensures
            final(self).wf(),
            final(self).caps == old(self).caps,
            final(self).caps.brightness_min <= final(self).state.brightness
                <= final(self).caps.brightness_max,
            final(self).caps.speed_min <= final(self).state.speed <= final(self).caps.speed_max,
            final(self).last_error == old(self).last_error,
            match cmd {
                Command::SetBrightness(v) => {
                    &&& final(self).state.brightness == clamp_spec(
                        v,
                        old(self).caps.brightness_min,
                        old(self).caps.brightness_max,
                    )
                    &&& final(self).state.effect == old(self).state.effect
                    &&& final(self).state.speed == old(self).state.speed
                    &&& final(self).state.zone_colors@ == old(self).state.zone_colors@
                    &&& final(self).status == old(self).status
                    &&& final(self).ticks == old(self).ticks
                    &&& act == Action::Nothing
                },
                Command::SetSpeed(v) => {
                    &&& final(self).state.speed == clamp_spec(
                        v,
                        old(self).caps.speed_min,
                        old(self).caps.speed_max,
                    )
                    &&& final(self).state.effect == old(self).state.effect
                    &&& final(self).state.brightness == old(self).state.brightness
                    &&& final(self).state.zone_colors@ == old(self).state.zone_colors@
                    &&& final(self).status == old(self).status
                    &&& final(self).ticks == old(self).ticks
                    &&& act == Action::Nothing
                },
                Command::SetEffect(k) => {
                    &&& final(self).state.effect == k
                    &&& final(self).state.brightness == old(self).state.brightness
                    &&& final(self).state.speed == old(self).state.speed
                    &&& final(self).state.zone_colors@ == old(self).state.zone_colors@
                    &&& final(self).status == Status::Running(k)
                    &&& final(self).ticks == 0
                    &&& act == Action::Nothing
                },
                Command::SetColor(z, c) => {
                    &&& (z < old(self).caps.zone_count ==> final(self).state.zone_colors@
                        == old(self).state.zone_colors@.update(z as int, c))
                    &&& (z >= old(self).caps.zone_count ==> final(self).state.zone_colors@
                        == old(self).state.zone_colors@)
                    &&& final(self).state.effect == old(self).state.effect
                    &&& final(self).state.brightness == old(self).state.brightness
                    &&& final(self).state.speed == old(self).state.speed
                    &&& final(self).status == old(self).status
                    &&& final(self).ticks == old(self).ticks
                    &&& act == Action::Nothing
                },
                Command::SaveProfile => {
                    &&& state_eq(final(self).state, old(self).state)
                    &&& final(self).status == old(self).status
                    &&& final(self).ticks == old(self).ticks
                    &&& act == Action::Persist
                },
                Command::LoadProfile(ow) => {
                    &&& state_eq(final(self).state, old(self).state)
                    &&& final(self).status == old(self).status
                    &&& final(self).ticks == old(self).ticks
                    &&& act == Action::Restore(ow)
                },
                Command::Shutdown => {
                    &&& state_eq(final(self).state, old(self).state)
                    &&& final(self).status == Status::Terminated
                    &&& final(self).ticks == old(self).ticks
                    &&& act == Action::Terminate
                },
            },
    {
        match cmd {
            Command::SetBrightness(v) => {
                self.state.brightness = clamp_level(
                    v,
                    self.caps.brightness_min,
                    self.caps.brightness_max,
                );
                Action::Nothing
            },
            Command::SetSpeed(v) => {
                self.state.speed = clamp_level(v, self.caps.speed_min, self.caps.speed_max);
                Action::Nothing
            },
            Command::SetEffect(k) => {
                self.state.effect = k;
                self.status = Status::Running(k);
                self.ticks = 0;
                Action::Nothing
            },
            Command::SetColor(z, c) => {
                if z < self.caps.zone_count {
                    self.state.zone_colors[z as usize] = c;
                }
                Action::Nothing
            },
            Command::SaveProfile => Action::Persist,
            Command::LoadProfile(ow) => Action::Restore(ow),
            Command::Shutdown => {
                self.status = Status::Terminated;
                Action::Terminate
            },
        }
    }

    /// Poll the stop flag at a safe point. A raised flag is acknowledged
    /// here and only here: the animation is already unwound (no write in
    /// flight), the engine goes idle, and the flag comes down. An unraised
    /// flag changes nothing. The configuration survives either way, so the
    /// profile store always sees a consistent snapshot afterward.
    pub fn observe_stop(&mut self, stop: &mut StopFlag)
        requires
            old(self).wf(),
            !(old(self).status is Draining),
        ensures
            final(self).wf(),
            final(self).caps == old(self).caps,
            state_eq(final(self).state, old(self).state),
            final(self).ticks == old(self).ticks,
            final(self).last_error == old(self).last_error,
            old(stop).is_raised() ==> {
                &&& !final(stop).is_raised()
                &&& final(self).status == stop_target(old(self).status)
            },
            !old(stop).is_raised() ==> {
                &&& final(self).status == old(self).status
                &&& *final(stop) == *old(stop)
            },
    {
        if stop.should_stop() {
            match self.status {
                Status::Terminated => {},
                _ => {
                    self.status = Status::Idle;
                },
            }
            stop.acknowledge_stop();
        }
    }

    /// Render the next frame of the running effect from the committed
    /// configuration, and enter the draining phase: until the run loop
    /// reports the write finished, no command and no stop observation can
    /// touch the state the frame was derived from.
    pub fn begin_frame(&mut self) -> (f: Frame)
        requires
            old(self).wf(),
            old(self).status is Running,
        ensures
            final(self).wf(),
            final(self).caps == old(self).caps,
            state_eq(final(self).state, old(self).state),
            final(self).ticks == old(self).ticks,
            final(self).last_error == old(self).last_error,
            final(self).status == Status::Draining(old(self).state.effect),
            f.colors@ == frame_colors_spec(
                old(self).state.effect,
                old(self).state.zone_colors@,
                old(self).state.speed,
                old(self).ticks,
            ),
            f.brightness == old(self).state.brightness,
    {
        let f = render_frame(
            self.state.effect,
            &self.state.zone_colors,
            self.state.speed,
            self.state.brightness,
            self.ticks,
        );
        self.status = Status::Draining(self.state.effect);
        f
    }

    /// The run loop reports how the in-flight frame write ended. On success
    /// the animation step advances (wrapping at its bound) and the effect
    /// keeps running. On failure the engine goes idle, records the
    /// non-fatal `DeviceWriteFailure` for the front-end, keeps its
    /// configuration, and keeps consuming commands.
    pub fn finish_frame(&mut self, wrote: bool)
        requires
            old(self).wf(),
            old(self).status is Draining,
        ensures
            final(self).wf(),
            final(self).caps == old(self).caps,
            state_eq(final(self).state, old(self).state),
            wrote ==> {
                &&& final(self).status == Status::Running(old(self).state.effect)
                &&& final(self).ticks == (if old(self).ticks + 1 < TICK_LIMIT {
                    old(self).ticks + 1
                } else {
                    0
                })
                &&& final(self).last_error == old(self).last_error
            },
            !wrote ==> {
                &&& final(self).status == Status::Idle
                &&& final(self).ticks == old(self).ticks
                &&& final(self).last_error == Some(ErrorKind::DeviceWriteFailure)
            },
    {
        if wrote {
            self.status = Status::Running(self.state.effect);
            if self.ticks + 1 < TICK_LIMIT {
                self.ticks = self.ticks + 1;
            } else {
                self.ticks = 0;
            }
        } else {
            self.status = Status::Idle;
            self.last_error = Some(ErrorKind::DeviceWriteFailure);
        }
    }

    /// Adopt a configuration the profile store handed back. Levels are
    /// clamped into this device's ranges; the animation does not restart by
    /// itself (the front-end re-sends the effect it wants). A table that
    /// does not fit the device is rejected as `IoError` and, if and only if
    /// so, the in-memory configuration is left untouched.
    pub fn adopt_state(&mut self, loaded: EngineState) -> (r: Result<(), ErrorKind>)
        requires
            old(self).wf(),
            !(old(self).status is Draining),
            !(old(self).status is Terminated),
        ensures
            final(self).wf(),
            final(self).caps == old(self).caps,
            loaded.zone_colors@.len() == old(self).caps.zone_count ==> {
                &&& r == Result::<(), ErrorKind>::Ok(())
                &&& final(self).state.effect == loaded.effect
                &&& final(self).state.brightness == clamp_spec(
                    loaded.brightness,
                    old(self).caps.brightness_min,
                    old(self).caps.brightness_max,
                )
                &&& final(self).state.speed == clamp_spec(
                    loaded.speed,
                    old(self).caps.speed_min,
                    old(self).caps.speed_max,
                )
                &&& final(self).state.zone_colors@ == loaded.zone_colors@
                &&& final(self).status == Status::Idle
                &&& final(self).ticks == 0
            },
            loaded.zone_colors@.len() != old(self).caps.zone_count ==> {
                &&& r == Result::<(), ErrorKind>::Err(ErrorKind::IoError)
                &&& state_eq(final(self).state, old(self).state)
                &&& final(self).status == old(self).status
                &&& final(self).ticks == old(self).ticks
            },
            final(self).last_error == old(self).last_error,
    {
        if loaded.zone_colors.len() == self.caps.zone_count as usize {
            let brightness = clamp_level(
                loaded.brightness,
                self.caps.brightness_min,
                self.caps.brightness_max,
            );
            let speed = clamp_level(loaded.speed, self.caps.speed_min, self.caps.speed_max);
            self.state = EngineState {
                effect: loaded.effect,
                brightness,
                speed,
                zone_colors: loaded.zone_colors,
            };
            self.status = Status::Idle;
            self.ticks = 0;
            Ok(())
        } else {
            Err(ErrorKind::IoError)
        }
    }

    /// Hand out a deep copy of the configuration, for the profile store.
    pub fn snapshot(&self) -> (s: EngineState)
        ensures
            state_eq(s, self.state),
    {
        let mut colors: Vec<Rgb> = Vec::new();
        let n = self.state.zone_colors.len();
        for i in 0..n
            invariant
                n == self.state.zone_colors@.len(),
                colors@.len() == i,
                forall|j: int| 0 <= j < i ==> colors@[j] == self.state.zone_colors@[j],
        {
            colors.push(self.state.zone_colors[i]);
        }
        assert(colors@ =~= self.state.zone_colors@);
        EngineState {
            effect: self.state.effect,
            brightness: self.state.brightness,
            speed: self.state.speed,
            zone_colors: colors,
        }
    }

    /// Give the front-end the most recent non-fatal failure, clearing it.
    pub fn take_error(&mut self) -> (r: Option<ErrorKind>)
        ensures
            r == old(self).last_error,
            final(self).last_error is None,
            final(self).caps == old(self).caps,
            state_eq(final(self).state, old(self).state),
            final(self).status == old(self).status,
            final(self).ticks == old(self).ticks,
    {
        let r = self.last_error;
        self.last_error = None;
        r
    }
}

/// No torn frame: a frame is a pure function of one committed configuration
/// and one animation step. Two engines that agree on those produce the same
/// frame, so the device can never observe a write mixing two states.
pub proof fn lemma_frame_from_one_snapshot(a: Engine, b: Engine)
    requires
        state_eq(a.state, b.state),
        a.ticks == b.ticks,
    ensures
        frame_colors_spec(a.state.effect, a.state.zone_colors@, a.state.speed, a.ticks)
            == frame_colors_spec(b.state.effect, b.state.zone_colors@, b.state.speed, b.ticks),
{
}

/// Stop requests cannot hang: one observation of a raised flag at a safe
/// point acknowledges it, and from every non-terminal status the engine
/// stands idle at that acknowledgement. Awaiting the acknowledgement
/// therefore returns after at most the one in-flight frame write.
pub proof fn lemma_stop_reaches_idle(st: Status)
    requires
        !(st is Terminated),
    ensures
        stop_target(st) == Status::Idle,
{
}

} // verus!
