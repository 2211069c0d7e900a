use rgb_engine::engine::{Action, Engine, EngineState, Status};
use rgb_engine::stop::StopFlag;
use rgb_engine::types::{Capabilities, Command, EffectKind, ErrorKind, Rgb};

fn running_engine(effect: EffectKind) -> Engine {
    let caps = Capabilities::four_zone_defaults();
    let mut e = Engine::start(Some(caps)).unwrap();
    let act = e.apply_command(Command::SetEffect(effect));
    assert_eq!(act, Action::Nothing);
    e
}

#[test]
fn startup_without_device_is_fatal() {
    let r = Engine::start(None);
    assert_eq!(r.err(), Some(ErrorKind::DeviceUnavailable));
}

#[test]
fn startup_with_unusable_ranges_is_fatal() {
    let caps = Capabilities {
        brightness_min: 2,
        brightness_max: 1,
        speed_min: 1,
        speed_max: 4,
        zone_count: 4,
    };
    let r = Engine::start(Some(caps));
    assert_eq!(r.err(), Some(ErrorKind::DeviceUnavailable));
}

#[test]
fn startup_defaults_are_in_range() {
    let e = Engine::start(Some(Capabilities::four_zone_defaults())).unwrap();
    assert_eq!(e.status, Status::Idle);
    assert_eq!(e.state.brightness, 2);
    assert_eq!(e.state.speed, 1);
    assert_eq!(e.state.zone_colors.len(), 4);
    for c in &e.state.zone_colors {
        assert_eq!(*c, Rgb { red: 255, green: 255, blue: 255 });
    }
}

#[test]
fn brightness_and_speed_are_clamped() {
    let mut e = Engine::start(Some(Capabilities::four_zone_defaults())).unwrap();
    e.apply_command(Command::SetBrightness(0));
    assert_eq!(e.state.brightness, 1);
    e.apply_command(Command::SetBrightness(200));
    assert_eq!(e.state.brightness, 2);
    e.apply_command(Command::SetBrightness(2));
    assert_eq!(e.state.brightness, 2);
    e.apply_command(Command::SetSpeed(0));
    assert_eq!(e.state.speed, 1);
    e.apply_command(Command::SetSpeed(9));
    assert_eq!(e.state.speed, 4);
    e.apply_command(Command::SetSpeed(3));
    assert_eq!(e.state.speed, 3);
}

#[test]
fn set_color_updates_one_zone_and_ignores_bad_index() {
    let mut e = Engine::start(Some(Capabilities::four_zone_defaults())).unwrap();
    let teal = Rgb { red: 0, green: 128, blue: 128 };
    e.apply_command(Command::SetColor(2, teal));
    assert_eq!(e.state.zone_colors[2], teal);
    assert_eq!(e.state.zone_colors[0], Rgb { red: 255, green: 255, blue: 255 });
    e.apply_command(Command::SetColor(9, Rgb { red: 1, green: 2, blue: 3 }));
    assert_eq!(e.state.zone_colors.len(), 4);
    for i in [0usize, 1, 3] {
        assert_eq!(e.state.zone_colors[i], Rgb { red: 255, green: 255, blue: 255 });
    }
}

#[test]
fn brightness_during_breathing_keeps_phase() {
    // Send SetEffect(Breathing), finish one frame, then SetBrightness(5):
    // the engine applies the clamped brightness and continues Breathing at
    // the same phase instead of restarting it.
    let mut e = running_engine(EffectKind::Breathing);
    assert_eq!(e.status, Status::Running(EffectKind::Breathing));
    assert_eq!(e.ticks, 0);
    let _frame = e.begin_frame();
    assert_eq!(e.status, Status::Draining(EffectKind::Breathing));
    e.finish_frame(true);
    assert_eq!(e.ticks, 1);
    e.apply_command(Command::SetBrightness(5));
    assert_eq!(e.state.brightness, 2);
    assert_eq!(e.status, Status::Running(EffectKind::Breathing));
    assert_eq!(e.ticks, 1);
}

#[test]
fn save_while_running_wave_stops_first() {
    // SaveProfile while Running(Wave): the front-end raises the stop flag,
    // the engine acknowledges from idle, the store sees a consistent
    // snapshot, and Wave resumes only on an explicit new SetEffect.
    let mut e = running_engine(EffectKind::Wave);
    let mut flag = StopFlag::new();
    flag.request_stop();
    e.observe_stop(&mut flag);
    assert_eq!(e.status, Status::Idle);
    assert!(!flag.should_stop());
    let snap = e.snapshot();
    assert_eq!(snap.effect, EffectKind::Wave);
    assert_eq!(snap.zone_colors, e.state.zone_colors);
    let act = e.apply_command(Command::SaveProfile);
    assert_eq!(act, Action::Persist);
    assert_eq!(e.status, Status::Idle);
    e.apply_command(Command::SetEffect(EffectKind::Wave));
    assert_eq!(e.status, Status::Running(EffectKind::Wave));
}

#[test]
fn write_failure_goes_idle_and_keeps_consuming() {
    // A device write failure mid-Running: the engine goes idle, reports the
    // error, and later commands are still accepted.
    let mut e = running_engine(EffectKind::Static);
    let _frame = e.begin_frame();
    e.finish_frame(false);
    assert_eq!(e.status, Status::Idle);
    assert_eq!(e.take_error(), Some(ErrorKind::DeviceWriteFailure));
    assert_eq!(e.take_error(), None);
    e.apply_command(Command::SetBrightness(1));
    assert_eq!(e.state.brightness, 1);
    e.apply_command(Command::SetEffect(EffectKind::Breathing));
    assert_eq!(e.status, Status::Running(EffectKind::Breathing));
}

#[test]
fn stop_request_is_acknowledged_from_idle() {
    // request_stop then the engine's next safe-point observation: the flag
    // comes down in that one observation and the engine stands idle.
    let mut e = Engine::start(Some(Capabilities::four_zone_defaults())).unwrap();
    let mut flag = StopFlag::new();
    flag.request_stop();
    assert!(flag.should_stop());
    e.observe_stop(&mut flag);
    assert_eq!(e.status, Status::Idle);
    assert!(!flag.should_stop());
}

#[test]
fn double_stop_request_equals_single() {
    // Idempotence: raising the flag twice before the acknowledgement leaves
    // the system exactly as one raise does.
    let mut once = StopFlag::new();
    once.request_stop();
    let mut twice = StopFlag::new();
    twice.request_stop();
    twice.request_stop();
    assert_eq!(once.should_stop(), twice.should_stop());
    let mut e1 = running_engine(EffectKind::Wave);
    let mut e2 = running_engine(EffectKind::Wave);
    e1.observe_stop(&mut once);
    e2.observe_stop(&mut twice);
    assert_eq!(e1.status, e2.status);
    assert_eq!(once.should_stop(), twice.should_stop());
}

#[test]
fn unraised_flag_changes_nothing() {
    let mut e = running_engine(EffectKind::Breathing);
    let mut flag = StopFlag::new();
    e.observe_stop(&mut flag);
    assert_eq!(e.status, Status::Running(EffectKind::Breathing));
    assert!(!flag.should_stop());
}

#[test]
fn shutdown_terminates() {
    let mut e = Engine::start(Some(Capabilities::four_zone_defaults())).unwrap();
    let act = e.apply_command(Command::Shutdown);
    assert_eq!(act, Action::Terminate);
    assert_eq!(e.status, Status::Terminated);
}

#[test]
fn load_command_yields_restore_action() {
    let mut e = Engine::start(Some(Capabilities::four_zone_defaults())).unwrap();
    let act = e.apply_command(Command::LoadProfile(true));
    assert_eq!(act, Action::Restore(true));
}

#[test]
fn adopt_state_clamps_levels() {
    let mut e = Engine::start(Some(Capabilities::four_zone_defaults())).unwrap();
    let loaded = EngineState {
        effect: EffectKind::Wave,
        brightness: 77,
        speed: 0,
        zone_colors: vec![
            Rgb { red: 1, green: 2, blue: 3 },
            Rgb { red: 4, green: 5, blue: 6 },
            Rgb { red: 7, green: 8, blue: 9 },
            Rgb { red: 10, green: 11, blue: 12 },
        ],
    };
    assert!(e.adopt_state(loaded).is_ok());
    assert_eq!(e.state.effect, EffectKind::Wave);
    assert_eq!(e.state.brightness, 2);
    assert_eq!(e.state.speed, 1);
    assert_eq!(e.state.zone_colors[3], Rgb { red: 10, green: 11, blue: 12 });
    assert_eq!(e.status, Status::Idle);
}

#[test]
fn adopt_state_with_wrong_table_preserves_state() {
    let mut e = Engine::start(Some(Capabilities::four_zone_defaults())).unwrap();
    e.apply_command(Command::SetBrightness(1));
    let loaded = EngineState {
        effect: EffectKind::Wave,
        brightness: 2,
        speed: 2,
        zone_colors: vec![Rgb { red: 1, green: 2, blue: 3 }],
    };
    let r = e.adopt_state(loaded);
    assert_eq!(r.err(), Some(ErrorKind::IoError));
    assert_eq!(e.state.effect, EffectKind::Static);
    assert_eq!(e.state.brightness, 1);
    assert_eq!(e.state.zone_colors.len(), 4);
}
