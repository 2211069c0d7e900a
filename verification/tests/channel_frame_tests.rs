use rgb_engine::channel::CommandQueue;
use rgb_engine::frame::render_frame;
use rgb_engine::types::{Command, EffectKind, ErrorKind, Rgb};

#[test]
fn queue_delivers_in_send_order() {
    let mut q = CommandQueue::new();
    assert_eq!(q.len(), 0);
    q.send(Command::SetBrightness(1)).unwrap();
    q.send(Command::SetSpeed(2)).unwrap();
    q.send(Command::Shutdown).unwrap();
    assert_eq!(q.len(), 3);
    assert_eq!(q.try_recv(), Some(Command::SetBrightness(1)));
    assert_eq!(q.try_recv(), Some(Command::SetSpeed(2)));
    assert_eq!(q.try_recv(), Some(Command::Shutdown));
    assert_eq!(q.try_recv(), None);
}

#[test]
fn send_after_close_is_channel_closed() {
    let mut q = CommandQueue::new();
    q.send(Command::SaveProfile).unwrap();
    q.close();
    let r = q.send(Command::SetBrightness(1));
    assert_eq!(r.err(), Some(ErrorKind::ChannelClosed));
    // What was pending before the close is still delivered.
    assert_eq!(q.try_recv(), Some(Command::SaveProfile));
    assert_eq!(q.try_recv(), None);
}

fn four_colors() -> Vec<Rgb> {
    vec![
        Rgb { red: 255, green: 200, blue: 0 },
        Rgb { red: 10, green: 20, blue: 30 },
        Rgb { red: 40, green: 50, blue: 60 },
        Rgb { red: 70, green: 80, blue: 90 },
    ]
}

#[test]
fn static_frame_shows_configured_colors() {
    let colors = four_colors();
    let f = render_frame(EffectKind::Static, &colors, 1, 2, 12345);
    assert_eq!(f.brightness, 2);
    assert_eq!(f.colors, colors);
}

#[test]
fn breathing_frame_dims_by_triangle_wave() {
    let colors = four_colors();
    // Step 100 of the 512-step period: intensity 100, so a channel c shows
    // c * 100 / 255.
    let f = render_frame(EffectKind::Breathing, &colors, 1, 1, 100);
    assert_eq!(f.colors[0], Rgb { red: 100, green: 78, blue: 0 });
    // Step 300 is past the crest: intensity 511 - 300 = 211.
    let g = render_frame(EffectKind::Breathing, &colors, 1, 1, 300);
    assert_eq!(g.colors[0], Rgb { red: 211, green: 165, blue: 0 });
    // Speed scales the step: speed 3 at tick 100 is step 300.
    let h = render_frame(EffectKind::Breathing, &colors, 3, 1, 100);
    assert_eq!(h.colors[0], g.colors[0]);
}

#[test]
fn breathing_starts_dark() {
    let colors = four_colors();
    let f = render_frame(EffectKind::Breathing, &colors, 4, 2, 0);
    for c in &f.colors {
        assert_eq!(*c, Rgb { red: 0, green: 0, blue: 0 });
    }
}

#[test]
fn wave_frame_rotates_zones() {
    let colors = four_colors();
    // Step 8 at speed 1: offset 1, so zone i shows color i + 1.
    let f = render_frame(EffectKind::Wave, &colors, 1, 1, 8);
    assert_eq!(f.colors[0], colors[1]);
    assert_eq!(f.colors[1], colors[2]);
    assert_eq!(f.colors[2], colors[3]);
    assert_eq!(f.colors[3], colors[0]);
}

#[test]
fn reactive_frame_rests_dark() {
    let colors = four_colors();
    let f = render_frame(EffectKind::Reactive, &colors, 2, 1, 77);
    assert_eq!(f.colors.len(), 4);
    for c in &f.colors {
        assert_eq!(*c, Rgb { red: 0, green: 0, blue: 0 });
    }
}

#[test]
fn same_snapshot_same_frame() {
    // A frame is a pure function of one configuration snapshot and step.
    let colors = four_colors();
    let a = render_frame(EffectKind::Wave, &colors, 2, 1, 40);
    let b = render_frame(EffectKind::Wave, &colors, 2, 1, 40);
    assert_eq!(a.colors, b.colors);
    assert_eq!(a.brightness, b.brightness);
}
