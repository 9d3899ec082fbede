use sarcast::PlaybackInstructions;
use sarcast::byte_source::BytesWrapper;
use sarcast::render::{RenderAction, Transport, render_step, REAL_TIME_SPEED};

fn fresh_byte_source() -> BytesWrapper {
    let (_tx, rx) = tokio::sync::mpsc::channel::<bytes::Bytes>(1);
    BytesWrapper::new(rx)
}

#[test]
fn transport_starts_playing_at_real_time() {
    let t = Transport::new();
    assert!(!t.stream_active);
    assert!(t.playing);
    assert_eq!(t.speed, REAL_TIME_SPEED);
}

#[test]
fn instructions_apply_in_send_order() {
    // The transport after a replay reflects the last applicable play/pause and
    // the last applicable speed, in send order.
    let t0 = Transport::new();
    let (t1, _) = render_step(&t0, PlaybackInstructions::Play);
    let (t2, _) = render_step(&t1, PlaybackInstructions::Speed(1500));
    let (t3, _) = render_step(&t2, PlaybackInstructions::Pause);
    let (t4, _) = render_step(&t3, PlaybackInstructions::Speed(2000));
    let (t5, _) = render_step(&t4, PlaybackInstructions::Seek(42));
    assert!(!t5.playing);
    assert_eq!(t5.speed, 2000);
}

#[test]
fn new_stream_rebuilds_a_fresh_sink() {
    let t0 = Transport::new();
    let (t1, _) = render_step(&t0, PlaybackInstructions::Pause);
    let (t2, _) = render_step(&t1, PlaybackInstructions::Speed(500));
    let (t3, action) = render_step(
        &t2,
        PlaybackInstructions::NewStream(fresh_byte_source()),
    );
    assert!(t3.stream_active);
    assert!(t3.playing);
    assert_eq!(t3.speed, REAL_TIME_SPEED);
    assert!(matches!(action, RenderAction::SwapStream(_)));
}

#[test]
fn each_instruction_maps_to_its_action() {
    let t = Transport::new();
    let (_, a1) = render_step(&t, PlaybackInstructions::Play);
    assert!(matches!(a1, RenderAction::Resume));
    let (_, a2) = render_step(&t, PlaybackInstructions::Pause);
    assert!(matches!(a2, RenderAction::Suspend));
    let (_, a3) = render_step(&t, PlaybackInstructions::Speed(750));
    assert!(matches!(a3, RenderAction::ChangeSpeed(750)));
    let (_, a4) = render_step(&t, PlaybackInstructions::Seek(90_000));
    assert!(matches!(a4, RenderAction::ForwardSeek(90_000)));
}

#[test]
fn seek_leaves_transport_unchanged() {
    let t0 = Transport::new();
    let (t1, _) = render_step(&t0, PlaybackInstructions::Speed(1250));
    let (t2, _) = render_step(&t1, PlaybackInstructions::Seek(1000));
    assert_eq!(t1, t2);
}
