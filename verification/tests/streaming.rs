use remote_desktop::input_router::{route_message, InputRoute, InputRouter, RouterAction, RouterEvent};
use remote_desktop::message::ProtocolMessage;
use remote_desktop::models::{FrameFormat, InputEvent, KeyCode, MouseButton, ScreenFrame};
use remote_desktop::stream_controller::{
    StreamAction, StreamConfig, StreamController, StreamEvent, StreamPhase,
};

fn raw_frame(timestamp: u64) -> ScreenFrame {
    ScreenFrame {
        sequence: 0,
        timestamp,
        data: vec![0; 16],
        width: 2,
        height: 2,
        format: FrameFormat::Raw,
    }
}

fn good_tick(c: &mut StreamController, timestamp: u64, encoded: Vec<u8>) -> ProtocolMessage {
    assert_eq!(c.step(StreamEvent::Tick), StreamAction::Capture);
    let frame = raw_frame(timestamp);
    assert_eq!(c.step(StreamEvent::Captured(frame.clone())), StreamAction::Encode(frame));
    match c.step(StreamEvent::Encoded(encoded)) {
        StreamAction::Send(m) => m,
        other => panic!("expected a send, got {:?}", other),
    }
}

#[test]
fn default_config() {
    let c = StreamConfig::default();
    assert_eq!(c.max_fps, 30);
    assert!(c.drop_frames_on_slow_client);
    assert_eq!(c.frame_buffer_size, 2);
}

#[test]
fn frame_interval_is_a_thousand_by_the_rate() {
    let mut config = StreamConfig::default();
    assert_eq!(StreamController::new(config).frame_interval(), 33);
    config.max_fps = 60;
    assert_eq!(StreamController::new(config).frame_interval(), 16);
    config.max_fps = 1;
    assert_eq!(StreamController::new(config).frame_interval(), 1000);
    config.max_fps = 255;
    assert_eq!(StreamController::new(config).frame_interval(), 3);
}

#[test]
fn frame_message_carries_the_raw_frame_s_description() {
    let mut c = StreamController::new(StreamConfig::default());
    let m = good_tick(&mut c, 777, vec![1, 2, 3]);
    assert_eq!(
        m,
        ProtocolMessage::ScreenFrame {
            sequence: 0,
            timestamp: 777,
            data: vec![1, 2, 3],
            width: 2,
            height: 2,
            format: FrameFormat::Raw,
        }
    );
}

#[test]
fn sequence_numbers_increase_by_one_per_sent_frame() {
    let mut c = StreamController::new(StreamConfig::default());
    let mut seen = Vec::new();
    for tick in 0..5u64 {
        match good_tick(&mut c, tick, vec![tick as u8]) {
            ProtocolMessage::ScreenFrame { sequence, .. } => seen.push(sequence),
            other => panic!("expected a frame, got {:?}", other),
        }
        assert_eq!(c.step(StreamEvent::Sent), StreamAction::Wait);
    }
    assert_eq!(seen, vec![0, 1, 2, 3, 4]);
}

#[test]
fn failed_capture_costs_the_tick_only() {
    let mut c = StreamController::new(StreamConfig::default());
    good_tick(&mut c, 1, vec![1]);
    assert_eq!(c.step(StreamEvent::Sent), StreamAction::Wait);
    assert_eq!(c.step(StreamEvent::Tick), StreamAction::Capture);
    assert_eq!(c.step(StreamEvent::CaptureFailed), StreamAction::Wait);
    assert!(!c.is_stopped());
    assert_eq!(c.sequence, 1);
    match good_tick(&mut c, 3, vec![3]) {
        ProtocolMessage::ScreenFrame { sequence, .. } => assert_eq!(sequence, 1),
        other => panic!("expected a frame, got {:?}", other),
    }
}

#[test]
fn failed_encoding_costs_the_tick_only() {
    let mut c = StreamController::new(StreamConfig::default());
    assert_eq!(c.step(StreamEvent::Tick), StreamAction::Capture);
    let frame = raw_frame(5);
    assert_eq!(c.step(StreamEvent::Captured(frame.clone())), StreamAction::Encode(frame));
    assert_eq!(c.step(StreamEvent::EncodeFailed), StreamAction::Wait);
    assert!(!c.is_stopped());
    assert_eq!(c.phase, StreamPhase::Idle);
    assert_eq!(c.sequence, 0);
}

#[test]
fn failed_send_ends_the_loop() {
    let mut c = StreamController::new(StreamConfig::default());
    good_tick(&mut c, 1, vec![1]);
    assert_eq!(c.step(StreamEvent::SendFailed), StreamAction::Stop);
    assert!(c.is_stopped());
    for event in [
        StreamEvent::Tick,
        StreamEvent::Captured(raw_frame(2)),
        StreamEvent::Encoded(vec![2]),
        StreamEvent::Sent,
        StreamEvent::CaptureFailed,
    ] {
        assert_eq!(c.step(event), StreamAction::Stop);
    }
    assert!(c.is_stopped());
}

#[test]
fn last_sequence_number_is_not_used_twice() {
    let mut c = StreamController::new(StreamConfig::default());
    c.sequence = u64::MAX;
    match good_tick(&mut c, 1, vec![1]) {
        ProtocolMessage::ScreenFrame { sequence, .. } => assert_eq!(sequence, u64::MAX),
        other => panic!("expected a frame, got {:?}", other),
    }
    assert_eq!(c.step(StreamEvent::Sent), StreamAction::Stop);
    assert!(c.is_stopped());
}

#[test]
fn events_out_of_turn_change_nothing() {
    let mut c = StreamController::new(StreamConfig::default());
    let before = c;
    assert_eq!(c.step(StreamEvent::Sent), StreamAction::Wait);
    assert_eq!(c.step(StreamEvent::Encoded(vec![1])), StreamAction::Wait);
    assert_eq!(c.step(StreamEvent::Captured(raw_frame(1))), StreamAction::Wait);
    assert_eq!(c, before);
    assert_eq!(c.step(StreamEvent::Tick), StreamAction::Capture);
    assert_eq!(c.step(StreamEvent::Tick), StreamAction::Wait);
    assert_eq!(c.phase, StreamPhase::Capturing);
}

#[test]
fn router_injects_input_events() {
    let event = InputEvent::MouseButton { button: MouseButton::Left, pressed: true };
    assert_eq!(
        route_message(&ProtocolMessage::InputEvent { timestamp: 1, event }),
        InputRoute::Inject(event)
    );
    assert_eq!(route_message(&ProtocolMessage::Disconnect), InputRoute::Stop);
    assert_eq!(route_message(&ProtocolMessage::Heartbeat { timestamp: 1 }), InputRoute::Ignore);
}

#[test]
fn router_survives_failed_injections() {
    let mut r = InputRouter::new();
    let event = InputEvent::KeyPress { key: KeyCode::a(), pressed: true };
    assert_eq!(
        r.step(RouterEvent::Received(ProtocolMessage::InputEvent { timestamp: 1, event })),
        RouterAction::Inject(event)
    );
    assert_eq!(r.step(RouterEvent::InjectFailed), RouterAction::Receive);
    assert!(r.running);
    assert_eq!(
        r.step(RouterEvent::Received(ProtocolMessage::Heartbeat { timestamp: 2 })),
        RouterAction::Receive
    );
    assert_eq!(r.step(RouterEvent::Injected), RouterAction::Receive);
    assert!(r.running);
}

#[test]
fn router_stops_on_disconnect() {
    let mut r = InputRouter::new();
    assert_eq!(r.step(RouterEvent::Received(ProtocolMessage::Disconnect)), RouterAction::Stop);
    assert!(!r.running);
    let event = InputEvent::MouseMove { x: 1, y: 2 };
    assert_eq!(
        r.step(RouterEvent::Received(ProtocolMessage::InputEvent { timestamp: 1, event })),
        RouterAction::Stop
    );
}

#[test]
fn router_stops_on_receive_error() {
    let mut r = InputRouter::new();
    assert_eq!(r.step(RouterEvent::ReceiveFailed), RouterAction::Stop);
    assert!(!r.running);
    assert_eq!(r.step(RouterEvent::Injected), RouterAction::Stop);
}
