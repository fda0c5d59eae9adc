use remote_desktop::clock::{current_timestamp, now_millis, timestamp_from_millis};
use remote_desktop::config::{AgentConfig, ServerConfig};
use remote_desktop::desktop::input_event_for;
use remote_desktop::error::{
    ApplicationError, AuthError, CaptureError, CodecError, DomainError, InjectionError,
    RepositoryError, TransportError,
};
use remote_desktop::message::{hello, ProtocolMessage, PROTOCOL_VERSION};
use remote_desktop::input_injection::{
    create_input_injector, InjectionBackend, LinuxInputInjector, MacOSInputInjector,
    SystemButton, SystemEvent, SystemMouseEvent, WindowsInputInjector,
};
use remote_desktop::models::{
    AuthToken, Capabilities, CodecType, FrameFormat, InputEvent, KeyCode, MouseButton, PeerId,
    Platform, SessionId,
};
use remote_desktop::peer_id::{generate_peer_id, peer_id_for, peer_id_from_seed};
use remote_desktop::ports::{inject_batch, EventRecord, InputInjector, ScreenCapture};
use remote_desktop::screen_capture::{
    choose_display, create_screen_capture, blank_frame, CaptureBackend, LinuxScreenCapture,
    WindowsScreenCapture,
};
use remote_desktop::signaling::{endpoint_from, SignalingClient};
use remote_desktop::text::{join, same_text};

#[test]
fn session_id_text_is_hyphenated_lower_hex() {
    let id = SessionId(0xa1a2a3a4_b1b2_c1c2_d1d2_d3d4d5d6d7d8);
    assert_eq!(id.to_text(), "a1a2a3a4-b1b2-c1c2-d1d2-d3d4d5d6d7d8");
    assert_eq!(SessionId(0).to_text(), "00000000-0000-0000-0000-000000000000");
    assert_eq!(SessionId(0xABCDEF).to_text(), "00000000-0000-0000-0000-000000abcdef");
}

#[test]
fn new_session_ids_are_version_four() {
    let a = SessionId::new();
    let b = SessionId::default();
    assert_ne!(a, b);
    for id in [a, b] {
        assert_eq!((id.0 >> 76) & 0xf, 4);
        assert_eq!((id.0 >> 62) & 0x3, 2);
        let text = id.to_text();
        assert_eq!(text.len(), 36);
        assert_eq!(text.as_bytes()[14], b'4');
    }
}

#[test]
fn peer_ids_and_tokens_keep_their_text() {
    let peer = PeerId::new("peer-1".to_string());
    assert_eq!(peer.0, "peer-1");
    assert_eq!(peer.to_text(), "peer-1");
    assert_eq!(peer.duplicate(), peer);
    let token = AuthToken::new("t".to_string(), "d".to_string());
    assert_eq!(token.token, "t");
    assert_eq!(token.device_id, "d");
}

#[test]
fn default_capabilities() {
    assert_eq!(
        Capabilities::default(),
        Capabilities {
            screen_capture: true,
            input_injection: true,
            audio_capture: false,
            file_transfer: false,
        }
    );
}

#[test]
fn key_codes() {
    assert_eq!(KeyCode::escape(), KeyCode(0x01));
    assert_eq!(KeyCode::enter(), KeyCode(0x1C));
    assert_eq!(KeyCode::space(), KeyCode(0x39));
    assert_eq!(KeyCode::backspace(), KeyCode(0x0E));
    assert_eq!(KeyCode::tab(), KeyCode(0x0F));
    assert_eq!(KeyCode::a(), KeyCode(0x1E));
    assert_eq!(KeyCode::b(), KeyCode(0x30));
    assert_eq!(KeyCode::c(), KeyCode(0x2E));
}

#[test]
fn clock_reads_the_present() {
    let now = now_millis();
    assert!(now > 1_600_000_000_000);
    assert!(current_timestamp() >= now as u64);
    assert_eq!(timestamp_from_millis(-5), 0);
    assert_eq!(timestamp_from_millis(0), 0);
    assert_eq!(timestamp_from_millis(1234), 1234);
    assert_eq!(timestamp_from_millis(i64::MAX), i64::MAX as u64);
}

#[test]
fn agent_config_defaults() {
    let named = AgentConfig::for_host(Some("box".to_string()));
    assert_eq!(
        named,
        AgentConfig {
            device_id: "box".to_string(),
            server_url: "127.0.0.1:4433".to_string(),
            max_fps: 30,
            encoder_quality: 80,
        }
    );
    assert_eq!(AgentConfig::for_host(None).device_id, "unknown-device");
    let here = AgentConfig::default();
    assert!(!here.device_id.is_empty());
    assert_eq!(here.server_url, "127.0.0.1:4433");
    assert_eq!(here.max_fps, 30);
    assert_eq!(here.encoder_quality, 80);
    assert_eq!(AgentConfig::load(Some(named.clone())), named);
    assert_eq!(AgentConfig::load(None), AgentConfig::default());
}

#[test]
fn server_config_defaults() {
    let d = ServerConfig::default();
    assert_eq!(
        d,
        ServerConfig {
            bind_address: "0.0.0.0:4433".to_string(),
            max_sessions: 100,
            relay_enabled: true
        }
    );
    assert_eq!(ServerConfig::load(None), d);
    let other = ServerConfig {
        bind_address: "[::]:1".to_string(),
        max_sessions: 1,
        relay_enabled: false,
    };
    assert_eq!(ServerConfig::load(Some(other.clone())), other);
}

#[test]
fn directory_peer_ids_are_six_digits() {
    for _ in 0..200 {
        let id = generate_peer_id();
        assert_eq!(id.len(), 6);
        let n: u32 = id.parse().unwrap();
        assert!((100_000..999_999).contains(&n));
    }
    assert_eq!(peer_id_for(123456), "123456");
    assert_eq!(peer_id_for(100000), "100000");
    assert_eq!(peer_id_for(7), "7");
}

#[test]
fn seeded_peer_ids_are_six_hex_digits() {
    assert_eq!(peer_id_from_seed(0), "000000");
    assert_eq!(peer_id_from_seed(0xABCDEF), "ABCDEF");
    assert_eq!(peer_id_from_seed(0xFFFFFF), "000000");
    assert_eq!(peer_id_from_seed(0xFFFFFF + 0x1F), "00001F");
    assert_eq!(peer_id_from_seed(u64::MAX), format!("{:06X}", u64::MAX % 0xFFFFFF));
}

#[test]
fn text_helpers() {
    assert_eq!(join("ab", "cd"), "abcd");
    assert_eq!(join("", ""), "");
    assert!(same_text("x", "x"));
    assert!(!same_text("x", "y"));
    assert_eq!(peer_id_for(0), "0");
    assert_eq!(peer_id_for(4294967295), "4294967295");
    assert_eq!(peer_id_from_seed(0x00beef), "00BEEF");
    assert_eq!(peer_id_from_seed(0xfffffe), "FFFFFE");
}

#[test]
fn shell_commands_name_input_events() {
    assert_eq!(input_event_for("mouse_move", 3, -4), Ok(InputEvent::MouseMove { x: 3, y: -4 }));
    assert_eq!(
        input_event_for("mouse_down", 1, 1),
        Ok(InputEvent::MouseButton { button: MouseButton::Left, pressed: true })
    );
    assert_eq!(
        input_event_for("mouse_up", 1, 1),
        Ok(InputEvent::MouseButton { button: MouseButton::Left, pressed: false })
    );
    assert_eq!(
        input_event_for("key_down", 1, 1),
        Err("Unknown event type: key_down".to_string())
    );
    assert_eq!(input_event_for("", 0, 0), Err("Unknown event type: ".to_string()));
}

#[test]
fn blank_capture() {
    let frame = blank_frame(55);
    assert_eq!(frame.timestamp, 55);
    assert_eq!(frame.sequence, 0);
    assert_eq!((frame.width, frame.height), (1920, 1080));
    assert_eq!(frame.format, FrameFormat::Raw);
    assert_eq!(frame.data.len(), 1920 * 1080 * 4);
    assert!(frame.data.iter().all(|b| *b == 0));

    let mut linux = LinuxScreenCapture::new().unwrap();
    let captured = linux.capture().unwrap();
    assert_eq!(captured.data.len(), 1920 * 1080 * 4);
    assert!(captured.timestamp > 1_600_000_000_000);
    let displays = linux.get_displays().unwrap();
    assert_eq!(displays.len(), 1);
    assert_eq!(displays[0].name, "X11 Display");
    assert_eq!((displays[0].id, displays[0].width, displays[0].height), (0, 1920, 1080));
    assert_eq!((displays[0].x, displays[0].y, displays[0].is_primary), (0, 0, true));
    assert_eq!(linux.set_target_display(3), Ok(()));

    let mut windows = WindowsScreenCapture::new().unwrap();
    assert_eq!(windows.capture().unwrap().width, 1920);
    assert_eq!(windows.get_displays().unwrap()[0].name, "Primary Display");
    assert_eq!(windows.set_target_display(1), Ok(()));
}

#[test]
fn capture_backends_by_platform() {
    assert_eq!(create_screen_capture(Platform::Windows), Ok(CaptureBackend::Windows));
    assert_eq!(create_screen_capture(Platform::Linux), Ok(CaptureBackend::Linux));
    assert_eq!(create_screen_capture(Platform::MacOS), Ok(CaptureBackend::MacOS));
    assert_eq!(create_screen_capture(Platform::Android), Err(CaptureError::UnsupportedPlatform));
    assert_eq!(create_screen_capture(Platform::IOS), Err(CaptureError::UnsupportedPlatform));
    assert_eq!(create_input_injector(Platform::Windows), Ok(InjectionBackend::Windows));
    assert_eq!(create_input_injector(Platform::Linux), Ok(InjectionBackend::Linux));
    assert_eq!(create_input_injector(Platform::MacOS), Ok(InjectionBackend::MacOS));
    assert_eq!(create_input_injector(Platform::Android), Err(InjectionError::UnsupportedPlatform));
    assert_eq!(create_input_injector(Platform::IOS), Err(InjectionError::UnsupportedPlatform));
}

#[test]
fn display_choice() {
    assert_eq!(choose_display(&vec![], 0), Err(CaptureError::DisplayNotFound(0)));
    assert_eq!(choose_display(&vec![4, 5, 6], 5), Ok(1));
    assert_eq!(choose_display(&vec![4, 5, 5], 5), Ok(1));
    assert_eq!(choose_display(&vec![4, 5, 6], 9), Ok(0));
    assert_eq!(choose_display(&vec![4], 4), Ok(0));
}

#[test]
fn idle_injectors_accept_everything() {
    let event = InputEvent::MouseMove { x: 1, y: 2 };
    assert_eq!(LinuxInputInjector::new().unwrap().inject(event), Ok(()));
    assert_eq!(WindowsInputInjector::new().unwrap().inject(event), Ok(()));
    assert!(MacOSInputInjector::new().is_ok());
}

#[test]
fn mac_events() {
    let mac = MacOSInputInjector::new().unwrap();
    assert_eq!(
        mac.plan(InputEvent::MouseMove { x: 10, y: -3 }),
        Ok(SystemEvent::Mouse {
            kind: SystemMouseEvent::Moved,
            button: SystemButton::Left,
            x: 10,
            y: -3
        })
    );
    let cases = [
        (MouseButton::Left, true, SystemMouseEvent::LeftDown, SystemButton::Left),
        (MouseButton::Left, false, SystemMouseEvent::LeftUp, SystemButton::Left),
        (MouseButton::Right, true, SystemMouseEvent::RightDown, SystemButton::Right),
        (MouseButton::Right, false, SystemMouseEvent::RightUp, SystemButton::Right),
        (MouseButton::Middle, true, SystemMouseEvent::OtherDown, SystemButton::Center),
        (MouseButton::Middle, false, SystemMouseEvent::OtherUp, SystemButton::Center),
    ];
    for (button, pressed, kind, system_button) in cases {
        assert_eq!(
            mac.plan(InputEvent::MouseButton { button, pressed }),
            Ok(SystemEvent::Mouse { kind, button: system_button, x: 0, y: 0 })
        );
    }
    for button in [MouseButton::X1, MouseButton::X2] {
        assert_eq!(
            mac.plan(InputEvent::MouseButton { button, pressed: true }),
            Err(InjectionError::UnsupportedEvent)
        );
    }
    assert_eq!(
        mac.plan(InputEvent::MouseScroll { delta_x: 1, delta_y: 2 }),
        Ok(SystemEvent::Nothing)
    );
    assert_eq!(
        mac.plan(InputEvent::KeyPress { key: KeyCode(0x1C), pressed: true }),
        Ok(SystemEvent::Key { code: 0x1C, pressed: true })
    );
    assert_eq!(
        mac.plan(InputEvent::KeyPress { key: KeyCode(0x1_0005), pressed: false }),
        Ok(SystemEvent::Key { code: 5, pressed: false })
    );
}

struct FailsAt {
    seen: Vec<InputEvent>,
    fail_at: usize,
}

impl InputInjector for FailsAt {
    fn injected(&self) -> EventRecord {
        unreachable!("only proofs speak of the record of events")
    }

    fn inject(&mut self, event: InputEvent) -> Result<(), InjectionError> {
        if self.seen.len() == self.fail_at {
            return Err(InjectionError::PermissionDenied);
        }
        self.seen.push(event);
        Ok(())
    }
}

#[test]
fn batch_stops_at_the_first_failure() {
    let events: Vec<InputEvent> =
        (0..5).map(|i| InputEvent::MouseMove { x: i, y: i }).collect();
    let mut all = FailsAt { seen: Vec::new(), fail_at: 99 };
    assert_eq!(inject_batch(&mut all, &events), (5, Ok(())));
    assert_eq!(all.seen, events);
    let mut some = FailsAt { seen: Vec::new(), fail_at: 2 };
    assert_eq!(inject_batch(&mut some, &events), (2, Err(InjectionError::PermissionDenied)));
    assert_eq!(some.seen, events[..2].to_vec());
    let mut none = FailsAt { seen: Vec::new(), fail_at: 0 };
    assert_eq!(inject_batch(&mut none, &Vec::new()), (0, Ok(())));
}

#[test]
fn errors_describe_themselves() {
    let id = SessionId(0xa1a2a3a4_b1b2_c1c2_d1d2_d3d4d5d6d7d8);
    assert_eq!(
        DomainError::SessionNotFound(id).to_text(),
        "Session not found: a1a2a3a4-b1b2-c1c2-d1d2-d3d4d5d6d7d8"
    );
    assert_eq!(
        DomainError::SessionAlreadyExists(id).to_text(),
        "Session already exists: a1a2a3a4-b1b2-c1c2-d1d2-d3d4d5d6d7d8"
    );
    assert_eq!(
        DomainError::PeerNotFound(PeerId::new("p".to_string())).to_text(),
        "Peer not found: p"
    );
    assert_eq!(DomainError::Unauthorized.to_text(), "Unauthorized access");
    assert_eq!(
        DomainError::InvalidState("s".to_string()).to_text(),
        "Invalid session state: s"
    );

    assert_eq!(CaptureError::DisplayNotFound(42).to_text(), "Display not found: 42");
    assert_eq!(
        CaptureError::CaptureFailed("x".to_string()).to_text(),
        "Screen capture failed: x"
    );
    assert_eq!(CaptureError::UnsupportedPlatform.to_text(), "Unsupported platform");
    assert_eq!(CaptureError::PermissionDenied.to_text(), "Permission denied");
    assert_eq!(
        CaptureError::InitializationFailed("x".to_string()).to_text(),
        "Initialization failed: x"
    );

    assert_eq!(
        InjectionError::InjectionFailed("x".to_string()).to_text(),
        "Input injection failed: x"
    );
    assert_eq!(InjectionError::UnsupportedPlatform.to_text(), "Unsupported platform");
    assert_eq!(InjectionError::PermissionDenied.to_text(), "Permission denied");
    assert_eq!(InjectionError::InvalidEvent("x".to_string()).to_text(), "Invalid input event: x");
    assert_eq!(
        InjectionError::InitializationFailed("x".to_string()).to_text(),
        "Initialization failed: x"
    );
    assert_eq!(InjectionError::UnsupportedEvent.to_text(), "Unsupported event type");

    assert_eq!(CodecError::EncodingFailed("x".to_string()).to_text(), "Encoding failed: x");
    assert_eq!(CodecError::DecodingFailed("x".to_string()).to_text(), "Decoding failed: x");
    assert_eq!(CodecError::UnsupportedCodec(CodecType::Jpeg).to_text(), "Unsupported codec: Jpeg");
    assert_eq!(CodecError::UnsupportedCodec(CodecType::H264).to_text(), "Unsupported codec: H264");
    assert_eq!(CodecError::UnsupportedCodec(CodecType::VP8).to_text(), "Unsupported codec: VP8");
    assert_eq!(CodecError::UnsupportedCodec(CodecType::AV1).to_text(), "Unsupported codec: AV1");
    assert_eq!(CodecError::InvalidConfig("x".to_string()).to_text(), "Invalid configuration: x");
    assert_eq!(CodecError::Other("x".to_string()).to_text(), "Codec error: x");

    assert_eq!(
        TransportError::ConnectionFailed("x".to_string()).to_text(),
        "Connection failed: x"
    );
    assert_eq!(TransportError::Timeout.to_text(), "Connection timeout");
    assert_eq!(TransportError::Closed.to_text(), "Connection closed");
    assert_eq!(TransportError::ProtocolError("x".to_string()).to_text(), "Protocol error: x");
    assert_eq!(
        TransportError::SerializationError("x".to_string()).to_text(),
        "Serialization error: x"
    );
    assert_eq!(TransportError::IoError("x".to_string()).to_text(), "IO error: x");

    assert_eq!(AuthError::InvalidToken.to_text(), "Invalid token");
    assert_eq!(AuthError::TokenExpired.to_text(), "Token expired");
    assert_eq!(
        AuthError::AuthenticationFailed("x".to_string()).to_text(),
        "Authentication failed: x"
    );
    assert_eq!(
        AuthError::TokenGenerationFailed("x".to_string()).to_text(),
        "Token generation failed: x"
    );

    assert_eq!(RepositoryError::DatabaseError("x".to_string()).to_text(), "Database error: x");
    assert_eq!(
        RepositoryError::SerializationError("x".to_string()).to_text(),
        "Serialization error: x"
    );
    assert_eq!(RepositoryError::NotFound.to_text(), "Not found");
    assert_eq!(
        RepositoryError::ConstraintViolation("x".to_string()).to_text(),
        "Constraint violation: x"
    );
}

#[test]
fn application_errors_wrap_the_others() {
    assert_eq!(
        ApplicationError::from(DomainError::Unauthorized),
        ApplicationError::Domain(DomainError::Unauthorized)
    );
    assert_eq!(
        ApplicationError::from(CaptureError::PermissionDenied),
        ApplicationError::Capture(CaptureError::PermissionDenied)
    );
    assert_eq!(
        ApplicationError::from(InjectionError::UnsupportedEvent),
        ApplicationError::Injection(InjectionError::UnsupportedEvent)
    );
    assert_eq!(
        ApplicationError::from(CodecError::Other("o".to_string())),
        ApplicationError::Codec(CodecError::Other("o".to_string()))
    );
    assert_eq!(
        ApplicationError::from(TransportError::Closed),
        ApplicationError::Transport(TransportError::Closed)
    );
    assert_eq!(
        ApplicationError::from(AuthError::InvalidToken),
        ApplicationError::Auth(AuthError::InvalidToken)
    );
    assert_eq!(
        ApplicationError::from(RepositoryError::NotFound),
        ApplicationError::Repository(RepositoryError::NotFound)
    );
    assert_eq!(
        ApplicationError::Domain(DomainError::Unauthorized).to_text(),
        "Domain error: Unauthorized access"
    );
    assert_eq!(
        ApplicationError::Capture(CaptureError::DisplayNotFound(2)).to_text(),
        "Capture error: Display not found: 2"
    );
    assert_eq!(
        ApplicationError::Injection(InjectionError::UnsupportedEvent).to_text(),
        "Injection error: Unsupported event type"
    );
    assert_eq!(
        ApplicationError::Codec(CodecError::Other("o".to_string())).to_text(),
        "Codec error: Codec error: o"
    );
    assert_eq!(
        ApplicationError::Transport(TransportError::Closed).to_text(),
        "Transport error: Connection closed"
    );
    assert_eq!(
        ApplicationError::Auth(AuthError::TokenExpired).to_text(),
        "Auth error: Token expired"
    );
    assert_eq!(
        ApplicationError::Repository(RepositoryError::NotFound).to_text(),
        "Repository error: Not found"
    );
    assert_eq!(
        ApplicationError::ConfigError("c".to_string()).to_text(),
        "Configuration error: c"
    );
    assert_eq!(ApplicationError::Internal("i".to_string()).to_text(), "Internal error: i");
}

#[test]
fn signaling_endpoint_is_the_service_address_with_ws() {
    assert_eq!(
        SignalingClient::endpoint("ws://localhost:8080"),
        Ok("ws://localhost:8080/ws".to_string())
    );
    assert_eq!(
        SignalingClient::endpoint("ws://EXAMPLE.com:9000"),
        Ok("ws://example.com:9000/ws".to_string())
    );
}

#[test]
fn signaling_endpoint_refuses_what_is_no_url() {
    assert_eq!(
        SignalingClient::endpoint("localhost"),
        Err(TransportError::ConnectionFailed("relative URL without a base".to_string()))
    );
    assert_eq!(
        SignalingClient::endpoint("ws://host:99999"),
        Err(TransportError::ConnectionFailed("invalid port number".to_string()))
    );
}

#[test]
fn endpoint_follows_the_parsing() {
    assert_eq!(endpoint_from(Ok("ws://a/ws".to_string())), Ok("ws://a/ws".to_string()));
    assert_eq!(
        endpoint_from(Err("empty host".to_string())),
        Err(TransportError::ConnectionFailed("empty host".to_string()))
    );
}

#[test]
fn hello_announces_version_one() {
    assert_eq!(PROTOCOL_VERSION, 1);
    assert_eq!(
        hello("dev-A".to_string(), Platform::Linux),
        ProtocolMessage::Hello {
            version: 1,
            device_id: "dev-A".to_string(),
            platform: Platform::Linux
        }
    );
}
