use remote_desktop::message::ProtocolMessage;
use remote_desktop::models::{
    AuthToken, FrameFormat, InputEvent, KeyCode, MouseButton, Platform, SessionId,
};
use remote_desktop::protocol::{deserialize_message, serialize_message};
use remote_desktop::wire::WireError;

fn samples() -> Vec<ProtocolMessage> {
    vec![
        ProtocolMessage::Hello {
            version: 1,
            device_id: "dev-A".to_string(),
            platform: Platform::Linux,
        },
        ProtocolMessage::Auth {
            token: AuthToken::new("secret".to_string(), "dev-A".to_string()),
        },
        ProtocolMessage::AuthResponse {
            success: true,
            session_id: Some(SessionId(0xa1a2a3a4_b1b2_c1c2_d1d2_d3d4d5d6d7d8)),
            error: None,
        },
        ProtocolMessage::AuthResponse {
            success: false,
            session_id: None,
            error: Some("denied: \u{fc}ber".to_string()),
        },
        ProtocolMessage::SessionRequest { target_device: "agent-7".to_string() },
        ProtocolMessage::SessionCreated {
            session_id: SessionId(u128::MAX),
            endpoint: "10.0.0.1:4433".to_string(),
        },
        ProtocolMessage::SessionEnd { session_id: SessionId(0), reason: String::new() },
        ProtocolMessage::ScreenFrame {
            sequence: 7,
            timestamp: 1_700_000_000_123,
            data: vec![0, 1, 2, 255, 254],
            width: 640,
            height: 480,
            format: FrameFormat::Jpeg,
        },
        ProtocolMessage::InputEvent {
            timestamp: 9,
            event: InputEvent::MouseMove { x: -5, y: i32::MAX },
        },
        ProtocolMessage::InputEvent {
            timestamp: 10,
            event: InputEvent::MouseButton { button: MouseButton::X2, pressed: true },
        },
        ProtocolMessage::InputEvent {
            timestamp: 11,
            event: InputEvent::MouseScroll { delta_x: i32::MIN, delta_y: -1 },
        },
        ProtocolMessage::InputEvent {
            timestamp: u64::MAX,
            event: InputEvent::KeyPress { key: KeyCode::enter(), pressed: false },
        },
        ProtocolMessage::Heartbeat { timestamp: 1000 },
        ProtocolMessage::Error { code: 404, message: "not found".to_string() },
        ProtocolMessage::Disconnect,
    ]
}

#[test]
fn test_message_serialization() {
    let msg = ProtocolMessage::Heartbeat { timestamp: 12345 };

    let bytes = serialize_message(&msg);
    assert!(!bytes.is_empty());

    let decoded = deserialize_message(&bytes).unwrap();
    match decoded {
        ProtocolMessage::Heartbeat { timestamp } => assert_eq!(timestamp, 12345),
        _ => panic!("Wrong message type"),
    }
}

#[test]
fn every_variant_round_trips() {
    for msg in samples() {
        let bytes = serialize_message(&msg);
        assert_eq!(deserialize_message(&bytes), Ok(msg));
    }
}

#[test]
fn encoding_is_deterministic() {
    for msg in samples() {
        assert_eq!(serialize_message(&msg), serialize_message(&msg.clone()));
    }
}

#[test]
fn heartbeat_has_the_expected_bytes() {
    let bytes = serialize_message(&ProtocolMessage::Heartbeat { timestamp: 12345 });
    assert_eq!(bytes, vec![8, 0, 0, 0, 0x39, 0x30, 0, 0, 0, 0, 0, 0]);
}

#[test]
fn hello_has_the_expected_bytes() {
    let bytes = serialize_message(&ProtocolMessage::Hello {
        version: 1,
        device_id: "dev-A".to_string(),
        platform: Platform::Linux,
    });
    let mut expected = vec![0, 0, 0, 0, 1, 0, 0, 0, 5, 0, 0, 0, 0, 0, 0, 0];
    expected.extend_from_slice(b"dev-A");
    expected.extend_from_slice(&[1, 0, 0, 0]);
    assert_eq!(bytes, expected);
}

#[test]
fn disconnect_is_its_index_alone() {
    assert_eq!(serialize_message(&ProtocolMessage::Disconnect), vec![10, 0, 0, 0]);
}

#[test]
fn negative_coordinates_are_twos_complement() {
    let bytes = serialize_message(&ProtocolMessage::InputEvent {
        timestamp: 0,
        event: InputEvent::MouseMove { x: -1, y: -2 },
    });
    assert_eq!(
        bytes,
        vec![7, 0, 0, 0, 0, 0, 0, 0, 0, 0, 0, 0, 0, 0, 0, 0, 255, 255, 255, 255, 254, 255, 255, 255]
    );
}

#[test]
fn session_id_is_sixteen_bytes_most_significant_first() {
    let bytes = serialize_message(&ProtocolMessage::SessionEnd {
        session_id: SessionId(0x0102_0304_0506_0708_090a_0b0c_0d0e_0f10),
        reason: "x".to_string(),
    });
    let mut expected = vec![5, 0, 0, 0, 16, 0, 0, 0, 0, 0, 0, 0];
    expected.extend_from_slice(&[1, 2, 3, 4, 5, 6, 7, 8, 9, 10, 11, 12, 13, 14, 15, 16]);
    expected.extend_from_slice(&[1, 0, 0, 0, 0, 0, 0, 0, b'x']);
    assert_eq!(bytes, expected);
}

#[test]
fn matches_bincode_for_heartbeat() {
    let ours = serialize_message(&ProtocolMessage::Heartbeat { timestamp: 12345 });
    let theirs = bincode::serialize(&(8u32, 12345u64)).unwrap();
    assert_eq!(ours, theirs);
}

#[test]
fn matches_bincode_for_hello() {
    let ours = serialize_message(&ProtocolMessage::Hello {
        version: 1,
        device_id: "dev-A".to_string(),
        platform: Platform::Linux,
    });
    let theirs = bincode::serialize(&(0u32, 1u32, "dev-A", 1u32)).unwrap();
    assert_eq!(ours, theirs);
}

#[test]
fn matches_bincode_for_screen_frame() {
    let ours = serialize_message(&ProtocolMessage::ScreenFrame {
        sequence: 3,
        timestamp: 99,
        data: vec![9, 8, 7],
        width: 2,
        height: 1,
        format: FrameFormat::H264,
    });
    let theirs = bincode::serialize(&(6u32, 3u64, 99u64, vec![9u8, 8, 7], 2u32, 1u32, 2u32)).unwrap();
    assert_eq!(ours, theirs);
}

#[test]
fn matches_bincode_for_auth_response() {
    let id: u128 = 0xa1a2a3a4_b1b2_c1c2_d1d2_d3d4d5d6d7d8;
    let ours = serialize_message(&ProtocolMessage::AuthResponse {
        success: true,
        session_id: Some(SessionId(id)),
        error: Some("no".to_string()),
    });
    let theirs =
        bincode::serialize(&(2u32, true, Some(id.to_be_bytes().to_vec()), Some("no"))).unwrap();
    assert_eq!(ours, theirs);
    let none = serialize_message(&ProtocolMessage::AuthResponse {
        success: false,
        session_id: None,
        error: None,
    });
    let theirs_none =
        bincode::serialize(&(2u32, false, None::<Vec<u8>>, None::<String>)).unwrap();
    assert_eq!(none, theirs_none);
}

#[test]
fn matches_bincode_for_input_events() {
    let key = serialize_message(&ProtocolMessage::InputEvent {
        timestamp: 5,
        event: InputEvent::KeyPress { key: KeyCode(0x1C), pressed: true },
    });
    assert_eq!(key, bincode::serialize(&(7u32, 5u64, 3u32, 0x1Cu32, true)).unwrap());
    let scroll = serialize_message(&ProtocolMessage::InputEvent {
        timestamp: 6,
        event: InputEvent::MouseScroll { delta_x: -3, delta_y: 4 },
    });
    assert_eq!(scroll, bincode::serialize(&(7u32, 6u64, 2u32, -3i32, 4i32)).unwrap());
    let button = serialize_message(&ProtocolMessage::InputEvent {
        timestamp: 7,
        event: InputEvent::MouseButton { button: MouseButton::Middle, pressed: false },
    });
    assert_eq!(button, bincode::serialize(&(7u32, 7u64, 1u32, 2u32, false)).unwrap());
}

#[test]
fn matches_bincode_for_the_text_messages() {
    let id: u128 = 0x0102_0304_0506_0708_090a_0b0c_0d0e_0f10;
    let auth = serialize_message(&ProtocolMessage::Auth {
        token: AuthToken::new("secret".to_string(), "dev-A".to_string()),
    });
    assert_eq!(auth, bincode::serialize(&(1u32, "secret", "dev-A")).unwrap());
    let request =
        serialize_message(&ProtocolMessage::SessionRequest { target_device: "agent".to_string() });
    assert_eq!(request, bincode::serialize(&(3u32, "agent")).unwrap());
    let created = serialize_message(&ProtocolMessage::SessionCreated {
        session_id: SessionId(id),
        endpoint: "10.0.0.1:4433".to_string(),
    });
    assert_eq!(
        created,
        bincode::serialize(&(4u32, id.to_be_bytes().to_vec(), "10.0.0.1:4433")).unwrap()
    );
    let end = serialize_message(&ProtocolMessage::SessionEnd {
        session_id: SessionId(id),
        reason: "bye".to_string(),
    });
    assert_eq!(end, bincode::serialize(&(5u32, id.to_be_bytes().to_vec(), "bye")).unwrap());
    let error =
        serialize_message(&ProtocolMessage::Error { code: 500, message: "boom".to_string() });
    assert_eq!(error, bincode::serialize(&(9u32, 500u32, "boom")).unwrap());
    let disconnect = serialize_message(&ProtocolMessage::Disconnect);
    assert_eq!(disconnect, bincode::serialize(&10u32).unwrap());
    let moved = serialize_message(&ProtocolMessage::InputEvent {
        timestamp: 1,
        event: InputEvent::MouseMove { x: -7, y: 8 },
    });
    assert_eq!(moved, bincode::serialize(&(7u32, 1u64, 0u32, -7i32, 8i32)).unwrap());
}

#[test]
fn matches_bincode_for_every_platform_format_and_button() {
    let platforms = [
        Platform::Windows,
        Platform::Linux,
        Platform::MacOS,
        Platform::Android,
        Platform::IOS,
    ];
    for (index, platform) in platforms.into_iter().enumerate() {
        let ours = serialize_message(&ProtocolMessage::Hello {
            version: 2,
            device_id: String::new(),
            platform,
        });
        assert_eq!(ours, bincode::serialize(&(0u32, 2u32, "", index as u32)).unwrap());
    }
    let formats = [
        FrameFormat::Raw,
        FrameFormat::Jpeg,
        FrameFormat::H264,
        FrameFormat::VP8,
        FrameFormat::AV1,
    ];
    for (index, format) in formats.into_iter().enumerate() {
        let ours = serialize_message(&ProtocolMessage::ScreenFrame {
            sequence: 0,
            timestamp: 0,
            data: Vec::new(),
            width: 0,
            height: 0,
            format,
        });
        let theirs =
            bincode::serialize(&(6u32, 0u64, 0u64, Vec::<u8>::new(), 0u32, 0u32, index as u32));
        assert_eq!(ours, theirs.unwrap());
    }
    let buttons = [
        MouseButton::Left,
        MouseButton::Right,
        MouseButton::Middle,
        MouseButton::X1,
        MouseButton::X2,
    ];
    for (index, button) in buttons.into_iter().enumerate() {
        let ours = serialize_message(&ProtocolMessage::InputEvent {
            timestamp: 0,
            event: InputEvent::MouseButton { button, pressed: true },
        });
        assert_eq!(ours, bincode::serialize(&(7u32, 0u64, 1u32, index as u32, true)).unwrap());
    }
}

#[test]
fn bincode_reads_what_we_write() {
    let ours = serialize_message(&ProtocolMessage::Error {
        code: 7,
        message: "boom".to_string(),
    });
    let back: (u32, u32, String) = bincode::deserialize(&ours).unwrap();
    assert_eq!(back, (9, 7, "boom".to_string()));
}

#[test]
fn bytes_behind_a_message_are_not_looked_at() {
    let mut bytes = serialize_message(&ProtocolMessage::Heartbeat { timestamp: 1 });
    bytes.extend_from_slice(&[0xde, 0xad]);
    assert_eq!(deserialize_message(&bytes), Ok(ProtocolMessage::Heartbeat { timestamp: 1 }));
}

#[test]
fn empty_input_is_truncated() {
    assert_eq!(deserialize_message(&[]), Err(WireError::Truncated));
}

#[test]
fn every_proper_prefix_is_truncated() {
    for msg in samples() {
        let bytes = serialize_message(&msg);
        for cut in 0..bytes.len() {
            assert_eq!(deserialize_message(&bytes[..cut]), Err(WireError::Truncated));
        }
    }
}

#[test]
fn unknown_variant_index_is_an_invalid_tag() {
    assert_eq!(deserialize_message(&[11, 0, 0, 0]), Err(WireError::InvalidTag));
    assert_eq!(deserialize_message(&[0, 0, 0, 1, 0, 0]), Err(WireError::InvalidTag));
}

#[test]
fn bad_boolean_is_an_invalid_tag() {
    let bytes = vec![2, 0, 0, 0, 2, 0, 0];
    assert_eq!(deserialize_message(&bytes), Err(WireError::InvalidTag));
}

#[test]
fn bad_option_marker_is_an_invalid_tag() {
    let bytes = vec![2, 0, 0, 0, 1, 7, 0];
    assert_eq!(deserialize_message(&bytes), Err(WireError::InvalidTag));
}

#[test]
fn bad_platform_is_an_invalid_tag() {
    let mut bytes = serialize_message(&ProtocolMessage::Hello {
        version: 1,
        device_id: "d".to_string(),
        platform: Platform::IOS,
    });
    let last = bytes.len() - 4;
    bytes[last] = 5;
    assert_eq!(deserialize_message(&bytes), Err(WireError::InvalidTag));
}

#[test]
fn text_that_is_not_utf8_is_invalid_text() {
    let bytes = vec![3, 0, 0, 0, 2, 0, 0, 0, 0, 0, 0, 0, 0xff, 0xfe];
    assert_eq!(deserialize_message(&bytes), Err(WireError::InvalidText));
}

#[test]
fn session_id_of_another_length_is_an_invalid_length() {
    let mut bytes = vec![4, 0, 0, 0, 15, 0, 0, 0, 0, 0, 0, 0];
    bytes.extend_from_slice(&[0u8; 15]);
    bytes.extend_from_slice(&[0, 0, 0, 0, 0, 0, 0, 0]);
    assert_eq!(deserialize_message(&bytes), Err(WireError::InvalidLength));
}

#[test]
fn length_beyond_the_input_is_truncated() {
    let bytes = vec![3, 0, 0, 0, 255, 255, 255, 255, 255, 255, 255, 255, b'a'];
    assert_eq!(deserialize_message(&bytes), Err(WireError::Truncated));
}

#[test]
fn wire_errors_describe_themselves() {
    assert_eq!(WireError::Truncated.describe(), "unexpected end of message");
    assert_eq!(WireError::InvalidTag.describe(), "invalid tag");
    assert_eq!(WireError::InvalidText.describe(), "text is not valid UTF-8");
    assert_eq!(WireError::InvalidLength.describe(), "invalid field length");
}

#[test]
fn text_is_decoded_from_utf8() {
    let mut bytes = vec![3, 0, 0, 0, 4, 0, 0, 0, 0, 0, 0, 0];
    bytes.extend_from_slice("h\u{e9}!".as_bytes());
    assert_eq!("h\u{e9}!".len(), 4);
    assert_eq!(
        deserialize_message(&bytes),
        Ok(ProtocolMessage::SessionRequest { target_device: "h\u{e9}!".to_string() })
    );
}
