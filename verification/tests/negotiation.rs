use remote_desktop::error::TransportError;
use remote_desktop::message::ProtocolMessage;
use remote_desktop::models::{InputEvent, Platform};
use remote_desktop::signaling::{IceCandidate, SignalMessage, SignalingClient, SocketEvent};
use remote_desktop::signaling_server::{DirectoryAction, PeerChannel};
use remote_desktop::webrtc::{
    data_channel_label, stun_servers, AbortReason, DescriptionKind, Negotiation,
    NegotiationAction, NegotiationEvent, NegotiationPhase, Role, WebRTCTransport,
    NEGOTIATION_TIMEOUT_SECS, PAYLOAD_QUEUE_LEN,
};

fn candidate(text: &str) -> IceCandidate {
    IceCandidate {
        candidate: text.to_string(),
        sdp_mid: Some("0".to_string()),
        sdp_mline_index: Some(0),
    }
}

/// What the relay hands to the other peer for a message that `sender` sent.
fn relay(sender: &str, action: &NegotiationAction) -> NegotiationEvent {
    let mut channel = PeerChannel::new();
    channel.handle_signal(SignalMessage::Register { peer_id: sender.to_string() });
    let signal = match action {
        NegotiationAction::SendSignal(s) => s.clone(),
        other => panic!("not a signal: {:?}", other),
    };
    match signal {
        SignalMessage::Offer { sdp, .. } => {
            NegotiationEvent::Signal(SignalMessage::Offer { peer_id: sender.to_string(), sdp })
        }
        other => {
            let mut actions = channel.handle_signal(other);
            assert_eq!(actions.len(), 1);
            match actions.remove(0) {
                DirectoryAction::Forward { message, .. } => NegotiationEvent::Signal(message),
                unexpected => panic!("not forwarded: {:?}", unexpected),
            }
        }
    }
}

fn registered(name: &str) -> NegotiationEvent {
    NegotiationEvent::Signal(SignalMessage::Registered { peer_id: name.to_string() })
}

fn handshake() -> (Negotiation, Negotiation) {
    let mut caller = WebRTCTransport::new_as_caller("viewer", "host");
    let mut callee = WebRTCTransport::new_as_callee("host");
    assert_eq!(caller.role(), Role::Initiator);
    assert_eq!(callee.role(), Role::Responder);
    assert_eq!(caller.phase(), NegotiationPhase::Registering);
    assert_eq!(callee.phase(), NegotiationPhase::Registering);

    assert_eq!(caller.step(registered("viewer")), vec![NegotiationAction::CreateOffer]);
    assert_eq!(caller.phase(), NegotiationPhase::AwaitingAnswer);
    assert_eq!(callee.step(registered("host")), vec![]);
    assert_eq!(callee.phase(), NegotiationPhase::AwaitingOffer);

    let offered = caller.step(NegotiationEvent::OfferCreated("offer-sdp".to_string()));
    assert_eq!(
        offered,
        vec![
            NegotiationAction::SetLocalDescription(DescriptionKind::Offer, "offer-sdp".to_string()),
            NegotiationAction::SendSignal(SignalMessage::Offer {
                peer_id: "host".to_string(),
                sdp: "offer-sdp".to_string(),
            }),
        ]
    );

    let got_offer = callee.step(relay("viewer", &offered[1]));
    assert_eq!(
        got_offer,
        vec![
            NegotiationAction::SetRemoteDescription(
                DescriptionKind::Offer,
                "offer-sdp".to_string()
            ),
            NegotiationAction::CreateAnswer,
        ]
    );
    assert_eq!(callee.phase(), NegotiationPhase::Negotiating);
    assert_eq!(callee.remote_peer(), Some("viewer".to_string()));

    let answered = callee.step(NegotiationEvent::AnswerCreated("answer-sdp".to_string()));
    assert_eq!(
        answered,
        vec![
            NegotiationAction::SetLocalDescription(
                DescriptionKind::Answer,
                "answer-sdp".to_string()
            ),
            NegotiationAction::SendSignal(SignalMessage::Answer {
                peer_id: "viewer".to_string(),
                sdp: "answer-sdp".to_string(),
            }),
        ]
    );

    let got_answer = caller.step(relay("host", &answered[1]));
    assert_eq!(
        got_answer,
        vec![NegotiationAction::SetRemoteDescription(
            DescriptionKind::Answer,
            "answer-sdp".to_string()
        )]
    );
    assert_eq!(caller.phase(), NegotiationPhase::Negotiating);
    (caller, callee)
}

#[test]
fn both_sides_reach_ready_and_exchange_messages_verbatim() {
    let (mut caller, mut callee) = handshake();

    // Candidates trickle in both directions while the channel is not open yet.
    let found = caller.step(NegotiationEvent::LocalCandidate(candidate("caller-1")));
    assert_eq!(
        found,
        vec![NegotiationAction::SendSignal(SignalMessage::IceCandidate {
            peer_id: "host".to_string(),
            candidate: "caller-1".to_string(),
            sdp_mid: Some("0".to_string()),
            sdp_mline_index: Some(0),
        })]
    );
    assert_eq!(
        callee.step(relay("viewer", &found[0])),
        vec![NegotiationAction::AddIceCandidate(candidate("caller-1"))]
    );
    let found = callee.step(NegotiationEvent::LocalCandidate(candidate("callee-1")));
    assert_eq!(
        caller.step(relay("host", &found[0])),
        vec![NegotiationAction::AddIceCandidate(candidate("callee-1"))]
    );

    assert_eq!(caller.step(NegotiationEvent::ChannelOpen), vec![NegotiationAction::Complete]);
    assert_eq!(callee.step(NegotiationEvent::ChannelOpen), vec![NegotiationAction::Complete]);
    assert!(caller.is_ready());
    assert!(callee.is_ready());

    // Candidates may still come once the channel is open.
    let late = caller.step(NegotiationEvent::LocalCandidate(candidate("caller-2")));
    assert_eq!(
        callee.step(relay("viewer", &late[0])),
        vec![NegotiationAction::AddIceCandidate(candidate("caller-2"))]
    );
    assert!(callee.is_ready());

    let viewer = caller.finish().unwrap();
    let host = callee.finish().unwrap();
    assert!(viewer.is_connected(true));
    assert!(host.is_connected(true));

    let hello = ProtocolMessage::Hello {
        version: 1,
        device_id: "dev-A".to_string(),
        platform: Platform::MacOS,
    };
    let payload = host.send(&hello).unwrap();
    assert_eq!(viewer.receive(Some(&payload)), Ok(hello));
    let input = ProtocolMessage::InputEvent {
        timestamp: 3,
        event: InputEvent::MouseMove { x: 10, y: -20 },
    };
    let payload = viewer.send(&input).unwrap();
    assert_eq!(host.receive(Some(&payload)), Ok(input));
}

#[test]
fn channel_cannot_open_before_the_answer_is_set() {
    let mut caller = WebRTCTransport::new_as_caller("viewer", "host");
    assert_eq!(caller.step(NegotiationEvent::ChannelOpen), vec![]);
    caller.step(registered("viewer"));
    caller.step(NegotiationEvent::OfferCreated("o".to_string()));
    assert_eq!(caller.step(NegotiationEvent::ChannelOpen), vec![]);
    assert_eq!(caller.phase(), NegotiationPhase::AwaitingAnswer);

    let mut callee = WebRTCTransport::new_as_callee("host");
    callee.step(registered("host"));
    callee.step(NegotiationEvent::Signal(SignalMessage::Offer {
        peer_id: "viewer".to_string(),
        sdp: "o".to_string(),
    }));
    assert_eq!(callee.step(NegotiationEvent::ChannelOpen), vec![]);
    assert_eq!(callee.phase(), NegotiationPhase::Negotiating);
}

#[test]
fn unfinished_negotiation_yields_no_transport() {
    let caller = WebRTCTransport::new_as_caller("viewer", "host");
    match caller.finish() {
        Err(TransportError::ConnectionFailed(_)) => {}
        _ => panic!("a transport came out of an unfinished negotiation"),
    }
    let (caller, _callee) = handshake();
    assert!(caller.finish().is_err());
}

#[test]
fn answer_before_the_offer_was_made_is_passed_over() {
    let mut caller = WebRTCTransport::new_as_caller("viewer", "host");
    caller.step(registered("viewer"));
    let early = NegotiationEvent::Signal(SignalMessage::Answer {
        peer_id: "host".to_string(),
        sdp: "a".to_string(),
    });
    assert_eq!(caller.step(early), vec![]);
    assert_eq!(caller.phase(), NegotiationPhase::AwaitingAnswer);
}

#[test]
fn responder_drops_candidates_that_come_before_the_offer() {
    let mut callee = WebRTCTransport::new_as_callee("host");
    callee.step(registered("host"));
    let early = NegotiationEvent::Signal(SignalMessage::IceCandidate {
        peer_id: "viewer".to_string(),
        candidate: "c".to_string(),
        sdp_mid: None,
        sdp_mline_index: None,
    });
    assert_eq!(callee.step(early), vec![]);
    assert_eq!(callee.step(NegotiationEvent::LocalCandidate(candidate("mine"))), vec![]);
}

#[test]
fn initiator_applies_candidates_while_it_waits_for_the_answer() {
    let mut caller = WebRTCTransport::new_as_caller("viewer", "host");
    caller.step(registered("viewer"));
    caller.step(NegotiationEvent::OfferCreated("o".to_string()));
    let event = NegotiationEvent::Signal(SignalMessage::IceCandidate {
        peer_id: "host".to_string(),
        candidate: "c".to_string(),
        sdp_mid: None,
        sdp_mline_index: Some(2),
    });
    assert_eq!(
        caller.step(event),
        vec![NegotiationAction::AddIceCandidate(IceCandidate {
            candidate: "c".to_string(),
            sdp_mid: None,
            sdp_mline_index: Some(2),
        })]
    );
    assert_eq!(caller.phase(), NegotiationPhase::AwaitingAnswer);
}

#[test]
fn negotiation_fails_instead_of_hanging() {
    for (event, reason) in [
        (NegotiationEvent::ConnectionFailed, AbortReason::ConnectionFailed),
        (NegotiationEvent::SignalingClosed, AbortReason::SignalingClosed),
        (NegotiationEvent::TimedOut, AbortReason::TimedOut),
    ] {
        let mut callee = WebRTCTransport::new_as_callee("host");
        callee.step(registered("host"));
        assert_eq!(callee.step(event.clone()), vec![NegotiationAction::Abort(reason)]);
        assert!(callee.has_failed());
        assert_eq!(callee.step(registered("host")), vec![]);
        assert_eq!(callee.step(event), vec![]);
        assert!(callee.has_failed());
        assert!(callee.finish().is_err());

        let (mut caller, _) = handshake();
        assert_eq!(caller.step(NegotiationEvent::TimedOut), vec![NegotiationAction::Abort(
            AbortReason::TimedOut
        )]);
    }
}

#[test]
fn ready_negotiation_is_not_given_up() {
    let (mut caller, _) = handshake();
    caller.step(NegotiationEvent::ChannelOpen);
    assert_eq!(caller.step(NegotiationEvent::SignalingClosed), vec![]);
    assert_eq!(caller.step(NegotiationEvent::TimedOut), vec![]);
    assert!(caller.is_ready());
}

#[test]
fn signaling_errors_and_registrations_are_passed_over() {
    let (mut caller, _) = handshake();
    assert_eq!(
        caller.step(NegotiationEvent::Signal(SignalMessage::Error { message: "x".to_string() })),
        vec![]
    );
    assert_eq!(
        caller.step(NegotiationEvent::Signal(SignalMessage::Register {
            peer_id: "x".to_string()
        })),
        vec![]
    );
    assert_eq!(caller.step(registered("viewer")), vec![]);
    assert_eq!(caller.phase(), NegotiationPhase::Negotiating);
}

#[test]
fn p2p_transport_reports_closed_and_malformed() {
    let (mut caller, _) = handshake();
    caller.step(NegotiationEvent::ChannelOpen);
    let mut t = caller.finish().unwrap();
    assert!(!t.is_connected(false));
    assert_eq!(t.receive(None), Err(TransportError::Closed));
    assert_eq!(
        t.receive(Some(&[77, 0, 0, 0])),
        Err(TransportError::SerializationError("Deserialize error: invalid tag".to_string()))
    );
    assert_eq!(
        t.send_failed("channel gone"),
        TransportError::ProtocolError("Send error: channel gone".to_string())
    );
    assert_eq!(
        t.close_failed("busy"),
        TransportError::ProtocolError("Close error: busy".to_string())
    );
    t.close();
    assert!(!t.is_connected(true));
    assert_eq!(t.send(&ProtocolMessage::Disconnect), Err(TransportError::Closed));
    assert_eq!(t.receive(Some(&[10, 0, 0, 0])), Err(TransportError::Closed));
}

#[test]
fn data_channel_has_its_label() {
    assert_eq!(data_channel_label(), "remote-desktop");
    assert_eq!(
        stun_servers(),
        vec![
            "stun:stun.l.google.com:19302".to_string(),
            "stun:stun1.l.google.com:19302".to_string()
        ]
    );
    assert_eq!(NEGOTIATION_TIMEOUT_SECS, 30);
    assert_eq!(PAYLOAD_QUEUE_LEN, 64);
}

#[test]
fn signaling_client_registers_first_and_keeps_order() {
    let mut client = SignalingClient::connect("viewer");
    assert_eq!(client.peer_id(), "viewer");
    client.send_offer("host", "sdp-1");
    client.send_ice_candidate("host", "cand", Some("0".to_string()), Some(1));
    client.send_answer("host", "sdp-2");
    assert_eq!(
        client.next_outgoing(),
        Some(SignalMessage::Register { peer_id: "viewer".to_string() })
    );
    assert_eq!(
        client.next_outgoing(),
        Some(SignalMessage::Offer { peer_id: "host".to_string(), sdp: "sdp-1".to_string() })
    );
    assert_eq!(
        client.next_outgoing(),
        Some(SignalMessage::IceCandidate {
            peer_id: "host".to_string(),
            candidate: "cand".to_string(),
            sdp_mid: Some("0".to_string()),
            sdp_mline_index: Some(1),
        })
    );
    assert_eq!(
        client.next_outgoing(),
        Some(SignalMessage::Answer { peer_id: "host".to_string(), sdp: "sdp-2".to_string() })
    );
    assert_eq!(client.next_outgoing(), None);
}

#[test]
fn signaling_client_queues_what_comes_in() {
    let mut client = SignalingClient::connect("viewer");
    assert_eq!(client.recv(), None);
    let a = SignalMessage::Registered { peer_id: "viewer".to_string() };
    let b = SignalMessage::Error { message: "e".to_string() };
    assert!(client.on_socket_event(SocketEvent::Signal(a.clone())));
    assert!(client.on_socket_event(SocketEvent::Unreadable));
    assert!(client.on_socket_event(SocketEvent::Other));
    assert!(client.on_socket_event(SocketEvent::Signal(b.clone())));
    assert!(!client.on_socket_event(SocketEvent::Closed));
    assert!(!client.on_socket_event(SocketEvent::Signal(a.clone())));
    assert_eq!(client.recv(), Some(a));
    assert_eq!(client.recv(), Some(b));
    assert_eq!(client.recv(), None);
    let mut failed = SignalingClient::connect("x");
    assert!(!failed.on_socket_event(SocketEvent::Failed));
    assert!(!failed.on_socket_event(SocketEvent::Other));
}

#[test]
fn directory_registers_stores_and_forwards() {
    let mut channel = PeerChannel::new();
    let unregistered = channel.handle_signal(SignalMessage::Answer {
        peer_id: "viewer".to_string(),
        sdp: "a".to_string(),
    });
    assert_eq!(
        unregistered,
        vec![DirectoryAction::Forward {
            to: "viewer".to_string(),
            message: SignalMessage::Answer { peer_id: String::new(), sdp: "a".to_string() },
        }]
    );
    assert_eq!(
        channel.handle_signal(SignalMessage::Register { peer_id: "host".to_string() }),
        vec![
            DirectoryAction::RegisterPeer { peer_id: "host".to_string() },
            DirectoryAction::Reply(SignalMessage::Registered { peer_id: "host".to_string() }),
        ]
    );
    assert_eq!(
        channel.handle_signal(SignalMessage::Offer {
            peer_id: "host".to_string(),
            sdp: "o".to_string()
        }),
        vec![DirectoryAction::StoreOffer { peer_id: "host".to_string(), sdp: "o".to_string() }]
    );
    assert_eq!(
        channel.handle_signal(SignalMessage::IceCandidate {
            peer_id: "viewer".to_string(),
            candidate: "c".to_string(),
            sdp_mid: None,
            sdp_mline_index: Some(3),
        }),
        vec![DirectoryAction::Forward {
            to: "viewer".to_string(),
            message: SignalMessage::IceCandidate {
                peer_id: "host".to_string(),
                candidate: "c".to_string(),
                sdp_mid: None,
                sdp_mline_index: Some(3),
            },
        }]
    );
    assert_eq!(
        channel.handle_signal(SignalMessage::Error { message: "m".to_string() }),
        vec![]
    );
    assert_eq!(
        channel.handle_disconnect(),
        vec![
            DirectoryAction::RemovePeer { peer_id: "host".to_string() },
            DirectoryAction::RemoveOffer { peer_id: "host".to_string() },
        ]
    );
    assert_eq!(channel.handle_disconnect(), vec![]);
}

#[test]
fn directory_answers_unreadable_text_with_an_error() {
    assert_eq!(
        PeerChannel::invalid_message("expected value at line 1"),
        SignalMessage::Error { message: "Invalid message: expected value at line 1".to_string() }
    );
}
