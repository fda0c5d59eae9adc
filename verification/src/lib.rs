//! Transport and session core of a remote-desktop system: the wire message
//! model and its binary codec, length-prefixed framing, the peer-to-peer
//! negotiation state machine and the session orchestration decisions.

pub mod clock;
pub mod config;
pub mod desktop;
pub mod error;
pub mod framing;
pub mod input_injection;
pub mod input_router;
pub mod jpeg;
pub mod message;
pub mod models;
pub mod peer_id;
pub mod ports;
pub mod protocol;
pub mod quic;
pub mod relay;
pub mod screen_capture;
pub mod server_state;
pub mod session;
pub mod session_manager;
pub mod signaling;
pub mod signaling_server;
pub mod stream_controller;
pub mod text;
pub mod webrtc;
pub mod wire;
