//! Domain model: identifiers, sessions, frames, input events and codec settings.

use crate::text::lower_hex;
use vstd::prelude::*;

verus! {

// ---------------------------------------------------------------------------
// Identifiers
// ---------------------------------------------------------------------------

/// A session identifier: the 128 bits of a UUID, most significant byte first.
#[derive(Debug, Clone, Copy, PartialEq, Eq, Hash, Structural)]
pub struct SessionId(pub u128);

/// The version nibble of a 128-bit UUID value (bits 76..80).
pub open spec fn uuid_version(bits: u128) -> int {
    (bits as int / 0x1000_0000_0000_0000_0000) % 16
}

/// The two variant bits of a 128-bit UUID value (bits 62..64).
pub open spec fn uuid_variant(bits: u128) -> int {
    (bits as int / 0x4000_0000_0000_0000) % 4
}

/// True for the values a random (version 4, RFC 4122 variant) UUID can take.
pub open spec fn is_random_uuid(bits: u128) -> bool {
    uuid_version(bits) == 4 && uuid_variant(bits) == 2
}

/// `uuid::Uuid::new_v4().as_u128()`: draws 128 random bits and then forces the
/// version nibble to 4 and the variant bits to `10`. Nothing else is claimed of
/// the value: two calls may return anything of that shape. The call panics
/// where the system has no random bytes to give.
#[verifier::external_body]
fn random_uuid_bits() -> (bits: u128)
    ensures
        is_random_uuid(bits),
{
    uuid::Uuid::new_v4().as_u128()
}

/// The text of a UUID: its 32 hexadecimal digits in lower case, the most
/// significant first, in groups of 8, 4, 4, 4 and 12 with a hyphen between
/// two groups.
pub open spec fn uuid_text(bits: u128) -> Seq<char> {
    let digits = lower_hex(bits as nat, 32);
    digits.subrange(0, 8) + seq!['-'] + digits.subrange(8, 12) + seq!['-'] + digits.subrange(
        12,
        16,
    ) + seq!['-'] + digits.subrange(16, 20) + seq!['-'] + digits.subrange(20, 32)
}

/// `uuid::Uuid::from_u128(bits).to_string()`: the hyphenated lower-case form of
/// the identifier, 36 characters long.
#[verifier::external_body]
fn format_uuid(bits: u128) -> (text: String)
    ensures
        text@ == uuid_text(bits),
{
    uuid::Uuid::from_u128(bits).to_string()
}

impl SessionId {
    /// A fresh random identifier.
    pub fn new() -> (id: SessionId)
        ensures
            is_random_uuid(id.0),
    {
        SessionId(random_uuid_bits())
    }

    /// The hyphenated text form of the identifier.
    pub fn to_text(&self) -> (text: String)
        ensures
            text@ == uuid_text(self.0),
    {
        format_uuid(self.0)
    }
}

impl Default for SessionId {
    fn default() -> (id: SessionId)
        ensures
            is_random_uuid(id.0),
    {
        SessionId::new()
    }
}

/// The name under which a peer is known; its view is the text.
#[derive(Debug, Clone, PartialEq, Eq, Hash)]
pub struct PeerId(pub String);

impl View for PeerId {
    type V = Seq<char>;

    open spec fn view(&self) -> Seq<char> {
        self.0@
    }
}

impl PeerId {
    /// A peer identifier with the given text.
    pub fn new(id: String) -> (peer: PeerId)
        ensures
            peer@ == id@,
    {
        PeerId(id)
    }

    /// The identifier as text.
    pub fn to_text(&self) -> (text: String)
        ensures
            text@ == self@,
    {
        self.0.clone()
    }

    /// A copy of the identifier.
    pub fn duplicate(&self) -> (copy: PeerId)
        ensures
            copy@ == self@,
    {
        PeerId(self.0.clone())
    }
}

// ---------------------------------------------------------------------------
// Session
// ---------------------------------------------------------------------------

/// Where a session stands in its life.
#[derive(Debug, Clone, Copy, PartialEq, Eq, Structural)]
pub enum SessionStatus {
    Pending,
    Active,
    Paused,
    Closed,
}

/// A negotiated session between a client and an agent. `created_at` is the
/// creation time in milliseconds since the Unix epoch (UTC).
#[derive(Debug, Clone, PartialEq, Eq)]
pub struct Session {
    pub id: SessionId,
    pub client: PeerId,
    pub agent: PeerId,
    pub created_at: i64,
    pub status: SessionStatus,
}

/// The mathematical value of a [`Session`].
pub struct SessionView {
    pub id: SessionId,
    pub client: Seq<char>,
    pub agent: Seq<char>,
    pub created_at: i64,
    pub status: SessionStatus,
}

impl View for Session {
    type V = SessionView;

    open spec fn view(&self) -> SessionView {
        SessionView {
            id: self.id,
            client: self.client@,
            agent: self.agent@,
            created_at: self.created_at,
            status: self.status,
        }
    }
}

impl Session {
    /// A copy of the session.
    pub fn duplicate(&self) -> (copy: Session)
        ensures
            copy@ == self@,
    {
        Session {
            id: self.id,
            client: self.client.duplicate(),
            agent: self.agent.duplicate(),
            created_at: self.created_at,
            status: self.status,
        }
    }
}

// ---------------------------------------------------------------------------
// Peer and device information
// ---------------------------------------------------------------------------

/// The operating system of a device.
#[derive(Debug, Clone, Copy, PartialEq, Eq, Structural)]
pub enum Platform {
    Windows,
    Linux,
    MacOS,
    Android,
    IOS,
}

/// What a device can do.
#[derive(Debug, Clone, Copy, PartialEq, Eq, Structural)]
pub struct Capabilities {
    pub screen_capture: bool,
    pub input_injection: bool,
    pub audio_capture: bool,
    pub file_transfer: bool,
}

impl Default for Capabilities {
    fn default() -> (caps: Capabilities)
        ensures
            caps == (Capabilities {
                screen_capture: true,
                input_injection: true,
                audio_capture: false,
                file_transfer: false,
            }),
    {
        Capabilities {
            screen_capture: true,
            input_injection: true,
            audio_capture: false,
            file_transfer: false,
        }
    }
}

/// A registered device. `last_seen` is in milliseconds since the Unix epoch.
#[derive(Debug, Clone, PartialEq, Eq)]
pub struct Peer {
    pub id: PeerId,
    pub device_id: String,
    pub display_name: String,
    pub platform: Platform,
    pub capabilities: Capabilities,
    pub last_seen: i64,
}

/// One display of a host.
#[derive(Debug, Clone, PartialEq, Eq)]
pub struct DisplayInfo {
    pub id: u32,
    pub name: String,
    pub width: u32,
    pub height: u32,
    pub x: i32,
    pub y: i32,
    pub is_primary: bool,
}

// ---------------------------------------------------------------------------
// Screen frame
// ---------------------------------------------------------------------------

/// How the bytes of a frame are to be read.
#[derive(Debug, Clone, Copy, PartialEq, Eq, Structural)]
pub enum FrameFormat {
    Raw,
    Jpeg,
    H264,
    VP8,
    AV1,
}

/// One captured or decoded image.
#[derive(Debug, Clone, PartialEq, Eq)]
pub struct ScreenFrame {
    pub sequence: u64,
    pub timestamp: u64,
    pub data: Vec<u8>,
    pub width: u32,
    pub height: u32,
    pub format: FrameFormat,
}

/// The mathematical value of a [`ScreenFrame`].
pub struct ScreenFrameView {
    pub sequence: u64,
    pub timestamp: u64,
    pub data: Seq<u8>,
    pub width: u32,
    pub height: u32,
    pub format: FrameFormat,
}

impl View for ScreenFrame {
    type V = ScreenFrameView;

    open spec fn view(&self) -> ScreenFrameView {
        ScreenFrameView {
            sequence: self.sequence,
            timestamp: self.timestamp,
            data: self.data@,
            width: self.width,
            height: self.height,
            format: self.format,
        }
    }
}

// ---------------------------------------------------------------------------
// Input events
// ---------------------------------------------------------------------------

/// A button of the mouse.
#[derive(Debug, Clone, Copy, PartialEq, Eq, Structural)]
pub enum MouseButton {
    Left,
    Right,
    Middle,
    X1,
    X2,
}

/// A platform-neutral key code.
#[derive(Debug, Clone, Copy, PartialEq, Eq, Structural)]
pub struct KeyCode(pub u32);

impl KeyCode {
    /// The Escape key.
    pub fn escape() -> (key: KeyCode)
        ensures
            key == KeyCode(0x01),
    {
        KeyCode(0x01)
    }

    /// The Enter key.
    pub fn enter() -> (key: KeyCode)
        ensures
            key == KeyCode(0x1C),
    {
        KeyCode(0x1C)
    }

    /// The Space key.
    pub fn space() -> (key: KeyCode)
        ensures
            key == KeyCode(0x39),
    {
        KeyCode(0x39)
    }

    /// The Backspace key.
    pub fn backspace() -> (key: KeyCode)
        ensures
            key == KeyCode(0x0E),
    {
        KeyCode(0x0E)
    }

    /// The Tab key.
    pub fn tab() -> (key: KeyCode)
        ensures
            key == KeyCode(0x0F),
    {
        KeyCode(0x0F)
    }

    /// The letter A.
    pub fn a() -> (key: KeyCode)
        ensures
            key == KeyCode(0x1E),
    {
        KeyCode(0x1E)
    }

    /// The letter B.
    pub fn b() -> (key: KeyCode)
        ensures
            key == KeyCode(0x30),
    {
        KeyCode(0x30)
    }

    /// The letter C.
    pub fn c() -> (key: KeyCode)
        ensures
            key == KeyCode(0x2E),
    {
        KeyCode(0x2E)
    }
}

/// One input of the viewer.
#[derive(Debug, Clone, Copy, PartialEq, Eq, Structural)]
pub enum InputEvent {
    MouseMove { x: i32, y: i32 },
    MouseButton { button: MouseButton, pressed: bool },
    MouseScroll { delta_x: i32, delta_y: i32 },
    KeyPress { key: KeyCode, pressed: bool },
}

/// An input event and the time at which it was made.
#[derive(Debug, Clone, Copy, PartialEq, Eq, Structural)]
pub struct InputEventData {
    pub timestamp: u64,
    pub event: InputEvent,
}

// ---------------------------------------------------------------------------
// Codec configuration
// ---------------------------------------------------------------------------

/// A way to compress frames.
#[derive(Debug, Clone, Copy, PartialEq, Eq, Structural)]
pub enum CodecType {
    Jpeg,
    H264,
    VP8,
    AV1,
}

/// An encoder's settings: the codec, the quality from 1 to 100, the frame
/// rate aimed at, and a bit rate for the codecs that take one.
#[derive(Debug, Clone, Copy, PartialEq, Eq, Structural)]
pub struct EncoderConfig {
    pub codec: CodecType,
    pub quality: u8,
    pub target_fps: u8,
    pub bitrate: Option<u32>,
}

impl Default for EncoderConfig {
    fn default() -> (config: EncoderConfig)
        ensures
            config == (EncoderConfig {
                codec: CodecType::Jpeg,
                quality: 80,
                target_fps: 30,
                bitrate: None,
            }),
    {
        EncoderConfig { codec: CodecType::Jpeg, quality: 80, target_fps: 30, bitrate: None }
    }
}

// ---------------------------------------------------------------------------
// Authentication
// ---------------------------------------------------------------------------

/// A credential bound to a device.
#[derive(Debug, Clone, PartialEq, Eq)]
pub struct AuthToken {
    pub token: String,
    pub device_id: String,
}

/// The mathematical value of an [`AuthToken`].
pub struct AuthTokenView {
    pub token: Seq<char>,
    pub device_id: Seq<char>,
}

impl View for AuthToken {
    type V = AuthTokenView;

    open spec fn view(&self) -> AuthTokenView {
        AuthTokenView { token: self.token@, device_id: self.device_id@ }
    }
}

impl AuthToken {
    /// A credential for a device.
    pub fn new(token: String, device_id: String) -> (auth: AuthToken)
        ensures
            auth@ == (AuthTokenView { token: token@, device_id: device_id@ }),
    {
        AuthToken { token, device_id }
    }
}

} // verus!
