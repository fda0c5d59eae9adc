//! The error taxonomy: one enumeration per kind of failure, and the
//! application error that can carry any of them.

use crate::models::{uuid_text, CodecType, PeerId, SessionId};
use crate::text::{decimal, decimal_text, join};
use vstd::prelude::*;
use vstd::std_specs::convert::FromSpecImpl;

verus! {

/// A domain rule was broken.
#[derive(Debug, Clone, PartialEq, Eq)]
pub enum DomainError {
    SessionNotFound(SessionId),
    PeerNotFound(PeerId),
    Unauthorized,
    InvalidState(String),
    SessionAlreadyExists(SessionId),
}

/// Screen capture failed.
#[derive(Debug, Clone, PartialEq, Eq)]
pub enum CaptureError {
    DisplayNotFound(u32),
    CaptureFailed(String),
    UnsupportedPlatform,
    PermissionDenied,
    InitializationFailed(String),
}

/// Input injection failed.
#[derive(Debug, Clone, PartialEq, Eq)]
pub enum InjectionError {
    InjectionFailed(String),
    UnsupportedPlatform,
    PermissionDenied,
    InvalidEvent(String),
    InitializationFailed(String),
    UnsupportedEvent,
}

/// Encoding or decoding an image failed.
#[derive(Debug, Clone, PartialEq, Eq)]
pub enum CodecError {
    EncodingFailed(String),
    DecodingFailed(String),
    UnsupportedCodec(CodecType),
    InvalidConfig(String),
    Other(String),
}

/// A transport could not carry a message. `IoError` holds the text of the
/// failure that the underlying stream reported.
#[derive(Debug, Clone, PartialEq, Eq)]
pub enum TransportError {
    ConnectionFailed(String),
    Timeout,
    Closed,
    ProtocolError(String),
    SerializationError(String),
    IoError(String),
}

/// A credential was not accepted.
#[derive(Debug, Clone, PartialEq, Eq)]
pub enum AuthError {
    InvalidToken,
    TokenExpired,
    AuthenticationFailed(String),
    TokenGenerationFailed(String),
}

/// The session store failed.
#[derive(Debug, Clone, PartialEq, Eq)]
pub enum RepositoryError {
    DatabaseError(String),
    SerializationError(String),
    NotFound,
    ConstraintViolation(String),
}

/// Any failure of an application-level operation. The variant tells a caller
/// whether something was not found, not allowed, or broken underneath.
#[derive(Debug, Clone, PartialEq, Eq)]
pub enum ApplicationError {
    Domain(DomainError),
    Capture(CaptureError),
    Injection(InjectionError),
    Codec(CodecError),
    Transport(TransportError),
    Auth(AuthError),
    Repository(RepositoryError),
    ConfigError(String),
    Internal(String),
}

impl From<DomainError> for ApplicationError {
    fn from(e: DomainError) -> (err: ApplicationError) {
        ApplicationError::Domain(e)
    }
}

impl FromSpecImpl<DomainError> for ApplicationError {
    open spec fn obeys_from_spec() -> bool {
        true
    }

    open spec fn from_spec(e: DomainError) -> ApplicationError {
        ApplicationError::Domain(e)
    }
}

impl From<CaptureError> for ApplicationError {
    fn from(e: CaptureError) -> (err: ApplicationError) {
        ApplicationError::Capture(e)
    }
}

impl FromSpecImpl<CaptureError> for ApplicationError {
    open spec fn obeys_from_spec() -> bool {
        true
    }

    open spec fn from_spec(e: CaptureError) -> ApplicationError {
        ApplicationError::Capture(e)
    }
}

impl From<InjectionError> for ApplicationError {
    fn from(e: InjectionError) -> (err: ApplicationError) {
        ApplicationError::Injection(e)
    }
}

impl FromSpecImpl<InjectionError> for ApplicationError {
    open spec fn obeys_from_spec() -> bool {
        true
    }

    open spec fn from_spec(e: InjectionError) -> ApplicationError {
        ApplicationError::Injection(e)
    }
}

impl From<CodecError> for ApplicationError {
    fn from(e: CodecError) -> (err: ApplicationError) {
        ApplicationError::Codec(e)
    }
}

impl FromSpecImpl<CodecError> for ApplicationError {
    open spec fn obeys_from_spec() -> bool {
        true
    }

    open spec fn from_spec(e: CodecError) -> ApplicationError {
        ApplicationError::Codec(e)
    }
}

impl From<TransportError> for ApplicationError {
    fn from(e: TransportError) -> (err: ApplicationError) {
        ApplicationError::Transport(e)
    }
}

impl FromSpecImpl<TransportError> for ApplicationError {
    open spec fn obeys_from_spec() -> bool {
        true
    }

    open spec fn from_spec(e: TransportError) -> ApplicationError {
        ApplicationError::Transport(e)
    }
}

impl From<AuthError> for ApplicationError {
    fn from(e: AuthError) -> (err: ApplicationError) {
        ApplicationError::Auth(e)
    }
}

impl FromSpecImpl<AuthError> for ApplicationError {
    open spec fn obeys_from_spec() -> bool {
        true
    }

    open spec fn from_spec(e: AuthError) -> ApplicationError {
        ApplicationError::Auth(e)
    }
}

impl From<RepositoryError> for ApplicationError {
    fn from(e: RepositoryError) -> (err: ApplicationError) {
        ApplicationError::Repository(e)
    }
}

impl FromSpecImpl<RepositoryError> for ApplicationError {
    open spec fn obeys_from_spec() -> bool {
        true
    }

    open spec fn from_spec(e: RepositoryError) -> ApplicationError {
        ApplicationError::Repository(e)
    }
}

/// The name of a codec.
pub open spec fn codec_name(codec: CodecType) -> Seq<char> {
    match codec {
        CodecType::Jpeg => "Jpeg"@,
        CodecType::H264 => "H264"@,
        CodecType::VP8 => "VP8"@,
        CodecType::AV1 => "AV1"@,
    }
}

fn codec_label(codec: CodecType) -> (name: &'static str)
    ensures
        name@ == codec_name(codec),
{
    match codec {
        CodecType::Jpeg => "Jpeg",
        CodecType::H264 => "H264",
        CodecType::VP8 => "VP8",
        CodecType::AV1 => "AV1",
    }
}

impl DomainError {
    /// The sentence that describes the error.
    pub open spec fn text(self) -> Seq<char> {
        match self {
            DomainError::SessionNotFound(id) => "Session not found: "@ + uuid_text(id.0),
            DomainError::PeerNotFound(peer) => "Peer not found: "@ + peer@,
            DomainError::Unauthorized => "Unauthorized access"@,
            DomainError::InvalidState(detail) => "Invalid session state: "@ + detail@,
            DomainError::SessionAlreadyExists(id) => "Session already exists: "@ + uuid_text(id.0),
        }
    }

    /// The sentence that describes the error.
    pub fn to_text(&self) -> (text: String)
        ensures
            text@ == self.text(),
    {
        match self {
            DomainError::SessionNotFound(id) => join("Session not found: ", id.to_text().as_str()),
            DomainError::PeerNotFound(peer) => join("Peer not found: ", peer.0.as_str()),
            DomainError::Unauthorized => "Unauthorized access".to_owned(),
            DomainError::InvalidState(detail) => join("Invalid session state: ", detail.as_str()),
            DomainError::SessionAlreadyExists(id) => join(
                "Session already exists: ",
                id.to_text().as_str(),
            ),
        }
    }
}

impl CaptureError {
    /// The sentence that describes the error.
    pub open spec fn text(self) -> Seq<char> {
        match self {
            CaptureError::DisplayNotFound(id) => "Display not found: "@ + decimal(id as nat),
            CaptureError::CaptureFailed(detail) => "Screen capture failed: "@ + detail@,
            CaptureError::UnsupportedPlatform => "Unsupported platform"@,
            CaptureError::PermissionDenied => "Permission denied"@,
            CaptureError::InitializationFailed(detail) => "Initialization failed: "@ + detail@,
        }
    }

    /// The sentence that describes the error.
    pub fn to_text(&self) -> (text: String)
        ensures
            text@ == self.text(),
    {
        match self {
            CaptureError::DisplayNotFound(id) => join(
                "Display not found: ",
                decimal_text(*id).as_str(),
            ),
            CaptureError::CaptureFailed(detail) => join("Screen capture failed: ", detail.as_str()),
            CaptureError::UnsupportedPlatform => "Unsupported platform".to_owned(),
            CaptureError::PermissionDenied => "Permission denied".to_owned(),
            CaptureError::InitializationFailed(detail) => join(
                "Initialization failed: ",
                detail.as_str(),
            ),
        }
    }
}

impl InjectionError {
    /// The sentence that describes the error.
    pub open spec fn text(self) -> Seq<char> {
        match self {
            InjectionError::InjectionFailed(detail) => "Input injection failed: "@ + detail@,
            InjectionError::UnsupportedPlatform => "Unsupported platform"@,
            InjectionError::PermissionDenied => "Permission denied"@,
            InjectionError::InvalidEvent(detail) => "Invalid input event: "@ + detail@,
            InjectionError::InitializationFailed(detail) => "Initialization failed: "@ + detail@,
            InjectionError::UnsupportedEvent => "Unsupported event type"@,
        }
    }

    /// The sentence that describes the error.
    pub fn to_text(&self) -> (text: String)
        ensures
            text@ == self.text(),
    {
        match self {
            InjectionError::InjectionFailed(detail) => join(
                "Input injection failed: ",
                detail.as_str(),
            ),
            InjectionError::UnsupportedPlatform => "Unsupported platform".to_owned(),
            InjectionError::PermissionDenied => "Permission denied".to_owned(),
            InjectionError::InvalidEvent(detail) => join("Invalid input event: ", detail.as_str()),
            InjectionError::InitializationFailed(detail) => join(
                "Initialization failed: ",
                detail.as_str(),
            ),
            InjectionError::UnsupportedEvent => "Unsupported event type".to_owned(),
        }
    }
}

impl CodecError {
    /// The sentence that describes the error.
    pub open spec fn text(self) -> Seq<char> {
        match self {
            CodecError::EncodingFailed(detail) => "Encoding failed: "@ + detail@,
            CodecError::DecodingFailed(detail) => "Decoding failed: "@ + detail@,
            CodecError::UnsupportedCodec(codec) => "Unsupported codec: "@ + codec_name(codec),
            CodecError::InvalidConfig(detail) => "Invalid configuration: "@ + detail@,
            CodecError::Other(detail) => "Codec error: "@ + detail@,
        }
    }

    /// The sentence that describes the error.
    pub fn to_text(&self) -> (text: String)
        ensures
            text@ == self.text(),
    {
        match self {
            CodecError::EncodingFailed(detail) => join("Encoding failed: ", detail.as_str()),
            CodecError::DecodingFailed(detail) => join("Decoding failed: ", detail.as_str()),
            CodecError::UnsupportedCodec(codec) => join("Unsupported codec: ", codec_label(*codec)),
            CodecError::InvalidConfig(detail) => join("Invalid configuration: ", detail.as_str()),
            CodecError::Other(detail) => join("Codec error: ", detail.as_str()),
        }
    }
}

impl TransportError {
    /// The sentence that describes the error.
    pub open spec fn text(self) -> Seq<char> {
        match self {
            TransportError::ConnectionFailed(detail) => "Connection failed: "@ + detail@,
            TransportError::Timeout => "Connection timeout"@,
            TransportError::Closed => "Connection closed"@,
            TransportError::ProtocolError(detail) => "Protocol error: "@ + detail@,
            TransportError::SerializationError(detail) => "Serialization error: "@ + detail@,
            TransportError::IoError(detail) => "IO error: "@ + detail@,
        }
    }

    /// The sentence that describes the error.
    pub fn to_text(&self) -> (text: String)
        ensures
            text@ == self.text(),
    {
        match self {
            TransportError::ConnectionFailed(detail) => join(
                "Connection failed: ",
                detail.as_str(),
            ),
            TransportError::Timeout => "Connection timeout".to_owned(),
            TransportError::Closed => "Connection closed".to_owned(),
            TransportError::ProtocolError(detail) => join("Protocol error: ", detail.as_str()),
            TransportError::SerializationError(detail) => join(
                "Serialization error: ",
                detail.as_str(),
            ),
            TransportError::IoError(detail) => join("IO error: ", detail.as_str()),
        }
    }
}

impl AuthError {
    /// The sentence that describes the error.
    pub open spec fn text(self) -> Seq<char> {
        match self {
            AuthError::InvalidToken => "Invalid token"@,
            AuthError::TokenExpired => "Token expired"@,
            AuthError::AuthenticationFailed(detail) => "Authentication failed: "@ + detail@,
            AuthError::TokenGenerationFailed(detail) => "Token generation failed: "@ + detail@,
        }
    }

    /// The sentence that describes the error.
    pub fn to_text(&self) -> (text: String)
        ensures
            text@ == self.text(),
    {
        match self {
            AuthError::InvalidToken => "Invalid token".to_owned(),
            AuthError::TokenExpired => "Token expired".to_owned(),
            AuthError::AuthenticationFailed(detail) => join(
                "Authentication failed: ",
                detail.as_str(),
            ),
            AuthError::TokenGenerationFailed(detail) => join(
                "Token generation failed: ",
                detail.as_str(),
            ),
        }
    }
}

impl RepositoryError {
    /// The sentence that describes the error.
    pub open spec fn text(self) -> Seq<char> {
        match self {
            RepositoryError::DatabaseError(detail) => "Database error: "@ + detail@,
            RepositoryError::SerializationError(detail) => "Serialization error: "@ + detail@,
            RepositoryError::NotFound => "Not found"@,
            RepositoryError::ConstraintViolation(detail) => "Constraint violation: "@ + detail@,
        }
    }

    /// The sentence that describes the error.
    pub fn to_text(&self) -> (text: String)
        ensures
            text@ == self.text(),
    {
        match self {
            RepositoryError::DatabaseError(detail) => join("Database error: ", detail.as_str()),
            RepositoryError::SerializationError(detail) => join(
                "Serialization error: ",
                detail.as_str(),
            ),
            RepositoryError::NotFound => "Not found".to_owned(),
            RepositoryError::ConstraintViolation(detail) => join(
                "Constraint violation: ",
                detail.as_str(),
            ),
        }
    }
}

impl ApplicationError {
    /// The sentence that describes the error: its kind, then the sentence of the error inside.
    pub open spec fn text(self) -> Seq<char> {
        match self {
            ApplicationError::Domain(e) => "Domain error: "@ + e.text(),
            ApplicationError::Capture(e) => "Capture error: "@ + e.text(),
            ApplicationError::Injection(e) => "Injection error: "@ + e.text(),
            ApplicationError::Codec(e) => "Codec error: "@ + e.text(),
            ApplicationError::Transport(e) => "Transport error: "@ + e.text(),
            ApplicationError::Auth(e) => "Auth error: "@ + e.text(),
            ApplicationError::Repository(e) => "Repository error: "@ + e.text(),
            ApplicationError::ConfigError(detail) => "Configuration error: "@ + detail@,
            ApplicationError::Internal(detail) => "Internal error: "@ + detail@,
        }
    }

    /// The sentence that describes the error: its kind, then the sentence of the error inside.
    pub fn to_text(&self) -> (text: String)
        ensures
            text@ == self.text(),
    {
        match self {
            ApplicationError::Domain(e) => join("Domain error: ", e.to_text().as_str()),
            ApplicationError::Capture(e) => join("Capture error: ", e.to_text().as_str()),
            ApplicationError::Injection(e) => join("Injection error: ", e.to_text().as_str()),
            ApplicationError::Codec(e) => join("Codec error: ", e.to_text().as_str()),
            ApplicationError::Transport(e) => join("Transport error: ", e.to_text().as_str()),
            ApplicationError::Auth(e) => join("Auth error: ", e.to_text().as_str()),
            ApplicationError::Repository(e) => join("Repository error: ", e.to_text().as_str()),
            ApplicationError::ConfigError(detail) => join("Configuration error: ", detail.as_str()),
            ApplicationError::Internal(detail) => join("Internal error: ", detail.as_str()),
        }
    }
}

} // verus!
