//! The decisions behind the host's HTTP and websocket endpoints: PIN choice
//! for `/session/create`, the answers of `/session/status`, the screening of
//! websocket frames and the session updates that peer-connection changes
//! cause.
use vstd::prelude::*;

use rand::Rng;

use crate::cli::{bad_pin_message, is_pin, is_valid_pin};
use crate::session::{
    advanced, error_outcome, opt_text, reports, seconds_left, status_outcome, SessionManager,
    SessionRecord, SessionStatus, SessionView, SessionsView,
};
use crate::text::{
    all_ascii_digits, decimal_text, lemma_decimal_text_is_digits, lemma_decimal_text_len,
    zero_padded, zero_padded_string,
};

verus! {

/// How long a session that is not streaming survives without activity (60 s).
pub const SESSION_TTL_NANOS: u64 = 60_000_000_000;

/// How often lapsed sessions are looked for (5 s).
pub const SESSION_CLEANUP_INTERVAL_SECS: u64 = 5;

/// How long the host waits for the client's first websocket message (10 s).
pub const SIGNAL_FIRST_MESSAGE_TIMEOUT_SECS: u64 = 10;

/// The largest signalling payload accepted, in bytes.
pub const MAX_SIGNAL_PAYLOAD: usize = 128 * 1024;

/// How `host` was asked to run.
#[derive(Debug, Clone)]
pub struct HostConfig {
    pub port: u16,
    pub pin: String,
    pub input_selector: Option<String>,
}

/// The errors the HTTP endpoints answer with.
#[derive(Debug, Clone, Copy, PartialEq, Eq, Structural)]
pub enum ApiErrorKind {
    /// The PIN is not six digits (HTTP 400).
    BadPin,
    /// No session has the requested id (HTTP 404).
    SessionNotFound,
}

/// An error body: a stable code and a human-readable message.
pub struct ApiError {
    pub kind: ApiErrorKind,
    pub code: String,
    pub message: String,
}

pub open spec fn api_error_code(kind: ApiErrorKind) -> Seq<char> {
    match kind {
        ApiErrorKind::BadPin => "BAD_PIN"@,
        ApiErrorKind::SessionNotFound => "SESSION_NOT_FOUND"@,
    }
}

pub open spec fn api_error_message(kind: ApiErrorKind) -> Seq<char> {
    match kind {
        ApiErrorKind::BadPin => bad_pin_message(),
        ApiErrorKind::SessionNotFound => "Session not found"@,
    }
}

pub open spec fn api_error_status(kind: ApiErrorKind) -> u16 {
    match kind {
        ApiErrorKind::BadPin => 400,
        ApiErrorKind::SessionNotFound => 404,
    }
}

/// `e` is the error body of `kind`.
pub open spec fn is_api_error(e: ApiError, kind: ApiErrorKind) -> bool {
    e.kind == kind && e.code@ == api_error_code(kind) && e.message@ == api_error_message(kind)
}

impl ApiError {
    /// The error body of `kind`.
    pub fn new(kind: ApiErrorKind) -> (e: ApiError)
        ensures
            is_api_error(e, kind),
    {
        match kind {
            ApiErrorKind::BadPin => ApiError {
                kind,
                code: String::from_str("BAD_PIN"),
                message: String::from_str("PIN must contain exactly 6 digits"),
            },
            ApiErrorKind::SessionNotFound => ApiError {
                kind,
                code: String::from_str("SESSION_NOT_FOUND"),
                message: String::from_str("Session not found"),
            },
        }
    }

    /// The HTTP status the error is answered with.
    pub fn status_code(&self) -> (s: u16)
        ensures
            s == api_error_status(self.kind),
    {
        match self.kind {
            ApiErrorKind::BadPin => 400,
            ApiErrorKind::SessionNotFound => 404,
        }
    }
}

/// A random integer in `[0, bound)`, from `rand::thread_rng().gen_range`.
/// The value is random; the contract claims only its range.
#[verifier::external_body]
fn random_below(bound: i32) -> (n: i32)
    requires
        bound > 0,
    ensures
        0 <= n < bound,
{
    rand::thread_rng().gen_range(0..bound)
}

proof fn lemma_padded_pin(n: nat)
    requires
        n < 1_000_000,
    ensures
        is_pin(zero_padded(n, 6)),
{
    assert(vstd::arithmetic::power::pow(10, 6) == 1_000_000) by {
        reveal_with_fuel(vstd::arithmetic::power::pow, 7);
    }
    lemma_decimal_text_len(n, 6, 1_000_000);
    lemma_decimal_text_is_digits(n);
    let d = decimal_text(n);
    let p = zero_padded(n, 6);
    assert(all_ascii_digits(p)) by {
        if d.len() < 6 {
            let z = Seq::new((6 - d.len()) as nat, |_i: int| '0');
            assert(p == z + d);
            assert forall|i: int| 0 <= i < p.len() implies crate::text::is_ascii_digit(#[trigger] p[i]) by {
                if i < z.len() {
                    assert(p[i] == '0');
                } else {
                    assert(p[i] == d[i - z.len()]);
                }
            }
        }
    }
}

/// A random six-digit PIN, as `format!("{:06}", n)` of a random `n` below
/// one million.
pub fn generate_pin() -> (p: String)
    ensures
        is_pin(p@),
        exists|n: nat| n < 1_000_000 && p@ == #[trigger] zero_padded(n, 6),
{
    let n: i32 = random_below(1_000_000);
    let p = zero_padded_string(n as u64, 6);
    proof {
        lemma_padded_pin(n as nat);
    }
    p
}

/// The PIN a session is created with: the one the client asked for, or a
/// random one when it asked for none (or sent no readable body).
pub fn session_pin(requested: Option<String>) -> (r: Result<String, ApiError>)
    ensures
        match requested {
            Some(p) => match r {
                Ok(q) => is_pin(p@) && q@ == p@,
                Err(e) => !is_pin(p@) && is_api_error(e, ApiErrorKind::BadPin),
            },
            None => r matches Ok(q) && is_pin(q@),
        },
{
    let pin = match requested {
        Some(p) => p,
        None => generate_pin(),
    };
    if !is_valid_pin(pin.as_str()) {
        return Err(ApiError::new(ApiErrorKind::BadPin));
    }
    Ok(pin)
}

/// The body of a successful `POST /session/create`.
pub struct SessionCreateResponse {
    pub session_id: u128,
    pub session_code: String,
    pub expires_in_seconds: u64,
    pub status: SessionStatus,
}

/// `POST /session/create`: picks the PIN (see `session_pin`), starts a new
/// session with it and reports the session. A malformed PIN is refused with
/// `BAD_PIN` and leaves the sessions untouched.
pub fn create_session_handler(sessions: &mut SessionManager, requested_pin: Option<String>) -> (r: Result<SessionCreateResponse, ApiError>)
    ensures
        match r {
            Err(e) => {
                &&& requested_pin matches Some(p) && !is_pin(p@)
                &&& is_api_error(e, ApiErrorKind::BadPin)
                &&& final(sessions)@ == old(sessions)@
            },
            Ok(resp) => {
                &&& is_pin(resp.session_code@)
                &&& (requested_pin matches Some(p) ==> resp.session_code@ == p@)
                &&& resp.status == SessionStatus::Waiting
                &&& final(sessions)@.ttl == old(sessions)@.ttl
                &&& final(sessions)@.connection_active == old(sessions)@.connection_active
                &&& final(sessions)@.latest >= old(sessions)@.latest
                &&& final(sessions)@.session matches Some(s) && {
                    &&& s.id == resp.session_id
                    &&& s.code == resp.session_code@
                    &&& s.status == SessionStatus::Waiting
                    &&& s.error is None
                    &&& old(sessions)@.latest <= s.last_activity <= final(sessions)@.latest
                    &&& resp.expires_in_seconds == seconds_left(s, old(sessions)@.ttl, final(sessions)@.latest)
                }
            },
        },
{
    let pin = match session_pin(requested_pin) {
        Ok(p) => p,
        Err(e) => return Err(e),
    };
    let created = sessions.create_session(pin);
    Ok(
        SessionCreateResponse {
            session_id: created.id,
            session_code: created.session_code,
            expires_in_seconds: created.expires_in_seconds,
            status: created.status,
        },
    )
}

/// `GET /session/status?id=..`: the report of the session with that id, or
/// `SESSION_NOT_FOUND`.
pub fn session_status_handler(sessions: &SessionManager, id: u128) -> (r: Result<SessionView, ApiError>)
    ensures
        match sessions@.session {
            Some(s) => if s.id == id {
                r matches Ok(v) && exists|t: int| t >= sessions@.latest && #[trigger] reports(v, s, sessions@.ttl, t)
            } else {
                r matches Err(e) && is_api_error(e, ApiErrorKind::SessionNotFound)
            },
            None => r matches Err(e) && is_api_error(e, ApiErrorKind::SessionNotFound),
        },
{
    match sessions.by_id(id) {
        Some(v) => Ok(v),
        None => Err(ApiError::new(ApiErrorKind::SessionNotFound)),
    }
}

/// The kinds of websocket frame.
#[derive(Debug, Clone, Copy, PartialEq, Eq, Structural)]
pub enum FrameKind {
    Text,
    Binary,
    Ping,
    Pong,
    Close,
}

/// Why a websocket frame carries no signalling message.
#[derive(Debug, Clone, Copy, PartialEq, Eq, Structural)]
pub enum SignalParseError {
    /// The payload is over `MAX_SIGNAL_PAYLOAD` bytes.
    TooLarge,
    /// A text payload that is not a signalling message.
    InvalidText,
    /// A binary payload that is not a signalling message.
    InvalidBinary,
    /// A ping or a pong.
    ControlFrame,
    /// The close frame.
    Closed,
}

pub open spec fn parse_error_text(e: SignalParseError) -> Seq<char> {
    match e {
        SignalParseError::TooLarge => "Signal payload too large"@,
        SignalParseError::InvalidText => "Invalid signal payload"@,
        SignalParseError::InvalidBinary => "Invalid binary signal payload"@,
        SignalParseError::ControlFrame => "Control frame is not a signal"@,
        SignalParseError::Closed => "Websocket closed"@,
    }
}

impl SignalParseError {
    /// The text sent back to the client in a `BAD_SIGNAL` error.
    pub fn message(&self) -> (s: String)
        ensures
            s@ == parse_error_text(*self),
    {
        match self {
            SignalParseError::TooLarge => String::from_str("Signal payload too large"),
            SignalParseError::InvalidText => String::from_str("Invalid signal payload"),
            SignalParseError::InvalidBinary => String::from_str("Invalid binary signal payload"),
            SignalParseError::ControlFrame => String::from_str("Control frame is not a signal"),
            SignalParseError::Closed => String::from_str("Websocket closed"),
        }
    }
}

/// How a frame that passed screening is to be decoded as JSON, and the
/// error that stands for a payload that does not decode.
#[derive(Debug, Clone, Copy, PartialEq, Eq, Structural)]
pub enum SignalPayload {
    Text,
    Binary,
}

impl SignalPayload {
    /// The error for a payload of this kind that is not a signalling message.
    pub fn decode_error(&self) -> (e: SignalParseError)
        ensures
            e == (match *self {
                SignalPayload::Text => SignalParseError::InvalidText,
                SignalPayload::Binary => SignalParseError::InvalidBinary,
            }),
    {
        match self {
            SignalPayload::Text => SignalParseError::InvalidText,
            SignalPayload::Binary => SignalParseError::InvalidBinary,
        }
    }
}

/// What the screening of a frame of kind `kind` and `len` payload bytes yields.
pub open spec fn screen_outcome(kind: FrameKind, len: nat) -> Result<SignalPayload, SignalParseError> {
    match kind {
        FrameKind::Text => if len > MAX_SIGNAL_PAYLOAD {
            Err(SignalParseError::TooLarge)
        } else {
            Ok(SignalPayload::Text)
        },
        FrameKind::Binary => if len > MAX_SIGNAL_PAYLOAD {
            Err(SignalParseError::TooLarge)
        } else {
            Ok(SignalPayload::Binary)
        },
        FrameKind::Ping | FrameKind::Pong => Err(SignalParseError::ControlFrame),
        FrameKind::Close => Err(SignalParseError::Closed),
    }
}

/// The payload cap: no frame over `MAX_SIGNAL_PAYLOAD` bytes is decoded,
/// whatever its kind, and frames within it are decoded exactly when they are
/// text or binary.
pub proof fn law_payload_cap(kind: FrameKind, len: nat)
    ensures
        len > MAX_SIGNAL_PAYLOAD ==> screen_outcome(kind, len) is Err,
        len <= MAX_SIGNAL_PAYLOAD ==> (screen_outcome(kind, len) is Ok <==> (kind == FrameKind::Text || kind
            == FrameKind::Binary)),
{
}

/// Screens a websocket frame before its payload is decoded: only text and
/// binary frames of at most `MAX_SIGNAL_PAYLOAD` bytes can carry a
/// signalling message.
pub fn screen_signal_frame(kind: FrameKind, payload_len: usize) -> (r: Result<SignalPayload, SignalParseError>)
    ensures
        r == screen_outcome(kind, payload_len as nat),
{
    match kind {
        FrameKind::Text => {
            if payload_len > MAX_SIGNAL_PAYLOAD {
                Err(SignalParseError::TooLarge)
            } else {
                Ok(SignalPayload::Text)
            }
        },
        FrameKind::Binary => {
            if payload_len > MAX_SIGNAL_PAYLOAD {
                Err(SignalParseError::TooLarge)
            } else {
                Ok(SignalPayload::Binary)
            }
        },
        FrameKind::Ping | FrameKind::Pong => Err(SignalParseError::ControlFrame),
        FrameKind::Close => Err(SignalParseError::Closed),
    }
}

/// The states of a WebRTC peer connection.
#[derive(Debug, Clone, Copy, PartialEq, Eq, Structural)]
pub enum PeerState {
    Unspecified,
    New,
    Connecting,
    Connected,
    Disconnected,
    Failed,
    Closed,
}

/// What a peer-connection change does to the session it serves.
pub open spec fn peer_state_outcome(m: SessionsView, id: u128, state: PeerState, now: int) -> SessionsView {
    match state {
        PeerState::Connected => status_outcome(m, id, SessionStatus::Streaming, now),
        PeerState::Failed | PeerState::Disconnected => error_outcome(
            m,
            id,
            "PEER_DISCONNECTED"@,
            "Peer disconnected"@,
            now,
        ),
        PeerState::Closed => status_outcome(m, id, SessionStatus::Waiting, now),
        _ => m,
    }
}

/// Records a peer-connection change on session `id` at a new clock reading,
/// which is then the latest: connected means streaming, failed or
/// disconnected is an error, closed means waiting again; other changes leave
/// the session as it is and read no clock.
pub fn on_peer_state_change(sessions: &mut SessionManager, id: u128, state: PeerState)
    ensures
        final(sessions)@.latest >= old(sessions)@.latest,
        final(sessions)@ == advanced(
            peer_state_outcome(old(sessions)@, id, state, final(sessions)@.latest),
            final(sessions)@.latest,
        ),
{
    match state {
        PeerState::Connected => {
            sessions.set_status(id, SessionStatus::Streaming);
        },
        PeerState::Failed | PeerState::Disconnected => {
            sessions.set_error(id, "PEER_DISCONNECTED", "Peer disconnected");
        },
        PeerState::Closed => {
            sessions.set_status(id, SessionStatus::Waiting);
        },
        _ => {},
    }
}

} // verus!
