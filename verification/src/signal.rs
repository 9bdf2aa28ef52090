//! The messages exchanged with the mobile client over `/signal`.
use vstd::prelude::*;

verus! {

/// One signalling message. On the wire it is a JSON object tagged by
/// `type` (`hello`, `offer`, `answer`, `ice_candidate`, `ready`, `error`).
#[derive(Debug, Clone)]
pub enum SignalMessage {
    Hello { device_name: String, app_version: String, session_code: String },
    Offer { sdp: String },
    Answer { sdp: String },
    IceCandidate { candidate: String, sdp_mid: Option<String>, sdp_mline_index: Option<u16> },
    Ready { session_id: String },
    Error { code: String, message: String },
}

/// The message is an `error` with this code and message text.
pub open spec fn is_error_message(m: SignalMessage, code: Seq<char>, message: Seq<char>) -> bool {
    m matches SignalMessage::Error { code: c, message: t } && c@ == code && t@ == message
}

impl SignalMessage {
    /// An `error` message with the given code and text.
    pub fn error(code: &str, message: &str) -> (m: SignalMessage)
        ensures
            is_error_message(m, code@, message@),
    {
        SignalMessage::Error { code: String::from_str(code), message: String::from_str(message) }
    }
}

} // verus!
