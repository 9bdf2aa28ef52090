use sillymic_host::server::SignalParseError;
use std::time::SystemTime;

use sillymic_host::session::{SessionManager, SessionStatus};
use sillymic_host::signal::SignalMessage;
use sillymic_host::signaling::{SignalAction, SignalEvent, SignalPhase, SignalSession};

fn hello(code: &str) -> SignalMessage {
    SignalMessage::Hello {
        device_name: "iPhone".to_string(),
        app_version: "1.0".to_string(),
        session_code: code.to_string(),
    }
}

fn error_of(a: &SignalAction) -> (String, String) {
    match a {
        SignalAction::Send(SignalMessage::Error { code, message }) => (code.clone(), message.clone()),
        _ => panic!("expected an error message"),
    }
}

fn opened(id: u128) -> SignalSession {
    let mut s = SignalSession::new();
    s.handle(SignalEvent::SlotChecked { acquired: true });
    s.handle(SignalEvent::FirstMessage { received: Some(Ok(hello("123456"))) });
    s.handle(SignalEvent::CodeChecked { session_id: Some(id) });
    s.handle(SignalEvent::PeerCreated { error: None });
    assert_eq!(s.phase, SignalPhase::Open { session_id: id });
    s
}

#[test]
fn busy_client_is_rejected() {
    let mut s = SignalSession::new();
    let acts = s.handle(SignalEvent::SlotChecked { acquired: false });
    assert_eq!(acts.len(), 1);
    match &acts[0] {
        SignalAction::Reject { code, message } => {
            assert_eq!(code, "BUSY");
            assert_eq!(message, "Another client is already connected");
        }
        _ => panic!("expected reject"),
    }
    assert!(s.is_finished());
    assert!(!acts.iter().any(|a| matches!(a, SignalAction::ReleaseConnection)));
    assert!(s.handle(SignalEvent::FirstMessage { received: Some(Ok(hello("123456"))) }).is_empty());
    assert!(s.is_finished());
}

#[test]
fn missing_first_message_times_out() {
    let mut s = SignalSession::new();
    assert!(s.handle(SignalEvent::SlotChecked { acquired: true }).is_empty());
    assert_eq!(s.phase, SignalPhase::AwaitingHello);
    let acts = s.handle(SignalEvent::FirstMessage { received: None });
    assert_eq!(acts.len(), 3);
    assert!(matches!(acts[2], SignalAction::ReleaseConnection));
    assert_eq!(error_of(&acts[0]), ("HELLO_TIMEOUT".to_string(), "Expected hello as first message".to_string()));
    assert!(matches!(acts[1], SignalAction::Finish));
    assert!(s.is_finished());
}

#[test]
fn unreadable_first_message_is_bad_signal() {
    let mut s = SignalSession::new();
    s.handle(SignalEvent::SlotChecked { acquired: true });
    let acts = s.handle(SignalEvent::FirstMessage { received: Some(Err(SignalParseError::TooLarge)) });
    assert_eq!(error_of(&acts[0]), ("BAD_SIGNAL".to_string(), "Signal payload too large".to_string()));
    assert!(matches!(acts[1], SignalAction::Finish));
    assert!(matches!(acts[2], SignalAction::ReleaseConnection));
    assert_eq!(acts.len(), 3);
}

#[test]
fn first_message_must_be_hello() {
    let mut s = SignalSession::new();
    s.handle(SignalEvent::SlotChecked { acquired: true });
    let acts = s.handle(SignalEvent::FirstMessage {
        received: Some(Ok(SignalMessage::Offer { sdp: "v=0".to_string() })),
    });
    assert_eq!(
        error_of(&acts[0]),
        ("HELLO_REQUIRED".to_string(), "First websocket message must be hello".to_string())
    );
    assert!(matches!(acts[1], SignalAction::Finish));
    assert!(matches!(acts[2], SignalAction::ReleaseConnection));
    assert_eq!(acts.len(), 3);
    assert!(s.is_finished());
}

#[test]
fn invalid_code_is_refused() {
    let mut s = SignalSession::new();
    s.handle(SignalEvent::SlotChecked { acquired: true });
    let acts = s.handle(SignalEvent::FirstMessage { received: Some(Ok(hello("999999"))) });
    match &acts[0] {
        SignalAction::ValidateCode { code } => assert_eq!(code, "999999"),
        _ => panic!("expected a code check"),
    }
    let acts = s.handle(SignalEvent::CodeChecked { session_id: None });
    assert_eq!(
        error_of(&acts[0]),
        ("SESSION_INVALID".to_string(), "Invalid or expired session code".to_string())
    );
    assert!(matches!(acts[1], SignalAction::Finish));
    assert!(matches!(acts[2], SignalAction::ReleaseConnection));
    assert_eq!(acts.len(), 3);
    assert!(s.is_finished());
}

#[test]
fn valid_code_leads_to_peer_and_ready() {
    let mut s = SignalSession::new();
    s.handle(SignalEvent::SlotChecked { acquired: true });
    s.handle(SignalEvent::FirstMessage { received: Some(Ok(hello("123456"))) });
    let acts = s.handle(SignalEvent::CodeChecked { session_id: Some(42) });
    assert_eq!(acts.len(), 2);
    match &acts[0] {
        SignalAction::SetStatus { session_id, status } => {
            assert_eq!(*session_id, 42);
            assert_eq!(*status, SessionStatus::Connecting);
        }
        _ => panic!("expected status change"),
    }
    assert!(matches!(acts[1], SignalAction::CreatePeer));
    let acts = s.handle(SignalEvent::PeerCreated { error: None });
    assert_eq!(acts.len(), 1);
    match &acts[0] {
        SignalAction::Send(SignalMessage::Ready { session_id }) => {
            assert_eq!(session_id, "00000000-0000-0000-0000-00000000002a");
        }
        _ => panic!("expected ready"),
    }
    assert_eq!(s.phase, SignalPhase::Open { session_id: 42 });
}

#[test]
fn peer_failure_marks_session() {
    let mut s = SignalSession::new();
    s.handle(SignalEvent::SlotChecked { acquired: true });
    s.handle(SignalEvent::FirstMessage { received: Some(Ok(hello("123456"))) });
    s.handle(SignalEvent::CodeChecked { session_id: Some(5) });
    let acts = s.handle(SignalEvent::PeerCreated { error: Some("no api".to_string()) });
    assert_eq!(acts.len(), 4);
    assert!(matches!(acts[3], SignalAction::ReleaseConnection));
    match &acts[0] {
        SignalAction::SetError { session_id, code, message } => {
            assert_eq!(*session_id, 5);
            assert_eq!(code, "PEER_INIT_FAILED");
            assert_eq!(message, "no api");
        }
        _ => panic!("expected set error"),
    }
    assert_eq!(error_of(&acts[1]), ("PEER_INIT_FAILED".to_string(), "Could not create WebRTC peer".to_string()));
    assert!(matches!(acts[2], SignalAction::Finish));
    assert!(s.is_finished());
}

#[test]
fn offers_and_candidates_are_relayed() {
    let mut s = opened(9);
    let acts = s.handle(SignalEvent::Message { parsed: Ok(SignalMessage::Offer { sdp: "v=0".to_string() }) });
    assert_eq!(acts.len(), 2);
    assert!(matches!(acts[0], SignalAction::Touch { session_id: 9 }));
    match &acts[1] {
        SignalAction::HandleOffer { sdp } => assert_eq!(sdp, "v=0"),
        _ => panic!("expected offer handling"),
    }
    let acts = s.handle(SignalEvent::Message {
        parsed: Ok(SignalMessage::IceCandidate {
            candidate: "candidate:1".to_string(),
            sdp_mid: Some("0".to_string()),
            sdp_mline_index: Some(0),
        }),
    });
    match &acts[1] {
        SignalAction::AddIceCandidate { candidate, sdp_mid, sdp_mline_index } => {
            assert_eq!(candidate, "candidate:1");
            assert_eq!(sdp_mid.as_deref(), Some("0"));
            assert_eq!(*sdp_mline_index, Some(0));
        }
        _ => panic!("expected candidate"),
    }
    let acts = s.handle(SignalEvent::Message { parsed: Ok(SignalMessage::Answer { sdp: "x".to_string() }) });
    assert_eq!(acts.len(), 1);
    assert!(matches!(acts[0], SignalAction::Touch { session_id: 9 }));
}

#[test]
fn bad_messages_are_answered_but_keep_the_conversation() {
    let mut s = opened(9);
    let acts = s.handle(SignalEvent::Message { parsed: Err(SignalParseError::InvalidText) });
    assert_eq!(acts.len(), 1);
    assert_eq!(error_of(&acts[0]), ("BAD_SIGNAL".to_string(), "Invalid signal payload".to_string()));
    assert_eq!(s.phase, SignalPhase::Open { session_id: 9 });
}

#[test]
fn failed_offer_marks_session() {
    let mut s = opened(9);
    let acts = s.handle(SignalEvent::OfferHandled { error: Some("Invalid offer SDP".to_string()) });
    assert_eq!(acts.len(), 2);
    match &acts[0] {
        SignalAction::SetError { session_id, code, message } => {
            assert_eq!(*session_id, 9);
            assert_eq!(code, "OFFER_FAILED");
            assert_eq!(message, "Invalid offer SDP");
        }
        _ => panic!("expected set error"),
    }
    assert_eq!(error_of(&acts[1]), ("OFFER_FAILED".to_string(), "Could not process SDP offer".to_string()));
    assert!(s.handle(SignalEvent::OfferHandled { error: None }).is_empty());
}

#[test]
fn end_of_stream_closes_peer_and_resets_session() {
    let mut s = opened(9);
    let acts = s.handle(SignalEvent::StreamEnded);
    assert_eq!(acts.len(), 4);
    assert!(matches!(acts[3], SignalAction::ReleaseConnection));
    assert!(matches!(acts[0], SignalAction::ClosePeer));
    assert!(matches!(acts[1], SignalAction::SetStatus { session_id: 9, status: SessionStatus::Waiting }));
    assert!(matches!(acts[2], SignalAction::Finish));
    assert!(s.is_finished());
}

#[test]
fn events_out_of_turn_do_nothing() {
    let mut s = SignalSession::new();
    assert!(s.handle(SignalEvent::StreamEnded).is_empty());
    assert_eq!(s.phase, SignalPhase::AwaitingSlot);
    s.handle(SignalEvent::SlotChecked { acquired: true });
    assert!(s.handle(SignalEvent::CodeChecked { session_id: Some(1) }).is_empty());
    assert_eq!(s.phase, SignalPhase::AwaitingHello);
}

#[test]
fn only_ending_steps_release_the_slot() {
    let mut s = SignalSession::new();
    let mut released = 0;
    let events = vec![
        SignalEvent::SlotChecked { acquired: true },
        SignalEvent::FirstMessage { received: Some(Ok(hello("123456"))) },
        SignalEvent::CodeChecked { session_id: Some(3) },
        SignalEvent::PeerCreated { error: None },
        SignalEvent::Message { parsed: Err(SignalParseError::Closed) },
        SignalEvent::OfferHandled { error: None },
        SignalEvent::StreamEnded,
        SignalEvent::StreamEnded,
    ];
    for (i, e) in events.into_iter().enumerate() {
        let acts = s.handle(e);
        let n = acts.iter().filter(|a| matches!(a, SignalAction::ReleaseConnection)).count();
        if i == 6 {
            assert_eq!(n, 1);
            assert!(matches!(acts.last(), Some(SignalAction::ReleaseConnection)));
        } else {
            assert_eq!(n, 0);
        }
        released += n;
    }
    assert_eq!(released, 1);
}

#[test]
fn second_client_is_busy_while_first_holds_slot_even_after_cleanup() {
    let mut m = SessionManager::new(60_000_000_000);
    m.open_session("123456".to_string(), 1, SystemTime::now(), 0);
    // First conversation takes the slot.
    let mut first = SignalSession::new();
    let acquired = m.try_acquire_connection();
    assert!(acquired);
    first.handle(SignalEvent::SlotChecked { acquired });
    // The session lapses and is cleaned up while the first still runs.
    m.cleanup_expired_at(120_000_000_000);
    assert!(!m.has_session());
    let mut second = SignalSession::new();
    let acquired = m.try_acquire_connection();
    assert!(!acquired);
    let acts = second.handle(SignalEvent::SlotChecked { acquired });
    assert!(matches!(&acts[0], SignalAction::Reject { code, .. } if code == "BUSY"));
    // The first conversation ends and releases the slot.
    let acts = first.handle(SignalEvent::FirstMessage { received: None });
    for a in &acts {
        if matches!(a, SignalAction::ReleaseConnection) {
            m.release_connection();
        }
    }
    assert!(m.try_acquire_connection());
}
