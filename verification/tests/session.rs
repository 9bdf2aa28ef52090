use std::time::SystemTime;

use sillymic_host::session::{SessionManager, SessionStatus};
use sillymic_host::signal::SignalMessage;
use sillymic_host::signaling::{SignalAction, SignalEvent, SignalSession};

const TTL: u64 = 60_000_000_000;
const SEC: u128 = 1_000_000_000;

fn manager_with_session(code: &str, id: u128, at: u128) -> SessionManager {
    let mut m = SessionManager::new(TTL);
    m.open_session(code.to_string(), id, SystemTime::now(), at);
    m
}

#[test]
fn new_manager_has_no_session() {
    let m = SessionManager::new(TTL);
    assert!(!m.has_session());
    assert!(m.by_id_at(1, 0).is_none());
}

#[test]
fn fresh_session_is_waiting_with_full_ttl() {
    let m = manager_with_session("123456", 7, 0);
    assert!(m.has_session());
    let v = m.by_id_at(7, 0).unwrap();
    assert_eq!(v.id, 7);
    assert_eq!(v.session_code, "123456");
    assert_eq!(v.status, SessionStatus::Waiting);
    assert_eq!(v.expires_in_seconds, 60);
    assert!(v.error.is_none());
}

#[test]
fn seconds_left_round_down() {
    let m = manager_with_session("123456", 7, 0);
    // Half a millisecond later there are 59.9995 s left: 59 whole seconds.
    assert_eq!(m.by_id_at(7, 500_000).unwrap().expires_in_seconds, 59);
    assert_eq!(m.by_id_at(7, 30 * SEC).unwrap().expires_in_seconds, 30);
    assert_eq!(m.by_id_at(7, 60 * SEC).unwrap().expires_in_seconds, 0);
    assert_eq!(m.by_id_at(7, 100 * SEC).unwrap().expires_in_seconds, 0);
}

#[test]
fn by_id_only_reports_current_session() {
    let m = manager_with_session("123456", 7, 0);
    assert!(m.by_id_at(8, 0).is_none());
}

#[test]
fn right_code_within_ttl_is_accepted_and_refreshes() {
    let mut m = manager_with_session("123456", 7, 0);
    assert_eq!(m.validate_code_at("123456", 50 * SEC), Some(7));
    // Activity at 50 s: at 100 s the session is still alive.
    assert_eq!(m.by_id_at(7, 100 * SEC).unwrap().expires_in_seconds, 10);
    assert_eq!(m.validate_code_at("123456", 100 * SEC), Some(7));
}

#[test]
fn wrong_code_is_refused_and_changes_nothing() {
    let mut m = manager_with_session("123456", 7, 0);
    assert_eq!(m.validate_code_at("654321", 10 * SEC), None);
    assert!(m.has_session());
    assert_eq!(m.by_id_at(7, 10 * SEC).unwrap().expires_in_seconds, 50);
}

#[test]
fn lapsed_session_is_refused_and_dropped() {
    let mut m = manager_with_session("123456", 7, 0);
    assert_eq!(m.validate_code_at("123456", 60 * SEC + 1), None);
    assert!(!m.has_session());
}

#[test]
fn exactly_ttl_is_still_alive() {
    let mut m = manager_with_session("123456", 7, 0);
    assert_eq!(m.validate_code_at("123456", 60 * SEC), Some(7));
}

#[test]
fn streaming_session_never_lapses() {
    let mut m = manager_with_session("123456", 7, 0);
    m.set_status_at(7, SessionStatus::Streaming, 0);
    assert_eq!(m.by_id_at(7, 0).unwrap().expires_in_seconds, 0);
    m.cleanup_expired_at(1000 * SEC);
    assert!(m.has_session());
    assert_eq!(m.validate_code_at("123456", 1000 * SEC), Some(7));
}

#[test]
fn cleanup_drops_idle_session_but_keeps_held_slot() {
    let mut m = manager_with_session("123456", 7, 0);
    assert!(m.try_acquire_connection());
    m.cleanup_expired_at(30 * SEC);
    assert!(m.has_session());
    assert!(!m.try_acquire_connection());
    m.cleanup_expired_at(61 * SEC);
    assert!(!m.has_session());
    // The conversation holding the slot still holds it.
    assert!(!m.try_acquire_connection());
    m.release_connection();
    assert!(m.try_acquire_connection());
}

#[test]
fn set_error_records_code_and_message() {
    let mut m = manager_with_session("123456", 7, 0);
    m.set_error_at(7, "PEER_INIT_FAILED", "boom", SEC);
    let v = m.by_id_at(7, SEC).unwrap();
    assert_eq!(v.status, SessionStatus::Error);
    assert_eq!(v.error.as_deref(), Some("PEER_INIT_FAILED: boom"));
    // Another status clears the error.
    m.set_status_at(7, SessionStatus::Waiting, 2 * SEC);
    let v = m.by_id_at(7, 2 * SEC).unwrap();
    assert_eq!(v.status, SessionStatus::Waiting);
    assert!(v.error.is_none());
}

#[test]
fn set_status_error_keeps_error_text() {
    let mut m = manager_with_session("123456", 7, 0);
    m.set_error_at(7, "OFFER_FAILED", "bad sdp", SEC);
    m.set_status_at(7, SessionStatus::Error, 2 * SEC);
    assert_eq!(m.by_id_at(7, 2 * SEC).unwrap().error.as_deref(), Some("OFFER_FAILED: bad sdp"));
}

#[test]
fn updates_for_other_ids_are_ignored() {
    let mut m = manager_with_session("123456", 7, 0);
    m.set_status_at(8, SessionStatus::Streaming, 10 * SEC);
    m.set_error_at(8, "X", "y", 10 * SEC);
    m.touch_at(8, 10 * SEC);
    let v = m.by_id_at(7, 10 * SEC).unwrap();
    assert_eq!(v.status, SessionStatus::Waiting);
    assert_eq!(v.expires_in_seconds, 50);
}

#[test]
fn touch_refreshes_activity() {
    let mut m = manager_with_session("123456", 7, 0);
    m.touch_at(7, 40 * SEC);
    assert_eq!(m.by_id_at(7, 40 * SEC).unwrap().expires_in_seconds, 60);
    m.cleanup_expired_at(90 * SEC);
    assert!(m.has_session());
}

#[test]
fn one_connection_at_a_time() {
    let mut m = SessionManager::new(TTL);
    assert!(m.try_acquire_connection());
    assert!(!m.try_acquire_connection());
    m.release_connection();
    assert!(m.try_acquire_connection());
}

#[test]
fn new_session_replaces_old_one() {
    let mut m = manager_with_session("123456", 7, 0);
    m.open_session("222222".to_string(), 9, SystemTime::now(), SEC);
    assert!(m.by_id_at(7, SEC).is_none());
    assert_eq!(m.validate_code_at("123456", SEC), None);
    assert_eq!(m.validate_code_at("222222", SEC), Some(9));
}

#[test]
fn create_session_uses_clock_and_random_v4_id() {
    let mut m = SessionManager::new(TTL);
    let v = m.create_session("123456".to_string());
    assert_eq!(v.session_code, "123456");
    assert_eq!(v.status, SessionStatus::Waiting);
    assert!(v.expires_in_seconds <= 60 && v.expires_in_seconds >= 59);
    assert_eq!((v.id >> 76) & 0xf, 4);
    assert_eq!((v.id >> 62) & 0x3, 2);
    assert_eq!(m.validate_code("123456"), Some(v.id));
    assert!(m.by_id(v.id).is_some());
    m.touch(v.id);
    m.set_status(v.id, SessionStatus::Connecting);
    assert_eq!(m.by_id(v.id).unwrap().status, SessionStatus::Connecting);
    m.set_error(v.id, "A", "b");
    assert_eq!(m.by_id(v.id).unwrap().error.as_deref(), Some("A: b"));
    m.cleanup_expired();
    assert!(m.has_session());
}

#[test]
fn clock_readings_never_fall_behind_the_latest() {
    // A reading of 1000 s is recorded through another id; the session itself
    // stays active at 0.
    let mut m = manager_with_session("123456", 7, 0);
    m.touch_at(8, 1000 * SEC);
    // The clock of this process is far behind 1000 s, yet `touch` takes a
    // reading no earlier than the latest one: the activity moves to 1000 s.
    m.touch(7);
    assert_eq!(m.by_id_at(7, 1000 * SEC).unwrap().expires_in_seconds, 60);
    assert_eq!(m.by_id(7).unwrap().expires_in_seconds, 60);
}

#[test]
fn cleanup_drops_a_session_lapsed_by_the_latest_reading() {
    let mut m = manager_with_session("123456", 7, 0);
    m.touch_at(8, 1000 * SEC);
    assert!(m.has_session());
    m.cleanup_expired();
    assert!(!m.has_session());
}

#[test]
fn validate_code_reads_no_earlier_than_the_latest() {
    let mut m = manager_with_session("123456", 7, 0);
    m.set_status_at(8, SessionStatus::Waiting, 61 * SEC);
    assert_eq!(m.validate_code("123456"), None);
    assert!(!m.has_session());
}

/// The text a conversation's `ready` message gives for session `id`.
fn ready_text(id: u128) -> String {
    let mut s = SignalSession::new();
    s.handle(SignalEvent::SlotChecked { acquired: true });
    s.handle(SignalEvent::FirstMessage {
        received: Some(Ok(SignalMessage::Hello {
            device_name: "d".to_string(),
            app_version: "v".to_string(),
            session_code: "123456".to_string(),
        })),
    });
    s.handle(SignalEvent::CodeChecked { session_id: Some(id) });
    let acts = s.handle(SignalEvent::PeerCreated { error: None });
    match &acts[0] {
        SignalAction::Send(SignalMessage::Ready { session_id }) => session_id.clone(),
        _ => panic!("expected ready"),
    }
}

#[test]
fn session_id_text_is_hyphenated_lowercase_hex() {
    assert_eq!(
        ready_text(0x67e5_5044_10b1_426f_9247_bb68_0e5f_e0c8),
        "67e55044-10b1-426f-9247-bb680e5fe0c8"
    );
    assert_eq!(ready_text(0), "00000000-0000-0000-0000-000000000000");
    assert_eq!(ready_text(u128::MAX), "ffffffff-ffff-ffff-ffff-ffffffffffff");
}
