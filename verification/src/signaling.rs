//! The conversation with one mobile client on `/signal`, as a state
//! machine. The caller feeds it what happened (the slot check, the first
//! message, the code check, ...) and performs the actions it returns.
//!
//! The protocol: a single client at a time; its first message must be a
//! `hello` carrying the session code; only a valid code leads to a peer and
//! a `ready`; afterwards offers and ICE candidates are relayed until the
//! socket ends, when the peer is closed and the session goes back to
//! `Waiting`.
use vstd::prelude::*;

use crate::server::{parse_error_text, SignalParseError};
use crate::session::{
    acquire_outcome, apply_ops, law_slot_held_until_release, session_id_text, uuid_text, SessionOp,
    SessionStatus, SessionsView,
};
use crate::signal::{is_error_message, SignalMessage};

verus! {

/// Where the conversation stands.
#[derive(Debug, Clone, Copy, PartialEq, Eq, Structural)]
pub enum SignalPhase {
    /// Nothing decided yet: the connection slot must be taken first.
    AwaitingSlot,
    /// The slot is held; the first message is awaited.
    AwaitingHello,
    /// A `hello` came; its code is being checked.
    AwaitingCode,
    /// The code named this session; the peer is being created.
    AwaitingPeer { session_id: u128 },
    /// `ready` was sent; offers and candidates are relayed.
    Open { session_id: u128 },
    /// The conversation is over.
    Finished,
}

/// What happened, as reported by the caller.
pub enum SignalEvent {
    /// Whether the connection slot could be taken.
    SlotChecked { acquired: bool },
    /// The first message: nothing (timeout, socket closed or failed), or the
    /// outcome of reading it.
    FirstMessage { received: Option<Result<SignalMessage, SignalParseError>> },
    /// The outcome of checking the `hello` code: the session id, or none.
    CodeChecked { session_id: Option<u128> },
    /// The outcome of creating the peer: the failure text, or none.
    PeerCreated { error: Option<String> },
    /// A later message, or why it is none.
    Message { parsed: Result<SignalMessage, SignalParseError> },
    /// The socket ended (closed or failed).
    StreamEnded,
    /// The outcome of answering an offer: the failure text, or none.
    OfferHandled { error: Option<String> },
}

/// What the caller is asked to do, in order.
pub enum SignalAction {
    /// Answer on the raw socket with this error and close it.
    Reject { code: String, message: String },
    /// Queue this message for the client.
    Send(SignalMessage),
    /// Check this session code (and report `CodeChecked`).
    ValidateCode { code: String },
    /// Set the session's status.
    SetStatus { session_id: u128, status: SessionStatus },
    /// Put the session in error with this code and text.
    SetError { session_id: u128, code: String, message: String },
    /// Mark activity on the session.
    Touch { session_id: u128 },
    /// Create the WebRTC peer (and report `PeerCreated`).
    CreatePeer,
    /// Answer this SDP offer (and report `OfferHandled`).
    HandleOffer { sdp: String },
    /// Hand this remote ICE candidate to the peer.
    AddIceCandidate { candidate: String, sdp_mid: Option<String>, sdp_mline_index: Option<u16> },
    /// Close the peer.
    ClosePeer,
    /// Stop sending and let queued messages drain.
    Finish,
    /// Free the connection slot this conversation holds; the conversation
    /// is over.
    ReleaseConnection,
}

/// The phase after `event` in `phase`.
pub open spec fn next_phase(phase: SignalPhase, event: SignalEvent) -> SignalPhase {
    match (phase, event) {
        (SignalPhase::AwaitingSlot, SignalEvent::SlotChecked { acquired }) => if acquired {
            SignalPhase::AwaitingHello
        } else {
            SignalPhase::Finished
        },
        (SignalPhase::AwaitingHello, SignalEvent::FirstMessage { received }) => match received {
            Some(Ok(SignalMessage::Hello { .. })) => SignalPhase::AwaitingCode,
            _ => SignalPhase::Finished,
        },
        (SignalPhase::AwaitingCode, SignalEvent::CodeChecked { session_id }) => match session_id {
            Some(id) => SignalPhase::AwaitingPeer { session_id: id },
            None => SignalPhase::Finished,
        },
        (SignalPhase::AwaitingPeer { session_id }, SignalEvent::PeerCreated { error }) => match error {
            None => SignalPhase::Open { session_id },
            Some(_) => SignalPhase::Finished,
        },
        (SignalPhase::Open { .. }, SignalEvent::StreamEnded) => SignalPhase::Finished,
        _ => phase,
    }
}

/// `a` sends the client the error `code` / `message`.
pub open spec fn is_send_error(a: SignalAction, code: Seq<char>, message: Seq<char>) -> bool {
    a matches SignalAction::Send(m) && is_error_message(m, code, message)
}

/// `a` sets the error `code` / `message` on session `id`.
pub open spec fn is_set_error(a: SignalAction, id: u128, code: Seq<char>, message: Seq<char>) -> bool {
    a matches SignalAction::SetError { session_id, code: c, message: t } && session_id == id && c@
        == code && t@ == message
}

/// `a` sends `ready` naming session `id`.
pub open spec fn is_ready_for(a: SignalAction, id: u128) -> bool {
    a matches SignalAction::Send(SignalMessage::Ready { session_id }) && session_id@ == uuid_text(id)
}

/// `acts` holds `k` actions, then `Finish`, then `ReleaseConnection`.
pub open spec fn ends_and_releases(acts: Seq<SignalAction>, k: int) -> bool {
    acts.len() == k + 2 && acts[k] is Finish && acts[k + 1] is ReleaseConnection
}

/// The actions that `event` in `phase` asks for.
pub open spec fn step_actions(phase: SignalPhase, event: SignalEvent, acts: Seq<SignalAction>) -> bool {
    match (phase, event) {
        (SignalPhase::AwaitingSlot, SignalEvent::SlotChecked { acquired }) => if acquired {
            acts.len() == 0
        } else {
            acts.len() == 1 && (acts[0] matches SignalAction::Reject { code, message } && code@
                == "BUSY"@ && message@ == "Another client is already connected"@)
        },
        (SignalPhase::AwaitingHello, SignalEvent::FirstMessage { received }) => match received {
            None => ends_and_releases(acts, 1) && is_send_error(
                acts[0],
                "HELLO_TIMEOUT"@,
                "Expected hello as first message"@,
            ),
            Some(Err(e)) => ends_and_releases(acts, 1) && is_send_error(acts[0], "BAD_SIGNAL"@, parse_error_text(e)),
            Some(Ok(SignalMessage::Hello { session_code, .. })) => acts.len() == 1
                && (acts[0] matches SignalAction::ValidateCode { code } && code@ == session_code@),
            Some(Ok(_)) => ends_and_releases(acts, 1) && is_send_error(
                acts[0],
                "HELLO_REQUIRED"@,
                "First websocket message must be hello"@,
            ),
        },
        (SignalPhase::AwaitingCode, SignalEvent::CodeChecked { session_id }) => match session_id {
            None => ends_and_releases(acts, 1) && is_send_error(
                acts[0],
                "SESSION_INVALID"@,
                "Invalid or expired session code"@,
            ),
            Some(id) => acts.len() == 2 && acts[0] == (SignalAction::SetStatus {
                session_id: id,
                status: SessionStatus::Connecting,
            }) && acts[1] is CreatePeer,
        },
        (SignalPhase::AwaitingPeer { session_id }, SignalEvent::PeerCreated { error }) => match error {
            None => acts.len() == 1 && is_ready_for(acts[0], session_id),
            Some(err) => ends_and_releases(acts, 2) && is_set_error(acts[0], session_id, "PEER_INIT_FAILED"@, err@)
                && is_send_error(acts[1], "PEER_INIT_FAILED"@, "Could not create WebRTC peer"@),
        },
        (SignalPhase::Open { session_id }, SignalEvent::Message { parsed }) => match parsed {
            Err(e) => acts.len() == 1 && is_send_error(acts[0], "BAD_SIGNAL"@, parse_error_text(e)),
            Ok(m) => acts.len() >= 1 && acts[0] == (SignalAction::Touch { session_id }) && match m {
                SignalMessage::Offer { sdp } => acts.len() == 2 && (acts[1] matches SignalAction::HandleOffer {
                    sdp: s,
                } && s@ == sdp@),
                SignalMessage::IceCandidate { candidate, sdp_mid, sdp_mline_index } => acts.len() == 2
                    && (acts[1] matches SignalAction::AddIceCandidate {
                    candidate: c,
                    sdp_mid: mid,
                    sdp_mline_index: idx,
                } && c@ == candidate@ && mid == sdp_mid && idx == sdp_mline_index),
                _ => acts.len() == 1,
            },
        },
        (SignalPhase::Open { session_id }, SignalEvent::OfferHandled { error }) => match error {
            None => acts.len() == 0,
            Some(err) => acts.len() == 2 && is_set_error(acts[0], session_id, "OFFER_FAILED"@, err@)
                && is_send_error(acts[1], "OFFER_FAILED"@, "Could not process SDP offer"@),
        },
        (SignalPhase::Open { session_id }, SignalEvent::StreamEnded) => ends_and_releases(acts, 2) && acts[0] is ClosePeer
            && acts[1] == (SignalAction::SetStatus { session_id, status: SessionStatus::Waiting }),
        _ => acts.len() == 0,
    }
}

fn send_error(acts: &mut Vec<SignalAction>, code: &str, message: &str)
    ensures
        final(acts)@.len() == old(acts)@.len() + 1,
        forall|i: int| 0 <= i < old(acts)@.len() ==> final(acts)@[i] == old(acts)@[i],
        is_send_error(final(acts)@.last(), code@, message@),
{
    acts.push(SignalAction::Send(SignalMessage::error(code, message)));
}

/// One client conversation on `/signal`.
pub struct SignalSession {
    pub phase: SignalPhase,
}

/// The phase reached from `start` after `events`, in order.
pub open spec fn run_from(start: SignalPhase, events: Seq<SignalEvent>) -> SignalPhase
    decreases events.len(),
{
    if events.len() == 0 {
        start
    } else {
        next_phase(run_from(start, events.drop_last()), events.last())
    }
}

/// The phase a fresh conversation reaches after `events`.
pub open spec fn run(events: Seq<SignalEvent>) -> SignalPhase {
    run_from(SignalPhase::AwaitingSlot, events)
}

/// `e` is a first message that is a `hello`.
pub open spec fn is_hello_event(e: SignalEvent) -> bool {
    e matches SignalEvent::FirstMessage { received: Some(Ok(SignalMessage::Hello { .. })) }
}

/// A finished conversation stays finished, whatever happens next.
pub proof fn law_finished_is_final(events: Seq<SignalEvent>)
    ensures
        run_from(SignalPhase::Finished, events) == SignalPhase::Finished,
    decreases events.len(),
{
    if events.len() > 0 {
        law_finished_is_final(events.drop_last());
    }
}

/// Single client at a time: when the connection slot is taken, the client
/// is only told `BUSY`, and the conversation is over whatever it sends.
pub proof fn law_busy_client_is_turned_away(rest: Seq<SignalEvent>, acts: Seq<SignalAction>)
    requires
        step_actions(SignalPhase::AwaitingSlot, SignalEvent::SlotChecked { acquired: false }, acts),
    ensures
        acts.len() == 1,
        acts[0] matches SignalAction::Reject { code, .. } && code@ == "BUSY"@,
        run(seq![SignalEvent::SlotChecked { acquired: false }] + rest) == SignalPhase::Finished,
    decreases rest.len(),
{
    let first = seq![SignalEvent::SlotChecked { acquired: false }];
    if rest.len() == 0 {
        assert(first + rest =~= first);
        assert(first.drop_last() =~= Seq::<SignalEvent>::empty());
        assert(run_from(SignalPhase::AwaitingSlot, first.drop_last()) == SignalPhase::AwaitingSlot);
        assert(run(first) == next_phase(SignalPhase::AwaitingSlot, first.last()));
    } else {
        law_busy_client_is_turned_away(rest.drop_last(), acts);
        assert((first + rest).drop_last() =~= first + rest.drop_last());
        assert((first + rest).last() == rest.last());
        assert(run(first + rest) == next_phase(run(first + rest.drop_last()), rest.last()));
    }
}

/// The conversation has got past its first message.
pub open spec fn past_hello(p: SignalPhase) -> bool {
    match p {
        SignalPhase::AwaitingCode | SignalPhase::AwaitingPeer { .. } | SignalPhase::Open { .. } => true,
        _ => false,
    }
}

/// The first message must be a `hello`: no conversation gets past the
/// first message without one.
pub proof fn law_hello_comes_first(events: Seq<SignalEvent>)
    requires
        past_hello(run(events)),
    ensures
        exists|i: int| 0 <= i < events.len() && is_hello_event(#[trigger] events[i]),
    decreases events.len(),
{
    let prev = run(events.drop_last());
    if past_hello(prev) {
        law_hello_comes_first(events.drop_last());
        let i = choose|i: int| 0 <= i < events.drop_last().len() && is_hello_event(#[trigger] events.drop_last()[i]);
        assert(events[i] == events.drop_last()[i]);
    } else {
        assert(is_hello_event(events[events.len() - 1]));
    }
}

/// The session code is required: a conversation is tied to a session only
/// after the code check named that very session.
pub proof fn law_session_needs_checked_code(events: Seq<SignalEvent>, id: u128)
    requires
        run(events) == (SignalPhase::AwaitingPeer { session_id: id }) || run(events) == (SignalPhase::Open { session_id: id }),
    ensures
        exists|i: int| 0 <= i < events.len() && #[trigger] events[i] == (SignalEvent::CodeChecked { session_id: Some(id) }),
    decreases events.len(),
{
    let prev = run(events.drop_last());
    if prev == (SignalPhase::AwaitingPeer { session_id: id }) || prev == (SignalPhase::Open { session_id: id }) {
        law_session_needs_checked_code(events.drop_last(), id);
        let i = choose|i: int| 0 <= i < events.drop_last().len() && #[trigger] events.drop_last()[i] == (SignalEvent::CodeChecked { session_id: Some(id) });
        assert(events[i] == events.drop_last()[i]);
    } else {
        assert(events[events.len() - 1] == (SignalEvent::CodeChecked { session_id: Some(id) }));
    }
}

/// `ready` is only ever sent for a session whose code was checked earlier
/// in the same conversation, and it names that session.
pub proof fn law_ready_names_checked_session(events: Seq<SignalEvent>, k: int, acts: Seq<SignalAction>, j: int)
    requires
        0 <= k < events.len(),
        step_actions(run(events.take(k)), events[k], acts),
        0 <= j < acts.len(),
        acts[j] matches SignalAction::Send(SignalMessage::Ready { .. }),
    ensures
        exists|i: int, id: u128|
            #![trigger events[i], is_ready_for(acts[j], id)]
            0 <= i < k && events[i] == (SignalEvent::CodeChecked { session_id: Some(id) })
                && is_ready_for(acts[j], id),
{
    let phase = run(events.take(k));
    if let SignalPhase::AwaitingPeer { session_id } = phase {
        if events[k] matches SignalEvent::PeerCreated { error: None } {
            law_session_needs_checked_code(events.take(k), session_id);
            let i = choose|i: int| 0 <= i < events.take(k).len() && #[trigger] events.take(k)[i] == (SignalEvent::CodeChecked { session_id: Some(session_id) });
            assert(events[i] == events.take(k)[i]);
            assert(is_ready_for(acts[j], session_id));
        }
    }
}

/// In this phase the conversation holds the connection slot.
pub open spec fn holds_slot(p: SignalPhase) -> bool {
    match p {
        SignalPhase::AwaitingSlot | SignalPhase::Finished => false,
        _ => true,
    }
}

/// A conversation frees the connection slot exactly once, in the step that
/// ends it after it took the slot, as the very last action (after queued
/// messages drained); no other step — in particular not the refusal of a
/// busy client — frees it. A conversation never goes back to before the
/// slot check.
pub proof fn law_slot_released_once_at_end(phase: SignalPhase, event: SignalEvent, acts: Seq<SignalAction>)
    requires
        step_actions(phase, event, acts),
    ensures
        holds_slot(phase) && !holds_slot(next_phase(phase, event)) ==> {
            &&& next_phase(phase, event) == SignalPhase::Finished
            &&& acts.len() >= 2
            &&& acts[acts.len() - 2] is Finish
            &&& acts[acts.len() - 1] is ReleaseConnection
            &&& forall|i: int| 0 <= i < acts.len() - 1 ==> !(#[trigger] acts[i] is ReleaseConnection)
        },
        !(holds_slot(phase) && !holds_slot(next_phase(phase, event))) ==> forall|i: int|
            0 <= i < acts.len() ==> !(#[trigger] acts[i] is ReleaseConnection),
        phase != SignalPhase::AwaitingSlot ==> next_phase(phase, event) != SignalPhase::AwaitingSlot,
{
}

/// A conversation holds the slot only after its slot check succeeded.
pub proof fn law_slot_held_only_after_taking_it(events: Seq<SignalEvent>)
    requires
        holds_slot(run(events)),
    ensures
        exists|i: int| 0 <= i < events.len() && #[trigger] events[i] == (SignalEvent::SlotChecked { acquired: true }),
    decreases events.len(),
{
    let prev = run(events.drop_last());
    if holds_slot(prev) {
        law_slot_held_only_after_taking_it(events.drop_last());
        let i = choose|i: int| 0 <= i < events.drop_last().len() && #[trigger] events.drop_last()[i] == (SignalEvent::SlotChecked { acquired: true });
        assert(events[i] == events.drop_last()[i]);
    } else {
        assert(events[events.len() - 1] == (SignalEvent::SlotChecked { acquired: true }));
    }
}

/// One mobile connection at a time: while a conversation holds the slot —
/// whatever session operations happen meanwhile short of its release,
/// cleanup of a lapsed session included — a second client's slot check
/// fails, and it is only told `BUSY`; once the first conversation has
/// released the slot, the next client's check succeeds.
pub proof fn law_second_client_turned_away(m: SessionsView, ops: Seq<SessionOp>, acts: Seq<SignalAction>)
    requires
        m.connection_active,
        forall|i: int| 0 <= i < ops.len() ==> !(#[trigger] ops[i] is Release),
        step_actions(
            SignalPhase::AwaitingSlot,
            SignalEvent::SlotChecked { acquired: acquire_outcome(apply_ops(m, ops)).0 },
            acts,
        ),
    ensures
        acquire_outcome(apply_ops(m, ops)).0 == false,
        acts.len() == 1,
        acts[0] matches SignalAction::Reject { code, .. } && code@ == "BUSY"@,
        next_phase(
            SignalPhase::AwaitingSlot,
            SignalEvent::SlotChecked { acquired: acquire_outcome(apply_ops(m, ops)).0 },
        ) == SignalPhase::Finished,
        acquire_outcome(apply_ops(m, ops.push(SessionOp::Release))).0 == true,
{
    law_slot_held_until_release(m, ops);
}

/// Once a conversation is open it stays open, tied to the same session,
/// whatever the client sends and however its offers fare (a failed offer
/// included): every event but the end of the socket keeps it `Open`. When
/// the socket then ends, the conversation is over and asks, in this order,
/// to close the peer, put the session back to `Waiting`, finish and free the
/// connection slot.
pub proof fn law_open_conversation_runs_until_stream_ends(id: u128, events: Seq<SignalEvent>, acts: Seq<SignalAction>)
    requires
        forall|i: int| 0 <= i < events.len() ==> !(#[trigger] events[i] is StreamEnded),
        step_actions(run_from(SignalPhase::Open { session_id: id }, events), SignalEvent::StreamEnded, acts),
    ensures
        run_from(SignalPhase::Open { session_id: id }, events) == (SignalPhase::Open { session_id: id }),
        next_phase(run_from(SignalPhase::Open { session_id: id }, events), SignalEvent::StreamEnded)
            == SignalPhase::Finished,
        acts.len() == 4,
        acts[0] is ClosePeer,
        acts[1] == (SignalAction::SetStatus { session_id: id, status: SessionStatus::Waiting }),
        acts[2] is Finish,
        acts[3] is ReleaseConnection,
{
    lemma_open_stays_open(id, events);
}

/// Every event but the end of the socket keeps an open conversation open.
proof fn lemma_open_stays_open(id: u128, events: Seq<SignalEvent>)
    requires
        forall|i: int| 0 <= i < events.len() ==> !(#[trigger] events[i] is StreamEnded),
    ensures
        run_from(SignalPhase::Open { session_id: id }, events) == (SignalPhase::Open { session_id: id }),
    decreases events.len(),
{
    if events.len() > 0 {
        assert forall|i: int| 0 <= i < events.drop_last().len() implies !(#[trigger] events.drop_last()[i] is StreamEnded) by {
            assert(events.drop_last()[i] == events[i]);
        }
        lemma_open_stays_open(id, events.drop_last());
        assert(!(events[events.len() - 1] is StreamEnded));
    }
}

/// In an open conversation a failed offer is reported (the session gets
/// `OFFER_FAILED` with the failure text, and the client the error
/// `OFFER_FAILED`), and the conversation stays open: a retried offer is
/// handled again.
pub proof fn law_failed_offer_keeps_conversation_open(
    id: u128,
    err: String,
    acts: Seq<SignalAction>,
    sdp: String,
    retry: Seq<SignalAction>,
)
    requires
        step_actions(SignalPhase::Open { session_id: id }, SignalEvent::OfferHandled { error: Some(err) }, acts),
        step_actions(
            next_phase(SignalPhase::Open { session_id: id }, SignalEvent::OfferHandled { error: Some(err) }),
            SignalEvent::Message { parsed: Ok(SignalMessage::Offer { sdp }) },
            retry,
        ),
    ensures
        next_phase(SignalPhase::Open { session_id: id }, SignalEvent::OfferHandled { error: Some(err) })
            == (SignalPhase::Open { session_id: id }),
        acts.len() == 2,
        is_set_error(acts[0], id, "OFFER_FAILED"@, err@),
        is_send_error(acts[1], "OFFER_FAILED"@, "Could not process SDP offer"@),
        retry.len() == 2,
        retry[0] == (SignalAction::Touch { session_id: id }),
        retry[1] matches SignalAction::HandleOffer { sdp: s } && s@ == sdp@,
{
}

impl SignalSession {
    /// A conversation that has not yet taken the connection slot.
    pub fn new() -> (s: SignalSession)
        ensures
            s.phase == SignalPhase::AwaitingSlot,
    {
        SignalSession { phase: SignalPhase::AwaitingSlot }
    }

    /// Whether the conversation is over.
    pub fn is_finished(&self) -> (r: bool)
        ensures
            r == (self.phase == SignalPhase::Finished),
    {
        match self.phase {
            SignalPhase::Finished => true,
            _ => false,
        }
    }

    /// Takes in what happened and returns what to do next. Events that do
    /// not belong to the current phase change nothing and ask for nothing.
    pub fn handle(&mut self, event: SignalEvent) -> (acts: Vec<SignalAction>)
        ensures
            final(self).phase == next_phase(old(self).phase, event),
            step_actions(old(self).phase, event, acts@),
    {
        let ghost ev = event;
        let mut acts: Vec<SignalAction> = Vec::new();
        match self.phase {
            SignalPhase::AwaitingSlot => {
                if let SignalEvent::SlotChecked { acquired } = event {
                    if acquired {
                        self.phase = SignalPhase::AwaitingHello;
                    } else {
                        acts.push(
                            SignalAction::Reject {
                                code: String::from_str("BUSY"),
                                message: String::from_str("Another client is already connected"),
                            },
                        );
                        self.phase = SignalPhase::Finished;
                    }
                }
            },
            SignalPhase::AwaitingHello => {
                if let SignalEvent::FirstMessage { received } = event {
                    match received {
                        None => {
                            send_error(&mut acts, "HELLO_TIMEOUT", "Expected hello as first message");
                            acts.push(SignalAction::Finish);
                            acts.push(SignalAction::ReleaseConnection);
                            self.phase = SignalPhase::Finished;
                        },
                        Some(Err(e)) => {
                            let text = e.message();
                            send_error(&mut acts, "BAD_SIGNAL", text.as_str());
                            acts.push(SignalAction::Finish);
                            acts.push(SignalAction::ReleaseConnection);
                            self.phase = SignalPhase::Finished;
                        },
                        Some(Ok(SignalMessage::Hello { session_code, .. })) => {
                            acts.push(SignalAction::ValidateCode { code: session_code });
                            self.phase = SignalPhase::AwaitingCode;
                        },
                        Some(Ok(_)) => {
                            send_error(
                                &mut acts,
                                "HELLO_REQUIRED",
                                "First websocket message must be hello",
                            );
                            acts.push(SignalAction::Finish);
                            acts.push(SignalAction::ReleaseConnection);
                            self.phase = SignalPhase::Finished;
                        },
                    }
                }
            },
            SignalPhase::AwaitingCode => {
                if let SignalEvent::CodeChecked { session_id } = event {
                    match session_id {
                        None => {
                            send_error(&mut acts, "SESSION_INVALID", "Invalid or expired session code");
                            acts.push(SignalAction::Finish);
                            acts.push(SignalAction::ReleaseConnection);
                            self.phase = SignalPhase::Finished;
                        },
                        Some(id) => {
                            acts.push(
                                SignalAction::SetStatus {
                                    session_id: id,
                                    status: SessionStatus::Connecting,
                                },
                            );
                            acts.push(SignalAction::CreatePeer);
                            self.phase = SignalPhase::AwaitingPeer { session_id: id };
                        },
                    }
                }
            },
            SignalPhase::AwaitingPeer { session_id } => {
                if let SignalEvent::PeerCreated { error } = event {
                    match error {
                        None => {
                            acts.push(
                                SignalAction::Send(
                                    SignalMessage::Ready { session_id: session_id_text(session_id) },
                                ),
                            );
                            self.phase = SignalPhase::Open { session_id };
                        },
                        Some(err) => {
                            acts.push(
                                SignalAction::SetError {
                                    session_id,
                                    code: String::from_str("PEER_INIT_FAILED"),
                                    message: err,
                                },
                            );
                            send_error(&mut acts, "PEER_INIT_FAILED", "Could not create WebRTC peer");
                            acts.push(SignalAction::Finish);
                            acts.push(SignalAction::ReleaseConnection);
                            self.phase = SignalPhase::Finished;
                        },
                    }
                }
            },
            SignalPhase::Open { session_id } => {
                match event {
                    SignalEvent::Message { parsed } => {
                        match parsed {
                            Err(e) => {
                                let text = e.message();
                                send_error(&mut acts, "BAD_SIGNAL", text.as_str());
                            },
                            Ok(m) => {
                                acts.push(SignalAction::Touch { session_id });
                                match m {
                                    SignalMessage::Offer { sdp } => {
                                        acts.push(SignalAction::HandleOffer { sdp });
                                    },
                                    SignalMessage::IceCandidate {
                                        candidate,
                                        sdp_mid,
                                        sdp_mline_index,
                                    } => {
                                        acts.push(
                                            SignalAction::AddIceCandidate {
                                                candidate,
                                                sdp_mid,
                                                sdp_mline_index,
                                            },
                                        );
                                    },
                                    _ => {},
                                }
                            },
                        }
                    },
                    SignalEvent::OfferHandled { error } => {
                        if let Some(err) = error {
                            acts.push(
                                SignalAction::SetError {
                                    session_id,
                                    code: String::from_str("OFFER_FAILED"),
                                    message: err,
                                },
                            );
                            send_error(&mut acts, "OFFER_FAILED", "Could not process SDP offer");
                        }
                    },
                    SignalEvent::StreamEnded => {
                        acts.push(SignalAction::ClosePeer);
                        acts.push(
                            SignalAction::SetStatus { session_id, status: SessionStatus::Waiting },
                        );
                        acts.push(SignalAction::Finish);
                        acts.push(SignalAction::ReleaseConnection);
                        self.phase = SignalPhase::Finished;
                    },
                    _ => {},
                }
            },
            SignalPhase::Finished => {},
        }
        acts
    }
}

} // verus!
