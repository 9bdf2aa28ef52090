//! The single pairing session the host offers: its code, its status, when it
//! lapses, and the one-connection-at-a-time slot.
//!
//! Time is read from a monotonic clock as nanoseconds since the manager was
//! made. The manager keeps the latest reading it has taken and never lets a
//! new reading fall behind it, so readings only move forward and every
//! session's last activity lies at or before the latest reading. Every
//! operation that reads the clock has a twin ending in `_at` that takes the
//! reading as an argument and is specified exactly; the clock-reading
//! operation is specified as that twin at the new latest reading, which is
//! at least the one before.
use vstd::prelude::*;

use std::time::{Instant, SystemTime};

use crate::text::str_equal;

verus! {

/// Where a session stands.
#[derive(Debug, Clone, Copy, PartialEq, Eq, Structural)]
pub enum SessionStatus {
    Waiting,
    Connecting,
    Streaming,
    Error,
}

#[verifier::external_type_specification]
#[verifier::external_body]
pub struct ExInstant(Instant);

#[verifier::external_type_specification]
#[verifier::external_body]
pub struct ExSystemTime(SystemTime);

/// The current instant of the monotonic clock, from `Instant::now`.
#[verifier::external_body]
fn instant_now() -> Instant {
    Instant::now()
}

/// The nanoseconds the monotonic clock has advanced since `origin`, from
/// `Instant::elapsed`. Nothing is claimed of the value: it is a clock reading.
#[verifier::external_body]
fn nanos_since(origin: &Instant) -> u128 {
    origin.elapsed().as_nanos()
}

/// The current wall-clock time, from `SystemTime::now`. The library only
/// carries it into the views it reports.
#[verifier::external_body]
fn system_time_now() -> SystemTime {
    SystemTime::now()
}

/// `v` has the version and variant bits of a random (version 4, RFC 4122)
/// UUID.
pub open spec fn is_v4_uuid(v: u128) -> bool {
    (v >> 76u128) & 0xfu128 == 4u128 && (v >> 62u128) & 3u128 == 2u128
}

/// A fresh random session id, from `uuid::Uuid::new_v4`, as the 128-bit
/// big-endian value that `Uuid::as_u128` gives. `new_v4` draws random bits
/// and then fixes the version nibble to 4 and the variant bits to `10`; that
/// is all the contract claims.
#[verifier::external_body]
fn new_session_id() -> (id: u128)
    ensures
        is_v4_uuid(id),
{
    uuid::Uuid::new_v4().as_u128()
}

/// The lower-case hexadecimal digit for `n` (for `n < 16`).
pub open spec fn hex_digit(n: int) -> char {
    if n < 10 {
        (n + 48) as char
    } else {
        (n + 87) as char
    }
}

/// The `k`-th of the 32 hexadecimal digits of `v`, most significant first.
pub open spec fn uuid_nibble(v: u128, k: int) -> int {
    (v as int / vstd::arithmetic::power2::pow2((4 * (31 - k)) as nat) as int) % 16
}

/// The hyphenated lower-case form of a UUID, `xxxxxxxx-xxxx-xxxx-xxxx-xxxxxxxxxxxx`.
pub open spec fn uuid_text(v: u128) -> Seq<char> {
    Seq::new(
        36,
        |i: int|
            if i == 8 || i == 13 || i == 18 || i == 23 {
                '-'
            } else {
                let k: int = if i < 8 {
                    i
                } else if i < 13 {
                    i - 1
                } else if i < 18 {
                    i - 2
                } else if i < 23 {
                    i - 3
                } else {
                    i - 4
                };
                hex_digit(uuid_nibble(v, k))
            },
    )
}

/// The text of the session id `id`, from `uuid::Uuid::from_u128` and the
/// `Display` impl of `Uuid`, which writes the 32 lower-case hex digits of the
/// big-endian value with hyphens after the 8th, 12th, 16th and 20th.
#[verifier::external_body]
pub(crate) fn session_id_text(id: u128) -> (s: String)
    ensures
        s@ == uuid_text(id),
{
    uuid::Uuid::from_u128(id).to_string()
}

/// A session as the contracts see it; `last_activity` is a clock reading.
pub struct SessionRecord {
    pub id: u128,
    pub code: Seq<char>,
    pub status: SessionStatus,
    pub created_at: SystemTime,
    pub last_activity: int,
    pub error: Option<Seq<char>>,
}

/// The manager as the contracts see it.
pub struct SessionsView {
    /// How long (nanoseconds) a session that is not streaming survives without activity.
    pub ttl: nat,
    pub session: Option<SessionRecord>,
    pub connection_active: bool,
    /// The latest clock reading the manager has taken (nanoseconds).
    pub latest: int,
}

/// The characters of an optional string.
pub open spec fn opt_text(o: Option<String>) -> Option<Seq<char>> {
    match o {
        Some(s) => Some(s@),
        None => None,
    }
}

/// Time since `last` at reading `now`; a reading before `last` counts as none.
pub open spec fn elapsed(now: int, last: int) -> int {
    if now >= last {
        now - last
    } else {
        0
    }
}

/// A session lapses when it is not streaming and more than `ttl` has passed
/// since its last activity.
pub open spec fn record_expired(s: SessionRecord, ttl: nat, now: int) -> bool {
    s.status != SessionStatus::Streaming && elapsed(now, s.last_activity) > ttl
}

/// The whole seconds a session has left: none once streaming or once the
/// ttl has run out.
pub open spec fn seconds_left(s: SessionRecord, ttl: nat, now: int) -> int {
    let e: int = elapsed(now, s.last_activity);
    if e >= ttl || s.status == SessionStatus::Streaming {
        0
    } else {
        (ttl - e) / 1_000_000_000
    }
}

/// The text stored with a session error: `"{code}: {message}"`.
pub open spec fn error_text(code: Seq<char>, message: Seq<char>) -> Seq<char> {
    code + ": "@ + message
}

/// The view that `v` reports is that of the session `s` at reading `now`.
pub open spec fn reports(v: SessionView, s: SessionRecord, ttl: nat, now: int) -> bool {
    &&& v.id == s.id
    &&& v.session_code@ == s.code
    &&& v.status == s.status
    &&& v.created_at == s.created_at
    &&& v.expires_in_seconds == seconds_left(s, ttl, now)
    &&& opt_text(v.error) == s.error
}

/// `m` having taken the reading `now`: the latest reading becomes `now`
/// when that is later.
pub open spec fn advanced(m: SessionsView, now: int) -> SessionsView {
    SessionsView { latest: if now > m.latest { now } else { m.latest }, ..m }
}

/// The session's last activity lies at or before the latest reading.
pub open spec fn readings_ordered(m: SessionsView) -> bool {
    m.session matches Some(s) ==> s.last_activity <= m.latest
}

/// `m` with the session's last activity moved to `now`.
pub open spec fn touched(m: SessionsView, now: int) -> SessionsView {
    match m.session {
        Some(s) => SessionsView { session: Some(SessionRecord { last_activity: now, ..s }), ..m },
        None => m,
    }
}

/// `m` with a fresh `Waiting` session of code `code` and id `id`, active at `now`.
pub open spec fn opened(m: SessionsView, code: Seq<char>, id: u128, created_at: SystemTime, now: int) -> SessionsView {
    SessionsView {
        session: Some(
            SessionRecord {
                id,
                code,
                status: SessionStatus::Waiting,
                created_at,
                last_activity: now,
                error: None,
            },
        ),
        ..m
    }
}

/// What `try_acquire_connection` does: whether the slot was free, and the
/// state with the slot taken.
pub open spec fn acquire_outcome(m: SessionsView) -> (bool, SessionsView) {
    (!m.connection_active, SessionsView { connection_active: true, ..m })
}

/// What `release_connection` does.
pub open spec fn release_outcome(m: SessionsView) -> SessionsView {
    SessionsView { connection_active: false, ..m }
}

/// What `validate_code` does at reading `now`: the session id and the new
/// state.
pub open spec fn validate_outcome(m: SessionsView, code: Seq<char>, now: int) -> (Option<u128>, SessionsView) {
    match m.session {
        None => (None, m),
        Some(s) => if s.code != code {
            (None, m)
        } else if record_expired(s, m.ttl, now) {
            (None, SessionsView { session: None, ..m })
        } else {
            (Some(s.id), touched(m, now))
        },
    }
}

/// What `set_status` does at reading `now`.
pub open spec fn status_outcome(m: SessionsView, id: u128, status: SessionStatus, now: int) -> SessionsView {
    match m.session {
        Some(s) => if s.id == id {
            SessionsView {
                session: Some(
                    SessionRecord {
                        status,
                        last_activity: now,
                        error: if status != SessionStatus::Error {
                            None
                        } else {
                            s.error
                        },
                        ..s
                    },
                ),
                ..m
            }
        } else {
            m
        },
        None => m,
    }
}

/// What `set_error` does at reading `now`.
pub open spec fn error_outcome(m: SessionsView, id: u128, code: Seq<char>, message: Seq<char>, now: int) -> SessionsView {
    match m.session {
        Some(s) => if s.id == id {
            SessionsView {
                session: Some(
                    SessionRecord {
                        status: SessionStatus::Error,
                        error: Some(error_text(code, message)),
                        last_activity: now,
                        ..s
                    },
                ),
                ..m
            }
        } else {
            m
        },
        None => m,
    }
}

/// What `touch` does at reading `now`.
pub open spec fn touch_outcome(m: SessionsView, id: u128, now: int) -> SessionsView {
    match m.session {
        Some(s) => if s.id == id {
            touched(m, now)
        } else {
            m
        },
        None => m,
    }
}

/// What `cleanup_expired` does at reading `now`: a lapsed session is
/// dropped. The connection slot is left as it is: it belongs to the
/// conversation that holds it, which frees it when it ends.
pub open spec fn cleanup_outcome(m: SessionsView, now: int) -> SessionsView {
    match m.session {
        Some(s) => if record_expired(s, m.ttl, now) {
            SessionsView { session: None, ..m }
        } else {
            m
        },
        None => m,
    }
}

/// No session carries an error text unless it is in `Error`.
pub open spec fn error_only_in_error(m: SessionsView) -> bool {
    m.session matches Some(s) ==> (s.error is Some ==> s.status == SessionStatus::Error)
}

/// A session just opened accepts its own code at any reading within the ttl
/// of its opening, hands back its id and counts the check as activity.
pub proof fn law_fresh_session_accepts_its_code(
    m: SessionsView,
    code: Seq<char>,
    id: u128,
    created_at: SystemTime,
    t0: int,
    t: int,
)
    requires
        t0 <= t <= t0 + m.ttl,
    ensures
        validate_outcome(opened(m, code, id, created_at, t0), code, t) == (Some(id), opened(m, code, id, created_at, t)),
{
}

/// A code other than the session's is refused and changes nothing.
pub proof fn law_wrong_code_is_refused(m: SessionsView, code: Seq<char>, t: int)
    requires
        !(m.session matches Some(s) && s.code == code),
    ensures
        validate_outcome(m, code, t) == (None::<u128>, m),
{
}

/// The TTL only applies to sessions that are not streaming: a streaming
/// session never lapses, is never cleaned up and reports no time left.
pub proof fn law_streaming_session_never_lapses(m: SessionsView, t: int)
    requires
        m.session matches Some(s) && s.status == SessionStatus::Streaming,
    ensures
        !record_expired(m.session->0, m.ttl, t),
        cleanup_outcome(m, t) == m,
        seconds_left(m.session->0, m.ttl, t) == 0,
{
}

/// A session that is not streaming and has been idle for more than the ttl
/// is refused even with the right code (and dropped), and cleanup drops it;
/// neither touches the connection slot.
pub proof fn law_idle_session_lapses(m: SessionsView, t: int)
    requires
        m.session matches Some(s) && s.status != SessionStatus::Streaming && elapsed(t, s.last_activity) > m.ttl,
    ensures
        validate_outcome(m, m.session->0.code, t) == (None::<u128>, SessionsView { session: None, ..m }),
        cleanup_outcome(m, t).session is None,
        cleanup_outcome(m, t).connection_active == m.connection_active,
        seconds_left(m.session->0, m.ttl, t) == 0,
{
}

/// Activity keeps a session alive: after a touch at `t` it does not lapse
/// at any reading up to `t` plus the ttl.
pub proof fn law_activity_keeps_session_alive(m: SessionsView, id: u128, t: int, t2: int)
    requires
        m.session matches Some(s) && s.id == id,
        t <= t2 <= t + m.ttl,
    ensures
        !record_expired(touch_outcome(m, id, t).session->0, m.ttl, t2),
        cleanup_outcome(touch_outcome(m, id, t), t2) == touch_outcome(m, id, t),
{
}

/// A status change or an error on the current session counts as activity:
/// afterwards its last activity is the reading of the change, so at any
/// reading up to the ttl later it has not lapsed, cleanup keeps it and, in
/// any status but streaming, it reports the whole seconds left of the ttl;
/// its code is still accepted.
pub proof fn law_status_change_is_activity(
    m: SessionsView,
    id: u128,
    status: SessionStatus,
    code: Seq<char>,
    message: Seq<char>,
    t: int,
    t2: int,
)
    requires
        m.session matches Some(s) && s.id == id,
        t <= t2 <= t + m.ttl,
    ensures
        ({
            let after = status_outcome(m, id, status, t);
            &&& after.session->0.last_activity == t
            &&& after.session->0.status == status
            &&& !record_expired(after.session->0, m.ttl, t2)
            &&& cleanup_outcome(after, t2) == after
            &&& validate_outcome(after, m.session->0.code, t2).0 == Some(id)
            &&& status != SessionStatus::Streaming ==> seconds_left(after.session->0, m.ttl, t2)
                == (t + m.ttl - t2) / 1_000_000_000
        }),
        ({
            let after = error_outcome(m, id, code, message, t);
            &&& after.session->0.last_activity == t
            &&& after.session->0.status == SessionStatus::Error
            &&& !record_expired(after.session->0, m.ttl, t2)
            &&& cleanup_outcome(after, t2) == after
            &&& validate_outcome(after, m.session->0.code, t2).0 == Some(id)
            &&& seconds_left(after.session->0, m.ttl, t2) == (t + m.ttl - t2) / 1_000_000_000
        }),
{
}

/// A session never reports more whole seconds than its ttl holds.
pub proof fn law_seconds_left_within_ttl(s: SessionRecord, ttl: nat, t: int)
    ensures
        0 <= seconds_left(s, ttl, t) <= ttl / 1_000_000_000,
{
    let e: int = elapsed(t, s.last_activity);
    if !(e >= ttl || s.status == SessionStatus::Streaming) {
        vstd::arithmetic::div_mod::lemma_div_is_ordered((ttl - e) as int, ttl as int, 1_000_000_000);
        vstd::arithmetic::div_mod::lemma_div_pos_is_pos((ttl - e) as int, 1_000_000_000);
    }
}

/// One mobile connection at a time: once the slot is taken a second taker
/// is refused, and after a release the next taker succeeds.
pub proof fn law_one_connection_at_a_time(m: SessionsView)
    ensures
        acquire_outcome(acquire_outcome(m).1).0 == false,
        acquire_outcome(release_outcome(acquire_outcome(m).1)).0 == true,
        acquire_outcome(release_outcome(m)).0 == true,
{
}

/// Every operation keeps the rule that only a session in `Error` carries an
/// error text.
pub proof fn law_errors_only_in_error_status(
    m: SessionsView,
    code: Seq<char>,
    message: Seq<char>,
    id: u128,
    created_at: SystemTime,
    status: SessionStatus,
    t: int,
)
    requires
        error_only_in_error(m),
    ensures
        error_only_in_error(opened(m, code, id, created_at, t)),
        error_only_in_error(validate_outcome(m, code, t).1),
        error_only_in_error(touch_outcome(m, id, t)),
        error_only_in_error(status_outcome(m, id, status, t)),
        error_only_in_error(error_outcome(m, id, code, message, t)),
        error_only_in_error(cleanup_outcome(m, t)),
        error_only_in_error(acquire_outcome(m).1),
        error_only_in_error(release_outcome(m)),
{
}

/// One operation on the manager, as the contracts see it.
pub enum SessionOp {
    Open { code: Seq<char>, id: u128, created_at: SystemTime, now: int },
    Validate { code: Seq<char>, now: int },
    Touch { id: u128, now: int },
    SetStatus { id: u128, status: SessionStatus, now: int },
    SetError { id: u128, code: Seq<char>, message: Seq<char>, now: int },
    Cleanup { now: int },
    Acquire,
    Release,
}

/// The state after `op`.
pub open spec fn apply_op(m: SessionsView, op: SessionOp) -> SessionsView {
    match op {
        SessionOp::Open { code, id, created_at, now } => opened(m, code, id, created_at, now),
        SessionOp::Validate { code, now } => validate_outcome(m, code, now).1,
        SessionOp::Touch { id, now } => touch_outcome(m, id, now),
        SessionOp::SetStatus { id, status, now } => status_outcome(m, id, status, now),
        SessionOp::SetError { id, code, message, now } => error_outcome(m, id, code, message, now),
        SessionOp::Cleanup { now } => cleanup_outcome(m, now),
        SessionOp::Acquire => acquire_outcome(m).1,
        SessionOp::Release => release_outcome(m),
    }
}

/// The state after `ops`, in order.
pub open spec fn apply_ops(m: SessionsView, ops: Seq<SessionOp>) -> SessionsView
    decreases ops.len(),
{
    if ops.len() == 0 {
        m
    } else {
        apply_op(apply_ops(m, ops.drop_last()), ops.last())
    }
}

/// One mobile connection at a time: once a conversation has taken the slot,
/// no sequence of session operations other than a release frees it (not
/// creating sessions, checking codes, status changes, nor cleaning up a
/// lapsed session), so every further taker is refused; after the release
/// the next taker succeeds.
pub proof fn law_slot_held_until_release(m: SessionsView, ops: Seq<SessionOp>)
    requires
        m.connection_active,
        forall|i: int| 0 <= i < ops.len() ==> !(#[trigger] ops[i] is Release),
    ensures
        apply_ops(m, ops).connection_active,
        acquire_outcome(apply_ops(m, ops)).0 == false,
        acquire_outcome(apply_ops(m, ops.push(SessionOp::Release))).0 == true,
    decreases ops.len(),
{
    if ops.len() > 0 {
        assert forall|i: int| 0 <= i < ops.drop_last().len() implies !(#[trigger] ops.drop_last()[i] is Release) by {
            assert(ops.drop_last()[i] == ops[i]);
        }
        law_slot_held_until_release(m, ops.drop_last());
        assert(!(ops[ops.len() - 1] is Release));
    }
    assert(ops.push(SessionOp::Release).drop_last() =~= ops);
}

/// The state of a session as reported to clients.
#[derive(Debug)]
pub struct SessionView {
    pub id: u128,
    pub session_code: String,
    pub status: SessionStatus,
    pub created_at: SystemTime,
    pub expires_in_seconds: u64,
    pub error: Option<String>,
}

struct SessionData {
    id: u128,
    session_code: String,
    status: SessionStatus,
    created_at: SystemTime,
    last_activity: u128,
    error: Option<String>,
}

impl SessionData {
    spec fn record(&self) -> SessionRecord {
        SessionRecord {
            id: self.id,
            code: self.session_code@,
            status: self.status,
            created_at: self.created_at,
            last_activity: self.last_activity as int,
            error: opt_text(self.error),
        }
    }

    /// The report of this session at reading `now`.
    fn view_at(&self, ttl: u64, now: u128) -> (v: SessionView)
        ensures
            reports(v, self.record(), ttl as nat, now as int),
    {
        let elapsed: u128 = if now >= self.last_activity {
            now - self.last_activity
        } else {
            0
        };
        let expires_in_seconds: u64 = if elapsed >= ttl as u128 || self.status == SessionStatus::Streaming {
            0
        } else {
            ((ttl as u128 - elapsed) / 1_000_000_000) as u64
        };
        SessionView {
            id: self.id,
            session_code: self.session_code.clone(),
            status: self.status,
            created_at: self.created_at,
            expires_in_seconds,
            error: clone_opt_string(&self.error),
        }
    }
}

/// The record of an optional session.
spec fn opt_record(o: Option<SessionData>) -> Option<SessionRecord> {
    match o {
        Some(d) => Some(d.record()),
        None => None,
    }
}

/// Moves the last activity of the session in `slot` to `now` when its id is `id`.
fn refresh_slot(slot: &mut Option<SessionData>, id: u128, now: u128)
    ensures
        opt_record(*final(slot)) == match opt_record(*old(slot)) {
            Some(r) => if r.id == id {
                Some(SessionRecord { last_activity: now as int, ..r })
            } else {
                Some(r)
            },
            None => None,
        },
    no_unwind
{
    match slot {
        Some(s) => {
            if s.id == id {
                s.last_activity = now;
            }
        },
        None => {},
    }
}

/// Moves the session in `slot` to `status` at `now` when its id is `id`;
/// any status other than `Error` clears its error text.
fn restatus_slot(slot: &mut Option<SessionData>, id: u128, status: SessionStatus, now: u128)
    ensures
        opt_record(*final(slot)) == match opt_record(*old(slot)) {
            Some(r) => if r.id == id {
                Some(
                    SessionRecord {
                        status,
                        last_activity: now as int,
                        error: if status != SessionStatus::Error {
                            None
                        } else {
                            r.error
                        },
                        ..r
                    },
                )
            } else {
                Some(r)
            },
            None => None,
        },
    no_unwind
{
    match slot {
        Some(s) => {
            if s.id == id {
                s.status = status;
                s.last_activity = now;
                if status != SessionStatus::Error {
                    s.error = None;
                }
            }
        },
        None => {},
    }
}

/// Puts the session in `slot` in `Error` with the error text `text` at `now`
/// when its id is `id`.
fn fail_slot(slot: &mut Option<SessionData>, id: u128, text: String, now: u128)
    ensures
        opt_record(*final(slot)) == match opt_record(*old(slot)) {
            Some(r) => if r.id == id {
                Some(
                    SessionRecord {
                        status: SessionStatus::Error,
                        error: Some(text@),
                        last_activity: now as int,
                        ..r
                    },
                )
            } else {
                Some(r)
            },
            None => None,
        },
    no_unwind
{
    match slot {
        Some(s) => {
            if s.id == id {
                s.status = SessionStatus::Error;
                s.error = Some(text);
                s.last_activity = now;
            }
        },
        None => {},
    }
}

fn clone_opt_string(o: &Option<String>) -> (r: Option<String>)
    ensures
        opt_text(r) == opt_text(*o),
{
    match o {
        Some(s) => Some(s.clone()),
        None => None,
    }
}

/// The host's session bookkeeping: at most one session, plus the flag that
/// admits a single mobile connection at a time.
pub struct SessionManager {
    ttl_nanos: u64,
    origin: Instant,
    inner: Option<SessionData>,
    connection_active: bool,
    latest: u128,
}

impl View for SessionManager {
    type V = SessionsView;

    closed spec fn view(&self) -> SessionsView {
        SessionsView {
            ttl: self.ttl_nanos as nat,
            session: opt_record(self.inner),
            connection_active: self.connection_active,
            latest: self.latest as int,
        }
    }
}

impl SessionManager {
    /// No session was active after the latest reading.
    #[verifier::type_invariant]
    spec fn activity_not_ahead(self) -> bool {
        match self.inner {
            Some(d) => d.last_activity <= self.latest,
            None => true,
        }
    }

    /// A manager with no session whose sessions lapse after `ttl_nanos`
    /// nanoseconds without activity.
    pub fn new(ttl_nanos: u64) -> (m: Self)
        ensures
            m@ == (SessionsView { ttl: ttl_nanos as nat, session: None, connection_active: false, latest: 0 }),
    {
        SessionManager { ttl_nanos, origin: instant_now(), inner: None, connection_active: false, latest: 0 }
    }

    /// Makes `now` the latest reading when it is later than the latest one.
    fn advance_to(&mut self, now: u128)
        ensures
            final(self)@ == advanced(old(self)@, now as int),
    {
        proof {
            use_type_invariant(&*self);
        }
        if now > self.latest {
            self.latest = now;
        }
    }

    /// A clock reading that is never behind the latest one; it is not
    /// recorded.
    fn peek_clock(&self) -> (t: u128)
        ensures
            t >= self@.latest,
    {
        let c: u128 = nanos_since(&self.origin);
        if c > self.latest {
            c
        } else {
            self.latest
        }
    }

    /// Takes a clock reading that is never behind the latest one and records
    /// it as the latest.
    fn read_clock(&mut self) -> (t: u128)
        ensures
            t >= old(self)@.latest,
            final(self)@ == advanced(old(self)@, t as int),
    {
        let t: u128 = self.peek_clock();
        self.advance_to(t);
        t
    }

    /// Replaces any session by a fresh `Waiting` one with code `code`, id
    /// `id` and creation time `created_at`, active at reading `now`.
    pub fn open_session(&mut self, code: String, id: u128, created_at: SystemTime, now: u128)
        ensures
            final(self)@ == advanced(opened(old(self)@, code@, id, created_at, now as int), now as int),
            readings_ordered(final(self)@),
    {
        self.advance_to(now);
        self.inner = Some(
            SessionData {
                id,
                session_code: code,
                status: SessionStatus::Waiting,
                created_at,
                last_activity: now,
                error: None,
            },
        );
        proof {
            use_type_invariant(&*self);
        }
    }

    /// Starts a new session with code `code`, replacing any earlier one, and
    /// reports it. The id is a fresh random UUID; the session is active at a
    /// new reading, and the report is taken at the reading after it.
    pub fn create_session(&mut self, code: String) -> (v: SessionView)
        ensures
            final(self)@.ttl == old(self)@.ttl,
            final(self)@.connection_active == old(self)@.connection_active,
            final(self)@.latest >= old(self)@.latest,
            readings_ordered(final(self)@),
            final(self)@.session matches Some(s) && {
                &&& s.code == code@
                &&& s.status == SessionStatus::Waiting
                &&& s.error is None
                &&& is_v4_uuid(s.id)
                &&& old(self)@.latest <= s.last_activity
                &&& reports(v, s, old(self)@.ttl, final(self)@.latest)
            },
    {
        let id: u128 = new_session_id();
        let created_at = system_time_now();
        let now: u128 = self.read_clock();
        self.open_session(code, id, created_at, now);
        let t: u128 = self.read_clock();
        self.view_at(t)
    }

    fn view_at(&self, now: u128) -> (v: SessionView)
        requires
            self@.session is Some,
        ensures
            reports(v, self@.session->0, self@.ttl, now as int),
    {
        match &self.inner {
            Some(d) => d.view_at(self.ttl_nanos, now),
            None => {
                proof {
                    assert(false);
                }
                unreached()
            },
        }
    }

    fn is_expired(&self, session: &SessionData, now: u128) -> (r: bool)
        ensures
            r == record_expired(session.record(), self@.ttl, now as int),
    {
        let elapsed: u128 = if now >= session.last_activity {
            now - session.last_activity
        } else {
            0
        };
        session.status != SessionStatus::Streaming && elapsed > self.ttl_nanos as u128
    }

    /// Checks a client's session code at reading `now`: the session id when
    /// it matches a live session (whose activity is then refreshed), nothing
    /// otherwise; a matching but lapsed session is dropped.
    pub fn validate_code_at(&mut self, code: &str, now: u128) -> (r: Option<u128>)
        ensures
            r == validate_outcome(old(self)@, code@, now as int).0,
            final(self)@ == advanced(validate_outcome(old(self)@, code@, now as int).1, now as int),
            readings_ordered(final(self)@),
    {
        self.advance_to(now);
        let (matches, expired) = match &self.inner {
            None => (false, false),
            Some(s) => {
                if !str_equal(s.session_code.as_str(), code) {
                    (false, false)
                } else {
                    (true, self.is_expired(s, now))
                }
            },
        };
        if !matches {
            proof {
                use_type_invariant(&*self);
            }
            return None;
        }
        if expired {
            self.inner = None;
            return None;
        }
        let id: u128 = match &self.inner {
            Some(s) => s.id,
            None => 0,
        };
        refresh_slot(&mut self.inner, id, now);
        proof {
            use_type_invariant(&*self);
        }
        Some(id)
    }

    /// Checks a client's session code against the clock: `validate_code_at`
    /// at a new reading, which is then the latest.
    pub fn validate_code(&mut self, code: &str) -> (r: Option<u128>)
        ensures
            final(self)@.latest >= old(self)@.latest,
            r == validate_outcome(old(self)@, code@, final(self)@.latest).0,
            final(self)@ == advanced(
                validate_outcome(old(self)@, code@, final(self)@.latest).1,
                final(self)@.latest,
            ),
            readings_ordered(final(self)@),
    {
        let now: u128 = self.read_clock();
        self.validate_code_at(code, now)
    }

    /// The report of the session with id `id` at reading `now`, if it is the
    /// current one.
    pub fn by_id_at(&self, id: u128, now: u128) -> (r: Option<SessionView>)
        ensures
            match self@.session {
                Some(s) => if s.id == id {
                    r matches Some(v) && reports(v, s, self@.ttl, now as int)
                } else {
                    r is None
                },
                None => r is None,
            },
    {
        match &self.inner {
            Some(s) => {
                if s.id == id {
                    Some(s.view_at(self.ttl_nanos, now))
                } else {
                    None
                }
            },
            None => None,
        }
    }

    /// The report of the session with id `id`, if it is the current one,
    /// taken at a clock reading no earlier than the latest.
    pub fn by_id(&self, id: u128) -> (r: Option<SessionView>)
        ensures
            match self@.session {
                Some(s) => if s.id == id {
                    r matches Some(v) && exists|t: int| t >= self@.latest && #[trigger] reports(v, s, self@.ttl, t)
                } else {
                    r is None
                },
                None => r is None,
            },
    {
        let now: u128 = self.peek_clock();
        self.by_id_at(id, now)
    }

    /// Marks activity on session `id` at reading `now`.
    pub fn touch_at(&mut self, id: u128, now: u128)
        ensures
            final(self)@ == advanced(touch_outcome(old(self)@, id, now as int), now as int),
            readings_ordered(final(self)@),
    {
        self.advance_to(now);
        proof {
            use_type_invariant(&*self);
        }
        refresh_slot(&mut self.inner, id, now);
        proof {
            use_type_invariant(&*self);
        }
    }

    /// Marks activity on session `id` at a new reading, which is then the
    /// latest: its last activity moves forward to it.
    pub fn touch(&mut self, id: u128)
        ensures
            final(self)@.latest >= old(self)@.latest,
            final(self)@ == advanced(touch_outcome(old(self)@, id, final(self)@.latest), final(self)@.latest),
            old(self)@.session matches Some(s) ==> (s.id == id ==> {
                &&& final(self)@.session->0.last_activity == final(self)@.latest
                &&& s.last_activity <= final(self)@.session->0.last_activity
            }),
            readings_ordered(final(self)@),
    {
        proof {
            use_type_invariant(&*self);
        }
        let now: u128 = self.read_clock();
        self.touch_at(id, now)
    }

    /// Moves session `id` to `status` at reading `now`; any status other
    /// than `Error` clears the stored error.
    pub fn set_status_at(&mut self, id: u128, status: SessionStatus, now: u128)
        ensures
            final(self)@ == advanced(status_outcome(old(self)@, id, status, now as int), now as int),
            readings_ordered(final(self)@),
    {
        self.advance_to(now);
        proof {
            use_type_invariant(&*self);
        }
        restatus_slot(&mut self.inner, id, status, now);
        proof {
            use_type_invariant(&*self);
        }
    }

    /// Moves session `id` to `status` at a new reading, which is then the
    /// latest.
    pub fn set_status(&mut self, id: u128, status: SessionStatus)
        ensures
            final(self)@.latest >= old(self)@.latest,
            final(self)@ == advanced(
                status_outcome(old(self)@, id, status, final(self)@.latest),
                final(self)@.latest,
            ),
            readings_ordered(final(self)@),
    {
        let now: u128 = self.read_clock();
        self.set_status_at(id, status, now)
    }

    /// Puts session `id` in `Error` with the text `"{code}: {message}"` at
    /// reading `now`.
    pub fn set_error_at(&mut self, id: u128, code: &str, message: &str, now: u128)
        ensures
            final(self)@ == advanced(error_outcome(old(self)@, id, code@, message@, now as int), now as int),
            readings_ordered(final(self)@),
    {
        self.advance_to(now);
        let mut text = String::from_str(code);
        text.append(": ");
        text.append(message);
        proof {
            use_type_invariant(&*self);
        }
        fail_slot(&mut self.inner, id, text, now);
        proof {
            use_type_invariant(&*self);
        }
    }

    /// Puts session `id` in `Error` with the text `"{code}: {message}"` at a
    /// new reading, which is then the latest.
    pub fn set_error(&mut self, id: u128, code: &str, message: &str)
        ensures
            final(self)@.latest >= old(self)@.latest,
            final(self)@ == advanced(
                error_outcome(old(self)@, id, code@, message@, final(self)@.latest),
                final(self)@.latest,
            ),
            readings_ordered(final(self)@),
    {
        let now: u128 = self.read_clock();
        self.set_error_at(id, code, message, now)
    }

    /// Takes the connection slot: true when it was free (it is now taken),
    /// false when another client holds it.
    pub fn try_acquire_connection(&mut self) -> (r: bool)
        ensures
            (r, final(self)@) == acquire_outcome(old(self)@),
    {
        proof {
            use_type_invariant(&*self);
        }
        if self.connection_active {
            false
        } else {
            self.connection_active = true;
            true
        }
    }

    /// Frees the connection slot.
    pub fn release_connection(&mut self)
        ensures
            final(self)@ == release_outcome(old(self)@),
    {
        proof {
            use_type_invariant(&*self);
        }
        self.connection_active = false;
    }

    /// Drops the session if it has lapsed at reading `now`; the connection
    /// slot is left as it is.
    pub fn cleanup_expired_at(&mut self, now: u128)
        ensures
            final(self)@ == advanced(cleanup_outcome(old(self)@, now as int), now as int),
            readings_ordered(final(self)@),
    {
        self.advance_to(now);
        let expired = match &self.inner {
            Some(s) => self.is_expired(s, now),
            None => false,
        };
        if expired {
            self.inner = None;
        }
        proof {
            use_type_invariant(&*self);
        }
    }

    /// Drops the session if it has lapsed at a new reading, which is then
    /// the latest; a session that had lapsed by the previous latest reading
    /// is always dropped. The connection slot is left as it is.
    pub fn cleanup_expired(&mut self)
        ensures
            final(self)@.latest >= old(self)@.latest,
            final(self)@ == advanced(cleanup_outcome(old(self)@, final(self)@.latest), final(self)@.latest),
            old(self)@.session matches Some(s) ==> (record_expired(s, old(self)@.ttl, old(self)@.latest)
                ==> final(self)@.session is None),
            readings_ordered(final(self)@),
    {
        let now: u128 = self.read_clock();
        self.cleanup_expired_at(now)
    }

    /// Whether a session exists.
    pub fn has_session(&self) -> (r: bool)
        ensures
            r == self@.session is Some,
    {
        self.inner.is_some()
    }
}

} // verus!
