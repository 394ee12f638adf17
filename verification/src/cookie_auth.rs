//! Session cookies: checking a session against its stored record, opening a
//! session after login, and the cut-off for removing old sessions.
use vstd::prelude::*;

use random_detached::Generator;

use crate::app_routes::{route_path, AppRoutes};
use crate::bytes::copy_str;
use crate::errors::{
    http_error, HttpErrorWrapper, MSG_INTERNAL, STATUS_INTERNAL_SERVER_ERROR, STATUS_OK,
    STATUS_UNAUTHORIZED,
};
use crate::text::{hex_string_upper, hex_upper};
use crate::timestamp::{
    before, bytes_less, decode_timestamp, earlier_by, later_by, spec_before, tai64n_add_secs,
    tai64n_from_slice, tai64n_now, tai64n_sub_secs, tai64n_to_bytes, timestamp_bytes, be_value,
    Timestamp,
};

verus! {

/// Name of the session cookie.
pub const SESSION_COOKIE: &'static str = "session";

/// How long a session lasts: 24 hours, in seconds.
pub const SESSION_LIFETIME_SECS: u64 = 86_400;

/// Message of every refused session.
pub const MSG_EXPIRED_SESSION: &'static str = "expired session. New login required!";

/// Message when no random session token could be drawn.
pub const MSG_TOKEN_FAILURE: &'static str = "Internal server error";

/// The stored record of a session: the user it belongs to and when it was
/// opened (12 TAI64N bytes).
pub struct SessionRow {
    pub user_name: String,
    pub created_at: Vec<u8>,
}

/// The outcome of a session check that found the session's record.
#[derive(Debug, Clone, Copy, PartialEq, Eq, Structural)]
pub enum SessionStatus {
    /// The session is open: answer 200 and keep the cookie.
    Active,
    /// The session is over 24 hours old: answer 401, remove the cookie and the
    /// stored record.
    Expired,
}

impl SessionStatus {
    /// The HTTP status code of the outcome.
    pub fn status_code(&self) -> (code: u16)
        ensures
            code == (if *self == SessionStatus::Active { STATUS_OK } else { STATUS_UNAUTHORIZED }),
    {
        match self {
            SessionStatus::Active => STATUS_OK,
            SessionStatus::Expired => STATUS_UNAUTHORIZED,
        }
    }
}

/// A newly opened session: the token for the cookie and the database, and the
/// opening time as stored.
pub struct NewSession {
    pub token: String,
    pub created_at: [u8; 12],
    pub redirect: RedirectData,
}

/// Where the browser goes next.
pub struct RedirectData {
    pub path: String,
}

impl RedirectData {
    /// A redirection to `path`.
    pub fn new(path: &str) -> (r: Self)
        ensures
            r.path@ == path@,
    {
        RedirectData { path: copy_str(path) }
    }
}

/// The e-mail address that a client claims.
pub struct UserCredentials {
    pub email: String,
}

/// A session opened at `created` is over at `now`.
pub open spec fn session_expired(created: Timestamp, now: Timestamp) -> bool {
    !spec_before(now, later_by(created, SESSION_LIFETIME_SECS))
}

/// The stored opening time can be moved 24 hours later.
pub open spec fn session_row_time_ok(row: Option<SessionRow>) -> bool {
    row matches Some(r) ==> (r.created_at@.len() == 12 ==> be_value(r.created_at@.subrange(0, 8))
        + SESSION_LIFETIME_SECS <= u64::MAX)
}

/// The outcome of checking session cookie `token` (if the browser sent one) for
/// user `email` against the stored record `row` (if the token has one) at `now`.
pub open spec fn session_check(
    token: Option<String>,
    row: Option<SessionRow>,
    email: Seq<char>,
    now: Timestamp,
) -> Result<SessionStatus, (u16, Seq<char>)> {
    if token is None || row is None || row->0.user_name@ != email {
        Err((STATUS_UNAUTHORIZED, MSG_EXPIRED_SESSION@))
    } else {
        match decode_timestamp(row->0.created_at@) {
            None => Err((STATUS_INTERNAL_SERVER_ERROR, MSG_INTERNAL@)),
            Some(created) => if session_expired(created, now) {
                Ok(SessionStatus::Expired)
            } else {
                Ok(SessionStatus::Active)
            },
        }
    }
}

/// `res` answers as the specification `spec` says.
pub open spec fn session_answer(
    res: Result<SessionStatus, HttpErrorWrapper>,
    spec: Result<SessionStatus, (u16, Seq<char>)>,
) -> bool {
    match spec {
        Ok(status) => res == Ok::<SessionStatus, HttpErrorWrapper>(status),
        Err((code, text)) => res matches Err(e) && e.is(code, text),
    }
}

/// Checks and opens sessions.
pub struct CookieAuthProcessor;

impl CookieAuthProcessor {
    /// Checks a session at the current time: see `check_cookies_at`.
    pub fn check_cookies(token: Option<String>, row: Option<SessionRow>, email: &str) -> (res: Result<SessionStatus, HttpErrorWrapper>)
        requires
            session_row_time_ok(row),
        ensures
            exists|now: Timestamp| now.wf() && session_answer(res, session_check(token, row, email@, now)),
    {
        let now = tai64n_now();
        Self::check_cookies_at(token, row, email, now)
    }

    /// Checks session cookie `token` for user `email`: without a cookie, without
    /// a stored record, or for another user the session is refused; a stored
    /// opening time that does not decode is a server error; a session opened 24
    /// hours or more before `now` is expired; otherwise it is active.
    pub fn check_cookies_at(token: Option<String>, row: Option<SessionRow>, email: &str, now: Timestamp) -> (res: Result<SessionStatus, HttpErrorWrapper>)
        requires
            session_row_time_ok(row),
        ensures
            session_answer(res, session_check(token, row, email@, now)),
    {
        if token.is_none() {
            return Err(http_error(STATUS_UNAUTHORIZED, MSG_EXPIRED_SESSION));
        }
        let row = match row {
            None => return Err(http_error(STATUS_UNAUTHORIZED, MSG_EXPIRED_SESSION)),
            Some(row) => row,
        };
        if !(row.user_name == copy_str(email)) {
            return Err(http_error(STATUS_UNAUTHORIZED, MSG_EXPIRED_SESSION));
        }
        let created = match tai64n_from_slice(row.created_at.as_slice()) {
            None => return Err(HttpErrorWrapper::new()),
            Some(created) => created,
        };
        let expiry = tai64n_add_secs(created, SESSION_LIFETIME_SECS);
        if !before(now, expiry) {
            return Ok(SessionStatus::Expired);
        }
        Ok(SessionStatus::Active)
    }

    /// Opens a session at the current time with a random token: see
    /// `set_login_headers_with`.
    pub fn set_login_headers() -> (res: Result<NewSession, HttpErrorWrapper>)
        ensures
            res matches Err(e) ==> e.is(STATUS_INTERNAL_SERVER_ERROR, MSG_TOKEN_FAILURE@),
            res matches Ok(s) ==> exists|bytes: [u8; 32], now: Timestamp|
                now.wf() && Self::opened(Some(bytes), now, s),
    {
        let random = random_token_bytes();
        let now = tai64n_now();
        Self::set_login_headers_with(random, now)
    }

    /// `s` is the session opened with token bytes `bytes` at `now`.
    pub open spec fn opened(bytes: Option<[u8; 32]>, now: Timestamp, s: NewSession) -> bool {
        &&& bytes is Some
        &&& s.token@ == hex_upper(bytes->0@)
        &&& s.created_at@ == timestamp_bytes(now)
        &&& s.redirect.path@ == route_path(AppRoutes::Dashboard)
    }

    /// Opens a session with random token bytes `random` (none when the random
    /// source failed) at `now`: the token is the bytes in upper-case hexadecimal,
    /// the opening time is stored as TAI64N bytes, and the browser is sent to the
    /// dashboard.
    pub fn set_login_headers_with(random: Option<[u8; 32]>, now: Timestamp) -> (res: Result<NewSession, HttpErrorWrapper>)
        ensures
            random is None ==> (res matches Err(e) && e.is(STATUS_INTERNAL_SERVER_ERROR, MSG_TOKEN_FAILURE@)),
            random is Some ==> (res matches Ok(s) && Self::opened(random, now, s)),
    {
        let bytes = match random {
            None => return Err(http_error(STATUS_INTERNAL_SERVER_ERROR, MSG_TOKEN_FAILURE)),
            Some(bytes) => bytes,
        };
        let token = hex_string_upper(bytes.as_slice());
        let created_at = tai64n_to_bytes(now);
        let redirect = RedirectData::new(AppRoutes::Dashboard.as_str());
        Ok(NewSession { token, created_at, redirect })
    }

    /// The stored opening time below which sessions are removed: 24 hours
    /// before `now`.
    pub fn cleanup_cutoff(now: Timestamp) -> (cutoff: [u8; 12])
        requires
            now.wf(),
            now.secs >= SESSION_LIFETIME_SECS,
        ensures
            cutoff@ == timestamp_bytes(earlier_by(now, SESSION_LIFETIME_SECS)),
    {
        let then = tai64n_sub_secs(now, SESSION_LIFETIME_SECS);
        tai64n_to_bytes(then)
    }
}

/// `random_detached::RandomBytes::<32>::generate`: 32 random bytes, or `None`
/// when the operating system's random source fails.
#[verifier::external_body]
pub(crate) fn random_token_bytes() -> Option<[u8; 32]> {
    match random_detached::RandomBytes::<32>::generate() {
        Ok(bytes) => Some(*bytes),
        Err(_) => None,
    }
}

/// A session opened by `set_login_headers` at `opened_at` for `email` is active
/// while less than 24 hours have passed, and expired from then on.
pub proof fn lemma_opened_session_lifetime(
    bytes: Option<[u8; 32]>,
    opened_at: Timestamp,
    s: NewSession,
    cookie: String,
    row: SessionRow,
    email: Seq<char>,
    now: Timestamp,
)
    requires
        opened_at.wf(),
        CookieAuthProcessor::opened(bytes, opened_at, s),
        row.user_name@ == email,
        row.created_at@ == s.created_at@,
    ensures
        session_check(Some(cookie), Some(row), email, now) == (if spec_before(
            now,
            later_by(opened_at, SESSION_LIFETIME_SECS),
        ) {
            Ok::<SessionStatus, (u16, Seq<char>)>(SessionStatus::Active)
        } else {
            Ok::<SessionStatus, (u16, Seq<char>)>(SessionStatus::Expired)
        }),
{
    crate::timestamp::lemma_timestamp_bytes_roundtrip(opened_at);
}

/// The hourly clean-up, which removes the stored sessions whose opening time
/// sorts below the cut-off of `cleanup_cutoff(now)`, removes exactly the
/// sessions opened more than 24 hours before `now`, and every session it
/// removes is one that `check_cookies` refuses at `now`: expired, or a server
/// error when its stored opening time does not decode.
pub proof fn lemma_cleanup_removes_only_expired(row: SessionRow, token: String, now: Timestamp)
    requires
        now.secs >= SESSION_LIFETIME_SECS,
    ensures
        decode_timestamp(row.created_at@) matches Some(created) ==> (bytes_less(
            row.created_at@,
            timestamp_bytes(earlier_by(now, SESSION_LIFETIME_SECS)),
        ) <==> spec_before(created, earlier_by(now, SESSION_LIFETIME_SECS))),
        bytes_less(row.created_at@, timestamp_bytes(earlier_by(now, SESSION_LIFETIME_SECS))) ==> ({
            let answer = session_check(Some(token), Some(row), row.user_name@, now);
            answer == Ok::<SessionStatus, (u16, Seq<char>)>(SessionStatus::Expired) || answer == Err::<
                SessionStatus,
                (u16, Seq<char>),
            >((STATUS_INTERNAL_SERVER_ERROR, MSG_INTERNAL@))
        }),
{
    if decode_timestamp(row.created_at@) is Some {
        let created = decode_timestamp(row.created_at@)->0;
        crate::timestamp::lemma_decoded_timestamp_bytes(row.created_at@);
        crate::timestamp::lemma_timestamp_bytes_order(created, earlier_by(now, SESSION_LIFETIME_SECS));
    }
}

} // verus!
