//! Sign-up, login and e-mail code checks, and the dashboard summary.
use vstd::prelude::*;

use crate::app_routes::{route_path, AppRoutes};
use crate::bytes::copy_str;
use crate::cookie_auth::{random_token_bytes, CookieAuthProcessor, NewSession};
use crate::errors::{
    http_error, HttpErrorWrapper, MSG_INTERNAL, STATUS_BAD_REQUEST, STATUS_INTERNAL_SERVER_ERROR,
    STATUS_OK, STATUS_SEE_OTHER, STATUS_UNAUTHORIZED,
};
use crate::passkey_state::{state_index, PasskeyData};
use crate::text::{push_char, to_uppercase, trim, trimmed, uppercased};
use crate::timestamp::{
    before, be_value, decode_timestamp, later_by, spec_before, tai64n_add_secs, tai64n_from_slice,
    tai64n_now, tai64n_to_bytes, timestamp_bytes, Timestamp,
};

verus! {

/// Number of characters of an e-mail code.
pub const CODE_LEN: usize = 6;

/// How long an e-mail code is valid: ten minutes, in seconds.
pub const CODE_VALIDITY_SECS: u64 = 600;

/// How long to wait before another code is sent: 60 seconds.
pub const RESEND_WAIT_SECS: u64 = 60;

pub const MSG_WAIT: &'static str = "Wait at least 60 seconds";

pub const MSG_INVALID_CODE: &'static str = "Invalid authentication code";

pub const MSG_CODE_EXPIRED: &'static str = "Authentication code has expired";

pub const MSG_INVALID_CREDENTIALS: &'static str = "Invalid credentials or try registering!";

pub const MSG_ACCOUNT_EXISTS: &'static str = "Unable to create the account! If the email is correct maybe try logging in to check whether your account already exists!";

/// Subject of the e-mail that carries a code.
pub const EMAIL_SUBJECT: &'static str = "Jamii Routines Email verification code";

/// The HTML of the code e-mail up to the code.
pub const EMAIL_BODY_START: &'static str = "\n        <!DOCTYPE html>\n<html lang=\"en\">\n<head>\n    <meta charset=\"UTF-8\" />\n    <meta name=\"viewport\" content=\"width=device-width, initial-scale=1.0\" />\n    <title>Verify Your Email</title>\n</head>\n<body style=\"margin:0;padding:0;background-color:#f4f6f8;font-family:-apple-system,BlinkMacSystemFont,'Segoe UI',Roboto,Helvetica,Arial,sans-serif;color:#1f2937;\">\n\n<table role=\"presentation\" width=\"100%\" cellspacing=\"0\" cellpadding=\"0\" style=\"padding:40px 16px;\">\n    <tr>\n        <td align=\"center\">\n\n            <table role=\"presentation\" width=\"600\" cellspacing=\"0\" cellpadding=\"0\" style=\"max-width:600px;width:100%;border-radius:16px;overflow:hidden;border:1px solid #e5e7eb;box-shadow:0 8px 30px rgba(0,0,0,0.06);\">\n\n                <!-- Header -->\n                <tr>\n                    <td align=\"center\" style=\"padding:20px 13px 24px;background:#3636c9;\">\n                        <h1 style=\"margin:0;font-size:20px;font-weight:700;color:#ffffff;\">\n                            Verification Code\n                        </h1>\n                    </td>\n                </tr>\n\n                <!-- Body -->\n                <tr>\n                    <td style=\"padding:20px 12px;\">\n\n                        <p style=\"margin:0 0 16px;font-size:16px;line-height:1.6;\">\n                            Hello,\n                        </p>\n\n                        <p style=\"margin:0 0 28px;font-size:16px;line-height:1.6;\">\n                            Use the verification code below to continue. This code is valid for\n                            <strong>10 minutes</strong>.\n                        </p>\n\n                        <!-- Verification Code -->\n                        <table role=\"presentation\" width=\"100%\" cellspacing=\"0\" cellpadding=\"0\">\n                            <tr>\n                                <td align=\"center\">\n                                    <div style=\"\n                                        display:inline-block;\n                                        background:#f9fafb;\n                                        border:2px dashed #d1d5db;\n                                        border-radius:14px;\n                                        padding:10px 20px;\n                                        font-size:18px;\n                                        font-weight:700;\n                                        letter-spacing:6px;\n                                        color:#111827;\n                                        font-family:'Courier New',monospace;\n                                    \">\n                                         ";

/// The HTML of the code e-mail after the code.
pub const EMAIL_BODY_END: &'static str = "\n                                    </div>\n                                </td>\n                            </tr>\n                        </table>\n\n                        <p style=\"margin:32px 0 0;font-size:15px;line-height:1.7;color:#6b7280;\">\n                            If you didn't request this code, you can safely ignore this email.\n                        </p>\n\n                    </td>\n                </tr>\n\n                <!-- Divider -->\n                <tr>\n                    <td style=\"border-top:1px solid #e5e7eb;\"></td>\n                </tr>\n\n                <!-- Footer -->\n                <tr>\n                    <td align=\"center\" style=\"padding:24px 32px;color:#9ca3af;font-size:13px;line-height:1.6;\">\n                        This is an automated message. Please do not reply.<br />\n                        \u{a9} 2026 Jamii Routines. All rights reserved. A product of JamiiDao\n                    </td>\n                </tr>\n\n            </table>\n\n        </td>\n    </tr>\n</table>\n\n</body>\n</html>\n\n        ";

/// A character that e-mail codes are drawn from: `A`..=`Z` or `0`..=`9`.
pub open spec fn is_code_char(c: char) -> bool {
    ('A' <= c && c <= 'Z') || ('0' <= c && c <= '9')
}

/// The code as shown to the user: its six characters separated by dashes.
pub open spec fn formatted_code(code: Seq<char>) -> Seq<char> {
    seq![code[0], '-', code[1], '-', code[2], '-', code[3], '-', code[4], '-', code[5]]
}

/// The HTML body of the e-mail that carries `code`.
pub open spec fn email_body_text(code: Seq<char>) -> Seq<char> {
    EMAIL_BODY_START@ + code + EMAIL_BODY_END@
}

/// The e-mail that sends a fresh code, and what to store with it.
pub struct AuthCodeMail {
    /// The code as stored: six characters.
    pub code: String,
    /// When the code was made, as 12 TAI64N bytes.
    pub code_time: [u8; 12],
    pub to: String,
    pub subject: String,
    pub body: String,
}

/// `random_detached::RandomChars::<6>::new`: six characters drawn from `A`..=`Z`
/// and `0`..=`9`, or `None` when the operating system's random source fails.
#[verifier::external_body]
pub(crate) fn random_code() -> (code: Option<[char; 6]>)
    ensures
        code matches Some(c) ==> forall|i: int| 0 <= i < 6 ==> is_code_char(#[trigger] c@[i]),
{
    match random_detached::RandomChars::<6>::new() {
        Ok(chars) => Some(*chars.0),
        Err(_) => None,
    }
}

/// A stored code time can be moved ten minutes later.
pub open spec fn code_time_ok(code_time: Seq<u8>) -> bool {
    code_time.len() == 12 ==> be_value(code_time.subrange(0, 8)) + CODE_VALIDITY_SECS <= u64::MAX
}

/// A stored code time can be moved 60 seconds later.
pub open spec fn resend_time_ok(code_time: Seq<u8>) -> bool {
    code_time.len() == 12 ==> be_value(code_time.subrange(0, 8)) + RESEND_WAIT_SECS <= u64::MAX
}

/// Why a typed code is refused at `now`, or `None`: it must equal the stored
/// code once upper-cased, and be less than ten minutes old.
pub open spec fn code_failure(stored: Seq<char>, typed: Seq<char>, code_time: Seq<u8>, now: Timestamp) -> Option<(u16, Seq<char>)> {
    if stored != uppercased(typed) {
        Some((STATUS_UNAUTHORIZED, MSG_INVALID_CODE@))
    } else {
        match decode_timestamp(code_time) {
            None => Some((STATUS_INTERNAL_SERVER_ERROR, MSG_INTERNAL@)),
            Some(t) => if !spec_before(now, later_by(t, CODE_VALIDITY_SECS)) {
                Some((STATUS_UNAUTHORIZED, MSG_CODE_EXPIRED@))
            } else {
                None
            },
        }
    }
}

/// Why another code is refused at `now`, or `None`: the last one must be at
/// least 60 seconds old.
pub open spec fn resend_failure(code_time: Seq<u8>, now: Timestamp) -> Option<(u16, Seq<char>)> {
    match decode_timestamp(code_time) {
        None => Some((STATUS_INTERNAL_SERVER_ERROR, MSG_INTERNAL@)),
        Some(t) => if spec_before(now, later_by(t, RESEND_WAIT_SECS)) {
            Some((STATUS_BAD_REQUEST, MSG_WAIT@))
        } else {
            None
        },
    }
}

/// `res` is the error answer `f`, or a success when `f` is `None`.
pub open spec fn answers_with<T>(res: Result<T, HttpErrorWrapper>, f: Option<(u16, Seq<char>)>) -> bool {
    match f {
        Some((status, text)) => res matches Err(e) && e.is(status, text),
        None => res is Ok,
    }
}

/// The answer to a login request.
pub struct LoginResponse {
    pub email: String,
    pub path: String,
}

impl LoginResponse {
    /// An answer for `email` that leads to the dashboard.
    pub fn new(email: &str) -> (r: Self)
        ensures
            r.email@ == email@,
            r.path@ == route_path(AppRoutes::Dashboard),
    {
        LoginResponse { email: copy_str(email), path: copy_str(AppRoutes::Dashboard.as_str()) }
    }

    /// The same answer leading to `path`.
    pub fn set_path(self, path: &str) -> (r: Self)
        ensures
            r.email == self.email,
            r.path@ == path@,
    {
        LoginResponse { email: self.email, path: copy_str(path) }
    }
}

/// A login request.
pub struct LoginData {
    pub email: String,
}

/// A sign-up request.
pub struct SignupData {
    pub email: String,
}

/// A request for another e-mail code.
pub struct ResendEmailAuthData {
    pub email: String,
}

/// A typed e-mail code and the address it was sent to.
pub struct EmailAuthCodeData {
    pub email: String,
    pub code: String,
}

/// The query of a verification link.
pub struct VerifyQuery {
    pub mode: String,
}

/// What the dashboard shows: when the account was made and whether a passkey
/// is registered.
pub struct DashboardData {
    pub create_time: String,
    pub passkey_exists: bool,
}

/// The decisions of the account routes.
pub struct RouteHandler;

impl RouteHandler {
    /// The HTML e-mail that carries `code`.
    pub fn email_body(code: &str) -> (body: String)
        ensures
            body@ == email_body_text(code@),
    {
        let mut body = copy_str(EMAIL_BODY_START);
        body.append(code);
        body.append(EMAIL_BODY_END);
        body
    }

    /// The code e-mail for `email` with fresh random characters at the current
    /// time: see `send_auth_with`.
    pub fn send_auth(email: &str) -> (res: Result<AuthCodeMail, HttpErrorWrapper>)
        ensures
            res matches Err(e) ==> e.is(STATUS_INTERNAL_SERVER_ERROR, MSG_INTERNAL@),
            res matches Ok(mail) ==> exists|code: [char; 6], now: Timestamp|
                (forall|i: int| 0 <= i < 6 ==> is_code_char(#[trigger] code@[i])) && Self::code_mail(
                    code,
                    now,
                    email@,
                    mail,
                ),
    {
        let code = random_code();
        let now = tai64n_now();
        Self::send_auth_with(code, email, now)
    }

    /// `mail` sends `code`, made at `now`, to `email`.
    pub open spec fn code_mail(code: [char; 6], now: Timestamp, email: Seq<char>, mail: AuthCodeMail) -> bool {
        &&& mail.code@ == code@
        &&& mail.code_time@ == timestamp_bytes(now)
        &&& mail.to@ == email
        &&& mail.subject@ == EMAIL_SUBJECT@
        &&& mail.body@ == email_body_text(formatted_code(code@))
    }

    /// The e-mail that sends the random characters `code` (none when the random
    /// source failed, a server error) to `email` at `now`: the code is stored as
    /// the six characters, shown with dashes between them, and its time is
    /// stored as TAI64N bytes.
    pub fn send_auth_with(code: Option<[char; 6]>, email: &str, now: Timestamp) -> (res: Result<AuthCodeMail, HttpErrorWrapper>)
        ensures
            code is None ==> (res matches Err(e) && e.is(STATUS_INTERNAL_SERVER_ERROR, MSG_INTERNAL@)),
            code is Some ==> (res matches Ok(mail) && Self::code_mail(code->0, now, email@, mail)),
    {
        let code = match code {
            None => return Err(HttpErrorWrapper::new()),
            Some(code) => code,
        };
        let mut stored = String::new();
        let mut shown = String::new();
        let mut i: usize = 0;
        while i < CODE_LEN
            invariant
                0 <= i <= CODE_LEN,
                stored@ == code@.subrange(0, i as int),
                i > 0 ==> shown@ == formatted_code(code@).subrange(0, 2 * i - 1),
                i == 0 ==> shown@.len() == 0,
            decreases CODE_LEN - i,
        {
            if i > 0 {
                push_char(&mut shown, '-');
            }
            push_char(&mut stored, code[i]);
            push_char(&mut shown, code[i]);
            i = i + 1;
            assert(stored@ =~= code@.subrange(0, i as int));
            assert(shown@ =~= formatted_code(code@).subrange(0, 2 * i - 1));
        }
        assert(stored@ =~= code@);
        assert(shown@ =~= formatted_code(code@));
        let code_time = tai64n_to_bytes(now);
        let body = Self::email_body(shown.as_str());
        Ok(AuthCodeMail {
            code: stored,
            code_time,
            to: copy_str(email),
            subject: copy_str(EMAIL_SUBJECT),
            body,
        })
    }

    /// Whether another code may be sent now: see `process_resend_code_at`.
    pub fn process_resend_code(code_time: &[u8]) -> (res: Result<(), HttpErrorWrapper>)
        requires
            resend_time_ok(code_time@),
        ensures
            exists|now: Timestamp| now.wf() && answers_with(res, resend_failure(code_time@, now)),
    {
        let now = tai64n_now();
        Self::process_resend_code_at(code_time, now)
    }

    /// Whether another code may be sent at `now`: the stored code time must
    /// decode, and be at least 60 seconds old.
    pub fn process_resend_code_at(code_time: &[u8], now: Timestamp) -> (res: Result<(), HttpErrorWrapper>)
        requires
            resend_time_ok(code_time@),
        ensures
            answers_with(res, resend_failure(code_time@, now)),
    {
        let sent = match tai64n_from_slice(code_time) {
            None => return Err(HttpErrorWrapper::new()),
            Some(sent) => sent,
        };
        let allowed = tai64n_add_secs(sent, RESEND_WAIT_SECS);
        if before(now, allowed) {
            return Err(http_error(STATUS_BAD_REQUEST, MSG_WAIT));
        }
        Ok(())
    }

    /// Checks a typed code and opens a session at the current time: see
    /// `verify_code_at`.
    pub fn verify_code(stored: &str, typed: &str, code_time: &[u8]) -> (res: Result<NewSession, HttpErrorWrapper>)
        requires
            code_time_ok(code_time@),
        ensures
            exists|now: Timestamp, random: Option<[u8; 32]>|
                now.wf() && Self::verify_outcome(stored@, typed@, code_time@, now, random, res),
    {
        let now = tai64n_now();
        let random = random_token_bytes();
        Self::verify_code_at(stored, typed, code_time, now, random)
    }

    /// What `verify_code_at` answers.
    pub open spec fn verify_outcome(
        stored: Seq<char>,
        typed: Seq<char>,
        code_time: Seq<u8>,
        now: Timestamp,
        random: Option<[u8; 32]>,
        res: Result<NewSession, HttpErrorWrapper>,
    ) -> bool {
        match code_failure(stored, typed, code_time, now) {
            Some((status, text)) => res matches Err(e) && e.is(status, text),
            None => match random {
                None => res matches Err(e) && e.is(STATUS_INTERNAL_SERVER_ERROR, crate::cookie_auth::MSG_TOKEN_FAILURE@),
                Some(_) => res matches Ok(s) && CookieAuthProcessor::opened(random, now, s),
            },
        }
    }

    /// Checks the typed code against the stored one (after upper-casing) and its
    /// age at `now`; when it holds, opens a session with the random token bytes
    /// `random`.
    pub fn verify_code_at(
        stored: &str,
        typed: &str,
        code_time: &[u8],
        now: Timestamp,
        random: Option<[u8; 32]>,
    ) -> (res: Result<NewSession, HttpErrorWrapper>)
        requires
            code_time_ok(code_time@),
        ensures
            Self::verify_outcome(stored@, typed@, code_time@, now, random, res),
    {
        let upper = to_uppercase(typed);
        if !(copy_str(stored) == upper) {
            return Err(http_error(STATUS_UNAUTHORIZED, MSG_INVALID_CODE));
        }
        let sent = match tai64n_from_slice(code_time) {
            None => return Err(HttpErrorWrapper::new()),
            Some(sent) => sent,
        };
        let expiry = tai64n_add_secs(sent, CODE_VALIDITY_SECS);
        if !before(now, expiry) {
            return Err(http_error(STATUS_UNAUTHORIZED, MSG_CODE_EXPIRED));
        }
        CookieAuthProcessor::set_login_headers_with(random, now)
    }

    /// The address of a login request, without surrounding white space.
    pub fn login_email(email: &str) -> (trimmed_email: String)
        ensures
            trimmed_email@ == trimmed(email@),
    {
        copy_str(trim(email))
    }

    /// The answer to a login for `email`: when the account exists, 303 leading
    /// to code verification; otherwise 401.
    pub fn process_login(email: &str, account_exists: bool) -> (res: Result<(u16, LoginResponse), HttpErrorWrapper>)
        ensures
            account_exists ==> (res matches Ok((status, r)) && status == STATUS_SEE_OTHER && r.email@
                == email@ && r.path@ == route_path(AppRoutes::VerifyCode)),
            !account_exists ==> (res matches Err(e) && e.is(STATUS_UNAUTHORIZED, MSG_INVALID_CREDENTIALS@)),
    {
        if !account_exists {
            return Err(http_error(STATUS_UNAUTHORIZED, MSG_INVALID_CREDENTIALS));
        }
        Ok((STATUS_SEE_OTHER, LoginResponse::new(email).set_path(AppRoutes::VerifyCode.as_str())))
    }

    /// The answer to a sign-up: refused when the account exists, otherwise 200
    /// (and a code is sent).
    pub fn process_signup(account_exists: bool) -> (res: Result<u16, HttpErrorWrapper>)
        ensures
            account_exists ==> (res matches Err(e) && e.is(STATUS_BAD_REQUEST, MSG_ACCOUNT_EXISTS@)),
            !account_exists ==> res == Ok::<u16, HttpErrorWrapper>(STATUS_OK),
    {
        if account_exists {
            return Err(http_error(STATUS_BAD_REQUEST, MSG_ACCOUNT_EXISTS));
        }
        Ok(STATUS_OK)
    }

    /// The dashboard of an account made at `create_time`: a passkey exists when
    /// the stored record has reached registration.
    pub fn dashboard_data(create_time: String, passkey: Option<&PasskeyData>) -> (data: DashboardData)
        ensures
            data.create_time == create_time,
            data.passkey_exists == (passkey matches Some(p) && state_index(&p.state) != 0),
    {
        let passkey_exists = match passkey {
            Some(p) => p.state.index() != 0,
            None => false,
        };
        DashboardData { create_time, passkey_exists }
    }
}

/// A code sent at `sent_at` and typed back (the same once upper-cased) is
/// accepted while less than ten minutes have passed, and refused as expired
/// from then on.
pub proof fn lemma_sent_code_lifetime(
    code: [char; 6],
    sent_at: Timestamp,
    email: Seq<char>,
    mail: AuthCodeMail,
    typed: Seq<char>,
    now: Timestamp,
)
    requires
        sent_at.wf(),
        RouteHandler::code_mail(code, sent_at, email, mail),
        uppercased(typed) == code@,
    ensures
        code_failure(mail.code@, typed, mail.code_time@, now) == (if spec_before(
            now,
            later_by(sent_at, CODE_VALIDITY_SECS),
        ) {
            None
        } else {
            Some((STATUS_UNAUTHORIZED, MSG_CODE_EXPIRED@))
        }),
{
    crate::timestamp::lemma_timestamp_bytes_roundtrip(sent_at);
}

/// Another code may be sent for a code sent at `sent_at` once 60 seconds have
/// passed, and not before.
pub proof fn lemma_resend_wait(code: [char; 6], sent_at: Timestamp, email: Seq<char>, mail: AuthCodeMail, now: Timestamp)
    requires
        sent_at.wf(),
        RouteHandler::code_mail(code, sent_at, email, mail),
    ensures
        resend_failure(mail.code_time@, now) == (if spec_before(now, later_by(sent_at, RESEND_WAIT_SECS)) {
            Some((STATUS_BAD_REQUEST, MSG_WAIT@))
        } else {
            None
        }),
{
    crate::timestamp::lemma_timestamp_bytes_roundtrip(sent_at);
}

/// The code e-mail shows exactly the stored code: between the fixed start and
/// end of the body stand the six stored characters in order, with one dash
/// between each two, so removing the dashes from what the user reads gives the
/// code that is checked.
pub proof fn lemma_mail_shows_stored_code(code: [char; 6], now: Timestamp, email: Seq<char>, mail: AuthCodeMail)
    requires
        RouteHandler::code_mail(code, now, email, mail),
    ensures
        ({
            let p = EMAIL_BODY_START@.len() as int;
            let body = mail.body@;
            &&& mail.code@.len() == 6
            &&& body.len() == p + 11 + EMAIL_BODY_END@.len()
            &&& body.subrange(0, p) == EMAIL_BODY_START@
            &&& body.subrange(p + 11, body.len() as int) == EMAIL_BODY_END@
            &&& forall|k: int| 0 <= k < 6 ==> #[trigger] body[p + 2 * k] == mail.code@[k]
            &&& forall|k: int| 0 <= k < 5 ==> #[trigger] body[p + 2 * k + 1] == '-'
        }),
{
    let p = EMAIL_BODY_START@.len() as int;
    let shown = formatted_code(code@);
    let body = mail.body@;
    assert(shown.len() == 11);
    assert(body == EMAIL_BODY_START@ + shown + EMAIL_BODY_END@);
    assert(body.subrange(0, p) =~= EMAIL_BODY_START@);
    assert(body.subrange(p + 11, body.len() as int) =~= EMAIL_BODY_END@);
    assert forall|k: int| 0 <= k < 6 implies #[trigger] body[p + 2 * k] == mail.code@[k] by {
        assert(body[p + 2 * k] == shown[2 * k]);
        assert(shown[2 * k] == code@[k]);
    }
    assert forall|k: int| 0 <= k < 5 implies #[trigger] body[p + 2 * k + 1] == '-' by {
        assert(body[p + 2 * k + 1] == shown[2 * k + 1]);
    }
}

} // verus!
