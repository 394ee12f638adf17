use routines::app_routes::AppRoutes;
use routines::cookie_auth::{CookieAuthProcessor, SessionRow, SessionStatus, MSG_EXPIRED_SESSION, MSG_TOKEN_FAILURE};
use routines::handlers::{
    RouteHandler, EMAIL_BODY_END, EMAIL_BODY_START, EMAIL_SUBJECT, MSG_ACCOUNT_EXISTS, MSG_CODE_EXPIRED,
    MSG_INVALID_CODE, MSG_INVALID_CREDENTIALS, MSG_WAIT,
};
use routines::passkey_auth::{PasskeyChallenge, PasskeyHandler, DEBUG_DOMAIN};
use routines::timestamp::Timestamp;

fn at(secs: u64, nanos: u32) -> Timestamp {
    Timestamp { secs, nanos }
}

fn tai_bytes(t: Timestamp) -> Vec<u8> {
    tai64::Tai64N(tai64::Tai64(t.secs), t.nanos).to_bytes().to_vec()
}

fn row(user: &str, created: Timestamp) -> SessionRow {
    SessionRow { user_name: user.to_string(), created_at: tai_bytes(created) }
}

fn error_of<T>(res: Result<T, routines::errors::HttpErrorWrapper>) -> (u16, String) {
    match res {
        Ok(_) => panic!("expected an error"),
        Err(e) => (e.0 .0, e.0 .1.message),
    }
}

#[test]
fn session_active_then_expired() {
    let opened = at(1_000_000, 500);
    let token = Some("ABC".to_string());
    let check = |now: Timestamp| {
        CookieAuthProcessor::check_cookies_at(token.clone(), Some(row("ada@example.com", opened)), "ada@example.com", now)
    };
    assert_eq!(check(at(1_000_000 + 86_399, 999_999_999)).ok(), Some(SessionStatus::Active));
    assert_eq!(check(at(1_000_000 + 86_400, 499)).ok(), Some(SessionStatus::Active));
    assert_eq!(check(at(1_000_000 + 86_400, 500)).ok(), Some(SessionStatus::Expired));
    assert_eq!(check(at(2_000_000, 0)).ok(), Some(SessionStatus::Expired));
    assert_eq!(SessionStatus::Active.status_code(), 200);
    assert_eq!(SessionStatus::Expired.status_code(), 401);
}

#[test]
fn session_refusals() {
    let opened = at(1_000_000, 0);
    let now = at(1_000_100, 0);
    let (s, m) = error_of(CookieAuthProcessor::check_cookies_at(None, Some(row("a", opened)), "a", now));
    assert_eq!((s, m.as_str()), (401, MSG_EXPIRED_SESSION));
    let (s, m) = error_of(CookieAuthProcessor::check_cookies_at(Some("t".into()), None, "a", now));
    assert_eq!((s, m.as_str()), (401, MSG_EXPIRED_SESSION));
    let (s, m) = error_of(CookieAuthProcessor::check_cookies_at(Some("t".into()), Some(row("b", opened)), "a", now));
    assert_eq!((s, m.as_str()), (401, MSG_EXPIRED_SESSION));
    let short = SessionRow { user_name: "a".into(), created_at: vec![0u8; 11] };
    let (s, m) = error_of(CookieAuthProcessor::check_cookies_at(Some("t".into()), Some(short), "a", now));
    assert_eq!((s, m.as_str()), (500, "Internal server error occurred"));
    let mut bad_nanos = tai_bytes(opened);
    bad_nanos[8..].copy_from_slice(&1_000_000_000u32.to_be_bytes());
    let bad = SessionRow { user_name: "a".into(), created_at: bad_nanos };
    let (s, _) = error_of(CookieAuthProcessor::check_cookies_at(Some("t".into()), Some(bad), "a", now));
    assert_eq!(s, 500);
}

#[test]
fn session_check_reads_the_clock() {
    let long_ago = at(1 << 62, 0);
    let res = CookieAuthProcessor::check_cookies(Some("t".into()), Some(row("a", long_ago)), "a");
    assert_eq!(res.ok(), Some(SessionStatus::Expired));
}

#[test]
fn login_headers_open_session() {
    let now = at(4_611_686_018_427_387_914, 123);
    let mut bytes = [0u8; 32];
    bytes[0] = 0xAB;
    bytes[31] = 0x01;
    let session = CookieAuthProcessor::set_login_headers_with(Some(bytes), now).ok().unwrap();
    assert_eq!(session.token, format!("AB{}01", "00".repeat(30)));
    assert_eq!(session.created_at.to_vec(), tai_bytes(now));
    assert_eq!(session.redirect.path, "/dashboard");
    let (s, m) = error_of(CookieAuthProcessor::set_login_headers_with(None, now));
    assert_eq!((s, m.as_str()), (500, MSG_TOKEN_FAILURE));
    let fresh = CookieAuthProcessor::set_login_headers().ok().unwrap();
    assert_eq!(fresh.token.len(), 64);
    assert!(fresh.token.chars().all(|c| c.is_ascii_digit() || ('A'..='F').contains(&c)));
}

#[test]
fn opened_session_lasts_a_day() {
    let now = at(5_000_000, 42);
    let session = CookieAuthProcessor::set_login_headers_with(Some([7u8; 32]), now).ok().unwrap();
    let stored = SessionRow { user_name: "ada".into(), created_at: session.created_at.to_vec() };
    let res = CookieAuthProcessor::check_cookies_at(Some(session.token.clone()), Some(stored), "ada", at(5_086_399, 0));
    assert_eq!(res.ok(), Some(SessionStatus::Active));
    let stored = SessionRow { user_name: "ada".into(), created_at: session.created_at.to_vec() };
    let res = CookieAuthProcessor::check_cookies_at(Some(session.token), Some(stored), "ada", at(5_086_400, 42));
    assert_eq!(res.ok(), Some(SessionStatus::Expired));
}

#[test]
fn cleanup_cutoff_is_a_day_earlier() {
    let cutoff = CookieAuthProcessor::cleanup_cutoff(at(200_000, 9));
    assert_eq!(cutoff.to_vec(), tai_bytes(at(113_600, 9)));
}

#[test]
fn email_body_wraps_code() {
    let body = RouteHandler::email_body("A-B-C-1-2-3");
    assert_eq!(body, format!("{}A-B-C-1-2-3{}", EMAIL_BODY_START, EMAIL_BODY_END));
    assert!(body.contains("<title>Verify Your Email</title>"));
    assert!(body.contains("\u{a9} 2026 Jamii Routines."));
}

#[test]
fn send_auth_formats_code() {
    let now = at(9_000, 1);
    let mail = RouteHandler::send_auth_with(Some(['X', '7', 'Q', '0', 'Z', 'A']), "ada@example.com", now).ok().unwrap();
    assert_eq!(mail.code, "X7Q0ZA");
    assert_eq!(mail.code_time.to_vec(), tai_bytes(now));
    assert_eq!(mail.to, "ada@example.com");
    assert_eq!(mail.subject, EMAIL_SUBJECT);
    assert_eq!(mail.body, RouteHandler::email_body("X-7-Q-0-Z-A"));
    let (s, _) = error_of(RouteHandler::send_auth_with(None, "a", now));
    assert_eq!(s, 500);
    let random = RouteHandler::send_auth("bob@example.com").ok().unwrap();
    assert_eq!(random.code.chars().count(), 6);
    assert!(random.code.chars().all(|c| c.is_ascii_uppercase() || c.is_ascii_digit()));
}

#[test]
fn verify_code_checks_code_and_age() {
    let sent = at(50_000, 0);
    let stored = tai_bytes(sent);
    let ok = RouteHandler::verify_code_at("X7Q0ZA", "x7q0za", &stored, at(50_599, 999), Some([1u8; 32]));
    let session = ok.ok().unwrap();
    assert_eq!(session.redirect.path, "/dashboard");
    let (s, m) = error_of(RouteHandler::verify_code_at("X7Q0ZA", "X7Q0ZB", &stored, at(50_001, 0), Some([1u8; 32])));
    assert_eq!((s, m.as_str()), (401, MSG_INVALID_CODE));
    let (s, m) = error_of(RouteHandler::verify_code_at("X7Q0ZA", "X7Q0ZA", &stored, at(50_600, 0), Some([1u8; 32])));
    assert_eq!((s, m.as_str()), (401, MSG_CODE_EXPIRED));
    let (s, _) = error_of(RouteHandler::verify_code_at("X7Q0ZA", "X7Q0ZA", &stored[..5], at(50_001, 0), Some([1u8; 32])));
    assert_eq!(s, 500);
    let (s, m) = error_of(RouteHandler::verify_code_at("X7Q0ZA", "X7Q0ZA", &stored, at(50_001, 0), None));
    assert_eq!((s, m.as_str()), (500, MSG_TOKEN_FAILURE));
    let (s, _) = error_of(RouteHandler::verify_code("X7Q0ZA", "X7Q0ZA", &tai_bytes(at(1 << 62, 0))));
    assert_eq!(s, 401);
}

#[test]
fn resend_waits_a_minute() {
    let sent = tai_bytes(at(70_000, 10));
    let (s, m) = error_of(RouteHandler::process_resend_code_at(&sent, at(70_060, 9)));
    assert_eq!((s, m.as_str()), (400, MSG_WAIT));
    assert!(RouteHandler::process_resend_code_at(&sent, at(70_060, 10)).is_ok());
    let (s, _) = error_of(RouteHandler::process_resend_code_at(&[1, 2, 3], at(70_060, 10)));
    assert_eq!(s, 500);
    assert!(RouteHandler::process_resend_code(&tai_bytes(at(1 << 62, 0))).is_ok());
}

#[test]
fn login_and_signup_answers() {
    assert_eq!(RouteHandler::login_email("  ada@example.com \n"), "ada@example.com");
    assert_eq!(RouteHandler::login_email("\u{3000}\u{a0}a b\u{2029}\u{85}"), "a b");
    assert_eq!(RouteHandler::login_email("\u{200b}a"), "\u{200b}a");
    let (status, response) = RouteHandler::process_login("ada@example.com", true).ok().unwrap();
    assert_eq!(status, 303);
    assert_eq!(response.email, "ada@example.com");
    assert_eq!(response.path, AppRoutes::VerifyCode.as_str());
    let (s, m) = error_of(RouteHandler::process_login("ada@example.com", false));
    assert_eq!((s, m.as_str()), (401, MSG_INVALID_CREDENTIALS));
    assert_eq!(RouteHandler::process_signup(false).ok(), Some(200));
    let (s, m) = error_of(RouteHandler::process_signup(true));
    assert_eq!((s, m.as_str()), (400, MSG_ACCOUNT_EXISTS));
    let response = routines::handlers::LoginResponse::new("x@y.z");
    assert_eq!(response.path, "/dashboard");
    assert_eq!(response.set_path("/about").path, "/about");
}

#[test]
fn dashboard_reports_passkey() {
    let data = match PasskeyHandler::new_passkey_at(None, "a", DEBUG_DOMAIN, at(1, 0)) {
        Ok(PasskeyChallenge::Created(d)) => d,
        _ => panic!("expected options"),
    };
    let pending = RouteHandler::dashboard_data("2026-01-01 00:00:00".into(), Some(&data));
    assert!(!pending.passkey_exists);
    assert_eq!(pending.create_time, "2026-01-01 00:00:00");
    assert!(!RouteHandler::dashboard_data("t".into(), None).passkey_exists);
}

#[test]
fn cleanup_removes_only_expired_sessions() {
    let now = at(4_000_000_000, 500);
    let cutoff = CookieAuthProcessor::cleanup_cutoff(now);
    let old = at(4_000_000_000 - 90_000, 0);
    let boundary = at(4_000_000_000 - 86_400, 500);
    let recent = at(4_000_000_000 - 3_600, 0);
    assert!(tai_bytes(old).as_slice() < cutoff.as_slice());
    assert!(!(tai_bytes(boundary).as_slice() < cutoff.as_slice()));
    assert!(!(tai_bytes(recent).as_slice() < cutoff.as_slice()));
    assert!(matches!(
        CookieAuthProcessor::check_cookies_at(Some("t".to_string()), Some(row("a@b.c", old)), "a@b.c", now),
        Ok(SessionStatus::Expired)
    ));
    assert!(matches!(
        CookieAuthProcessor::check_cookies_at(Some("t".to_string()), Some(row("a@b.c", recent)), "a@b.c", now),
        Ok(SessionStatus::Active)
    ));
}
