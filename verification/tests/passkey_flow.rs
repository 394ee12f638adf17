use base64ct::{Base64UrlUnpadded, Encoding};
use p256::ecdsa::signature::Signer;
use p256::pkcs8::EncodePublicKey;
use routines::passkey_auth::{
    PasskeyChallenge, PasskeyHandler, DEBUG_DOMAIN, MSG_AUTHENTICATOR_DATA, MSG_CHALLENGE_ENCODING,
    MSG_INVALID_CHALLENGE, MSG_INVALID_ORIGIN, MSG_INVALID_PASSKEY_DATA, MSG_INVALID_SIGNATURE,
    MSG_INVALID_STATE, MSG_INVALID_STATE_ENROL, MSG_LOGIN_CLIENT_DATA, MSG_NOT_CREATE,
    MSG_NOT_GET, MSG_NOT_P256, MSG_NOT_PUBLIC_KEY, MSG_NOT_VERIFIED, MSG_NO_CHALLENGE,
    MSG_NO_PUBLIC_KEY, MSG_REGISTERED_BEFORE, MSG_REGISTRATION_CLIENT_DATA,
    MSG_SIGNATURE_MISMATCH, MSG_STORED_KEY, MSG_WRONG_CREDENTIAL, MSG_WRONG_DOMAIN,
    PASSKEY_DESCRIPTION,
};
use routines::passkey_state::{PasskeyData, PasskeyState};
use routines::timestamp::Timestamp;
use routines::webauthn::{
    AssertionResponse, Attachment, Attestation, AttestationResponse,
    AuthenticatedPublicKeyCredential, CreatedPublicKeyCredential, CredentialType, ResidentKey,
    Transport, UserVerification,
};

fn at(secs: u64) -> Timestamp {
    Timestamp { secs, nanos: 0 }
}

fn fresh_record(now: Timestamp) -> PasskeyData {
    match PasskeyHandler::new_passkey_at(None, "ada@example.com", DEBUG_DOMAIN, now) {
        Ok(PasskeyChallenge::Created(data)) => data,
        _ => panic!("expected fresh registration options"),
    }
}

fn pending_challenge(data: &PasskeyData) -> Vec<u8> {
    match &data.state {
        PasskeyState::CreatePasskeyChallenge(options) => options.challenge.clone(),
        PasskeyState::PasskeyVerified(_) => panic!("expected a pending registration"),
    }
}

fn client_json(ty: &str, challenge: &[u8], origin: &str) -> Vec<u8> {
    format!(
        r#"{{"type":"{}","challenge":"{}","origin":"{}"}}"#,
        ty,
        Base64UrlUnpadded::encode_string(challenge),
        origin
    )
    .into_bytes()
}

fn key_pair() -> (p256::ecdsa::SigningKey, Vec<u8>) {
    let key = p256::ecdsa::SigningKey::from_slice(&[3u8; 32]).unwrap();
    let der = key.verifying_key().to_public_key_der().unwrap().as_bytes().to_vec();
    (key, der)
}

fn registration(challenge: &[u8], public_key: Option<Vec<u8>>) -> CreatedPublicKeyCredential {
    CreatedPublicKeyCredential {
        raw_id: vec![0xAA, 0xBB, 0xCC],
        ty: CredentialType::PublicKey,
        authenticator_attachment: Some(Attachment::CrossPlatform),
        response: AttestationResponse {
            client_data_json: client_json("webauthn.create", challenge, "localhost"),
            public_key,
            public_key_algorithm: -7,
            transports: Some(vec![Transport::Usb, Transport::Nfc]),
        },
    }
}

fn registered_record(now: Timestamp) -> (PasskeyData, p256::ecdsa::SigningKey) {
    let data = fresh_record(now);
    let challenge = pending_challenge(&data);
    let (key, der) = key_pair();
    let (record, _) =
        PasskeyHandler::register_passkey_at(Some(data), registration(&challenge, Some(der)), DEBUG_DOMAIN, now)
            .unwrap_or_else(|e| panic!("registration refused: {}", e.0 .1.message));
    (record, key)
}

fn authenticator_data(rp_id: &str) -> Vec<u8> {
    let mut data = passkey::types::crypto::sha256(rp_id.as_bytes()).to_vec();
    data.push(0x05);
    data.extend_from_slice(&[0, 0, 0, 1]);
    data
}

fn assertion(
    key: &p256::ecdsa::SigningKey,
    raw_id: Vec<u8>,
    challenge: &[u8],
    rp_id: &str,
) -> AuthenticatedPublicKeyCredential {
    let client_data_json = client_json("webauthn.get", challenge, "localhost");
    let authenticator_data = authenticator_data(rp_id);
    let mut message = authenticator_data.clone();
    message.extend_from_slice(&passkey::types::crypto::sha256(&client_data_json));
    let signature: p256::ecdsa::Signature = key.sign(&message);
    AuthenticatedPublicKeyCredential {
        raw_id,
        ty: CredentialType::PublicKey,
        authenticator_attachment: None,
        response: AssertionResponse {
            client_data_json,
            authenticator_data,
            signature: signature.to_der().as_bytes().to_vec(),
        },
    }
}

fn error_of<T>(res: Result<T, routines::errors::HttpErrorWrapper>) -> (u16, String) {
    match res {
        Ok(_) => panic!("expected an error"),
        Err(e) => (e.0 .0, e.0 .1.message),
    }
}

#[test]
fn new_passkey_creates_options() {
    let now = at(5_000);
    let data = fresh_record(now);
    assert_eq!(data.create_time, now);
    assert!(!data.verified);
    match data.state {
        PasskeyState::CreatePasskeyChallenge(options) => {
            assert_eq!(options.rp_id.as_deref(), Some("localhost"));
            assert_eq!(options.rp_name, PASSKEY_DESCRIPTION);
            assert_eq!(options.user.name, "ada@example.com");
            assert_eq!(options.user.display_name, "ada@example.com");
            assert_eq!(options.user.id.len(), 32);
            assert_eq!(options.challenge.len(), 32);
            let algs: Vec<i64> = options.pub_key_cred_params.iter().map(|p| p.alg).collect();
            assert_eq!(algs, vec![-7, -257]);
            assert_eq!(options.timeout, Some(120_000));
            let selection = options.authenticator_selection.unwrap();
            assert_eq!(selection.authenticator_attachment, Some(Attachment::CrossPlatform));
            assert_eq!(selection.resident_key, Some(ResidentKey::Discouraged));
            assert!(!selection.require_resident_key);
            assert_eq!(selection.user_verification, UserVerification::Required);
            assert_eq!(options.attestation, Attestation::Indirect);
        }
        PasskeyState::PasskeyVerified(_) => panic!("expected pending options"),
    }
}

#[test]
fn new_passkey_reuses_fresh_options() {
    let data = fresh_record(at(5_000));
    let challenge = pending_challenge(&data);
    match PasskeyHandler::new_passkey_at(Some(data), "ada@example.com", DEBUG_DOMAIN, at(5_599)) {
        Ok(PasskeyChallenge::Existing(options)) => assert_eq!(options.challenge, challenge),
        _ => panic!("expected the same options"),
    }
}

#[test]
fn new_passkey_replaces_stale_options() {
    let data = fresh_record(at(5_000));
    match PasskeyHandler::new_passkey_at(Some(data), "ada@example.com", DEBUG_DOMAIN, at(5_600)) {
        Ok(PasskeyChallenge::Created(d)) => assert_eq!(d.create_time, at(5_600)),
        _ => panic!("expected new options"),
    }
}

#[test]
fn new_passkey_refuses_fresh_registered_record() {
    let (record, _) = registered_record(at(5_000));
    let (status, message) =
        error_of(PasskeyHandler::new_passkey_at(Some(record), "ada@example.com", DEBUG_DOMAIN, at(5_100)));
    assert_eq!((status, message.as_str()), (400, MSG_INVALID_STATE_ENROL));
}

#[test]
fn new_passkey_reads_the_clock() {
    assert!(PasskeyHandler::new_passkey(None, "bob@example.com", RELEASE).is_ok());
}

const RELEASE: &str = routines::passkey_auth::RELEASE_DOMAIN;

#[test]
fn register_accepts_matching_answer() {
    let now = at(10_000);
    let data = fresh_record(now);
    let challenge = pending_challenge(&data);
    let (_, der) = key_pair();
    let (record, ui) =
        PasskeyHandler::register_passkey_at(Some(data), registration(&challenge, Some(der.clone())), DEBUG_DOMAIN, now)
            .ok()
            .unwrap();
    assert!(record.verified);
    assert_eq!(record.create_time, now);
    match &record.state {
        PasskeyState::PasskeyVerified(r) => {
            assert_eq!(r.raw_id, vec![0xAA, 0xBB, 0xCC]);
            assert_eq!(r.public_key, der);
            assert_eq!(r.algo, -7);
            assert_eq!(r.transports, vec![Transport::Usb, Transport::Nfc]);
            assert_eq!(r.attachment, Some(Attachment::CrossPlatform));
            assert_eq!(r.credential_type, CredentialType::PublicKey);
            assert_eq!(r.origin, "localhost");
            assert!(r.current_challenge.is_none());
        }
        PasskeyState::CreatePasskeyChallenge(_) => panic!("expected a registered passkey"),
    }
    assert!(ui.verified);
    assert_eq!(ui.raw_id, "qrvM");
    assert_eq!(ui.public_key, Base64UrlUnpadded::encode_string(&der));
    assert_eq!(ui.algo, "P256");
    assert_eq!(ui.origin, "localhost");
    assert_eq!(ui.transports, vec![Transport::Usb, Transport::Nfc]);
}

#[test]
fn register_without_transports_records_none() {
    let now = at(10_000);
    let data = fresh_record(now);
    let challenge = pending_challenge(&data);
    let mut input = registration(&challenge, Some(vec![1, 2, 3]));
    input.response.transports = None;
    let (record, ui) = PasskeyHandler::register_passkey_at(Some(data), input, DEBUG_DOMAIN, now).ok().unwrap();
    assert!(ui.transports.is_empty());
    match record.state {
        PasskeyState::PasskeyVerified(r) => assert!(r.transports.is_empty()),
        _ => panic!("expected a registered passkey"),
    }
}

#[test]
fn register_refusals() {
    let now = at(10_000);
    let check = |data: Option<PasskeyData>, input: CreatedPublicKeyCredential, when: Timestamp, status: u16, message: &str| {
        let (s, m) = error_of(PasskeyHandler::register_passkey_at(data, input, DEBUG_DOMAIN, when));
        assert_eq!((s, m.as_str()), (status, message));
    };
    let challenge = [1u8; 32];
    check(None, registration(&challenge, Some(vec![1])), now, 400, MSG_INVALID_PASSKEY_DATA);

    let data = fresh_record(now);
    let challenge = pending_challenge(&data);
    check(Some(data), registration(&challenge, Some(vec![1])), at(10_601), 400, MSG_INVALID_PASSKEY_DATA);

    let (record, _) = registered_record(now);
    check(Some(record), registration(&challenge, Some(vec![1])), now, 400, MSG_REGISTERED_BEFORE);

    let data = fresh_record(now);
    let challenge = pending_challenge(&data);
    let mut input = registration(&challenge, Some(vec![1]));
    input.ty = CredentialType::Unknown;
    check(Some(data), input, now, 400, MSG_NOT_PUBLIC_KEY);

    let data = fresh_record(now);
    let challenge = pending_challenge(&data);
    check(Some(data), registration(&challenge, None), now, 400, MSG_NO_PUBLIC_KEY);

    let data = fresh_record(now);
    let challenge = pending_challenge(&data);
    let mut input = registration(&challenge, Some(vec![1]));
    input.response.public_key_algorithm = -257;
    check(Some(data), input, now, 400, MSG_NOT_P256);

    let data = fresh_record(now);
    let challenge = pending_challenge(&data);
    let mut input = registration(&challenge, Some(vec![1]));
    input.response.client_data_json = vec![0xff, 0xfe];
    check(Some(data), input, now, 400, MSG_REGISTRATION_CLIENT_DATA);

    let data = fresh_record(now);
    let challenge = pending_challenge(&data);
    let mut input = registration(&challenge, Some(vec![1]));
    input.response.client_data_json = b"not json".to_vec();
    check(Some(data), input, now, 500, "Internal server error occurred");

    let data = fresh_record(now);
    let challenge = pending_challenge(&data);
    let mut input = registration(&challenge, Some(vec![1]));
    input.response.client_data_json = client_json("webauthn.get", &challenge, "localhost");
    check(Some(data), input, now, 400, MSG_NOT_CREATE);

    let data = fresh_record(now);
    let mut input = registration(&[9u8; 32], Some(vec![1]));
    input.response.client_data_json = client_json("webauthn.create", &[9u8; 32], "localhost");
    check(Some(data), input, now, 400, MSG_CHALLENGE_ENCODING);

    let data = fresh_record(now);
    let mut input = registration(&[0u8; 1], Some(vec![1]));
    input.response.client_data_json =
        br#"{"type":"webauthn.create","challenge":"!!","origin":"localhost"}"#.to_vec();
    check(Some(data), input, now, 400, MSG_CHALLENGE_ENCODING);

    let data = fresh_record(now);
    let challenge = pending_challenge(&data);
    let mut input = registration(&challenge, Some(vec![1]));
    input.response.client_data_json = client_json("webauthn.create", &challenge, "https://evil.example");
    check(Some(data), input, now, 400, MSG_INVALID_ORIGIN);
}

#[test]
fn register_within_window_edge() {
    let data = fresh_record(at(10_000));
    let challenge = pending_challenge(&data);
    assert!(PasskeyHandler::register_passkey_at(Some(data), registration(&challenge, Some(vec![1])), DEBUG_DOMAIN, at(10_600)).is_ok());
}

#[test]
fn connect_issues_challenge() {
    let (record, _) = registered_record(at(20_000));
    let (record, options) = PasskeyHandler::passkey_connect(Some(record), DEBUG_DOMAIN, false).ok().unwrap();
    assert_eq!(options.challenge.len(), 32);
    assert_eq!(options.timeout, Some(300_000));
    assert_eq!(options.rp_id.as_deref(), Some("localhost"));
    assert_eq!(options.user_verification, UserVerification::Required);
    assert_eq!(options.attestation, Attestation::Indirect);
    let allowed = options.allow_credentials.as_ref().unwrap();
    assert_eq!(allowed.len(), 1);
    assert_eq!(allowed[0].ty, CredentialType::PublicKey);
    assert_eq!(allowed[0].id, vec![0xAA, 0xBB, 0xCC]);
    assert_eq!(allowed[0].transports, Some(vec![Transport::Usb, Transport::Nfc]));
    match record.state {
        PasskeyState::PasskeyVerified(r) => assert_eq!(r.current_challenge, Some(options.challenge.clone())),
        _ => panic!("expected a registered passkey"),
    }
    let (record2, _) = registered_record(at(20_000));
    let (_, release_options) = PasskeyHandler::passkey_connect(Some(record2), RELEASE, true).ok().unwrap();
    assert_eq!(release_options.user_verification, UserVerification::Discouraged);
    assert_eq!(release_options.rp_id.as_deref(), Some("jamiidao.app"));
}

#[test]
fn connect_refusals() {
    let (s, m) = error_of(PasskeyHandler::passkey_connect(None, DEBUG_DOMAIN, false));
    assert_eq!((s, m.as_str()), (400, MSG_INVALID_PASSKEY_DATA));
    let (s, m) = error_of(PasskeyHandler::passkey_connect(Some(fresh_record(at(1))), DEBUG_DOMAIN, false));
    assert_eq!((s, m.as_str()), (400, MSG_NOT_VERIFIED));
    let mut pending = fresh_record(at(1));
    pending.verified = true;
    let (s, m) = error_of(PasskeyHandler::passkey_connect(Some(pending), DEBUG_DOMAIN, false));
    assert_eq!((s, m.as_str()), (400, MSG_INVALID_STATE));
}

#[test]
fn login_succeeds_once_per_challenge() {
    let (record, key) = registered_record(at(30_000));
    let (record, options) = PasskeyHandler::passkey_connect(Some(record), DEBUG_DOMAIN, false).ok().unwrap();
    let input = assertion(&key, vec![0xAA, 0xBB, 0xCC], &options.challenge, "localhost");
    let (record, session) = PasskeyHandler::passkey_verify(Some(record), input, DEBUG_DOMAIN).ok().unwrap();
    assert_eq!(session.token.len(), 64);
    assert_eq!(session.redirect.path, "/dashboard");
    match &record.state {
        PasskeyState::PasskeyVerified(r) => assert!(r.current_challenge.is_none()),
        _ => panic!("expected a registered passkey"),
    }
    let again = assertion(&key, vec![0xAA, 0xBB, 0xCC], &options.challenge, "localhost");
    let (s, m) = error_of(PasskeyHandler::passkey_verify(Some(record), again, DEBUG_DOMAIN));
    assert_eq!((s, m.as_str()), (400, MSG_NO_CHALLENGE));
}

fn connected(at_secs: u64) -> (PasskeyData, Vec<u8>, p256::ecdsa::SigningKey) {
    let (record, key) = registered_record(at(at_secs));
    let (record, options) = PasskeyHandler::passkey_connect(Some(record), DEBUG_DOMAIN, false).ok().unwrap();
    (record, options.challenge, key)
}

#[test]
fn login_refusals() {
    let raw_id = vec![0xAA, 0xBB, 0xCC];
    let check = |data: Option<PasskeyData>, input: AuthenticatedPublicKeyCredential, status: u16, message: &str| {
        let (s, m) = error_of(PasskeyHandler::passkey_verify(data, input, DEBUG_DOMAIN));
        assert_eq!((s, m.as_str()), (status, message));
    };
    let (_, challenge, key) = connected(1);
    check(None, assertion(&key, raw_id.clone(), &challenge, "localhost"), 400, MSG_INVALID_PASSKEY_DATA);

    check(Some(fresh_record(at(1))), assertion(&key, raw_id.clone(), &challenge, "localhost"), 400, MSG_NOT_VERIFIED);

    let mut pending = fresh_record(at(1));
    pending.verified = true;
    check(Some(pending), assertion(&key, raw_id.clone(), &challenge, "localhost"), 400, MSG_INVALID_STATE);

    let (registered, key2) = registered_record(at(1));
    check(Some(registered), assertion(&key2, raw_id.clone(), &challenge, "localhost"), 400, MSG_NO_CHALLENGE);

    let (record, challenge, key) = connected(1);
    check(Some(record), assertion(&key, vec![1, 2], &challenge, "localhost"), 400, MSG_WRONG_CREDENTIAL);

    let (record, challenge, key) = connected(1);
    let mut input = assertion(&key, raw_id.clone(), &challenge, "localhost");
    input.response.client_data_json = vec![0xc3];
    check(Some(record), input, 400, MSG_LOGIN_CLIENT_DATA);

    let (record, challenge, key) = connected(1);
    let mut input = assertion(&key, raw_id.clone(), &challenge, "localhost");
    input.response.client_data_json = b"{}".to_vec();
    check(Some(record), input, 500, "Internal server error occurred");

    let (record, challenge, key) = connected(1);
    let mut input = assertion(&key, raw_id.clone(), &challenge, "localhost");
    input.response.client_data_json = br#"{"type":"webauthn.get","challenge":"@@","origin":"localhost"}"#.to_vec();
    check(Some(record), input, 400, MSG_CHALLENGE_ENCODING);

    let (record, _, key) = connected(1);
    check(Some(record), assertion(&key, raw_id.clone(), &[0u8; 32], "localhost"), 400, MSG_INVALID_CHALLENGE);

    let (record, challenge, key) = connected(1);
    let mut input = assertion(&key, raw_id.clone(), &challenge, "localhost");
    input.response.client_data_json = client_json("webauthn.get", &challenge, "elsewhere");
    check(Some(record), input, 400, MSG_INVALID_ORIGIN);

    let (record, challenge, key) = connected(1);
    let mut input = assertion(&key, raw_id.clone(), &challenge, "localhost");
    input.response.client_data_json = client_json("webauthn.create", &challenge, "localhost");
    check(Some(record), input, 400, MSG_NOT_GET);

    let (record, challenge, key) = connected(1);
    let mut input = assertion(&key, raw_id.clone(), &challenge, "localhost");
    input.response.authenticator_data.truncate(36);
    check(Some(record), input, 400, MSG_AUTHENTICATOR_DATA);

    let (record, challenge, key) = connected(1);
    check(Some(record), assertion(&key, raw_id.clone(), &challenge, "jamiidao.app"), 400, MSG_WRONG_DOMAIN);

    let (mut record, challenge, key) = connected(1);
    if let PasskeyState::PasskeyVerified(r) = &mut record.state {
        r.public_key = vec![1, 2, 3];
    }
    check(Some(record), assertion(&key, raw_id.clone(), &challenge, "localhost"), 500, MSG_STORED_KEY);

    let (record, challenge, key) = connected(1);
    let mut input = assertion(&key, raw_id.clone(), &challenge, "localhost");
    input.response.signature = vec![0x30, 0x00];
    check(Some(record), input, 400, MSG_INVALID_SIGNATURE);

    let (record, challenge, _) = connected(1);
    let other = p256::ecdsa::SigningKey::from_slice(&[4u8; 32]).unwrap();
    check(Some(record), assertion(&other, raw_id.clone(), &challenge, "localhost"), 400, MSG_SIGNATURE_MISMATCH);
}

#[test]
fn state_order_follows_enrolment() {
    let pending = fresh_record(at(1)).state;
    let (registered, _) = registered_record(at(1));
    let registered = registered.state;
    assert_eq!(pending.index(), 0);
    assert_eq!(registered.index(), 1);
    assert!(pending == fresh_record(at(2)).state);
    assert!(pending != registered);
    assert!(pending < registered);
    assert_eq!(registered.partial_cmp(&pending), Some(core::cmp::Ordering::Greater));
}

#[test]
fn passkey_login_opens_session() {
    let (record, challenge, key) = connected(1);
    let input = assertion(&key, vec![0xAA, 0xBB, 0xCC], &challenge, "localhost");
    let now = at(5_000_000);
    let (_, session) = PasskeyHandler::passkey_verify_with(Some(record), input, DEBUG_DOMAIN, Some([0xab; 32]), now)
        .ok()
        .unwrap();
    assert_eq!(session.token, "AB".repeat(32));
    assert_eq!(session.created_at, tai64::Tai64N(tai64::Tai64(5_000_000), 0).to_bytes());
    assert_eq!(session.redirect.path, "/dashboard");

    let (record, challenge, key) = connected(1);
    let input = assertion(&key, vec![0xAA, 0xBB, 0xCC], &challenge, "localhost");
    let (s, m) = error_of(PasskeyHandler::passkey_verify_with(Some(record), input, DEBUG_DOMAIN, None, now));
    assert_eq!((s, m.as_str()), (500, routines::cookie_auth::MSG_TOKEN_FAILURE));

    let (record, _, key) = connected(1);
    let input = assertion(&key, vec![0xAA, 0xBB, 0xCC], &[0u8; 32], "localhost");
    let (s, m) = error_of(PasskeyHandler::passkey_verify_with(Some(record), input, DEBUG_DOMAIN, Some([1; 32]), now));
    assert_eq!((s, m.as_str()), (400, MSG_INVALID_CHALLENGE));
}
