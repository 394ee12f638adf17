//! The decisions of passkey enrolment and login: handing out registration
//! options, checking the browser's registration, issuing a login challenge and
//! checking the signed login assertion.
use vstd::prelude::*;

use crate::bytes::{bytes_eq, copy_bytes, copy_str, push_all};
use vstd::string::StringSliceAdditionalSpecFns;
use crate::challenge::{registration_options_for, PasskeyOps, CHALLENGE_LEN};
use crate::cookie_auth::{
    lemma_opened_session_lifetime, random_token_bytes, session_check, CookieAuthProcessor, NewSession,
    SessionRow, SessionStatus, MSG_TOKEN_FAILURE, SESSION_LIFETIME_SECS,
};
use crate::crypto::{
    p256_der_public_key, p256_der_signature, p256_public_key_from_der, p256_signature_from_der,
    p256_verifies, p256_verify, sha256, sha256_digest,
};
use crate::errors::{
    http_error, HttpErrorWrapper, MSG_INTERNAL, STATUS_BAD_REQUEST,
    STATUS_INTERNAL_SERVER_ERROR,
};
use crate::passkey_state::{state_index, PasskeyData, PasskeyState, RegisteredPasskeyData};
use crate::text::{
    base64url_decode, base64url_decoded, base64url_encode, base64url_encoded, utf8_decode,
    utf8_text,
};
use crate::timestamp::{before, later_by, spec_before, tai64n_add_secs, tai64n_now, Timestamp};
use crate::webauthn::{
    authenticator_data_rp_id_hash, authenticator_rp_id_hash, client_data_of, copy_transports,
    cose_es256, parse_client_data, random_bytes, Attachment, Attestation,
    AuthenticatedPublicKeyCredential, ClientDataType, CreatedPublicKeyCredential,
    CredentialCreationOptions, CredentialDescriptor, CredentialRequestOptions, CredentialType,
    Transport, UserVerification, ES256,
};

verus! {

/// Relying-party id of the development build.
pub const DEBUG_DOMAIN: &'static str = "localhost";

/// Relying-party id of the release build.
pub const RELEASE_DOMAIN: &'static str = "jamiidao.app";

/// Relying-party name shown by authenticators.
pub const PASSKEY_DESCRIPTION: &'static str = "Jamii Routines - Solana Subscriptions with passkeys";

/// How long registration options stay valid: ten minutes, in seconds.
pub const REGISTRATION_WINDOW_SECS: u64 = 600;

/// Five minutes, in milliseconds: how long the browser may take to sign in.
pub const LOGIN_TIMEOUT_MS: u32 = 300_000;

/// Algorithm name shown to the user for a registered passkey.
pub const P256_ALGORITHM_NAME: &'static str = "P256";

pub const MSG_INVALID_PASSKEY_DATA: &'static str = "Invalid passkey data, try enrolling your passkey again";

pub const MSG_INVALID_STATE_ENROL: &'static str = "Invalid passkey state, try enrolling your passkey again";

pub const MSG_REGISTERED_BEFORE: &'static str = "Invalid passkey state, you might have tried to register before unsuccessfully. Starting a fresh is required for security reasons. Sorry for the inconvenience!";

pub const MSG_NOT_PUBLIC_KEY: &'static str = "Invalid passkey type, expected a public key";

pub const MSG_NO_PUBLIC_KEY: &'static str = "Public key not found yet required. Starting a fresh is required for security reasons. Sorry for the inconvenience!";

pub const MSG_NOT_P256: &'static str = "Invalid passkey type, expected a P256 Algorithm key";

pub const MSG_REGISTRATION_CLIENT_DATA: &'static str = "Invalid `client_data_json` field!. Starting a fresh is required for security reasons. Sorry for the inconvenience!";

pub const MSG_NOT_CREATE: &'static str = "Expected the operation to create a new passkey. Starting a fresh is required for security reasons. Sorry for the inconvenience!";

pub const MSG_INVALID_STATE: &'static str = "Invalid passkey state. Starting a fresh is required for security reasons. Sorry for the inconvenience!";

pub const MSG_CHALLENGE_ENCODING: &'static str = "Invalid base64 encoded challenge. Starting a fresh is required for security reasons. Sorry for the inconvenience!";

pub const MSG_INVALID_ORIGIN: &'static str = "Invalid passkey origin challenge!";

pub const MSG_NOT_VERIFIED: &'static str = "Passkey not verified, try enrolling your passkey again";

pub const MSG_NO_CHALLENGE: &'static str = "No challenge. Ask for a passkey connection first!";

pub const MSG_WRONG_CREDENTIAL: &'static str = "Invalid passkey credential selected by the identifier!";

pub const MSG_LOGIN_CLIENT_DATA: &'static str = "Invalid `client_data_json` field! It must be UTF-8";

pub const MSG_INVALID_CHALLENGE: &'static str = "Invalid passkey challenge!";

pub const MSG_NOT_GET: &'static str = "Invalid passkey operation. Expected a connect request to an existing passkey!";

pub const MSG_AUTHENTICATOR_DATA: &'static str = "Invalid passkey authenticator data operation. Expected a connect request to an existing passkey!";

pub const MSG_WRONG_DOMAIN: &'static str = "Invalid domain name selected by passkey authenticator. Are you connected to the correct website?";

pub const MSG_STORED_KEY: &'static str = "Invalid public key for passkey stored in the server. The only solution is to try recovering the correct passkey";

pub const MSG_INVALID_SIGNATURE: &'static str = "Invalid signature provided by the passkey authenticator.";

pub const MSG_SIGNATURE_MISMATCH: &'static str = "Invalid signature mismatch! Passkey authenticator gave the incorrect signature.";

/// The passkey record's creation time can be moved ten minutes later.
pub open spec fn passkey_time_ok(data: Option<PasskeyData>) -> bool {
    data matches Some(d) ==> d.create_time.wf() && d.create_time.secs + REGISTRATION_WINDOW_SECS <= u64::MAX
}

/// An error answer as a status code and a message.
pub open spec fn failure(status: u16, text: &str) -> Option<(u16, Seq<char>)> {
    Some((status, text@))
}

/// `res` is the error answer `f`, or a success when `f` is `None`.
pub open spec fn answers<T>(res: Result<T, HttpErrorWrapper>, f: Option<(u16, Seq<char>)>) -> bool {
    match f {
        Some((status, text)) => res matches Err(e) && e.is(status, text),
        None => res is Ok,
    }
}

/// Registration options may be handed out again: they are less than ten
/// minutes old.
pub open spec fn challenge_reusable(d: PasskeyData, now: Timestamp) -> bool {
    spec_before(now, later_by(d.create_time, REGISTRATION_WINDOW_SECS))
}

/// What `new_passkey` hands out: the pending options, or a new record to store
/// (whose state holds the options to show).
pub enum PasskeyChallenge {
    Existing(CredentialCreationOptions),
    Created(PasskeyData),
}

/// What the user is shown of a registered passkey.
pub struct RegisteredPasskeyUiData {
    pub verified: bool,
    pub raw_id: String,
    pub public_key: String,
    pub algo: String,
    pub transports: Vec<Transport>,
    pub attachment: Option<Attachment>,
    pub credential_type: CredentialType,
    pub origin: String,
}

/// Why registration fails, in the order the checks are made, or `None`.
pub open spec fn registration_failure(
    data: Option<PasskeyData>,
    input: CreatedPublicKeyCredential,
    domain: Seq<char>,
    now: Timestamp,
) -> Option<(u16, Seq<char>)> {
    match data {
        None => failure(STATUS_BAD_REQUEST, MSG_INVALID_PASSKEY_DATA),
        Some(d) => if spec_before(later_by(d.create_time, REGISTRATION_WINDOW_SECS), now) {
            failure(STATUS_BAD_REQUEST, MSG_INVALID_PASSKEY_DATA)
        } else if state_index(&d.state) > 0 {
            failure(STATUS_BAD_REQUEST, MSG_REGISTERED_BEFORE)
        } else if input.ty != CredentialType::PublicKey {
            failure(STATUS_BAD_REQUEST, MSG_NOT_PUBLIC_KEY)
        } else if input.response.public_key is None {
            failure(STATUS_BAD_REQUEST, MSG_NO_PUBLIC_KEY)
        } else if input.response.public_key_algorithm != ES256 {
            failure(STATUS_BAD_REQUEST, MSG_NOT_P256)
        } else {
            match utf8_text(input.response.client_data_json@) {
                None => failure(STATUS_BAD_REQUEST, MSG_REGISTRATION_CLIENT_DATA),
                Some(json) => match client_data_of(json) {
                    None => failure(STATUS_INTERNAL_SERVER_ERROR, MSG_INTERNAL),
                    Some(cd) => if cd.ty != ClientDataType::Create {
                        failure(STATUS_BAD_REQUEST, MSG_NOT_CREATE)
                    } else {
                        match d.state {
                            PasskeyState::PasskeyVerified(_) => failure(
                                STATUS_BAD_REQUEST,
                                MSG_INVALID_STATE,
                            ),
                            PasskeyState::CreatePasskeyChallenge(options) => match base64url_decoded(
                                cd.challenge,
                            ) {
                                None => failure(STATUS_BAD_REQUEST, MSG_CHALLENGE_ENCODING),
                                Some(challenge) => if challenge != options.challenge@ {
                                    failure(STATUS_BAD_REQUEST, MSG_CHALLENGE_ENCODING)
                                } else if cd.origin != domain {
                                    failure(STATUS_BAD_REQUEST, MSG_INVALID_ORIGIN)
                                } else {
                                    None
                                },
                            },
                        }
                    },
                },
            }
        },
    }
}

/// The transports that the browser reported, or none.
pub open spec fn reported_transports(input: CreatedPublicKeyCredential) -> Seq<Transport> {
    match input.response.transports {
        Some(t) => t@,
        None => Seq::empty(),
    }
}

/// `d2` and `ui` are the record and the answer of a successful registration of
/// `input` on `d` for relying party `domain`.
pub open spec fn registered(
    d: PasskeyData,
    input: CreatedPublicKeyCredential,
    domain: Seq<char>,
    d2: PasskeyData,
    ui: RegisteredPasskeyUiData,
) -> bool {
    &&& d2.create_time == d.create_time
    &&& d2.verified
    &&& d2.state matches PasskeyState::PasskeyVerified(r) && {
        &&& r.raw_id == input.raw_id
        &&& input.response.public_key == Some(r.public_key)
        &&& r.algo == ES256
        &&& r.transports@ == reported_transports(input)
        &&& r.attachment == input.authenticator_attachment
        &&& r.credential_type == input.ty
        &&& r.origin@ == domain
        &&& r.current_challenge is None
        &&& ui.transports@ == r.transports@
    }
    &&& ui.verified
    &&& ui.raw_id@ == base64url_encoded(input.raw_id@)
    &&& ui.public_key@ == base64url_encoded(input.response.public_key->0@)
    &&& ui.algo@ == P256_ALGORITHM_NAME@
    &&& ui.attachment == input.authenticator_attachment
    &&& ui.credential_type == input.ty
    &&& ui.origin@ == domain
}

/// Why a login challenge cannot be issued, or `None`.
pub open spec fn connect_failure(data: Option<PasskeyData>) -> Option<(u16, Seq<char>)> {
    match data {
        None => failure(STATUS_BAD_REQUEST, MSG_INVALID_PASSKEY_DATA),
        Some(d) => if !d.verified {
            failure(STATUS_BAD_REQUEST, MSG_NOT_VERIFIED)
        } else {
            match d.state {
                PasskeyState::CreatePasskeyChallenge(_) => failure(STATUS_BAD_REQUEST, MSG_INVALID_STATE),
                PasskeyState::PasskeyVerified(_) => None,
            }
        },
    }
}

/// `d2` and `options` are the record and the request options of a login
/// challenge issued on `d` for relying party `domain`.
pub open spec fn connected(
    d: PasskeyData,
    d2: PasskeyData,
    options: CredentialRequestOptions,
    domain: Seq<char>,
    release: bool,
) -> bool {
    &&& d2.create_time == d.create_time
    &&& d2.verified == d.verified
    &&& d.state matches PasskeyState::PasskeyVerified(r)
    &&& d2.state matches PasskeyState::PasskeyVerified(r2)
    &&& r2.raw_id == r.raw_id
    &&& r2.public_key == r.public_key
    &&& r2.algo == r.algo
    &&& r2.transports == r.transports
    &&& r2.attachment == r.attachment
    &&& r2.credential_type == r.credential_type
    &&& r2.origin == r.origin
    &&& r2.current_challenge matches Some(c) && c@ == options.challenge@
    &&& options.challenge@.len() == CHALLENGE_LEN
    &&& options.timeout == Some(LOGIN_TIMEOUT_MS)
    &&& options.rp_id matches Some(id) && id@ == domain
    &&& options.allow_credentials matches Some(list) && list@.len() == 1 && {
        &&& list@[0].ty == CredentialType::PublicKey
        &&& list@[0].id@ == r.raw_id@
        &&& list@[0].transports matches Some(t) && t@ == r.transports@
    }
    &&& options.user_verification == (if release {
        UserVerification::Discouraged
    } else {
        UserVerification::Required
    })
    &&& options.attestation == Attestation::Indirect
}

/// The message that the authenticator signs at login: its authenticator data
/// followed by the SHA-256 digest of the client data JSON.
pub open spec fn signed_message(input: AuthenticatedPublicKeyCredential) -> Seq<u8> {
    input.response.authenticator_data@ + sha256_digest(input.response.client_data_json@)
}

/// Why the signature part of a login fails, or `None`.
pub open spec fn assertion_failure(
    r: RegisteredPasskeyData,
    input: AuthenticatedPublicKeyCredential,
    domain: &str,
) -> Option<(u16, Seq<char>)> {
    match authenticator_data_rp_id_hash(input.response.authenticator_data@) {
        None => failure(STATUS_BAD_REQUEST, MSG_AUTHENTICATOR_DATA),
        Some(hash) => if sha256_digest(domain.spec_bytes()) != hash {
            failure(STATUS_BAD_REQUEST, MSG_WRONG_DOMAIN)
        } else {
            match p256_der_public_key(r.public_key@) {
                None => failure(STATUS_INTERNAL_SERVER_ERROR, MSG_STORED_KEY),
                Some(key) => match p256_der_signature(input.response.signature@) {
                    None => failure(STATUS_BAD_REQUEST, MSG_INVALID_SIGNATURE),
                    Some(signature) => if !p256_verifies(key, signed_message(input), signature) {
                        failure(STATUS_BAD_REQUEST, MSG_SIGNATURE_MISMATCH)
                    } else {
                        None
                    },
                },
            }
        },
    }
}

/// Why the client data of a login fails against the issued `challenge` and the
/// registered credential `r`, or `None`.
pub open spec fn client_data_failure(
    r: RegisteredPasskeyData,
    challenge: Seq<u8>,
    input: AuthenticatedPublicKeyCredential,
    domain: &str,
) -> Option<(u16, Seq<char>)> {
    match utf8_text(input.response.client_data_json@) {
        None => failure(STATUS_BAD_REQUEST, MSG_LOGIN_CLIENT_DATA),
        Some(json) => match client_data_of(json) {
            None => failure(STATUS_INTERNAL_SERVER_ERROR, MSG_INTERNAL),
            Some(cd) => match base64url_decoded(cd.challenge) {
                None => failure(STATUS_BAD_REQUEST, MSG_CHALLENGE_ENCODING),
                Some(decoded) => if decoded != challenge {
                    failure(STATUS_BAD_REQUEST, MSG_INVALID_CHALLENGE)
                } else if cd.origin != r.origin@ {
                    failure(STATUS_BAD_REQUEST, MSG_INVALID_ORIGIN)
                } else if cd.ty != ClientDataType::Get {
                    failure(STATUS_BAD_REQUEST, MSG_NOT_GET)
                } else {
                    assertion_failure(r, input, domain)
                },
            },
        },
    }
}

/// Why a login fails, in the order the checks are made, or `None`.
pub open spec fn verification_failure(
    data: Option<PasskeyData>,
    input: AuthenticatedPublicKeyCredential,
    domain: &str,
) -> Option<(u16, Seq<char>)> {
    match data {
        None => failure(STATUS_BAD_REQUEST, MSG_INVALID_PASSKEY_DATA),
        Some(d) => if !d.verified {
            failure(STATUS_BAD_REQUEST, MSG_NOT_VERIFIED)
        } else {
            match d.state {
                PasskeyState::CreatePasskeyChallenge(_) => failure(STATUS_BAD_REQUEST, MSG_INVALID_STATE),
                PasskeyState::PasskeyVerified(r) => match r.current_challenge {
                    None => failure(STATUS_BAD_REQUEST, MSG_NO_CHALLENGE),
                    Some(challenge) => if input.raw_id@ != r.raw_id@ {
                        failure(STATUS_BAD_REQUEST, MSG_WRONG_CREDENTIAL)
                    } else {
                        client_data_failure(r, challenge@, input, domain)
                    },
                },
            }
        },
    }
}

/// `d2` is `d` with the login challenge used up.
pub open spec fn challenge_used(d: PasskeyData, d2: PasskeyData) -> bool {
    &&& d2.create_time == d.create_time
    &&& d2.verified == d.verified
    &&& d.state matches PasskeyState::PasskeyVerified(r)
    &&& d2.state matches PasskeyState::PasskeyVerified(r2)
    &&& r2.raw_id == r.raw_id
    &&& r2.public_key == r.public_key
    &&& r2.algo == r.algo
    &&& r2.transports == r.transports
    &&& r2.attachment == r.attachment
    &&& r2.credential_type == r.credential_type
    &&& r2.origin == r.origin
    &&& r2.current_challenge is None
}

/// The passkey registration and login steps.
pub struct PasskeyHandler;

impl PasskeyHandler {
    /// Registration options for `email` at the current time: see `new_passkey_at`.
    pub fn new_passkey(existing: Option<PasskeyData>, email: &str, domain: &str) -> (res: Result<PasskeyChallenge, HttpErrorWrapper>)
        requires
            passkey_time_ok(existing),
        ensures
            exists|now: Timestamp| now.wf() && Self::new_passkey_outcome(existing, email@, domain@, now, res),
    {
        let now = tai64n_now();
        Self::new_passkey_at(existing, email, domain, now)
    }

    /// What `new_passkey_at` answers at time `now`.
    pub open spec fn new_passkey_outcome(
        existing: Option<PasskeyData>,
        email: Seq<char>,
        domain: Seq<char>,
        now: Timestamp,
        res: Result<PasskeyChallenge, HttpErrorWrapper>,
    ) -> bool {
        if existing matches Some(d) && challenge_reusable(d, now) {
            match existing->0.state {
                PasskeyState::CreatePasskeyChallenge(options) => res == Ok::<
                    PasskeyChallenge,
                    HttpErrorWrapper,
                >(PasskeyChallenge::Existing(*options)),
                PasskeyState::PasskeyVerified(_) => res matches Err(e) && e.is(
                    STATUS_BAD_REQUEST,
                    MSG_INVALID_STATE_ENROL@,
                ),
            }
        } else {
            res matches Ok(PasskeyChallenge::Created(d2)) && {
                &&& d2.create_time == now
                &&& !d2.verified
                &&& d2.state matches PasskeyState::CreatePasskeyChallenge(o) && {
                    &&& registration_options_for(*o, domain, PASSKEY_DESCRIPTION@)
                    &&& o.user.name@ == email
                    &&& o.user.display_name@ == email
                    &&& o.user.id@.len() == CHALLENGE_LEN
                    &&& o.challenge@.len() == CHALLENGE_LEN
                }
            }
        }
    }

    /// Hands out the pending registration options while they are less than ten
    /// minutes old, refuses when a passkey is already registered within that
    /// time, and otherwise creates fresh options for `email` at `now`.
    pub fn new_passkey_at(existing: Option<PasskeyData>, email: &str, domain: &str, now: Timestamp) -> (res: Result<PasskeyChallenge, HttpErrorWrapper>)
        requires
            passkey_time_ok(existing),
        ensures
            Self::new_passkey_outcome(existing, email@, domain@, now, res),
    {
        if let Some(d) = existing {
            let expiry = tai64n_add_secs(d.create_time, REGISTRATION_WINDOW_SECS);
            if before(now, expiry) {
                match d.state {
                    PasskeyState::CreatePasskeyChallenge(options) => {
                        return Ok(PasskeyChallenge::Existing(*options));
                    },
                    PasskeyState::PasskeyVerified(_) => {
                        return Err(http_error(STATUS_BAD_REQUEST, MSG_INVALID_STATE_ENROL));
                    },
                }
            }
        }
        let creds = PasskeyOps::new_passkey(email, domain, PASSKEY_DESCRIPTION);
        Ok(PasskeyChallenge::Created(PasskeyData {
            create_time: now,
            verified: false,
            state: PasskeyState::CreatePasskeyChallenge(Box::new(creds)),
        }))
    }

    /// Checks the browser's registration answer at the current time: see
    /// `register_passkey_at`.
    pub fn register_passkey(data: Option<PasskeyData>, input: CreatedPublicKeyCredential, domain: &str) -> (res: Result<(PasskeyData, RegisteredPasskeyUiData), HttpErrorWrapper>)
        requires
            passkey_time_ok(data),
        ensures
            exists|now: Timestamp| now.wf() && Self::registration_outcome(data, input, domain@, now, res),
    {
        let now = tai64n_now();
        Self::register_passkey_at(data, input, domain, now)
    }

    /// What `register_passkey_at` answers at time `now`.
    pub open spec fn registration_outcome(
        data: Option<PasskeyData>,
        input: CreatedPublicKeyCredential,
        domain: Seq<char>,
        now: Timestamp,
        res: Result<(PasskeyData, RegisteredPasskeyUiData), HttpErrorWrapper>,
    ) -> bool {
        &&& answers(res, registration_failure(data, input, domain, now))
        &&& res matches Ok((d2, ui)) ==> registered(data->0, input, domain, d2, ui)
    }

    /// Checks the browser's registration answer against the pending options
    /// (less than ten minutes old, same challenge, origin `domain`, a P-256 public
    /// key) and, when it holds, records the credential as verified.
    pub fn register_passkey_at(
        data: Option<PasskeyData>,
        input: CreatedPublicKeyCredential,
        domain: &str,
        now: Timestamp,
    ) -> (res: Result<(PasskeyData, RegisteredPasskeyUiData), HttpErrorWrapper>)
        requires
            passkey_time_ok(data),
        ensures
            Self::registration_outcome(data, input, domain@, now, res),
    {
        let ghost input0 = input;
        let d = match data {
            None => return Err(http_error(STATUS_BAD_REQUEST, MSG_INVALID_PASSKEY_DATA)),
            Some(d) => d,
        };
        let expiry = tai64n_add_secs(d.create_time, REGISTRATION_WINDOW_SECS);
        if before(expiry, now) {
            return Err(http_error(STATUS_BAD_REQUEST, MSG_INVALID_PASSKEY_DATA));
        }
        if d.state.index() > 0 {
            return Err(http_error(STATUS_BAD_REQUEST, MSG_REGISTERED_BEFORE));
        }
        if input.ty != CredentialType::PublicKey {
            return Err(http_error(STATUS_BAD_REQUEST, MSG_NOT_PUBLIC_KEY));
        }
        let CreatedPublicKeyCredential { raw_id, ty, authenticator_attachment, response } = input;
        let public_key = match response.public_key {
            None => return Err(http_error(STATUS_BAD_REQUEST, MSG_NO_PUBLIC_KEY)),
            Some(key) => key,
        };
        let algo = cose_es256();
        if response.public_key_algorithm != algo {
            return Err(http_error(STATUS_BAD_REQUEST, MSG_NOT_P256));
        }
        let json = match utf8_decode(response.client_data_json.as_slice()) {
            None => return Err(http_error(STATUS_BAD_REQUEST, MSG_REGISTRATION_CLIENT_DATA)),
            Some(json) => json,
        };
        let client_data = match parse_client_data(json) {
            None => return Err(HttpErrorWrapper::new()),
            Some(client_data) => client_data,
        };
        if client_data.ty != ClientDataType::Create {
            return Err(http_error(STATUS_BAD_REQUEST, MSG_NOT_CREATE));
        }
        let PasskeyData { create_time, verified: _, state } = d;
        let current_options = match state {
            PasskeyState::CreatePasskeyChallenge(options) => options,
            PasskeyState::PasskeyVerified(_) => return Err(http_error(STATUS_BAD_REQUEST, MSG_INVALID_STATE)),
        };
        let challenge_bytes = match base64url_decode(client_data.challenge.as_str()) {
            None => return Err(http_error(STATUS_BAD_REQUEST, MSG_CHALLENGE_ENCODING)),
            Some(bytes) => bytes,
        };
        if !bytes_eq(challenge_bytes.as_slice(), current_options.challenge.as_slice()) {
            return Err(http_error(STATUS_BAD_REQUEST, MSG_CHALLENGE_ENCODING));
        }
        let expected_origin = copy_str(domain);
        if !(client_data.origin == expected_origin) {
            return Err(http_error(STATUS_BAD_REQUEST, MSG_INVALID_ORIGIN));
        }
        let transports = match response.transports {
            Some(transports) => transports,
            None => Vec::new(),
        };
        let ui_data = RegisteredPasskeyUiData {
            verified: true,
            raw_id: base64url_encode(raw_id.as_slice()),
            public_key: base64url_encode(public_key.as_slice()),
            algo: copy_str(P256_ALGORITHM_NAME),
            transports: copy_transports(&transports),
            attachment: authenticator_attachment,
            credential_type: ty,
            origin: client_data.origin.clone(),
        };
        let new_state = RegisteredPasskeyData {
            raw_id,
            public_key,
            algo,
            transports,
            attachment: authenticator_attachment,
            credential_type: ty,
            origin: client_data.origin,
            current_challenge: None,
        };
        let d2 = PasskeyData {
            create_time,
            verified: true,
            state: PasskeyState::PasskeyVerified(new_state),
        };
        assert(registered(data->0, input0, domain@, d2, ui_data));
        Ok((d2, ui_data))
    }

    /// Issues a fresh 32-byte login challenge for the registered passkey, stores
    /// it in the record and returns the request options for the browser.
    pub fn passkey_connect(data: Option<PasskeyData>, domain: &str, release: bool) -> (res: Result<(PasskeyData, CredentialRequestOptions), HttpErrorWrapper>)
        ensures
            answers(res, connect_failure(data)),
            res matches Ok((d2, options)) ==> connected(data->0, d2, options, domain@, release),
    {
        let d = match data {
            None => return Err(http_error(STATUS_BAD_REQUEST, MSG_INVALID_PASSKEY_DATA)),
            Some(d) => d,
        };
        if !d.verified {
            return Err(http_error(STATUS_BAD_REQUEST, MSG_NOT_VERIFIED));
        }
        let PasskeyData { create_time, verified, state } = d;
        let mut current = match state {
            PasskeyState::PasskeyVerified(r) => r,
            PasskeyState::CreatePasskeyChallenge(_) => return Err(http_error(STATUS_BAD_REQUEST, MSG_INVALID_STATE)),
        };
        let challenge = random_bytes(CHALLENGE_LEN);
        current.current_challenge = Some(copy_bytes(challenge.as_slice()));
        let descriptor = CredentialDescriptor {
            ty: CredentialType::PublicKey,
            id: copy_bytes(current.raw_id.as_slice()),
            transports: Some(copy_transports(&current.transports)),
        };
        let mut allow_credentials: Vec<CredentialDescriptor> = Vec::new();
        allow_credentials.push(descriptor);
        let user_verification = if release {
            UserVerification::Discouraged
        } else {
            UserVerification::Required
        };
        let options = CredentialRequestOptions {
            challenge,
            timeout: Some(LOGIN_TIMEOUT_MS),
            rp_id: Some(copy_str(domain)),
            allow_credentials: Some(allow_credentials),
            user_verification,
            attestation: Attestation::Indirect,
        };
        let d2 = PasskeyData { create_time, verified, state: PasskeyState::PasskeyVerified(current) };
        Ok((d2, options))
    }

    /// Checks a signed login assertion at the current time and, when it holds,
    /// opens a session with a random token: see `passkey_verify_with`.
    pub fn passkey_verify(data: Option<PasskeyData>, input: AuthenticatedPublicKeyCredential, domain: &str) -> (res: Result<(PasskeyData, NewSession), HttpErrorWrapper>)
        ensures
            exists|random: Option<[u8; 32]>, now: Timestamp|
                now.wf() && Self::login_outcome(data, input, domain, random, now, res),
    {
        let random = random_token_bytes();
        let now = tai64n_now();
        Self::passkey_verify_with(data, input, domain, random, now)
    }

    /// What `passkey_verify_with` answers.
    pub open spec fn login_outcome(
        data: Option<PasskeyData>,
        input: AuthenticatedPublicKeyCredential,
        domain: &str,
        random: Option<[u8; 32]>,
        now: Timestamp,
        res: Result<(PasskeyData, NewSession), HttpErrorWrapper>,
    ) -> bool {
        match verification_failure(data, input, domain) {
            Some((status, text)) => res matches Err(e) && e.is(status, text),
            None => match random {
                None => res matches Err(e) && e.is(STATUS_INTERNAL_SERVER_ERROR, MSG_TOKEN_FAILURE@),
                Some(_) => res matches Ok((d2, s)) && challenge_used(data->0, d2)
                    && CookieAuthProcessor::opened(random, now, s),
            },
        }
    }

    /// Checks a signed login assertion (see `check_assertion`) and, when it
    /// holds, opens a session with the random token bytes `random` at `now`, as
    /// `set_login_headers_with` does; the record comes back with its challenge
    /// used up.
    pub fn passkey_verify_with(
        data: Option<PasskeyData>,
        input: AuthenticatedPublicKeyCredential,
        domain: &str,
        random: Option<[u8; 32]>,
        now: Timestamp,
    ) -> (res: Result<(PasskeyData, NewSession), HttpErrorWrapper>)
        ensures
            Self::login_outcome(data, input, domain, random, now, res),
    {
        let d2 = Self::check_assertion(data, input, domain)?;
        let session = CookieAuthProcessor::set_login_headers_with(random, now)?;
        Ok((d2, session))
    }

    /// Checks a signed login assertion against the registered passkey and its
    /// pending challenge (same credential, same challenge and origin, a `get`
    /// ceremony, the relying-party hash of `domain`, a valid P-256 signature
    /// over the authenticator data and the client data digest). On success the
    /// challenge is used up.
    fn check_assertion(data: Option<PasskeyData>, input: AuthenticatedPublicKeyCredential, domain: &str) -> (res: Result<PasskeyData, HttpErrorWrapper>)
        ensures
            answers(res, verification_failure(data, input, domain)),
            res matches Ok(d2) ==> challenge_used(data->0, d2),
    {
        let d = match data {
            None => return Err(http_error(STATUS_BAD_REQUEST, MSG_INVALID_PASSKEY_DATA)),
            Some(d) => d,
        };
        if !d.verified {
            return Err(http_error(STATUS_BAD_REQUEST, MSG_NOT_VERIFIED));
        }
        let PasskeyData { create_time, verified, state } = d;
        let mut current = match state {
            PasskeyState::PasskeyVerified(r) => r,
            PasskeyState::CreatePasskeyChallenge(_) => return Err(http_error(STATUS_BAD_REQUEST, MSG_INVALID_STATE)),
        };
        let ghost r0 = current;
        let current_challenge = match current.current_challenge.take() {
            None => return Err(http_error(STATUS_BAD_REQUEST, MSG_NO_CHALLENGE)),
            Some(challenge) => challenge,
        };
        if !bytes_eq(input.raw_id.as_slice(), current.raw_id.as_slice()) {
            return Err(http_error(STATUS_BAD_REQUEST, MSG_WRONG_CREDENTIAL));
        }
        let json = match utf8_decode(input.response.client_data_json.as_slice()) {
            None => return Err(http_error(STATUS_BAD_REQUEST, MSG_LOGIN_CLIENT_DATA)),
            Some(json) => json,
        };
        let client_data = match parse_client_data(json) {
            None => return Err(HttpErrorWrapper::new()),
            Some(client_data) => client_data,
        };
        let decoded_challenge = match base64url_decode(client_data.challenge.as_str()) {
            None => return Err(http_error(STATUS_BAD_REQUEST, MSG_CHALLENGE_ENCODING)),
            Some(bytes) => bytes,
        };
        if !bytes_eq(decoded_challenge.as_slice(), current_challenge.as_slice()) {
            return Err(http_error(STATUS_BAD_REQUEST, MSG_INVALID_CHALLENGE));
        }
        if !(client_data.origin == current.origin) {
            return Err(http_error(STATUS_BAD_REQUEST, MSG_INVALID_ORIGIN));
        }
        if client_data.ty != ClientDataType::Get {
            return Err(http_error(STATUS_BAD_REQUEST, MSG_NOT_GET));
        }
        let rp_id_hash = match authenticator_rp_id_hash(input.response.authenticator_data.as_slice()) {
            None => return Err(http_error(STATUS_BAD_REQUEST, MSG_AUTHENTICATOR_DATA)),
            Some(hash) => hash,
        };
        let inner_rp_id_hash = sha256(domain.as_bytes());
        if !bytes_eq(inner_rp_id_hash.as_slice(), rp_id_hash.as_slice()) {
            return Err(http_error(STATUS_BAD_REQUEST, MSG_WRONG_DOMAIN));
        }
        let client_hash = sha256(input.response.client_data_json.as_slice());
        let mut message_signed: Vec<u8> = Vec::new();
        push_all(&mut message_signed, input.response.authenticator_data.as_slice());
        push_all(&mut message_signed, client_hash.as_slice());
        let verifying_key = match p256_public_key_from_der(current.public_key.as_slice()) {
            None => return Err(http_error(STATUS_INTERNAL_SERVER_ERROR, MSG_STORED_KEY)),
            Some(key) => key,
        };
        let signature = match p256_signature_from_der(input.response.signature.as_slice()) {
            None => return Err(http_error(STATUS_BAD_REQUEST, MSG_INVALID_SIGNATURE)),
            Some(signature) => signature,
        };
        if !p256_verify(verifying_key.as_slice(), message_signed.as_slice(), &signature) {
            return Err(http_error(STATUS_BAD_REQUEST, MSG_SIGNATURE_MISMATCH));
        }
        Ok(PasskeyData { create_time, verified, state: PasskeyState::PasskeyVerified(current) })
    }
}

/// A login challenge is good for one login only: once a login succeeds on `d`
/// and leaves `d2`, every further login on `d2` is refused for want of a
/// challenge.
pub proof fn lemma_login_challenge_single_use(
    d: PasskeyData,
    d2: PasskeyData,
    first: AuthenticatedPublicKeyCredential,
    again: AuthenticatedPublicKeyCredential,
    domain: &str,
)
    requires
        verification_failure(Some(d), first, domain) is None,
        challenge_used(d, d2),
    ensures
        verification_failure(Some(d2), again, domain) == failure(STATUS_BAD_REQUEST, MSG_NO_CHALLENGE),
{
}

/// Login checks the challenge that `passkey_connect` issued: once a challenge is
/// issued on `d`, a login for the registered credential whose client data carries
/// that challenge gets past the challenge check, and one that carries another
/// challenge is refused with "Invalid passkey challenge!".
pub proof fn lemma_issued_challenge_is_checked(
    d: PasskeyData,
    d2: PasskeyData,
    options: CredentialRequestOptions,
    domain: &str,
    release: bool,
    input: AuthenticatedPublicKeyCredential,
    json: Seq<char>,
    cd: crate::webauthn::ClientDataView,
)
    requires
        connect_failure(Some(d)) is None,
        connected(d, d2, options, domain@, release),
        d2.state matches PasskeyState::PasskeyVerified(r2) && input.raw_id@ == r2.raw_id@,
        utf8_text(input.response.client_data_json@) == Some(json),
        client_data_of(json) == Some(cd),
    ensures
        base64url_decoded(cd.challenge) == Some(options.challenge@) ==> verification_failure(
            Some(d2),
            input,
            domain,
        ) == (if cd.origin != d2.state->PasskeyVerified_0.origin@ {
            failure(STATUS_BAD_REQUEST, MSG_INVALID_ORIGIN)
        } else if cd.ty != ClientDataType::Get {
            failure(STATUS_BAD_REQUEST, MSG_NOT_GET)
        } else {
            assertion_failure(d2.state->PasskeyVerified_0, input, domain)
        }),
        base64url_decoded(cd.challenge) matches Some(other) && other != options.challenge@
            ==> verification_failure(Some(d2), input, domain) == failure(
            STATUS_BAD_REQUEST,
            MSG_INVALID_CHALLENGE,
        ),
{
}

/// A successful registration leaves a record on which a login challenge can be
/// issued.
pub proof fn lemma_registration_enables_login(
    d: PasskeyData,
    input: CreatedPublicKeyCredential,
    domain: Seq<char>,
    d2: PasskeyData,
    ui: RegisteredPasskeyUiData,
)
    requires
        registered(d, input, domain, d2, ui),
    ensures
        connect_failure(Some(d2)) is None,
{
}

/// Registration options handed out at `t0` are handed out again, unchanged, by
/// a request for options less than ten minutes later.
pub proof fn lemma_pending_options_reused(
    existing: Option<PasskeyData>,
    email: Seq<char>,
    domain: Seq<char>,
    t0: Timestamp,
    d: PasskeyData,
    t1: Timestamp,
    res: Result<PasskeyChallenge, HttpErrorWrapper>,
)
    requires
        PasskeyHandler::new_passkey_outcome(
            existing,
            email,
            domain,
            t0,
            Ok::<PasskeyChallenge, HttpErrorWrapper>(PasskeyChallenge::Created(d)),
        ),
        spec_before(t1, later_by(t0, REGISTRATION_WINDOW_SECS)),
        PasskeyHandler::new_passkey_outcome(Some(d), email, domain, t1, res),
    ensures
        d.state matches PasskeyState::CreatePasskeyChallenge(o) && res == Ok::<
            PasskeyChallenge,
            HttpErrorWrapper,
        >(PasskeyChallenge::Existing(*o)),
{
}

/// A registration answer to options handed out at `t0` is accepted when it
/// comes within ten minutes, is a public P-256 key, and its client data is a
/// `create` ceremony that carries the handed-out challenge from `domain`.
pub proof fn lemma_answered_registration_accepted(
    existing: Option<PasskeyData>,
    email: Seq<char>,
    domain: Seq<char>,
    t0: Timestamp,
    d: PasskeyData,
    input: CreatedPublicKeyCredential,
    json: Seq<char>,
    cd: crate::webauthn::ClientDataView,
    now: Timestamp,
)
    requires
        PasskeyHandler::new_passkey_outcome(
            existing,
            email,
            domain,
            t0,
            Ok::<PasskeyChallenge, HttpErrorWrapper>(PasskeyChallenge::Created(d)),
        ),
        !spec_before(later_by(t0, REGISTRATION_WINDOW_SECS), now),
        input.ty == CredentialType::PublicKey,
        input.response.public_key is Some,
        input.response.public_key_algorithm == ES256,
        utf8_text(input.response.client_data_json@) == Some(json),
        client_data_of(json) == Some(cd),
        cd.ty == ClientDataType::Create,
        d.state matches PasskeyState::CreatePasskeyChallenge(o) && base64url_decoded(cd.challenge) == Some(
            o.challenge@,
        ),
        cd.origin == domain,
    ensures
        registration_failure(Some(d), input, domain, now) is None,
{
}

/// A successful passkey login at `now` opens a session that `check_cookies`
/// finds active while less than 24 hours have passed, and expired from then on.
pub proof fn lemma_passkey_login_opens_session(
    data: Option<PasskeyData>,
    input: AuthenticatedPublicKeyCredential,
    domain: &str,
    random: Option<[u8; 32]>,
    now: Timestamp,
    d2: PasskeyData,
    s: NewSession,
    cookie: String,
    row: SessionRow,
    at: Timestamp,
)
    requires
        now.wf(),
        PasskeyHandler::login_outcome(
            data,
            input,
            domain,
            random,
            now,
            Ok::<(PasskeyData, NewSession), HttpErrorWrapper>((d2, s)),
        ),
        row.created_at@ == s.created_at@,
    ensures
        session_check(Some(cookie), Some(row), row.user_name@, at) == (if spec_before(
            at,
            later_by(now, SESSION_LIFETIME_SECS),
        ) {
            Ok::<SessionStatus, (u16, Seq<char>)>(SessionStatus::Active)
        } else {
            Ok::<SessionStatus, (u16, Seq<char>)>(SessionStatus::Expired)
        }),
{
    lemma_opened_session_lifetime(random, now, s, cookie, row, row.user_name@, at);
}

} // verus!
