//! The WebAuthn values that passkey registration and login read and write, as
//! plain data, and the parsing of the client data JSON.
use vstd::prelude::*;

use passkey::types::webauthn as wa;

use crate::bytes::opt_bytes;

verus! {

/// `PublicKeyCredentialType`.
#[derive(Debug, Clone, Copy, PartialEq, Eq, Structural)]
pub enum CredentialType {
    PublicKey,
    Unknown,
}

/// `AuthenticatorTransport`.
#[derive(Debug, Clone, Copy, PartialEq, Eq, Structural)]
pub enum Transport {
    Usb,
    Nfc,
    Ble,
    Hybrid,
    Internal,
}

/// `AuthenticatorAttachment`.
#[derive(Debug, Clone, Copy, PartialEq, Eq, Structural)]
pub enum Attachment {
    Platform,
    CrossPlatform,
}

/// `UserVerificationRequirement`.
#[derive(Debug, Clone, Copy, PartialEq, Eq, Structural)]
pub enum UserVerification {
    Required,
    Preferred,
    Discouraged,
}

/// `ResidentKeyRequirement`.
#[derive(Debug, Clone, Copy, PartialEq, Eq, Structural)]
pub enum ResidentKey {
    Discouraged,
    Preferred,
    Required,
}

/// `AttestationConveyancePreference`.
#[derive(Debug, Clone, Copy, PartialEq, Eq, Structural)]
pub enum Attestation {
    /// The relying party is not interested in attestation (`none`).
    NotRequested,
    Indirect,
    Direct,
    Enterprise,
}

/// `ClientDataType`: the ceremony that produced the client data.
#[derive(Debug, Clone, Copy, PartialEq, Eq, Structural)]
pub enum ClientDataType {
    Create,
    Get,
    PaymentGet,
}

/// COSE algorithm identifier of ES256 (ECDSA with P-256 and SHA-256).
pub const ES256: i64 = -7;

/// COSE algorithm identifier of RS256 (RSASSA-PKCS1-v1_5 with SHA-256).
pub const RS256: i64 = -257;

/// `PublicKeyCredentialUserEntity`.
pub struct UserEntity {
    pub id: Vec<u8>,
    pub name: String,
    pub display_name: String,
}

/// `PublicKeyCredentialParameters`: a credential type and a COSE algorithm.
#[derive(Debug, Clone, Copy, PartialEq, Eq, Structural)]
pub struct CredentialParameters {
    pub ty: CredentialType,
    pub alg: i64,
}

/// `AuthenticatorSelectionCriteria`.
#[derive(Debug, Clone, Copy, PartialEq, Eq, Structural)]
pub struct AuthenticatorSelection {
    pub authenticator_attachment: Option<Attachment>,
    pub resident_key: Option<ResidentKey>,
    pub require_resident_key: bool,
    pub user_verification: UserVerification,
}

/// `CredentialCreationOptions` with the members that registration sets; the
/// excluded credentials, hints, attestation formats and extensions are absent.
pub struct CredentialCreationOptions {
    pub rp_id: Option<String>,
    pub rp_name: String,
    pub user: UserEntity,
    pub challenge: Vec<u8>,
    pub pub_key_cred_params: Vec<CredentialParameters>,
    pub timeout: Option<u32>,
    pub authenticator_selection: Option<AuthenticatorSelection>,
    pub attestation: Attestation,
}

/// `PublicKeyCredentialDescriptor`.
pub struct CredentialDescriptor {
    pub ty: CredentialType,
    pub id: Vec<u8>,
    pub transports: Option<Vec<Transport>>,
}

/// `CredentialRequestOptions` with the members that login sets; hints,
/// attestation formats and extensions are absent.
pub struct CredentialRequestOptions {
    pub challenge: Vec<u8>,
    pub timeout: Option<u32>,
    pub rp_id: Option<String>,
    pub allow_credentials: Option<Vec<CredentialDescriptor>>,
    pub user_verification: UserVerification,
    pub attestation: Attestation,
}

/// `AuthenticatorAttestationResponse`: what registration reads of it.
pub struct AttestationResponse {
    pub client_data_json: Vec<u8>,
    pub public_key: Option<Vec<u8>>,
    pub public_key_algorithm: i64,
    pub transports: Option<Vec<Transport>>,
}

/// `CreatedPublicKeyCredential`: the browser's answer to registration.
pub struct CreatedPublicKeyCredential {
    pub raw_id: Vec<u8>,
    pub ty: CredentialType,
    pub authenticator_attachment: Option<Attachment>,
    pub response: AttestationResponse,
}

/// `AuthenticatorAssertionResponse`: what login reads of it.
pub struct AssertionResponse {
    pub client_data_json: Vec<u8>,
    pub authenticator_data: Vec<u8>,
    pub signature: Vec<u8>,
}

/// `AuthenticatedPublicKeyCredential`: the browser's answer to login.
pub struct AuthenticatedPublicKeyCredential {
    pub raw_id: Vec<u8>,
    pub ty: CredentialType,
    pub authenticator_attachment: Option<Attachment>,
    pub response: AssertionResponse,
}

/// `CollectedClientData`: the ceremony type, the base64url challenge and the
/// origin.
pub struct CollectedClientData {
    pub ty: ClientDataType,
    pub challenge: String,
    pub origin: String,
}

/// The mathematical value of `CollectedClientData`.
pub struct ClientDataView {
    pub ty: ClientDataType,
    pub challenge: Seq<char>,
    pub origin: Seq<char>,
}

impl View for CollectedClientData {
    type V = ClientDataView;

    open spec fn view(&self) -> ClientDataView {
        ClientDataView { ty: self.ty, challenge: self.challenge@, origin: self.origin@ }
    }
}

/// The client data that a JSON text deserializes to, or `None` when it is not
/// a valid `CollectedClientData` JSON object.
pub uninterp spec fn client_data_of(json: Seq<char>) -> Option<ClientDataView>;

/// `serde_json::from_str::<passkey::types::webauthn::CollectedClientData>`,
/// keeping the type, challenge and origin; the result is the named
/// `client_data_of`.
#[verifier::external_body]
pub(crate) fn parse_client_data(json: &str) -> (data: Option<CollectedClientData>)
    ensures
        match data {
            Some(d) => client_data_of(json@) == Some(d@),
            None => client_data_of(json@) is None,
        },
{
    match serde_json::from_str::<wa::CollectedClientData>(json) {
        Ok(d) => Some(CollectedClientData {
            ty: match d.ty {
                wa::ClientDataType::Create => ClientDataType::Create,
                wa::ClientDataType::Get => ClientDataType::Get,
                wa::ClientDataType::PaymentGet => ClientDataType::PaymentGet,
            },
            challenge: d.challenge,
            origin: d.origin,
        }),
        Err(_) => None,
    }
}

/// The relying-party id hash that authenticator data carries, or `None` when the
/// data does not decode as `AuthenticatorData` (flags, attested credential data
/// and extensions included).
pub uninterp spec fn authenticator_data_rp_id_hash(data: Seq<u8>) -> Option<Seq<u8>>;

/// `passkey::types::ctap2::AuthenticatorData::from_slice` followed by
/// `rp_id_hash`; the result is the named `authenticator_data_rp_id_hash`, and
/// when decoding succeeds the hash is the first 32 of at least 37 bytes.
#[verifier::external_body]
pub(crate) fn authenticator_rp_id_hash(data: &[u8]) -> (hash: Option<Vec<u8>>)
    ensures
        opt_bytes(hash) == authenticator_data_rp_id_hash(data@),
        hash matches Some(h) ==> data@.len() >= 37 && h@ == data@.subrange(0, 32),
{
    match passkey::types::ctap2::AuthenticatorData::from_slice(data) {
        Ok(decoded) => Some(decoded.rp_id_hash().to_vec()),
        Err(_) => None,
    }
}

/// `passkey::types::rand::random_vec`: `len` random bytes.
#[verifier::external_body]
pub(crate) fn random_bytes(len: usize) -> (bytes: Vec<u8>)
    ensures
        bytes@.len() == len,
{
    passkey::types::rand::random_vec(len)
}

/// `coset::iana::Algorithm::ES256` as its COSE number, -7.
#[verifier::external_body]
pub(crate) fn cose_es256() -> (alg: i64)
    ensures
        alg == ES256,
{
    coset::iana::Algorithm::ES256 as i64
}

/// `coset::iana::Algorithm::RS256` as its COSE number, -257.
#[verifier::external_body]
pub(crate) fn cose_rs256() -> (alg: i64)
    ensures
        alg == RS256,
{
    coset::iana::Algorithm::RS256 as i64
}

/// A fresh vector with the same transports.
pub fn copy_transports(transports: &Vec<Transport>) -> (out: Vec<Transport>)
    ensures
        out@ == transports@,
{
    let mut out: Vec<Transport> = Vec::new();
    let mut i: usize = 0;
    while i < transports.len()
        invariant
            i <= transports@.len(),
            out@ == transports@.subrange(0, i as int),
        decreases transports@.len() - i,
    {
        out.push(transports[i]);
        i = i + 1;
    }
    out
}

} // verus!
