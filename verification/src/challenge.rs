//! Passkey registration options: the relying party, the user, a fresh random
//! challenge and the accepted algorithms.
use vstd::prelude::*;

use crate::bytes::copy_str;
use crate::webauthn::{
    cose_es256, cose_rs256, random_bytes, Attachment, Attestation, AuthenticatorSelection,
    CredentialCreationOptions, CredentialParameters, CredentialType, ResidentKey, UserEntity,
    UserVerification, ES256, RS256,
};

verus! {

/// Two minutes, in milliseconds: how long the browser may take to create the
/// credential.
pub const REGISTRATION_TIMEOUT_MS: u32 = 120_000;

/// Length of registration challenges and generated user handles.
pub const CHALLENGE_LEN: usize = 32;

/// The registration options for relying party `rp_id` named `rp_name`, whatever
/// the user and the challenge: ES256 then RS256 public keys, a two-minute
/// timeout, a cross-platform authenticator without a resident key, required user
/// verification and indirect attestation.
pub open spec fn registration_options_for(o: CredentialCreationOptions, rp_id: Seq<char>, rp_name: Seq<char>) -> bool {
    &&& o.rp_id matches Some(id) && id@ == rp_id
    &&& o.rp_name@ == rp_name
    &&& o.pub_key_cred_params@ == seq![
        CredentialParameters { ty: CredentialType::PublicKey, alg: ES256 },
        CredentialParameters { ty: CredentialType::PublicKey, alg: RS256 },
    ]
    &&& o.timeout == Some(REGISTRATION_TIMEOUT_MS)
    &&& o.authenticator_selection == Some(
        AuthenticatorSelection {
            authenticator_attachment: Some(Attachment::CrossPlatform),
            resident_key: Some(ResidentKey::Discouraged),
            require_resident_key: false,
            user_verification: UserVerification::Required,
        },
    )
    &&& o.attestation == Attestation::Indirect
}

/// Builds passkey registration options.
pub struct PasskeyOps;

impl PasskeyOps {
    /// Registration options for a new user named `username` (also its display
    /// name) with a random 32-byte user handle, for relying party `domain`
    /// described as `description`.
    pub fn new_passkey(username: &str, domain: &str, description: &str) -> (o: CredentialCreationOptions)
        ensures
            registration_options_for(o, domain@, description@),
            o.user.name@ == username@,
            o.user.display_name@ == username@,
            o.user.id@.len() == CHALLENGE_LEN,
            o.challenge@.len() == CHALLENGE_LEN,
    {
        let user = UserEntity {
            id: random_bytes(CHALLENGE_LEN),
            name: copy_str(username),
            display_name: copy_str(username),
        };
        Self::create_registration_challenge(domain, description, user)
    }

    /// Registration options for `user` with a fresh random 32-byte challenge.
    pub fn create_registration_challenge(rp_id: &str, rp_name: &str, user: UserEntity) -> (o: CredentialCreationOptions)
        ensures
            registration_options_for(o, rp_id@, rp_name@),
            o.user == user,
            o.challenge@.len() == CHALLENGE_LEN,
    {
        let challenge = random_bytes(CHALLENGE_LEN);
        let mut params: Vec<CredentialParameters> = Vec::new();
        params.push(CredentialParameters { ty: CredentialType::PublicKey, alg: cose_es256() });
        params.push(CredentialParameters { ty: CredentialType::PublicKey, alg: cose_rs256() });
        assert(params@ =~= seq![
            CredentialParameters { ty: CredentialType::PublicKey, alg: ES256 },
            CredentialParameters { ty: CredentialType::PublicKey, alg: RS256 },
        ]);
        CredentialCreationOptions {
            rp_id: Some(copy_str(rp_id)),
            rp_name: copy_str(rp_name),
            user,
            challenge,
            pub_key_cred_params: params,
            timeout: Some(REGISTRATION_TIMEOUT_MS),
            authenticator_selection: Some(
                AuthenticatorSelection {
                    authenticator_attachment: Some(Attachment::CrossPlatform),
                    resident_key: Some(ResidentKey::Discouraged),
                    require_resident_key: false,
                    user_verification: UserVerification::Required,
                },
            ),
            attestation: Attestation::Indirect,
        }
    }
}

} // verus!
