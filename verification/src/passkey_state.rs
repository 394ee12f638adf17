//! What the server stores of a user's passkey: the pending registration
//! challenge, or the registered credential with its current login challenge.
use vstd::prelude::*;

use core::cmp::Ordering;
use vstd::std_specs::cmp::{PartialEqSpecImpl, PartialOrdSpecImpl};

use crate::timestamp::Timestamp;
use crate::webauthn::{Attachment, CredentialCreationOptions, CredentialType, Transport};

verus! {

/// A registered passkey credential.
pub struct RegisteredPasskeyData {
    pub raw_id: Vec<u8>,
    /// DER `SubjectPublicKeyInfo` of the credential's public key.
    pub public_key: Vec<u8>,
    pub algo: i64,
    pub transports: Vec<Transport>,
    pub attachment: Option<Attachment>,
    pub credential_type: CredentialType,
    pub origin: String,
    /// The challenge of the login that is under way, if any.
    pub current_challenge: Option<Vec<u8>>,
}

/// Where a user's passkey enrolment stands.
pub enum PasskeyState {
    /// Registration options were handed out and await the browser's answer.
    CreatePasskeyChallenge(Box<CredentialCreationOptions>),
    /// A credential is registered.
    PasskeyVerified(RegisteredPasskeyData),
}

/// The passkey record of one user.
pub struct PasskeyData {
    pub create_time: Timestamp,
    pub verified: bool,
    pub state: PasskeyState,
}

/// The position of a state in the enrolment: 0 before registration, 1 after.
pub open spec fn state_index(s: &PasskeyState) -> u8 {
    match s {
        PasskeyState::CreatePasskeyChallenge(_) => 0,
        PasskeyState::PasskeyVerified(_) => 1,
    }
}

/// The order of two states by their position in the enrolment.
pub open spec fn index_order(a: u8, b: u8) -> Ordering {
    if a < b {
        Ordering::Less
    } else if a == b {
        Ordering::Equal
    } else {
        Ordering::Greater
    }
}

impl PasskeyState {
    /// 0 for a pending registration, 1 for a registered credential.
    pub fn index(&self) -> (i: u8)
        ensures
            i == state_index(self),
    {
        match self {
            PasskeyState::CreatePasskeyChallenge(_) => 0,
            PasskeyState::PasskeyVerified(_) => 1,
        }
    }
}

impl PartialEq for PasskeyState {
    fn eq(&self, other: &Self) -> (r: bool) {
        self.index() == other.index()
    }
}

impl PartialEqSpecImpl for PasskeyState {
    open spec fn obeys_eq_spec() -> bool {
        true
    }

    open spec fn eq_spec(&self, other: &PasskeyState) -> bool {
        state_index(self) == state_index(other)
    }
}

impl Eq for PasskeyState {}

impl PartialOrd for PasskeyState {
    fn partial_cmp(&self, other: &Self) -> (r: Option<Ordering>) {
        let a = self.index();
        let b = other.index();
        if a < b {
            Some(Ordering::Less)
        } else if a == b {
            Some(Ordering::Equal)
        } else {
            Some(Ordering::Greater)
        }
    }
}

impl PartialOrdSpecImpl for PasskeyState {
    open spec fn obeys_partial_cmp_spec() -> bool {
        true
    }

    open spec fn partial_cmp_spec(&self, other: &PasskeyState) -> Option<Ordering> {
        Some(index_order(state_index(self), state_index(other)))
    }
}

} // verus!
