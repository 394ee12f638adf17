//! SHA-256 and P-256 ECDSA operations, delegated to the `passkey` and `p256`
//! crates. Keys and signatures cross this boundary as plain bytes.
use vstd::prelude::*;

use crate::bytes::opt_bytes;
use crate::timestamp::be_value;
use p256::ecdsa::signature::{Signer, Verifier};
use p256::pkcs8::DecodePublicKey;

verus! {

/// The SHA-256 digest of `data`.
pub uninterp spec fn sha256_digest(data: Seq<u8>) -> Seq<u8>;

/// The SEC1 uncompressed encoding of the P-256 public key held in a DER
/// `SubjectPublicKeyInfo`, or `None` when `der` is not one.
pub uninterp spec fn p256_der_public_key(der: Seq<u8>) -> Option<Seq<u8>>;

/// The raw `r || s` form of a DER-encoded P-256 ECDSA signature, or `None` when
/// `der` is not one.
pub uninterp spec fn p256_der_signature(der: Seq<u8>) -> Option<Seq<u8>>;

/// Whether `signature` (raw `r || s`) is a valid ECDSA/SHA-256 signature of
/// `message` under the SEC1-encoded P-256 public key `key`.
pub uninterp spec fn p256_verifies(key: Seq<u8>, message: Seq<u8>, signature: Seq<u8>) -> bool;

/// The deterministic (RFC 6979) ECDSA/SHA-256 signature of `message` under the
/// P-256 secret scalar `secret`, or `None` when `secret` is not a valid scalar.
pub uninterp spec fn p256_signature_of(secret: Seq<u8>, message: Seq<u8>) -> Option<Seq<u8>>;

/// The SEC1 compressed public key of the P-256 secret scalar `secret`, or
/// `None` when `secret` is not a valid scalar.
pub uninterp spec fn p256_public_key_of(secret: Seq<u8>) -> Option<Seq<u8>>;

/// The order `n` of the P-256 group.
pub open spec fn p256_order() -> nat {
    0xffff_ffff_0000_0000_ffff_ffff_ffff_ffff_bce6_faad_a717_9e84_f3b9_cac2_fc63_2551nat
}

/// 32 bytes that, read big-endian, are a scalar in `1..n`.
pub open spec fn p256_nonzero_scalar(bytes: Seq<u8>) -> bool {
    1 <= be_value(bytes) < p256_order()
}

/// 64 raw bytes `r || s` whose two halves are scalars in `1..n`: the signatures
/// that `p256::ecdsa::Signature::from_slice` accepts.
pub open spec fn p256_signature_scalars_valid(raw: Seq<u8>) -> bool {
    &&& raw.len() == 64
    &&& p256_nonzero_scalar(raw.subrange(0, 32))
    &&& p256_nonzero_scalar(raw.subrange(32, 64))
}

/// The view of an optional 64-byte array.
pub open spec fn opt_bytes64(o: Option<[u8; 64]>) -> Option<Seq<u8>> {
    match o {
        Some(a) => Some(a@),
        None => None,
    }
}

/// The view of an optional 33-byte array.
pub open spec fn opt_bytes33(o: Option<[u8; 33]>) -> Option<Seq<u8>> {
    match o {
        Some(a) => Some(a@),
        None => None,
    }
}

/// `passkey::types::crypto::sha256`: the SHA-256 digest of `data`, taken as the
/// named result `sha256_digest`.
#[verifier::external_body]
pub(crate) fn sha256(data: &[u8]) -> (digest: [u8; 32])
    ensures
        digest@ == sha256_digest(data@),
{
    passkey::types::crypto::sha256(data)
}

/// `p256::ecdsa::VerifyingKey::from_public_key_der`, with the key handed back in
/// SEC1 uncompressed form; the result is the named `p256_der_public_key`.
#[verifier::external_body]
pub(crate) fn p256_public_key_from_der(der: &[u8]) -> (key: Option<Vec<u8>>)
    ensures
        opt_bytes(key) == p256_der_public_key(der@),
{
    match p256::ecdsa::VerifyingKey::from_public_key_der(der) {
        Ok(key) => Some(key.to_encoded_point(false).as_bytes().to_vec()),
        Err(_) => None,
    }
}

/// `p256::ecdsa::Signature::from_der`, with the signature handed back as raw
/// `r || s` bytes; the result is the named `p256_der_signature`.
#[verifier::external_body]
pub(crate) fn p256_signature_from_der(der: &[u8]) -> (signature: Option<[u8; 64]>)
    ensures
        opt_bytes64(signature) == p256_der_signature(der@),
{
    match p256::ecdsa::Signature::from_der(der) {
        Ok(signature) => {
            let mut raw = [0u8; 64];
            raw.copy_from_slice(&signature.to_bytes());
            Some(raw)
        },
        Err(_) => None,
    }
}

/// `p256::ecdsa::Signature::from_slice` on 64 raw bytes: it succeeds exactly when
/// `r` (the first 32 bytes) and `s` (the last 32), read big-endian, are both in
/// `1..n`.
#[verifier::external_body]
pub(crate) fn p256_signature_from_slice(raw: &[u8; 64]) -> (valid: bool)
    ensures
        valid == p256_signature_scalars_valid(raw@),
{
    p256::ecdsa::Signature::from_slice(raw).is_ok()
}

/// `Verifier::verify` of a `p256::ecdsa::VerifyingKey` built from SEC1 bytes,
/// on a `Signature` built from raw bytes; a key or signature that does not decode
/// gives `false`. The result is the named `p256_verifies`.
#[verifier::external_body]
pub(crate) fn p256_verify(key: &[u8], message: &[u8], signature: &[u8; 64]) -> (valid: bool)
    ensures
        valid == p256_verifies(key@, message@, signature@),
{
    match (p256::ecdsa::VerifyingKey::from_sec1_bytes(key), p256::ecdsa::Signature::from_slice(signature)) {
        (Ok(key), Ok(signature)) => key.verify(message, &signature).is_ok(),
        _ => false,
    }
}

/// `Signer::sign` of a `p256::ecdsa::SigningKey` built from the secret scalar
/// bytes, with the signature handed back as raw `r || s` bytes; the result is the
/// named `p256_signature_of` (`None` when the scalar is not valid). As for every
/// ECDSA signature, it verifies under the key's public key, and its `r` and `s`
/// are scalars in `1..n`.
#[verifier::external_body]
pub(crate) fn p256_sign(secret: &[u8; 32], message: &[u8]) -> (signature: Option<[u8; 64]>)
    ensures
        opt_bytes64(signature) == p256_signature_of(secret@, message@),
        signature matches Some(sig) ==> (p256_public_key_of(secret@) matches Some(key) && p256_verifies(
            key,
            message@,
            sig@,
        )),
        signature matches Some(sig) ==> p256_signature_scalars_valid(sig@),
{
    match p256::ecdsa::SigningKey::from_slice(secret) {
        Ok(key) => {
            let signature: p256::ecdsa::Signature = key.sign(message);
            let mut raw = [0u8; 64];
            raw.copy_from_slice(&signature.to_bytes());
            Some(raw)
        },
        Err(_) => None,
    }
}

/// `SigningKey::verifying_key` of the key built from the secret scalar bytes, in
/// SEC1 compressed form; the result is the named `p256_public_key_of`.
#[verifier::external_body]
pub(crate) fn p256_compressed_public_key(secret: &[u8; 32]) -> (public_key: Option<[u8; 33]>)
    ensures
        opt_bytes33(public_key) == p256_public_key_of(secret@),
{
    match p256::ecdsa::SigningKey::from_slice(secret) {
        Ok(key) => {
            let mut compressed = [0u8; 33];
            compressed.copy_from_slice(key.verifying_key().to_encoded_point(true).as_bytes());
            Some(compressed)
        },
        Err(_) => None,
    }
}

/// `p256::ecdsa::SigningKey::random` with the operating system's generator,
/// handed back by `to_bytes`. The bytes are random; what is stated is that they
/// encode a non-zero scalar below the group order (the key holds a
/// `NonZeroScalar`), which `SigningKey::from_slice` accepts, so signing any
/// message with them and deriving their public key both give a result.
#[verifier::external_body]
pub(crate) fn p256_random_secret() -> (secret: [u8; 32])
    ensures
        p256_public_key_of(secret@) is Some,
        forall|message: Seq<u8>| #[trigger] p256_signature_of(secret@, message) is Some,
{
    p256::ecdsa::SigningKey::random(&mut rand_core::OsRng).to_bytes().into()
}

} // verus!
