//! Instruction data for the secp256r1 signature-verification precompile, and the
//! passkey signature that it carries.
use vstd::prelude::*;

use crate::bytes::push_all;
use crate::crypto::{
    p256_compressed_public_key, p256_public_key_of, p256_random_secret, p256_sign,
    p256_signature_from_slice, p256_signature_of, p256_signature_scalars_valid, p256_verifies,
};

verus! {

/// Size of a SEC1 compressed P-256 public key.
pub const COMPRESSED_PUBKEY_SERIALIZED_SIZE: usize = 33;

/// Size of a raw `r || s` P-256 signature.
pub const SIGNATURE_SERIALIZED_SIZE: usize = 64;

/// Size of one `Secp256r1SignatureOffsets` record.
pub const SIGNATURE_OFFSETS_SERIALIZED_SIZE: usize = 14;

/// Offset of the first offsets record (after the two header bytes).
pub const SIGNATURE_OFFSETS_START: usize = 2;

/// Offset of the first data byte after the header and one offsets record.
pub const DATA_START: usize = 16;

/// Offset of the message in instruction data with one signature.
pub const MESSAGE_DATA_OFFSET: usize = 113;

/// Custom program error code returned when the header announces a number of
/// signatures other than one.
pub const ERROR_SIGNATURE_COUNT: u32 = 1;

/// Little-endian bytes of a `u16`.
pub open spec fn le_u16(x: u16) -> Seq<u8> {
    seq![(x % 256) as u8, (x / 256) as u8]
}

/// The 16 header bytes of an instruction with one signature: the signature count,
/// a padding byte, and one offsets record whose instruction indexes are all
/// `u16::MAX` (data lives in this same instruction).
pub open spec fn offsets_header(signature_offset: u16, public_key_offset: u16, message_len: nat) -> Seq<u8> {
    seq![1u8, 0u8] + le_u16(signature_offset) + le_u16(0xffff) + le_u16(public_key_offset)
        + le_u16(0xffff) + le_u16(113) + le_u16((message_len % 65536) as u16) + le_u16(0xffff)
}

/// Instruction data laid out as `PasskeyProgramOps::build` lays it out: the public
/// key at offset 16, the signature at offset 49 and the message at offset 113.
pub open spec fn passkey_instruction_data(public_key: Seq<u8>, signature: Seq<u8>, message: Seq<u8>) -> Seq<u8> {
    offsets_header(49, 16, message.len()) + public_key + signature + message
}

/// Instruction data laid out with the signature at offset 16, the public key at
/// offset 80 and the message at offset 113.
pub open spec fn signature_first_instruction_data(public_key: Seq<u8>, signature: Seq<u8>, message: Seq<u8>) -> Seq<u8> {
    offsets_header(16, 80, message.len()) + signature + public_key + message
}

/// Whether the two header bytes, read as a little-endian `u16`, equal one.
pub open spec fn announces_one_signature(data: Seq<u8>) -> bool {
    data[0] == 1 && data[1] == 0
}

/// The public key, signature and message that `parse_instruction_data` reads from
/// data that announces one signature.
pub open spec fn parsed_fields(data: Seq<u8>) -> (Seq<u8>, Seq<u8>, Seq<u8>) {
    (data.subrange(16, 49), data.subrange(49, 113), data.subrange(113, data.len() as int))
}

/// The public key, signature and message held by `ops`.
pub open spec fn ops_fields(ops: PasskeyProgramOps) -> (Seq<u8>, Seq<u8>, Seq<u8>) {
    (ops.public_key@, ops.signature@, ops.message@)
}

/// The inputs on which `parse_instruction_data` does not panic: two header bytes,
/// and the full fixed-size part whenever the header announces one signature.
pub open spec fn parsable_instruction_data(data: Seq<u8>) -> bool {
    &&& data.len() >= 2
    &&& announces_one_signature(data) ==> data.len() >= 113
}

/// Why signing or reading back a signature failed.
#[derive(Debug, Clone, Copy, PartialEq, Eq)]
pub enum PasskeyOpsError {
    /// The secret scalar is not a valid P-256 scalar.
    InvalidSigningKey,
    /// The verifying key could not be encoded.
    InvalidEcdsaVerifyingKey,
    /// The stored bytes are not a P-256 signature.
    UnableToParseP256SignatureFromBytes,
}

/// A P-256 signature over a message, with the public key that checks it, as the
/// secp256r1 precompile reads them.
#[derive(Debug, PartialEq, Eq, PartialOrd, Ord, Clone)]
pub struct PasskeyProgramOps {
    pub signature: [u8; 64],
    pub public_key: [u8; 33],
    pub message: Vec<u8>,
}

/// Appends the little-endian bytes of `x`.
fn push_le_u16(out: &mut Vec<u8>, x: u16)
    ensures
        final(out)@ == old(out)@ + le_u16(x),
{
    out.push((x % 256) as u8);
    out.push((x / 256) as u8);
}

/// Writes the header with one offsets record.
fn push_offsets_header(out: &mut Vec<u8>, signature_offset: u16, public_key_offset: u16, message_len: usize)
    ensures
        final(out)@ == old(out)@ + offsets_header(signature_offset, public_key_offset, message_len as nat),
{
    let ghost start = out@;
    out.push(1u8);
    out.push(0u8);
    push_le_u16(out, signature_offset);
    push_le_u16(out, 0xffff);
    push_le_u16(out, public_key_offset);
    push_le_u16(out, 0xffff);
    push_le_u16(out, 113);
    push_le_u16(out, (message_len % 65536) as u16);
    push_le_u16(out, 0xffff);
    assert(out@ == start + offsets_header(signature_offset, public_key_offset, message_len as nat));
}

/// Builds secp256r1 precompile data for one signature with the signature first,
/// the compressed public key next and the message last.
pub fn p256_ix_test(public_key: &[u8; 33], signature: &[u8; 64], message: &[u8]) -> (data: Vec<u8>)
    ensures
        data@ == signature_first_instruction_data(public_key@, signature@, message@),
        data@.len() == 113 + message@.len(),
        data@[12] + 256 * data@[13] == message@.len() % 65536,
{
    proof {
        lemma_signature_first_layout(public_key@, signature@, message@);
    }
    let mut data: Vec<u8> = Vec::new();
    push_offsets_header(&mut data, 16, 80, message.len());
    push_all(&mut data, signature.as_slice());
    push_all(&mut data, public_key.as_slice());
    push_all(&mut data, message);
    data
}

impl PasskeyProgramOps {
    /// The value with an all-zero signature and public key and an empty message.
    pub fn new() -> (ops: Self)
        ensures
            ops.signature@ == Seq::new(64, |i: int| 0u8),
            ops.public_key@ == Seq::new(33, |i: int| 0u8),
            ops.message@.len() == 0,
    {
        Self::default()
    }

    /// Replaces the message.
    pub fn set_message(&mut self, message: &[u8])
        ensures
            final(self).message@ == message@,
            final(self).signature == old(self).signature,
            final(self).public_key == old(self).public_key,
    {
        let mut copy: Vec<u8> = Vec::new();
        push_all(&mut copy, message);
        self.message = copy;
    }

    /// Signs the current message with the P-256 secret scalar `signing_key` and
    /// stores the raw signature and the compressed public key; the stored
    /// signature verifies over the message under the stored key and reads back
    /// through `get_signature`. On failure nothing changes.
    pub fn sign_with_key(&mut self, signing_key: &[u8; 32]) -> (res: Result<(), PasskeyOpsError>)
        ensures
            final(self).message == old(self).message,
            p256_signature_of(signing_key@, old(self).message@) is None ==> res == Err::<
                (),
                PasskeyOpsError,
            >(PasskeyOpsError::InvalidSigningKey) && *final(self) == *old(self),
            p256_signature_of(signing_key@, old(self).message@) is Some && p256_public_key_of(
                signing_key@,
            ) is None ==> res == Err::<(), PasskeyOpsError>(PasskeyOpsError::InvalidEcdsaVerifyingKey)
                && *final(self) == *old(self),
            p256_signature_of(signing_key@, old(self).message@) is Some && p256_public_key_of(
                signing_key@,
            ) is Some ==> res is Ok && p256_signature_of(signing_key@, old(self).message@) == Some(
                final(self).signature@,
            ) && p256_public_key_of(signing_key@) == Some(final(self).public_key@),
            res is Ok ==> p256_verifies(final(self).public_key@, final(self).message@, final(self).signature@),
            res is Ok ==> Self::signature_read(final(self).signature) == Ok::<[u8; 64], PasskeyOpsError>(
                final(self).signature,
            ),
    {
        let signature = match p256_sign(signing_key, self.message.as_slice()) {
            Some(signature) => signature,
            None => return Err(PasskeyOpsError::InvalidSigningKey),
        };
        let public_key = match p256_compressed_public_key(signing_key) {
            Some(public_key) => public_key,
            None => return Err(PasskeyOpsError::InvalidEcdsaVerifyingKey),
        };
        self.signature = signature;
        self.public_key = public_key;
        Ok(())
    }

    /// Signs the current message with a freshly generated random P-256 key: it
    /// always succeeds, and the stored signature and public key are those of one
    /// secret scalar.
    pub fn sign(&mut self) -> (res: Result<(), PasskeyOpsError>)
        ensures
            res is Ok,
            final(self).message == old(self).message,
            exists|secret: Seq<u8>|
                p256_signature_of(secret, old(self).message@) == Some(final(self).signature@)
                    && p256_public_key_of(secret) == Some(final(self).public_key@),
            p256_verifies(final(self).public_key@, final(self).message@, final(self).signature@),
            Self::signature_read(final(self).signature) == Ok::<[u8; 64], PasskeyOpsError>(
                final(self).signature,
            ),
    {
        let secret = p256_random_secret();
        proof {
            assert(p256_signature_of(secret@, self.message@) is Some);
        }
        let res = self.sign_with_key(&secret);
        proof {
            assert(p256_signature_of(secret@, old(self).message@) == Some(self.signature@));
        }
        res
    }

    /// What `get_signature` gives for stored signature bytes `signature`.
    pub open spec fn signature_read(signature: [u8; 64]) -> Result<[u8; 64], PasskeyOpsError> {
        if p256_signature_scalars_valid(signature@) {
            Ok(signature)
        } else {
            Err(PasskeyOpsError::UnableToParseP256SignatureFromBytes)
        }
    }

    /// The stored signature, once checked to be a P-256 signature: both `r` and
    /// `s` in `1..n`.
    pub fn get_signature(&self) -> (res: Result<[u8; 64], PasskeyOpsError>)
        ensures
            res == Self::signature_read(self.signature),
    {
        if p256_signature_from_slice(&self.signature) {
            Ok(self.signature)
        } else {
            Err(PasskeyOpsError::UnableToParseP256SignatureFromBytes)
        }
    }

    /// Builds the secp256r1 precompile data: header, one offsets record, then
    /// the public key, the signature and the message.
    pub fn build(&self) -> (data: Vec<u8>)
        ensures
            data@ == passkey_instruction_data(self.public_key@, self.signature@, self.message@),
            data@.len() == 113 + self.message@.len(),
            data@[12] + 256 * data@[13] == self.message@.len() % 65536,
    {
        proof {
            lemma_instruction_layout(self.public_key@, self.signature@, self.message@);
        }
        let mut data: Vec<u8> = Vec::new();
        push_offsets_header(&mut data, 49, 16, self.message.len());
        push_all(&mut data, self.public_key.as_slice());
        push_all(&mut data, self.signature.as_slice());
        push_all(&mut data, self.message.as_slice());
        data
    }

    /// Reads a public key, a signature and a message back from precompile data
    /// laid out as `build` lays it out. Fails with custom code 1 when the header
    /// does not announce exactly one signature.
    pub fn parse_instruction_data(data: &[u8]) -> (res: Result<Self, u32>)
        requires
            parsable_instruction_data(data@),
        ensures
            !announces_one_signature(data@) ==> res == Err::<Self, u32>(ERROR_SIGNATURE_COUNT),
            announces_one_signature(data@) ==> (res matches Ok(ops) && ops_fields(ops)
                == parsed_fields(data@)),
            data@[0] != 1 || data@[1] != 0 ==> res == Err::<Self, u32>(ERROR_SIGNATURE_COUNT),
    {
        if !(data[0] == 1 && data[1] == 0) {
            return Err(ERROR_SIGNATURE_COUNT);
        }
        let mut public_key = [0u8; 33];
        let mut i: usize = 0;
        while i < 33
            invariant
                data@.len() >= 113,
                0 <= i <= 33,
                forall|k: int| 0 <= k < i ==> public_key@[k] == data@[16 + k],
            decreases 33 - i,
        {
            public_key[i] = data[16 + i];
            i = i + 1;
        }
        let mut signature = [0u8; 64];
        let mut j: usize = 0;
        while j < 64
            invariant
                data@.len() >= 113,
                0 <= j <= 64,
                forall|k: int| 0 <= k < j ==> signature@[k] == data@[49 + k],
            decreases 64 - j,
        {
            signature[j] = data[49 + j];
            j = j + 1;
        }
        let mut message: Vec<u8> = Vec::new();
        push_all(&mut message, &data[113..data.len()]);
        assert(public_key@ == data@.subrange(16, 49));
        assert(signature@ == data@.subrange(49, 113));
        Ok(Self { signature, public_key, message })
    }
}

impl Default for PasskeyProgramOps {
    fn default() -> (ops: Self)
        ensures
            ops.signature@ == Seq::new(64, |i: int| 0u8),
            ops.public_key@ == Seq::new(33, |i: int| 0u8),
            ops.message@.len() == 0,
    {
        let ops = Self { signature: [0u8; 64], public_key: [0u8; 33], message: Vec::new() };
        assert(ops.signature@ == Seq::new(64, |i: int| 0u8));
        assert(ops.public_key@ == Seq::new(33, |i: int| 0u8));
        ops
    }
}

/// Parsing what `build` produced gives back the same public key, signature and
/// message, whatever the message length: the data is always parsable, announces
/// one signature, and its fields are those of `ops`.
pub proof fn lemma_parse_build_roundtrip(ops: PasskeyProgramOps)
    ensures
        parsable_instruction_data(
            passkey_instruction_data(ops.public_key@, ops.signature@, ops.message@),
        ),
        announces_one_signature(
            passkey_instruction_data(ops.public_key@, ops.signature@, ops.message@),
        ),
        parsed_fields(passkey_instruction_data(ops.public_key@, ops.signature@, ops.message@))
            == ops_fields(ops),
{
    let d = passkey_instruction_data(ops.public_key@, ops.signature@, ops.message@);
    let h = offsets_header(49, 16, ops.message@.len());
    assert(h.len() == 16);
    assert(d == h + ops.public_key@ + ops.signature@ + ops.message@);
    assert(d.subrange(16, 49) =~= ops.public_key@);
    assert(d.subrange(49, 113) =~= ops.signature@);
    assert(d.subrange(113, d.len() as int) =~= ops.message@);
}

/// The little-endian `u16` that two bytes of `data` hold at `at`.
pub open spec fn u16_at(data: Seq<u8>, at: int) -> int {
    data[at] + 256 * data[at + 1]
}

/// Two little-endian bytes read back as the `u16` they were written from.
proof fn lemma_le_u16_value(x: u16)
    ensures
        le_u16(x).len() == 2,
        le_u16(x)[0] + 256 * le_u16(x)[1] == x,
{
}

/// The data that `build` writes carries, in its one offsets record, where the
/// public key, the signature and the message are and how long the message is,
/// and those places hold them: one signature is announced, the signature offset
/// is 49, the public-key offset 16, the message offset 113, the message size is
/// the message length (modulo 65536, the width of the field), every instruction
/// index is `u16::MAX`, and the bytes at the offsets are the public key, the
/// signature and the whole message.
pub proof fn lemma_instruction_layout(public_key: Seq<u8>, signature: Seq<u8>, message: Seq<u8>)
    requires
        public_key.len() == 33,
        signature.len() == 64,
    ensures
        ({
            let d = passkey_instruction_data(public_key, signature, message);
            &&& d.len() == 113 + message.len()
            &&& u16_at(d, 0) == 1
            &&& u16_at(d, 2) == 49
            &&& u16_at(d, 4) == 0xffff
            &&& u16_at(d, 6) == 16
            &&& u16_at(d, 8) == 0xffff
            &&& u16_at(d, 10) == 113
            &&& u16_at(d, 12) == message.len() % 65536
            &&& u16_at(d, 14) == 0xffff
            &&& d.subrange(u16_at(d, 6), u16_at(d, 6) + 33) == public_key
            &&& d.subrange(u16_at(d, 2), u16_at(d, 2) + 64) == signature
            &&& d.subrange(u16_at(d, 10), d.len() as int) == message
            &&& message.len() < 65536 ==> d.subrange(u16_at(d, 10), u16_at(d, 10) + u16_at(d, 12)) == message
        }),
{
    let d = passkey_instruction_data(public_key, signature, message);
    let h = offsets_header(49, 16, message.len());
    lemma_le_u16_value(49);
    lemma_le_u16_value(16);
    lemma_le_u16_value(0xffff);
    lemma_le_u16_value(113);
    lemma_le_u16_value((message.len() % 65536) as u16);
    assert(h.len() == 16);
    assert(h[0] == 1 && h[1] == 0);
    assert(h[2] == le_u16(49)[0] && h[3] == le_u16(49)[1]);
    assert(h[4] == le_u16(0xffff)[0] && h[5] == le_u16(0xffff)[1]);
    assert(h[6] == le_u16(16)[0] && h[7] == le_u16(16)[1]);
    assert(h[8] == le_u16(0xffff)[0] && h[9] == le_u16(0xffff)[1]);
    assert(h[10] == le_u16(113)[0] && h[11] == le_u16(113)[1]);
    assert(h[12] == le_u16((message.len() % 65536) as u16)[0]);
    assert(h[13] == le_u16((message.len() % 65536) as u16)[1]);
    assert(h[14] == le_u16(0xffff)[0] && h[15] == le_u16(0xffff)[1]);
    assert(d == h + public_key + signature + message);
    assert(d.subrange(16, 49) =~= public_key);
    assert(d.subrange(49, 113) =~= signature);
    assert(d.subrange(113, d.len() as int) =~= message);
}

/// The data that `p256_ix_test` writes carries the same offsets record with the
/// signature first: signature offset 16, public-key offset 80, message offset 113
/// and the message length as its size; the bytes at the offsets are the
/// signature, the public key and the whole message.
pub proof fn lemma_signature_first_layout(public_key: Seq<u8>, signature: Seq<u8>, message: Seq<u8>)
    requires
        public_key.len() == 33,
        signature.len() == 64,
    ensures
        ({
            let d = signature_first_instruction_data(public_key, signature, message);
            &&& d.len() == 113 + message.len()
            &&& u16_at(d, 0) == 1
            &&& u16_at(d, 2) == 16
            &&& u16_at(d, 6) == 80
            &&& u16_at(d, 10) == 113
            &&& u16_at(d, 12) == message.len() % 65536
            &&& d.subrange(u16_at(d, 2), u16_at(d, 2) + 64) == signature
            &&& d.subrange(u16_at(d, 6), u16_at(d, 6) + 33) == public_key
            &&& d.subrange(u16_at(d, 10), d.len() as int) == message
        }),
{
    let d = signature_first_instruction_data(public_key, signature, message);
    let h = offsets_header(16, 80, message.len());
    lemma_le_u16_value(16);
    lemma_le_u16_value(80);
    lemma_le_u16_value(113);
    lemma_le_u16_value((message.len() % 65536) as u16);
    assert(h.len() == 16);
    assert(h[0] == 1 && h[1] == 0);
    assert(h[2] == le_u16(16)[0] && h[3] == le_u16(16)[1]);
    assert(h[6] == le_u16(80)[0] && h[7] == le_u16(80)[1]);
    assert(h[10] == le_u16(113)[0] && h[11] == le_u16(113)[1]);
    assert(h[12] == le_u16((message.len() % 65536) as u16)[0]);
    assert(h[13] == le_u16((message.len() % 65536) as u16)[1]);
    assert(d == h + signature + public_key + message);
    assert(d.subrange(16, 80) =~= signature);
    assert(d.subrange(80, 113) =~= public_key);
    assert(d.subrange(113, d.len() as int) =~= message);
}

/// Parsing accepts exactly the data whose first two bytes, read as a
/// little-endian `u16`, count one signature; any other count is refused with
/// custom error 1.
pub proof fn lemma_one_signature_accepted(data: Seq<u8>)
    requires
        data.len() >= 2,
    ensures
        announces_one_signature(data) <==> u16_at(data, 0) == 1,
{
}

} // verus!
