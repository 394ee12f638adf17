//! Block hashes: 32 bytes, written in base58.
use vstd::prelude::*;

use vstd::std_specs::convert::FromSpecImpl;

verus! {

/// Length of a block hash.
pub const BYTE_32_ARRAY_LEN: usize = 32;

/// Message when a base58 block hash does not decode to 32 bytes.
pub const MSG_NOT_32_BYTES: &'static str = "Decoded bytes are not 32 bytes in len";

/// An error of `bs58` decoding.
#[verifier::external_type_specification]
#[verifier::external_body]
pub struct ExBs58DecodeError(bs58::decode::Error);

/// What `bs58` decoding of `text` gives: the bytes, or the error's message.
pub uninterp spec fn bs58_decode_result(text: Seq<char>) -> Result<Seq<u8>, Seq<char>>;

/// Whether `text` is base58 of at most 32 bytes.
pub uninterp spec fn bs58_fits_32_bytes(text: Seq<char>) -> bool;

/// The base58 text of `bytes`.
pub uninterp spec fn bs58_encoded(bytes: Seq<u8>) -> Seq<char>;

/// `bs58::decode(text).into_vec()`, the error given as its message; the result is
/// the named `bs58_decode_result`.
#[verifier::external_body]
fn bs58_decode_vec(text: &str) -> (res: Result<Vec<u8>, String>)
    ensures
        match res {
            Ok(bytes) => bs58_decode_result(text@) == Ok::<Seq<u8>, Seq<char>>(bytes@),
            Err(message) => bs58_decode_result(text@) == Err::<Seq<u8>, Seq<char>>(message@),
        },
{
    match bs58::decode(text).into_vec() {
        Ok(bytes) => Ok(bytes),
        Err(error) => Err(error.to_string()),
    }
}

/// `bs58::decode(text).onto(buffer)` with a 32-byte array passed by value; it
/// succeeds exactly when the named `bs58_fits_32_bytes` holds, and the decoded
/// bytes land in a copy of the array that is then dropped.
#[verifier::external_body]
fn bs58_decode_onto_copy(text: &str, buffer: [u8; 32]) -> (res: Result<usize, bs58::decode::Error>)
    ensures
        res is Ok <==> bs58_fits_32_bytes(text@),
{
    bs58::decode(text).onto(buffer)
}

/// `bs58::encode(bytes).into_string()`; the result is the named `bs58_encoded`.
#[verifier::external_body]
fn bs58_encode(bytes: &[u8]) -> (text: String)
    ensures
        text@ == bs58_encoded(bytes@),
{
    bs58::encode(bytes).into_string()
}

/// A block hash, with the last block height at which it is valid when known.
#[derive(Clone, Copy)]
pub struct BlockHash {
    pub blockhash: [u8; 32],
    pub last_valid_block_height: Option<u64>,
}

/// What `deserialize_blockhash` gives for `text`: 32 decoded bytes, the decoding
/// error's message, or the length message.
pub open spec fn blockhash_of_text(text: Seq<char>) -> Result<Seq<u8>, Seq<char>> {
    match bs58_decode_result(text) {
        Err(message) => Err(message),
        Ok(bytes) => if bytes.len() == 32 {
            Ok(bytes)
        } else {
            Err(MSG_NOT_32_BYTES@)
        },
    }
}

/// Reads a block hash from its base58 text: it must decode, to exactly 32
/// bytes.
pub fn deserialize_blockhash(value: &str) -> (res: Result<[u8; 32], String>)
    ensures
        match res {
            Ok(bytes) => blockhash_of_text(value@) == Ok::<Seq<u8>, Seq<char>>(bytes@),
            Err(message) => blockhash_of_text(value@) == Err::<Seq<u8>, Seq<char>>(message@),
        },
        res matches Ok(bytes) ==> bs58_decode_result(value@) == Ok::<Seq<u8>, Seq<char>>(bytes@),
        bs58_decode_result(value@) matches Ok(decoded) && decoded.len() != 32 ==> (res matches Err(message)
            && message@ == MSG_NOT_32_BYTES@),
{
    proof {
        lemma_blockhash_is_whole_decoding(value@);
    }
    let bytes = match bs58_decode_vec(value) {
        Err(message) => return Err(message),
        Ok(bytes) => bytes,
    };
    if bytes.len() != BYTE_32_ARRAY_LEN {
        return Err(String::from_str(MSG_NOT_32_BYTES));
    }
    let mut out = [0u8; 32];
    let mut i: usize = 0;
    while i < 32
        invariant
            bytes@.len() == 32,
            i <= 32,
            forall|k: int| 0 <= k < i ==> out@[k] == bytes@[k],
        decreases 32 - i,
    {
        out[i] = bytes[i];
        i = i + 1;
    }
    assert(out@ =~= bytes@);
    Ok(out)
}

impl BlockHash {
    /// The hash bytes.
    pub fn as_ref(&self) -> (bytes: &[u8])
        ensures
            bytes@ == self.blockhash@,
    {
        self.blockhash.as_slice()
    }

    /// Reads a block hash from base58 text. The text must be base58 of at most
    /// 32 bytes; the decoded bytes are not kept, so the hash is all zeros.
    pub fn from_str(s: &str) -> (res: Result<Self, bs58::decode::Error>)
        ensures
            res is Ok <==> bs58_fits_32_bytes(s@),
            res matches Ok(h) ==> h.blockhash@ == Seq::new(32, |i: int| 0u8)
                && h.last_valid_block_height is None,
    {
        let bytes = [0u8; BYTE_32_ARRAY_LEN];
        match bs58_decode_onto_copy(s, bytes) {
            Err(error) => Err(error),
            Ok(_) => {
                let h = BlockHash { blockhash: bytes, last_valid_block_height: None };
                assert(h.blockhash@ =~= Seq::new(32, |i: int| 0u8));
                Ok(h)
            },
        }
    }

    /// The base58 text of the hash.
    pub fn to_base58_string(&self) -> (text: String)
        ensures
            text@ == bs58_encoded(self.blockhash@),
    {
        bs58_encode(self.blockhash.as_slice())
    }
}

impl From<[u8; 32]> for BlockHash {
    fn from(bytes: [u8; 32]) -> (h: Self) {
        BlockHash { blockhash: bytes, last_valid_block_height: None }
    }
}

impl FromSpecImpl<[u8; 32]> for BlockHash {
    open spec fn obeys_from_spec() -> bool {
        true
    }

    open spec fn from_spec(bytes: [u8; 32]) -> BlockHash {
        BlockHash { blockhash: bytes, last_valid_block_height: None }
    }
}

impl Default for BlockHash {
    /// An all-zero hash without a block height.
    fn default() -> (h: Self)
        ensures
            h.blockhash@ == Seq::new(32, |i: int| 0u8),
            h.last_valid_block_height is None,
    {
        let h = BlockHash { blockhash: [0u8; 32], last_valid_block_height: None };
        assert(h.blockhash@ =~= Seq::new(32, |i: int| 0u8));
        h
    }
}

/// A block hash is read only from text that decodes to exactly 32 bytes, and it
/// is the whole decoded sequence: text that decodes to another number of bytes
/// is refused with the length message, and text that does not decode is
/// refused with the decoder's message.
pub proof fn lemma_blockhash_is_whole_decoding(text: Seq<char>)
    ensures
        blockhash_of_text(text) matches Ok(bytes) ==> bytes.len() == 32 && bs58_decode_result(text) == Ok::<
            Seq<u8>,
            Seq<char>,
        >(bytes),
        bs58_decode_result(text) matches Ok(decoded) && decoded.len() != 32 ==> blockhash_of_text(text)
            == Err::<Seq<u8>, Seq<char>>(MSG_NOT_32_BYTES@),
        bs58_decode_result(text) matches Err(message) ==> blockhash_of_text(text) == Err::<
            Seq<u8>,
            Seq<char>,
        >(message),
{
}

} // verus!
