//! Hash locks and the preimages that open them.

use crate::encoding::{bytes_equal, hex_decode, hex_decoded};
use crate::error::{bytes_result, ContractError, HashFault};
use sha2::Digest;
use vstd::prelude::*;
use vstd::string::StringSliceAdditionalSpecFns;
use vstd::utf8::encode_utf8;

verus! {

/// The number of bytes in a hash lock.
pub const HASH_LENGTH: usize = 32;

/// The SHA-256 digest of `data`.
pub uninterp spec fn sha256_of(data: Seq<u8>) -> Seq<u8>;

/// Calls `sha2::Sha256::digest`, which is trusted to return the SHA-256
/// digest of the bytes it is given, 32 bytes long.
#[verifier::external_body]
pub(crate) fn digest_sha256(data: &[u8]) -> (digest: Vec<u8>)
    ensures
        digest@ == sha256_of(data@),
        digest@.len() == 32,
{
    sha2::Sha256::digest(data).as_slice().to_vec()
}

/// The hash that a text stands for: its 32 bytes, if the text is the
/// hexadecimal form of exactly 32 bytes.
pub open spec fn parsed_hash(text: Seq<char>) -> Result<Seq<u8>, ContractError> {
    match hex_decoded(encode_utf8(text)) {
        Ok(bytes) => if bytes.len() == HASH_LENGTH {
            Ok(bytes)
        } else {
            Err(ContractError::MalformedHash(HashFault::WrongLength))
        },
        Err(e) => Err(ContractError::MalformedHash(HashFault::NotHex(e))),
    }
}

/// The digest of the bytes that a hexadecimal preimage stands for, whatever
/// their number.
pub open spec fn preimage_digest_of(preimage: Seq<char>) -> Result<Seq<u8>, ContractError> {
    match hex_decoded(encode_utf8(preimage)) {
        Ok(bytes) => Ok(sha256_of(bytes)),
        Err(e) => Err(ContractError::MalformedHash(HashFault::NotHex(e))),
    }
}

/// Whether a preimage opens a hash lock: its digest is the lock.
pub open spec fn preimage_opens(hash_lock: Seq<u8>, preimage: Seq<char>) -> Result<
    bool,
    ContractError,
> {
    match preimage_digest_of(preimage) {
        Ok(digest) => Ok(digest == hash_lock),
        Err(e) => Err(e),
    }
}

/// Reads a hash lock from its hexadecimal form.
pub fn parse_hex_32(data: &str) -> (r: Result<Vec<u8>, ContractError>)
    ensures
        bytes_result(r) == parsed_hash(data@),
{
    match hex_decode(data) {
        Ok(bin) => {
            if bin.len() == HASH_LENGTH {
                Ok(bin)
            } else {
                Err(ContractError::MalformedHash(HashFault::WrongLength))
            }
        },
        Err(e) => Err(ContractError::MalformedHash(HashFault::NotHex(e))),
    }
}

/// Decodes a hexadecimal preimage and digests it.
pub fn preimage_digest(preimage: &str) -> (r: Result<Vec<u8>, ContractError>)
    ensures
        bytes_result(r) == preimage_digest_of(preimage@),
{
    match hex_decode(preimage) {
        Ok(bin) => Ok(digest_sha256(bin.as_slice())),
        Err(e) => Err(ContractError::MalformedHash(HashFault::NotHex(e))),
    }
}

/// Decides whether a hexadecimal preimage opens a hash lock.
pub fn check_preimage(hash_lock: &[u8], preimage: &str) -> (r: Result<bool, ContractError>)
    ensures
        r == preimage_opens(hash_lock@, preimage@),
{
    match preimage_digest(preimage) {
        Ok(digest) => Ok(bytes_equal(digest.as_slice(), hash_lock)),
        Err(e) => Err(e),
    }
}

} // verus!
