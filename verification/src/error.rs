//! The ways in which an operation on a swap fails.

use crate::encoding::{describe_hex_error, hex_error_text, HexError};
use vstd::prelude::*;
use vstd::string::StringExecFns;

verus! {

/// Why a text is not the hexadecimal form of a hash.
#[derive(Clone, Copy, Debug, PartialEq, Eq)]
pub enum HashFault {
    /// The text is not hexadecimal.
    NotHex(HexError),
    /// The text is hexadecimal but does not stand for 32 bytes.
    WrongLength,
}

/// Every failure of an operation. None of them changes the stored swaps.
#[derive(Clone, Copy, Debug, PartialEq, Eq)]
pub enum ContractError {
    /// The id is shorter than 3 or longer than 20 bytes.
    InvalidIdLength,
    /// A swap was to be created with no funds attached.
    NoFundsAttached,
    /// A hash or a preimage is not hexadecimal, or a hash is not 32 bytes long.
    MalformedHash(HashFault),
    /// The deadline of the swap to be created has already passed.
    AlreadyExpiredAtCreation,
    /// A live swap already has this id.
    AlreadyExists,
    /// No live swap has this id.
    NotFound,
    /// The swap was to be released at or after its deadline.
    Expired,
    /// The swap was to be refunded before its deadline.
    NotYetExpired,
    /// The digest of the preimage is not the swap's hash lock.
    InvalidPreimage,
    /// An address has no counterpart in the other form.
    AddressResolutionFailed,
}

impl ContractError {
    /// The message that goes with each failure.
    pub open spec fn message_text(self) -> Seq<char> {
        match self {
            ContractError::InvalidIdLength => "Invalid atomic swap id length"@,
            ContractError::NoFundsAttached => "Send some coins to create an atomic swap"@,
            ContractError::MalformedHash(HashFault::NotHex(e)) => "Error parsing hash: "@
                + hex_error_text(e),
            ContractError::MalformedHash(HashFault::WrongLength) => "Hash must be 64 characters"@,
            ContractError::AlreadyExpiredAtCreation => "Expired atomic swap"@,
            ContractError::AlreadyExists => "Atomic swap already exists"@,
            ContractError::NotFound => "Atomic swap not found"@,
            ContractError::Expired => "Atomic swap expired"@,
            ContractError::NotYetExpired => "Atomic swap not yet expired"@,
            ContractError::InvalidPreimage => "Invalid preimage"@,
            ContractError::AddressResolutionFailed => "Address resolution failed"@,
        }
    }

    /// The failure in words.
    pub fn message(&self) -> (text: String)
        ensures
            text@ == self.message_text(),
    {
        match self {
            ContractError::InvalidIdLength => String::from_str("Invalid atomic swap id length"),
            ContractError::NoFundsAttached => String::from_str(
                "Send some coins to create an atomic swap",
            ),
            ContractError::MalformedHash(HashFault::NotHex(e)) => {
                let detail = describe_hex_error(e);
                String::from_str("Error parsing hash: ").concat(detail.as_str())
            },
            ContractError::MalformedHash(HashFault::WrongLength) => String::from_str(
                "Hash must be 64 characters",
            ),
            ContractError::AlreadyExpiredAtCreation => String::from_str("Expired atomic swap"),
            ContractError::AlreadyExists => String::from_str("Atomic swap already exists"),
            ContractError::NotFound => String::from_str("Atomic swap not found"),
            ContractError::Expired => String::from_str("Atomic swap expired"),
            ContractError::NotYetExpired => String::from_str("Atomic swap not yet expired"),
            ContractError::InvalidPreimage => String::from_str("Invalid preimage"),
            ContractError::AddressResolutionFailed => String::from_str("Address resolution failed"),
        }
    }
}

/// A result that holds bytes, with the bytes as a sequence.
pub open spec fn bytes_result(r: Result<Vec<u8>, ContractError>) -> Result<
    Seq<u8>,
    ContractError,
> {
    match r {
        Ok(bytes) => Ok(bytes@),
        Err(e) => Err(e),
    }
}

/// A text result, with the text as a sequence of characters.
pub open spec fn text_result(r: Result<String, ContractError>) -> Result<Seq<char>, ContractError> {
    match r {
        Ok(text) => Ok(text@),
        Err(e) => Err(e),
    }
}

} // verus!
