//! Reading what the environment answers.
//!
//! A completed operation answers with an opaque payload. The decoder turns it
//! into one of a small set of typed records, or says that it cannot.

use vstd::prelude::*;
use vstd::string::*;
use crate::codec::{
    delegated_lock_id_in,
    read_delegated_lock_id,
    read_share_out_amount,
    read_token_lock_id,
    share_out_amount_in,
    token_lock_id_in,
};
use crate::decimal::{parse_u128, parse_u128_spec};
use crate::error::ContractError;

verus! {

/// The result of a completed operation, decoded.
#[derive(Clone, Copy, Debug, PartialEq, Eq, Structural)]
pub enum ExternalResponse {
    /// So many shares were minted.
    MintedShares { amount: u128 },
    /// A lock with this identifier was created.
    CreatedLock { lock_id: u64 },
}

/// The bytes of a payload, if there is one.
pub open spec fn bytes_of(payload: Option<Vec<u8>>) -> Option<Seq<u8>> {
    match payload {
        Some(bytes) => Some(bytes@),
        None => None,
    }
}

/// The share amount that a text denotes: a decimal number that fits in 128
/// bits, with nothing rounded or cut off.
pub open spec fn minted_shares_from_text(
    text: Seq<char>,
) -> Result<ExternalResponse, ContractError> {
    match parse_u128_spec(text) {
        Some(amount) => Ok(ExternalResponse::MintedShares { amount }),
        None => Err(ContractError::DecodeFailure),
    }
}

/// What the payload of a completed mint decodes to. A missing payload, bytes
/// that are no mint response, and an amount that is no number all fail.
pub open spec fn minted_shares_response(payload: Option<Seq<u8>>) -> Result<
    ExternalResponse,
    ContractError,
> {
    match payload {
        None => Err(ContractError::DecodeFailure),
        Some(bytes) => match share_out_amount_in(bytes) {
            None => Err(ContractError::DecodeFailure),
            Some(text) => minted_shares_from_text(text),
        },
    }
}

/// What a decoded lock identifier, or the lack of one, amounts to.
pub open spec fn created_lock_from(id: Option<u64>) -> Result<ExternalResponse, ContractError> {
    match id {
        Some(lock_id) => Ok(ExternalResponse::CreatedLock { lock_id }),
        None => Err(ContractError::DecodeFailure),
    }
}

/// What the payload of a completed lock-and-delegate decodes to.
pub open spec fn delegated_lock_response(payload: Option<Seq<u8>>) -> Result<
    ExternalResponse,
    ContractError,
> {
    match payload {
        None => Err(ContractError::DecodeFailure),
        Some(bytes) => created_lock_from(delegated_lock_id_in(bytes)),
    }
}

/// What the payload of a completed token lock decodes to.
pub open spec fn token_lock_response(payload: Option<Seq<u8>>) -> Result<
    ExternalResponse,
    ContractError,
> {
    match payload {
        None => Err(ContractError::DecodeFailure),
        Some(bytes) => created_lock_from(token_lock_id_in(bytes)),
    }
}

/// Reads the share amount out of the text in which a mint response carries
/// it.
pub fn parse_minted_shares(text: &str) -> (response: Result<ExternalResponse, ContractError>)
    ensures
        response == minted_shares_from_text(text@),
{
    match parse_u128(text) {
        Some(amount) => Ok(ExternalResponse::MintedShares { amount }),
        None => Err(ContractError::DecodeFailure),
    }
}

/// Decodes the payload of a completed mint.
pub fn decode_minted_shares(payload: &Option<Vec<u8>>) -> (response: Result<
    ExternalResponse,
    ContractError,
>)
    ensures
        response == minted_shares_response(bytes_of(*payload)),
{
    match payload {
        None => Err(ContractError::DecodeFailure),
        Some(bytes) => match read_share_out_amount(bytes) {
            Ok(text) => parse_minted_shares(text.as_str()),
            Err(_) => Err(ContractError::DecodeFailure),
        },
    }
}

/// Decodes the payload of a completed lock-and-delegate.
pub fn decode_delegated_lock(payload: &Option<Vec<u8>>) -> (response: Result<
    ExternalResponse,
    ContractError,
>)
    ensures
        response == delegated_lock_response(bytes_of(*payload)),
{
    match payload {
        None => Err(ContractError::DecodeFailure),
        Some(bytes) => match read_delegated_lock_id(bytes) {
            Ok(lock_id) => Ok(ExternalResponse::CreatedLock { lock_id }),
            Err(_) => Err(ContractError::DecodeFailure),
        },
    }
}

/// Decodes the payload of a completed token lock.
pub fn decode_token_lock(payload: &Option<Vec<u8>>) -> (response: Result<
    ExternalResponse,
    ContractError,
>)
    ensures
        response == token_lock_response(bytes_of(*payload)),
{
    match payload {
        None => Err(ContractError::DecodeFailure),
        Some(bytes) => match read_token_lock_id(bytes) {
            Ok(lock_id) => Ok(ExternalResponse::CreatedLock { lock_id }),
            Err(_) => Err(ContractError::DecodeFailure),
        },
    }
}

} // verus!
