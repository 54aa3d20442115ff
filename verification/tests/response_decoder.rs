use cosmwasm_std::Binary;
use osmosis_std::types::osmosis::gamm::v1beta1::MsgJoinSwapExternAmountInResponse;
use osmosis_std::types::osmosis::lockup::MsgLockTokensResponse;
use osmosis_std::types::osmosis::superfluid::MsgLockAndSuperfluidDelegateResponse;
use vault::decoder::{
    decode_delegated_lock, decode_minted_shares, decode_token_lock, parse_minted_shares,
    ExternalResponse,
};
use vault::error::ContractError;

fn minted(amount: &str) -> Option<Vec<u8>> {
    let response = MsgJoinSwapExternAmountInResponse {
        share_out_amount: amount.to_string(),
    };
    Some(Binary::from(response).to_vec())
}

fn delegated_lock(id: u64) -> Option<Vec<u8>> {
    Some(Binary::from(MsgLockAndSuperfluidDelegateResponse { id }).to_vec())
}

fn token_lock(id: u64) -> Option<Vec<u8>> {
    Some(Binary::from(MsgLockTokensResponse { id }).to_vec())
}

#[test]
fn minted_share_text_is_read_exactly() {
    assert_eq!(
        parse_minted_shares("12345"),
        Ok(ExternalResponse::MintedShares { amount: 12345 })
    );
    assert_eq!(
        parse_minted_shares("340282366920938463463374607431768211455"),
        Ok(ExternalResponse::MintedShares { amount: u128::MAX })
    );
    assert_eq!(
        parse_minted_shares("0"),
        Ok(ExternalResponse::MintedShares { amount: 0 })
    );
}

#[test]
fn minted_share_text_that_is_no_amount_fails() {
    assert_eq!(parse_minted_shares(""), Err(ContractError::DecodeFailure));
    assert_eq!(
        parse_minted_shares("12.5"),
        Err(ContractError::DecodeFailure)
    );
    assert_eq!(
        parse_minted_shares("-3"),
        Err(ContractError::DecodeFailure)
    );
    assert_eq!(
        parse_minted_shares("340282366920938463463374607431768211456"),
        Err(ContractError::DecodeFailure)
    );
}

#[test]
fn mint_payload_decodes_to_the_minted_amount() {
    assert_eq!(
        decode_minted_shares(&minted("12345")),
        Ok(ExternalResponse::MintedShares { amount: 12345 })
    );
    assert_eq!(
        decode_minted_shares(&minted("1000")),
        Ok(ExternalResponse::MintedShares { amount: 1000 })
    );
}

#[test]
fn mint_payload_in_raw_protobuf_decodes() {
    // field 1, length-delimited, five bytes of text
    let payload = Some(vec![0x0a, 0x05, b'1', b'2', b'3', b'4', b'5']);
    assert_eq!(
        decode_minted_shares(&payload),
        Ok(ExternalResponse::MintedShares { amount: 12345 })
    );
}

#[test]
fn mint_payload_that_cannot_be_read_fails() {
    assert_eq!(
        decode_minted_shares(&None),
        Err(ContractError::DecodeFailure)
    );
    // a length prefix that runs past the end
    assert_eq!(
        decode_minted_shares(&Some(vec![0x0a, 0x05, b'1'])),
        Err(ContractError::DecodeFailure)
    );
    // text that is not UTF-8
    assert_eq!(
        decode_minted_shares(&Some(vec![0x0a, 0x02, 0xff, 0xfe])),
        Err(ContractError::DecodeFailure)
    );
    assert_eq!(
        decode_minted_shares(&minted("twelve")),
        Err(ContractError::DecodeFailure)
    );
    // an empty message has an empty amount, which is no number
    assert_eq!(
        decode_minted_shares(&Some(Vec::new())),
        Err(ContractError::DecodeFailure)
    );
}

#[test]
fn lock_and_delegate_payload_decodes_to_the_lock() {
    assert_eq!(
        decode_delegated_lock(&delegated_lock(77)),
        Ok(ExternalResponse::CreatedLock { lock_id: 77 })
    );
    assert_eq!(
        decode_delegated_lock(&delegated_lock(u64::MAX)),
        Ok(ExternalResponse::CreatedLock { lock_id: u64::MAX })
    );
    // field 1, varint 77
    assert_eq!(
        decode_delegated_lock(&Some(vec![0x08, 77])),
        Ok(ExternalResponse::CreatedLock { lock_id: 77 })
    );
}

#[test]
fn lock_and_delegate_payload_that_cannot_be_read_fails() {
    assert_eq!(
        decode_delegated_lock(&None),
        Err(ContractError::DecodeFailure)
    );
    // a varint that never ends
    assert_eq!(
        decode_delegated_lock(&Some(vec![0x08, 0x80])),
        Err(ContractError::DecodeFailure)
    );
    // field 1 with the wrong wire type
    assert_eq!(
        decode_delegated_lock(&minted("77")),
        Err(ContractError::DecodeFailure)
    );
}

#[test]
fn token_lock_payload_decodes_to_the_lock() {
    assert_eq!(
        decode_token_lock(&token_lock(12)),
        Ok(ExternalResponse::CreatedLock { lock_id: 12 })
    );
    assert_eq!(
        decode_token_lock(&Some(vec![0x08, 0xac, 0x02])),
        Ok(ExternalResponse::CreatedLock { lock_id: 300 })
    );
}

#[test]
fn token_lock_payload_that_cannot_be_read_fails() {
    assert_eq!(decode_token_lock(&None), Err(ContractError::DecodeFailure));
    assert_eq!(
        decode_token_lock(&Some(vec![0x08])),
        Err(ContractError::DecodeFailure)
    );
}

#[test]
fn a_lock_payload_without_the_field_is_lock_zero() {
    // protobuf leaves out a field that holds its default
    assert_eq!(
        decode_delegated_lock(&Some(Vec::new())),
        Ok(ExternalResponse::CreatedLock { lock_id: 0 })
    );
    assert_eq!(
        decode_token_lock(&Some(Vec::new())),
        Ok(ExternalResponse::CreatedLock { lock_id: 0 })
    );
    assert_eq!(delegated_lock(0), Some(Vec::new()));
}

#[test]
fn unknown_fields_are_passed_over() {
    // field 1 = 77, then field 9 = 5
    assert_eq!(
        decode_token_lock(&Some(vec![0x08, 77, 0x48, 5])),
        Ok(ExternalResponse::CreatedLock { lock_id: 77 })
    );
}
