//! The wire forms of the operations and of the environment's responses.
//!
//! The environment speaks protobuf, in the message types of `osmosis_std`.
//! Encoding and decoding are that crate's work. Each function of it that the
//! vault relies on is called here, once, and what it returns is given a name
//! that the contracts of the rest of the library speak of. What the names are
//! on given bytes or fields is not stated: it is whatever `osmosis_std` does.

use vstd::prelude::*;
use vstd::string::*;
use cosmwasm_std::{Binary, Coin, StdError, Uint128};
use osmosis_std::shim::Duration;
use osmosis_std::types::cosmos::base::v1beta1::Coin as ProtoCoin;
use osmosis_std::types::osmosis::gamm::v1beta1::{
    MsgJoinSwapExternAmountIn,
    MsgJoinSwapExternAmountInResponse,
};
use osmosis_std::types::osmosis::lockup::{MsgBeginUnlocking, MsgLockTokens, MsgLockTokensResponse};
use osmosis_std::types::osmosis::superfluid::{
    MsgLockAndSuperfluidDelegate,
    MsgLockAndSuperfluidDelegateResponse,
    MsgSuperfluidDelegate,
    MsgSuperfluidUnbondLock,
};
use crate::operation::{views_of, Dispatch, DispatchView, Operation, OperationView};

verus! {

/// `cosmwasm_std::StdError`, the error of the decoders. Nothing is known of
/// a value of it.
#[verifier::external_type_specification]
#[verifier::external_body]
pub struct ExStdError(StdError);

/// The bytes of a `MsgJoinSwapExternAmountIn` with the given sender, pool,
/// least share amount and single token.
pub uninterp spec fn mint_shares_bytes(
    sender: Seq<char>,
    pool_id: u64,
    min_shares: u64,
    denom: Seq<char>,
    amount: u128,
) -> Seq<u8>;

/// The bytes of a `MsgLockAndSuperfluidDelegate` with the given sender,
/// single coin and validator.
pub uninterp spec fn lock_and_delegate_bytes(
    sender: Seq<char>,
    denom: Seq<char>,
    amount: u128,
    validator: Seq<char>,
) -> Seq<u8>;

/// The bytes of a `MsgLockTokens` with the given owner, duration and single
/// coin.
pub uninterp spec fn lock_tokens_bytes(
    owner: Seq<char>,
    seconds: i64,
    nanos: i32,
    denom: Seq<char>,
    amount: u128,
) -> Seq<u8>;

/// The bytes of a `MsgSuperfluidUnbondLock` with the given sender and lock.
pub uninterp spec fn unbond_lock_bytes(sender: Seq<char>, lock_id: u64) -> Seq<u8>;

/// The bytes of a `MsgBeginUnlocking` with the given owner, lock and single
/// coin.
pub uninterp spec fn begin_unlocking_bytes(
    owner: Seq<char>,
    lock_id: u64,
    denom: Seq<char>,
    amount: u128,
) -> Seq<u8>;

/// The bytes of a `MsgSuperfluidDelegate` with the given sender, lock and
/// validator.
pub uninterp spec fn delegate_bytes(
    sender: Seq<char>,
    lock_id: u64,
    validator: Seq<char>,
) -> Seq<u8>;

/// The `share_out_amount` of the `MsgJoinSwapExternAmountInResponse` that the
/// bytes decode to; `None` where they do not decode to one.
pub uninterp spec fn share_out_amount_in(payload: Seq<u8>) -> Option<Seq<char>>;

/// The `id` of the `MsgLockAndSuperfluidDelegateResponse` that the bytes
/// decode to; `None` where they do not decode to one.
pub uninterp spec fn delegated_lock_id_in(payload: Seq<u8>) -> Option<u64>;

/// The `id` of the `MsgLockTokensResponse` that the bytes decode to; `None`
/// where they do not decode to one.
pub uninterp spec fn token_lock_id_in(payload: Seq<u8>) -> Option<u64>;

/// An operation as the environment takes it: the name of its message type
/// and the encoded message.
#[derive(Clone, Debug, PartialEq, Eq)]
pub struct WireMessage {
    pub type_url: String,
    pub value: Vec<u8>,
}

/// The value of a [`WireMessage`]: its string and bytes as sequences.
pub struct WireMessageView {
    pub type_url: Seq<char>,
    pub value: Seq<u8>,
}

impl View for WireMessage {
    type V = WireMessageView;

    open spec fn view(&self) -> WireMessageView {
        WireMessageView { type_url: self.type_url@, value: self.value@ }
    }
}

/// Takes the two parts that `CosmosMsg::from` puts together for a
/// `MsgJoinSwapExternAmountIn`: the message's `TYPE_URL`, and the bytes that
/// `Binary::from` encodes the message to. The amount goes into the coin of
/// the message by `Uint128`'s conversion, the least share amount by `u64`'s
/// `to_string`.
/// Claimed: the type URL is the one written out below, and the bytes depend
/// on the five values alone.
#[verifier::external_body]
pub(crate) fn write_mint_shares(
    sender: &str,
    pool_id: u64,
    min_shares: u64,
    denom: &str,
    amount: u128,
) -> (wire: WireMessage)
    ensures
        wire@.type_url == "/osmosis.gamm.v1beta1.MsgJoinSwapExternAmountIn"@,
        wire@.value == mint_shares_bytes(sender@, pool_id, min_shares, denom@, amount),
{
    let token_in = Coin { denom: denom.to_string(), amount: Uint128::from(amount) };
    let message = MsgJoinSwapExternAmountIn {
        sender: sender.to_string(),
        pool_id,
        share_out_min_amount: min_shares.to_string(),
        token_in: Some(ProtoCoin::from(token_in)),
    };
    WireMessage {
        type_url: MsgJoinSwapExternAmountIn::TYPE_URL.to_string(),
        value: Binary::from(message).into(),
    }
}

/// Takes the `TYPE_URL` of `MsgLockAndSuperfluidDelegate` and the bytes that
/// `Binary::from` encodes such a message with one coin to.
/// Claimed: the type URL is the one written out below, and the bytes depend
/// on the four values alone.
#[verifier::external_body]
pub(crate) fn write_lock_and_delegate(
    sender: &str,
    denom: &str,
    amount: u128,
    validator: &str,
) -> (wire: WireMessage)
    ensures
        wire@.type_url == "/osmosis.superfluid.MsgLockAndSuperfluidDelegate"@,
        wire@.value == lock_and_delegate_bytes(sender@, denom@, amount, validator@),
{
    let shares = Coin { denom: denom.to_string(), amount: Uint128::from(amount) };
    let message = MsgLockAndSuperfluidDelegate {
        sender: sender.to_string(),
        coins: vec![ProtoCoin::from(shares)],
        val_addr: validator.to_string(),
    };
    WireMessage {
        type_url: MsgLockAndSuperfluidDelegate::TYPE_URL.to_string(),
        value: Binary::from(message).into(),
    }
}

/// Takes the `TYPE_URL` of `MsgLockTokens` and the bytes that `Binary::from`
/// encodes such a message with one coin to.
/// Claimed: the type URL is the one written out below, and the bytes depend
/// on the five values alone.
#[verifier::external_body]
pub(crate) fn write_lock_tokens(
    owner: &str,
    seconds: i64,
    nanos: i32,
    denom: &str,
    amount: u128,
) -> (wire: WireMessage)
    ensures
        wire@.type_url == "/osmosis.lockup.MsgLockTokens"@,
        wire@.value == lock_tokens_bytes(owner@, seconds, nanos, denom@, amount),
{
    let shares = Coin { denom: denom.to_string(), amount: Uint128::from(amount) };
    let message = MsgLockTokens {
        owner: owner.to_string(),
        duration: Some(Duration { seconds, nanos }),
        coins: vec![ProtoCoin::from(shares)],
    };
    WireMessage {
        type_url: MsgLockTokens::TYPE_URL.to_string(),
        value: Binary::from(message).into(),
    }
}

/// Takes the `TYPE_URL` of `MsgSuperfluidUnbondLock` and the bytes that
/// `Binary::from` encodes such a message to.
/// Claimed: the type URL is the one written out below, and the bytes depend
/// on the two values alone.
#[verifier::external_body]
pub(crate) fn write_unbond_lock(sender: &str, lock_id: u64) -> (wire: WireMessage)
    ensures
        wire@.type_url == "/osmosis.superfluid.MsgSuperfluidUnbondLock"@,
        wire@.value == unbond_lock_bytes(sender@, lock_id),
{
    let message = MsgSuperfluidUnbondLock { sender: sender.to_string(), lock_id };
    WireMessage {
        type_url: MsgSuperfluidUnbondLock::TYPE_URL.to_string(),
        value: Binary::from(message).into(),
    }
}

/// Takes the `TYPE_URL` of `MsgBeginUnlocking` and the bytes that
/// `Binary::from` encodes such a message with one coin to.
/// Claimed: the type URL is the one written out below, and the bytes depend
/// on the four values alone.
#[verifier::external_body]
pub(crate) fn write_begin_unlocking(
    owner: &str,
    lock_id: u64,
    denom: &str,
    amount: u128,
) -> (wire: WireMessage)
    ensures
        wire@.type_url == "/osmosis.lockup.MsgBeginUnlocking"@,
        wire@.value == begin_unlocking_bytes(owner@, lock_id, denom@, amount),
{
    let shares = Coin { denom: denom.to_string(), amount: Uint128::from(amount) };
    let message = MsgBeginUnlocking {
        owner: owner.to_string(),
        id: lock_id,
        coins: vec![ProtoCoin::from(shares)],
    };
    WireMessage {
        type_url: MsgBeginUnlocking::TYPE_URL.to_string(),
        value: Binary::from(message).into(),
    }
}

/// Takes the `TYPE_URL` of `MsgSuperfluidDelegate` and the bytes that
/// `Binary::from` encodes such a message to.
/// Claimed: the type URL is the one written out below, and the bytes depend
/// on the three values alone.
#[verifier::external_body]
pub(crate) fn write_delegate(sender: &str, lock_id: u64, validator: &str) -> (wire: WireMessage)
    ensures
        wire@.type_url == "/osmosis.superfluid.MsgSuperfluidDelegate"@,
        wire@.value == delegate_bytes(sender@, lock_id, validator@),
{
    let message = MsgSuperfluidDelegate {
        sender: sender.to_string(),
        lock_id,
        val_addr: validator.to_string(),
    };
    WireMessage {
        type_url: MsgSuperfluidDelegate::TYPE_URL.to_string(),
        value: Binary::from(message).into(),
    }
}

/// Calls `MsgJoinSwapExternAmountInResponse::try_from` on the bytes, which
/// decodes them as protobuf, and hands out the `share_out_amount` of what
/// came out. Claimed: whether the bytes decode, and to what, depends on the
/// bytes alone.
#[verifier::external_body]
pub(crate) fn read_share_out_amount(payload: &Vec<u8>) -> (decoded: Result<String, StdError>)
    ensures
        match decoded {
            Ok(text) => share_out_amount_in(payload@) == Some(text@),
            Err(_) => share_out_amount_in(payload@) is None,
        },
{
    MsgJoinSwapExternAmountInResponse::try_from(Binary::from(payload.as_slice())).map(
        |response| response.share_out_amount,
    )
}

/// Calls `MsgLockAndSuperfluidDelegateResponse::try_from` on the bytes and
/// hands out the `id` of what came out. Claimed: whether the bytes decode,
/// and to what, depends on the bytes alone.
#[verifier::external_body]
pub(crate) fn read_delegated_lock_id(payload: &Vec<u8>) -> (decoded: Result<u64, StdError>)
    ensures
        match decoded {
            Ok(id) => delegated_lock_id_in(payload@) == Some(id),
            Err(_) => delegated_lock_id_in(payload@) is None,
        },
{
    MsgLockAndSuperfluidDelegateResponse::try_from(Binary::from(payload.as_slice())).map(
        |response| response.id,
    )
}

/// Calls `MsgLockTokensResponse::try_from` on the bytes and hands out the
/// `id` of what came out. Claimed: whether the bytes decode, and to what,
/// depends on the bytes alone.
#[verifier::external_body]
pub(crate) fn read_token_lock_id(payload: &Vec<u8>) -> (decoded: Result<u64, StdError>)
    ensures
        match decoded {
            Ok(id) => token_lock_id_in(payload@) == Some(id),
            Err(_) => token_lock_id_in(payload@) is None,
        },
{
    MsgLockTokensResponse::try_from(Binary::from(payload.as_slice())).map(|response| response.id)
}

/// The name of the message type of each kind of operation.
pub open spec fn type_url_of(operation: OperationView) -> Seq<char> {
    match operation {
        OperationView::MintShares { .. } => "/osmosis.gamm.v1beta1.MsgJoinSwapExternAmountIn"@,
        OperationView::LockAndDelegate { .. } => {
            "/osmosis.superfluid.MsgLockAndSuperfluidDelegate"@
        },
        OperationView::LockTokens { .. } => "/osmosis.lockup.MsgLockTokens"@,
        OperationView::UnbondLock { .. } => "/osmosis.superfluid.MsgSuperfluidUnbondLock"@,
        OperationView::BeginUnlocking { .. } => "/osmosis.lockup.MsgBeginUnlocking"@,
        OperationView::Delegate { .. } => "/osmosis.superfluid.MsgSuperfluidDelegate"@,
    }
}

/// The encoded message of each kind of operation. A lock's duration is whole
/// seconds; an operation that carries shares carries one coin.
pub open spec fn message_bytes_of(operation: OperationView) -> Seq<u8> {
    match operation {
        OperationView::MintShares { sender, pool_id, min_shares, token_in } => mint_shares_bytes(
            sender,
            pool_id,
            min_shares,
            token_in.denom,
            token_in.amount,
        ),
        OperationView::LockAndDelegate { sender, shares, validator } => lock_and_delegate_bytes(
            sender,
            shares.denom,
            shares.amount,
            validator,
        ),
        OperationView::LockTokens { owner, duration_seconds, shares } => lock_tokens_bytes(
            owner,
            duration_seconds,
            0,
            shares.denom,
            shares.amount,
        ),
        OperationView::UnbondLock { sender, lock_id } => unbond_lock_bytes(sender, lock_id),
        OperationView::BeginUnlocking { owner, lock_id, shares } => begin_unlocking_bytes(
            owner,
            lock_id,
            shares.denom,
            shares.amount,
        ),
        OperationView::Delegate { sender, lock_id, validator } => delegate_bytes(
            sender,
            lock_id,
            validator,
        ),
    }
}

/// The form in which the environment takes an operation.
pub open spec fn wire_form(operation: OperationView) -> WireMessageView {
    WireMessageView { type_url: type_url_of(operation), value: message_bytes_of(operation) }
}

/// Puts an operation in the form in which the environment takes it.
pub fn encode(operation: &Operation) -> (wire: WireMessage)
    ensures
        wire@ == wire_form(operation@),
{
    match operation {
        Operation::MintShares { sender, pool_id, min_shares, token_in } => write_mint_shares(
            sender.as_str(),
            *pool_id,
            *min_shares,
            token_in.denom.as_str(),
            token_in.amount,
        ),
        Operation::LockAndDelegate { sender, shares, validator } => write_lock_and_delegate(
            sender.as_str(),
            shares.denom.as_str(),
            shares.amount,
            validator.as_str(),
        ),
        Operation::LockTokens { owner, duration_seconds, shares } => write_lock_tokens(
            owner.as_str(),
            *duration_seconds,
            0,
            shares.denom.as_str(),
            shares.amount,
        ),
        Operation::UnbondLock { sender, lock_id } => write_unbond_lock(sender.as_str(), *lock_id),
        Operation::BeginUnlocking { owner, lock_id, shares } => write_begin_unlocking(
            owner.as_str(),
            *lock_id,
            shares.denom.as_str(),
            shares.amount,
        ),
        Operation::Delegate { sender, lock_id, validator } => write_delegate(
            sender.as_str(),
            *lock_id,
            validator.as_str(),
        ),
    }
}

/// A dispatch as the environment takes it: the message, and the integer
/// under which its success is to be reported back, if it is.
#[derive(Clone, Debug, PartialEq, Eq)]
pub struct WireDispatch {
    pub message: WireMessage,
    pub reply_id: Option<u64>,
}

/// The value of a [`WireDispatch`].
pub struct WireDispatchView {
    pub message: WireMessageView,
    pub reply_id: Option<u64>,
}

impl View for WireDispatch {
    type V = WireDispatchView;

    open spec fn view(&self) -> WireDispatchView {
        WireDispatchView { message: self.message@, reply_id: self.reply_id }
    }
}

/// The form in which the environment takes a dispatch: the wire form of its
/// operation, and the integer of its tag.
pub open spec fn wire_dispatch() -> spec_fn(DispatchView) -> WireDispatchView {
    |dispatch: DispatchView|
        WireDispatchView {
            message: wire_form(dispatch.operation),
            reply_id: match dispatch.tag {
                Some(tag) => Some(tag.spec_id()),
                None => None,
            },
        }
}

/// Puts a dispatch in the form in which the environment takes it.
pub fn encode_dispatch(dispatch: &Dispatch) -> (wire: WireDispatch)
    ensures
        wire@ == wire_dispatch()(dispatch@),
{
    let reply_id = match dispatch.tag {
        Some(tag) => Some(tag.id()),
        None => None,
    };
    WireDispatch { message: encode(&dispatch.operation), reply_id }
}

/// Puts the dispatches of an activation, in their order, in the form in
/// which the environment takes them.
pub fn encode_dispatches(dispatches: &Vec<Dispatch>) -> (wires: Vec<WireDispatch>)
    ensures
        views_of(wires@) == views_of(dispatches@).map_values(wire_dispatch()),
{
    let mut wires: Vec<WireDispatch> = Vec::new();
    let mut i: usize = 0;
    while i < dispatches.len()
        invariant
            i <= dispatches.len(),
            wires@.len() == i,
            forall|j: int|
                0 <= j < i ==> (#[trigger] wires@[j])@ == wire_dispatch()(dispatches@[j]@),
        decreases dispatches.len() - i,
    {
        wires.push(encode_dispatch(&dispatches[i]));
        i = i + 1;
    }
    assert(views_of(wires@) =~= views_of(dispatches@).map_values(wire_dispatch()));
    wires
}

} // verus!
