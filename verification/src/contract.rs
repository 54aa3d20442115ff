//! The pipelines: what each activation does with the stored state and the
//! event that woke it.
//!
//! An activation never waits. It reads the store, decides, writes the store,
//! and hands back the operations to dispatch; whatever it needs later has to
//! be in the store or come back in a completion's payload.
//!
//! Each entry point comes with a specification function of the same
//! activation on views: `*_outcome` where the store is only read, `*_step`
//! where it may be written. The entry point's contract says that it does
//! exactly that.

use vstd::prelude::*;
use vstd::string::*;
use crate::correlation::{
    Completion,
    CompletionOutcome,
    CompletionOutcomeView,
    CompletionView,
    CorrelationTag,
};
use crate::decimal::{decimal, to_decimal};
use crate::decoder::{
    bytes_of,
    decode_delegated_lock,
    decode_minted_shares,
    decode_token_lock,
    delegated_lock_response,
    minted_shares_response,
    token_lock_response,
    ExternalResponse,
};
use crate::error::ContractError;
use crate::msg::{ExecuteMsg, InstantiateMsg, QueryMsg};
use crate::operation::{
    lemma_views_of_push,
    views_of,
    Attribute,
    AttributeView,
    Dispatch,
    DispatchView,
    Operation,
    OperationView,
    Outcome,
    OutcomeView,
    Transfer,
    TransferView,
};
use crate::state::{Parameters, ParametersView, PipelineState, Store, StoreView};

verus! {

/// The least share amount that a deposit's mint accepts.
pub const DEPOSIT_MIN_SHARES: u64 = 1;

/// How long compounded shares are locked, in seconds: fourteen days, whatever
/// the lock duration in the parameters.
pub const COMPOUND_LOCK_SECONDS: i64 = 1209600;

/// The denomination in which rewards arrive.
pub open spec fn reward_denom_text() -> Seq<char> {
    "uosmo"@
}

/// Writes the denomination in which rewards arrive.
pub fn reward_denom() -> (denom: String)
    ensures
        denom@ == reward_denom_text(),
{
    "uosmo".to_owned()
}

/// The validator that locks are delegated to.
pub open spec fn validator_text() -> Seq<char> {
    "osmovaloper1c584m4lq25h83yp6ag8hh4htjr92d954kphp96"@
}

/// Writes the address of the validator that locks are delegated to.
pub fn validator() -> (address: String)
    ensures
        address@ == validator_text(),
{
    "osmovaloper1c584m4lq25h83yp6ag8hh4htjr92d954kphp96".to_owned()
}

/// What an activation comes to: an outcome, or the reason why it was aborted.
pub type Activation = Result<Outcome, ContractError>;

/// An activation's result with the values of its strings in place of the
/// strings.
pub type ActivationView = Result<OutcomeView, ContractError>;

/// What an activation's result shows.
pub open spec fn shown(result: Activation) -> ActivationView {
    match result {
        Ok(outcome) => Ok(outcome@),
        Err(error) => Err(error),
    }
}

/// An operation whose success is reported back under a tag.
pub open spec fn tagged(operation: OperationView, tag: CorrelationTag) -> DispatchView {
    DispatchView { operation, tag: Some(tag) }
}

/// An operation whose outcome is never seen.
pub open spec fn untagged(operation: OperationView) -> DispatchView {
    DispatchView { operation, tag: None }
}

/// The attribute with this key and this value.
pub open spec fn attribute(key: Seq<char>, value: Seq<char>) -> AttributeView {
    AttributeView { key, value }
}

/// Where an activation leaves things: what it hands back, and the store as
/// it is afterwards.
pub struct Step {
    pub result: ActivationView,
    pub store: StoreView,
}

/// An activation that fails, and leaves the store as it found it.
pub open spec fn aborted(store: StoreView, error: ContractError) -> Step {
    Step { result: Err(error), store }
}

/// An activation that only reads the store.
pub open spec fn reading(store: StoreView, result: ActivationView) -> Step {
    Step { result, store }
}

/// Makes an attribute.
fn new_attribute(key: &str, value: String) -> (made: Attribute)
    ensures
        made@ == attribute(key@, value@),
{
    Attribute { key: key.to_owned(), value }
}

/// Puts dispatches and attributes together.
fn new_outcome(dispatches: Vec<Dispatch>, attributes: Vec<Attribute>) -> (outcome: Outcome)
    ensures
        outcome@.dispatches == views_of(dispatches@),
        outcome@.attributes == views_of(attributes@),
{
    Outcome { dispatches, attributes }
}

/// No attribute at all.
fn no_attributes() -> (attributes: Vec<Attribute>)
    ensures
        views_of(attributes@) == Seq::<AttributeView>::empty(),
{
    let attributes: Vec<Attribute> = Vec::new();
    assert(views_of(attributes@) =~= Seq::<AttributeView>::empty());
    attributes
}

/// A single attribute.
fn one_attribute(key: &str, value: String) -> (attributes: Vec<Attribute>)
    ensures
        views_of(attributes@) == seq![attribute(key@, value@)],
{
    let mut attributes: Vec<Attribute> = Vec::new();
    attributes.push(new_attribute(key, value));
    assert(views_of(attributes@) =~= seq![attribute(key@, value@)]);
    attributes
}

/// A single dispatch.
fn one_dispatch(operation: Operation, tag: Option<CorrelationTag>) -> (dispatches: Vec<Dispatch>)
    ensures
        views_of(dispatches@) == seq![DispatchView { operation: operation@, tag }],
{
    let mut dispatches: Vec<Dispatch> = Vec::new();
    dispatches.push(Dispatch { operation, tag });
    assert(views_of(dispatches@) =~= seq![DispatchView { operation: operation@, tag }]);
    dispatches
}

/// What initialization does: the parameters for the pool and a pipeline
/// state of zeros are written, and the two numbers it was given are shown.
pub open spec fn instantiate_step(store: StoreView, msg: InstantiateMsg) -> Step {
    Step {
        result: Ok(
            OutcomeView {
                dispatches: seq![],
                attributes: seq![
                    attribute("method"@, "instantiate"@),
                    attribute("pool_id"@, decimal(msg.pool_id as nat)),
                    attribute("lock_duration"@, decimal(msg.lock_duration as nat)),
                ],
            },
        ),
        store: StoreView {
            parameters: Some(ParametersView::for_pool(msg.pool_id, msg.lock_duration)),
            pipeline: Some(PipelineState { lock_id: 0, pending_unlock_amount: 0 }),
        },
    }
}

/// Sets the vault up. This happens once: a store that holds parameters
/// already is not accepted.
pub fn instantiate(store: &mut Store, msg: InstantiateMsg) -> (result: Activation)
    requires
        old(store)@.parameters is None,
    ensures
        shown(result) == instantiate_step(old(store)@, msg).result,
        final(store)@ == instantiate_step(old(store)@, msg).store,
        final(store)@.parameters matches Some(parameters) && parameters.well_formed(),
{
    store.save_parameters(Parameters::new(msg.pool_id, msg.lock_duration));
    store.save_pipeline_state(PipelineState { lock_id: 0, pending_unlock_amount: 0 });
    let dispatches: Vec<Dispatch> = Vec::new();
    let mut attributes: Vec<Attribute> = Vec::new();
    attributes.push(new_attribute("method", "instantiate".to_owned()));
    attributes.push(new_attribute("pool_id", to_decimal(msg.pool_id as u128)));
    attributes.push(new_attribute("lock_duration", to_decimal(msg.lock_duration as u128)));
    assert(views_of(dispatches@) =~= Seq::<DispatchView>::empty());
    assert(views_of(attributes@) =~= instantiate_step(old(store)@, msg).result->Ok_0.attributes);
    Ok(new_outcome(dispatches, attributes))
}

/// Whether a command looks at the reward balance. Only a compound does: for
/// the others the caller need not read it.
pub fn needs_reward_balance(msg: ExecuteMsg) -> (needed: bool)
    ensures
        needed == (msg is Compound),
{
    match msg {
        ExecuteMsg::Compound { .. } => true,
        _ => false,
    }
}

/// What a command leads to: the pipeline that it names is started.
pub open spec fn execute_step(
    store: StoreView,
    address: Seq<char>,
    funds: Seq<TransferView>,
    balance: u128,
    msg: ExecuteMsg,
) -> Step {
    match msg {
        ExecuteMsg::Deposit {  } => reading(store, deposit_outcome(store, address, funds)),
        ExecuteMsg::Compound { min_shares } => reading(
            store,
            compound_outcome(store, address, min_shares, balance),
        ),
        ExecuteMsg::Unbond { amount } => unbond_step(store, address, amount),
    }
}

/// Starts the pipeline that a command names. `funds` are the transfers
/// attached to the command, `balance` the vault's reward balance as the
/// caller has just read it; only a deposit looks at the first, only a
/// compound at the second.
pub fn execute(
    store: &mut Store,
    address: &str,
    funds: &Vec<Transfer>,
    balance: u128,
    msg: ExecuteMsg,
) -> (result: Activation)
    ensures
        shown(result) == execute_step(old(store)@, address@, views_of(funds@), balance, msg).result,
        final(store)@ == execute_step(old(store)@, address@, views_of(funds@), balance, msg).store,
{
    match msg {
        ExecuteMsg::Deposit {  } => try_deposit(store, funds, address),
        ExecuteMsg::Compound { min_shares } => try_compound(store, address, min_shares, balance),
        ExecuteMsg::Unbond { amount } => try_unbond(store, address, amount),
    }
}

/// Whether a transfer has to be turned into shares first: it has, unless it
/// is in shares of the pool already.
pub open spec fn needs_minting(parameters: ParametersView) -> spec_fn(TransferView) -> bool {
    |transfer: TransferView| transfer.denom != parameters.share_denom
}

/// The mint that a deposit dispatches for a transfer.
pub open spec fn deposit_mint(parameters: ParametersView, address: Seq<char>) -> spec_fn(
    TransferView,
) -> DispatchView {
    |transfer: TransferView|
        tagged(
            OperationView::MintShares {
                sender: address,
                pool_id: parameters.pool_id,
                min_shares: DEPOSIT_MIN_SHARES,
                token_in: transfer,
            },
            CorrelationTag::MintShares,
        )
}

/// What a deposit dispatches: one mint for each transfer that is not in
/// shares, in the order of the transfers, and nothing for the others.
pub open spec fn deposit_dispatches(
    parameters: ParametersView,
    address: Seq<char>,
    funds: Seq<TransferView>,
) -> Seq<DispatchView> {
    funds.filter(needs_minting(parameters)).map_values(deposit_mint(parameters, address))
}

/// What a deposit hands back. With no transfer to mint for it dispatches
/// nothing and still succeeds.
pub open spec fn deposit_outcome(
    store: StoreView,
    address: Seq<char>,
    funds: Seq<TransferView>,
) -> ActivationView {
    match store.parameters {
        None => Err(ContractError::NotInitialized),
        Some(parameters) => Ok(
            OutcomeView {
                dispatches: deposit_dispatches(parameters, address, funds),
                attributes: seq![attribute("method"@, "try_join"@)],
            },
        ),
    }
}

/// One more transfer adds its mint at the end of what a deposit dispatches,
/// or nothing if it is in shares.
pub proof fn lemma_deposit_dispatches_push(
    parameters: ParametersView,
    address: Seq<char>,
    funds: Seq<TransferView>,
    transfer: TransferView,
)
    ensures
        deposit_dispatches(parameters, address, funds.push(transfer)) == if transfer.denom
            == parameters.share_denom {
            deposit_dispatches(parameters, address, funds)
        } else {
            deposit_dispatches(parameters, address, funds).push(
                deposit_mint(parameters, address)(transfer),
            )
        },
{
    reveal(Seq::filter);
    assert(funds.push(transfer).drop_last() == funds);
    let kept = funds.filter(needs_minting(parameters));
    if transfer.denom != parameters.share_denom {
        let mint = deposit_mint(parameters, address);
        assert(kept.push(transfer).map_values(mint) =~= kept.map_values(mint).push(mint(transfer)));
    }
}

/// Routes the attached transfers: each one that is not in shares of the pool
/// is sent to be minted into shares; one that is already in shares needs no
/// step.
pub fn try_deposit(store: &Store, funds: &Vec<Transfer>, address: &str) -> (result: Activation)
    ensures
        shown(result) == deposit_outcome(store@, address@, views_of(funds@)),
{
    let parameters = store.load_parameters()?;
    let mut dispatches: Vec<Dispatch> = Vec::new();
    let mut i: usize = 0;
    assert(views_of(funds@).subrange(0, 0) =~= Seq::<TransferView>::empty());
    assert(views_of(dispatches@) =~= deposit_dispatches(
        parameters@,
        address@,
        Seq::<TransferView>::empty(),
    )) by {
        reveal(Seq::filter);
    }
    while i < funds.len()
        invariant
            i <= funds.len(),
            views_of(dispatches@) == deposit_dispatches(
                parameters@,
                address@,
                views_of(funds@).subrange(0, i as int),
            ),
        decreases funds.len() - i,
    {
        let transfer = &funds[i];
        proof {
            let seen = views_of(funds@).subrange(0, i as int);
            assert(views_of(funds@).subrange(0, i + 1) =~= seen.push(transfer@));
            lemma_deposit_dispatches_push(parameters@, address@, seen, transfer@);
        }
        if !(transfer.denom == parameters.share_denom) {
            let mint = Dispatch {
                operation: Operation::MintShares {
                    sender: address.to_owned(),
                    pool_id: parameters.pool_id,
                    min_shares: DEPOSIT_MIN_SHARES,
                    token_in: Transfer { denom: transfer.denom.clone(), amount: transfer.amount },
                },
                tag: Some(CorrelationTag::MintShares),
            };
            proof {
                lemma_views_of_push(dispatches@, mint);
            }
            dispatches.push(mint);
        }
        i = i + 1;
    }
    assert(views_of(funds@).subrange(0, funds.len() as int) =~= views_of(funds@));
    Ok(new_outcome(dispatches, one_attribute("method", "try_join".to_owned())))
}

/// What a compound hands back. An empty reward balance is refused before
/// anything else is looked at; otherwise the whole balance is sent to be
/// minted into shares, for no fewer than the caller asked for.
pub open spec fn compound_outcome(
    store: StoreView,
    address: Seq<char>,
    min_shares: u64,
    balance: u128,
) -> ActivationView {
    if balance == 0 {
        Err(ContractError::InsufficientBalance)
    } else {
        match store.parameters {
            None => Err(ContractError::NotInitialized),
            Some(parameters) => Ok(
                OutcomeView {
                    dispatches: seq![
                        tagged(
                            OperationView::MintShares {
                                sender: address,
                                pool_id: parameters.pool_id,
                                min_shares,
                                token_in: TransferView {
                                    denom: reward_denom_text(),
                                    amount: balance,
                                },
                            },
                            CorrelationTag::Compound,
                        ),
                    ],
                    attributes: seq![attribute("method"@, "try_compound"@)],
                },
            ),
        }
    }
}

/// Harvests the reward balance into shares. `balance` is what the vault
/// holds of the reward denomination, as the caller has just read it.
pub fn try_compound(
    store: &Store,
    address: &str,
    min_shares: u64,
    balance: u128,
) -> (result: Activation)
    ensures
        shown(result) == compound_outcome(store@, address@, min_shares, balance),
        balance == 0 ==> (result matches Err(error) && error == ContractError::InsufficientBalance),
{
    if balance == 0 {
        return Err(ContractError::InsufficientBalance);
    }
    let parameters = store.load_parameters()?;
    let mint = Operation::MintShares {
        sender: address.to_owned(),
        pool_id: parameters.pool_id,
        min_shares,
        token_in: Transfer { denom: reward_denom(), amount: balance },
    };
    Ok(
        new_outcome(
            one_dispatch(mint, Some(CorrelationTag::Compound)),
            one_attribute("method", "try_compound".to_owned()),
        ),
    )
}

/// What an unbond does: the amount to unlock is written to the store, then
/// unbonding of the current lock is dispatched.
pub open spec fn unbond_step(store: StoreView, address: Seq<char>, amount: u64) -> Step {
    match store.pipeline {
        None => aborted(store, ContractError::NotInitialized),
        Some(state) => Step {
            result: Ok(
                OutcomeView {
                    dispatches: seq![
                        tagged(
                            OperationView::UnbondLock { sender: address, lock_id: state.lock_id },
                            CorrelationTag::Unbond,
                        ),
                    ],
                    attributes: seq![],
                },
            ),
            store: StoreView {
                parameters: store.parameters,
                pipeline: Some(
                    PipelineState { lock_id: state.lock_id, pending_unlock_amount: amount },
                ),
            },
        },
    }
}

/// Starts releasing `amount` of the current lock.
pub fn try_unbond(store: &mut Store, address: &str, amount: u64) -> (result: Activation)
    ensures
        shown(result) == unbond_step(old(store)@, address@, amount).result,
        final(store)@ == unbond_step(old(store)@, address@, amount).store,
{
    let mut state = store.load_pipeline_state()?;
    state.pending_unlock_amount = amount;
    store.save_pipeline_state(state);
    let unbond = Operation::UnbondLock { sender: address.to_owned(), lock_id: state.lock_id };
    Ok(new_outcome(one_dispatch(unbond, Some(CorrelationTag::Unbond)), no_attributes()))
}

/// What the continuation under a tag does with a successful completion.
pub open spec fn continuation_step(
    store: StoreView,
    address: Seq<char>,
    tag: CorrelationTag,
    payload: Option<Seq<u8>>,
) -> Step {
    match tag {
        CorrelationTag::MintShares => reading(
            store,
            mint_shares_reply_outcome(store, address, payload),
        ),
        CorrelationTag::Compound => reading(store, compound_reply_outcome(store, address, payload)),
        CorrelationTag::LockSuperfluidDelegate => lock_delegate_reply_step(store, payload),
        CorrelationTag::LockTokens => reading(store, msg_lock_reply_outcome(payload)),
        CorrelationTag::Unbond => reading(store, unbond_reply_outcome(store, address)),
        CorrelationTag::Redelegate => reading(store, redelegate_reply_outcome(store, address)),
    }
}

/// What a completion leads to. A tag that stands for no continuation is
/// refused before anything is read. A failed operation aborts its pipeline,
/// and no payload is looked for. Otherwise the continuation under the tag
/// takes over.
pub open spec fn reply_step(
    store: StoreView,
    address: Seq<char>,
    completion: CompletionView,
) -> Step {
    match CorrelationTag::spec_from_id(completion.tag) {
        None => aborted(store, ContractError::UnknownCorrelation { tag: completion.tag }),
        Some(tag) => match completion.outcome {
            CompletionOutcomeView::Failure => aborted(
                store,
                ContractError::ExternalOperationFailed,
            ),
            CompletionOutcomeView::Success { payload } => continuation_step(
                store,
                address,
                tag,
                payload,
            ),
        },
    }
}

/// Routes a completion to the continuation that waits for it.
pub fn reply(store: &mut Store, address: &str, completion: &Completion) -> (result: Activation)
    ensures
        shown(result) == reply_step(old(store)@, address@, completion@).result,
        final(store)@ == reply_step(old(store)@, address@, completion@).store,
        CorrelationTag::spec_from_id(completion.tag) is None ==> final(store)@ == old(store)@,
        CorrelationTag::spec_from_id(completion.tag) is None ==> (result matches Err(error) && error
            == (ContractError::UnknownCorrelation { tag: completion.tag })),
{
    let tag = match CorrelationTag::from_id(completion.tag) {
        Some(tag) => tag,
        None => {
            return Err(ContractError::UnknownCorrelation { tag: completion.tag });
        },
    };
    let payload = match &completion.outcome {
        CompletionOutcome::Success { payload } => payload,
        CompletionOutcome::Failure => {
            return Err(ContractError::ExternalOperationFailed);
        },
    };
    match tag {
        CorrelationTag::MintShares => handle_mint_shares(store, address, payload),
        CorrelationTag::Compound => handle_compound_reply(store, address, payload),
        CorrelationTag::LockSuperfluidDelegate => handle_superfluid_lock_delegate_reply(
            store,
            payload,
        ),
        CorrelationTag::LockTokens => handle_msg_lock_reply(payload),
        CorrelationTag::Unbond => handle_unbond_reply(store, address),
        CorrelationTag::Redelegate => handle_redelegate_reply(store, address),
    }
}

/// What a deposit's mint is followed by, once its response is decoded: the
/// minted shares, to the last unit, are locked and delegated.
pub open spec fn lock_and_delegate_outcome(
    parameters: ParametersView,
    address: Seq<char>,
    response: ExternalResponse,
) -> ActivationView {
    match response {
        ExternalResponse::MintedShares { amount } => Ok(
            OutcomeView {
                dispatches: seq![
                    tagged(
                        OperationView::LockAndDelegate {
                            sender: address,
                            shares: TransferView { denom: parameters.share_denom, amount },
                            validator: validator_text(),
                        },
                        CorrelationTag::LockSuperfluidDelegate,
                    ),
                ],
                attributes: seq![],
            },
        ),
        ExternalResponse::CreatedLock { .. } => Err(ContractError::DecodeFailure),
    }
}

/// Dispatches the locking and delegating of freshly minted shares. A
/// response of another kind than a share amount is not what was expected.
pub fn lock_and_delegate(
    parameters: &Parameters,
    address: &str,
    response: ExternalResponse,
) -> (result: Activation)
    ensures
        shown(result) == lock_and_delegate_outcome(parameters@, address@, response),
{
    match response {
        ExternalResponse::MintedShares { amount } => {
            let lock = Operation::LockAndDelegate {
                sender: address.to_owned(),
                shares: Transfer { denom: parameters.share_denom.clone(), amount },
                validator: validator(),
            };
            Ok(
                new_outcome(
                    one_dispatch(lock, Some(CorrelationTag::LockSuperfluidDelegate)),
                    no_attributes(),
                ),
            )
        },
        ExternalResponse::CreatedLock { .. } => Err(ContractError::DecodeFailure),
    }
}

/// What follows a deposit's mint. The parameters are read before the payload
/// is decoded.
pub open spec fn mint_shares_reply_outcome(
    store: StoreView,
    address: Seq<char>,
    payload: Option<Seq<u8>>,
) -> ActivationView {
    match store.parameters {
        None => Err(ContractError::NotInitialized),
        Some(parameters) => match minted_shares_response(payload) {
            Err(error) => Err(error),
            Ok(response) => lock_and_delegate_outcome(parameters, address, response),
        },
    }
}

/// Continues a deposit after one of its mints has succeeded.
pub fn handle_mint_shares(
    store: &Store,
    address: &str,
    payload: &Option<Vec<u8>>,
) -> (result: Activation)
    ensures
        shown(result) == mint_shares_reply_outcome(store@, address@, bytes_of(*payload)),
{
    let parameters = store.load_parameters()?;
    let response = decode_minted_shares(payload)?;
    lock_and_delegate(&parameters, address, response)
}

/// What a compound's mint is followed by, once its response is decoded: the
/// minted shares are locked for the fixed compound duration.
pub open spec fn lock_tokens_outcome(
    parameters: ParametersView,
    address: Seq<char>,
    response: ExternalResponse,
) -> ActivationView {
    match response {
        ExternalResponse::MintedShares { amount } => Ok(
            OutcomeView {
                dispatches: seq![
                    tagged(
                        OperationView::LockTokens {
                            owner: address,
                            duration_seconds: COMPOUND_LOCK_SECONDS,
                            shares: TransferView { denom: parameters.share_denom, amount },
                        },
                        CorrelationTag::LockTokens,
                    ),
                ],
                attributes: seq![],
            },
        ),
        ExternalResponse::CreatedLock { .. } => Err(ContractError::DecodeFailure),
    }
}

/// Dispatches the locking of freshly minted shares. A response of another
/// kind than a share amount is not what was expected.
pub fn lock_tokens(
    parameters: &Parameters,
    address: &str,
    response: ExternalResponse,
) -> (result: Activation)
    ensures
        shown(result) == lock_tokens_outcome(parameters@, address@, response),
{
    match response {
        ExternalResponse::MintedShares { amount } => {
            let lock = Operation::LockTokens {
                owner: address.to_owned(),
                duration_seconds: COMPOUND_LOCK_SECONDS,
                shares: Transfer { denom: parameters.share_denom.clone(), amount },
            };
            Ok(new_outcome(one_dispatch(lock, Some(CorrelationTag::LockTokens)), no_attributes()))
        },
        ExternalResponse::CreatedLock { .. } => Err(ContractError::DecodeFailure),
    }
}

/// What follows a compound's mint. The payload is decoded before the
/// parameters are read.
pub open spec fn compound_reply_outcome(
    store: StoreView,
    address: Seq<char>,
    payload: Option<Seq<u8>>,
) -> ActivationView {
    match minted_shares_response(payload) {
        Err(error) => Err(error),
        Ok(response) => match store.parameters {
            None => Err(ContractError::NotInitialized),
            Some(parameters) => lock_tokens_outcome(parameters, address, response),
        },
    }
}

/// Continues a compound after its mint has succeeded.
pub fn handle_compound_reply(
    store: &Store,
    address: &str,
    payload: &Option<Vec<u8>>,
) -> (result: Activation)
    ensures
        shown(result) == compound_reply_outcome(store@, address@, bytes_of(*payload)),
{
    let response = decode_minted_shares(payload)?;
    let parameters = store.load_parameters()?;
    lock_tokens(&parameters, address, response)
}

/// What showing a lock identifier hands back: no dispatch, and the
/// identifier in decimal under the key `lock_id`.
pub open spec fn lock_shown(lock_id: u64) -> OutcomeView {
    OutcomeView {
        dispatches: seq![],
        attributes: seq![attribute("lock_id"@, decimal(lock_id as nat))],
    }
}

/// Shows a lock identifier and dispatches nothing.
fn show_lock(lock_id: u64) -> (outcome: Outcome)
    ensures
        outcome@ == lock_shown(lock_id),
{
    let dispatches: Vec<Dispatch> = Vec::new();
    assert(views_of(dispatches@) =~= Seq::<DispatchView>::empty());
    new_outcome(dispatches, one_attribute("lock_id", to_decimal(lock_id as u128)))
}

/// What the end of a deposit does with the decoded response: the new lock
/// takes the place of the current one, whichever that was, and is shown. The
/// pending unlock amount stays as it is.
pub open spec fn record_lock_step(store: StoreView, response: ExternalResponse) -> Step {
    match response {
        ExternalResponse::CreatedLock { lock_id } => match store.pipeline {
            None => aborted(store, ContractError::NotInitialized),
            Some(state) => Step {
                result: Ok(lock_shown(lock_id)),
                store: StoreView {
                    parameters: store.parameters,
                    pipeline: Some(
                        PipelineState {
                            lock_id,
                            pending_unlock_amount: state.pending_unlock_amount,
                        },
                    ),
                },
            },
        },
        ExternalResponse::MintedShares { .. } => aborted(store, ContractError::DecodeFailure),
    }
}

/// Makes a freshly created lock the current one and shows it. A response of
/// another kind than a lock is not what was expected.
pub fn record_lock(store: &mut Store, response: ExternalResponse) -> (result: Activation)
    ensures
        shown(result) == record_lock_step(old(store)@, response).result,
        final(store)@ == record_lock_step(old(store)@, response).store,
{
    match response {
        ExternalResponse::CreatedLock { lock_id } => {
            let mut state = store.load_pipeline_state()?;
            state.lock_id = lock_id;
            store.save_pipeline_state(state);
            Ok(show_lock(lock_id))
        },
        ExternalResponse::MintedShares { .. } => Err(ContractError::DecodeFailure),
    }
}

/// What follows a lock-and-delegate: the end of a deposit. The payload is
/// decoded before the store is read.
pub open spec fn lock_delegate_reply_step(store: StoreView, payload: Option<Seq<u8>>) -> Step {
    match delegated_lock_response(payload) {
        Err(error) => aborted(store, error),
        Ok(response) => record_lock_step(store, response),
    }
}

/// Ends a deposit after its lock has succeeded.
pub fn handle_superfluid_lock_delegate_reply(
    store: &mut Store,
    payload: &Option<Vec<u8>>,
) -> (result: Activation)
    ensures
        shown(result) == lock_delegate_reply_step(old(store)@, bytes_of(*payload)).result,
        final(store)@ == lock_delegate_reply_step(old(store)@, bytes_of(*payload)).store,
{
    let response = decode_delegated_lock(payload)?;
    record_lock(store, response)
}

/// What the end of a compound hands back for the decoded response: the lock
/// is shown. The store is neither read nor written.
pub open spec fn report_lock_outcome(response: ExternalResponse) -> ActivationView {
    match response {
        ExternalResponse::CreatedLock { lock_id } => Ok(lock_shown(lock_id)),
        ExternalResponse::MintedShares { .. } => Err(ContractError::DecodeFailure),
    }
}

/// Shows a freshly created lock. A response of another kind than a lock is
/// not what was expected.
pub fn report_lock(response: ExternalResponse) -> (result: Activation)
    ensures
        shown(result) == report_lock_outcome(response),
{
    match response {
        ExternalResponse::CreatedLock { lock_id } => Ok(show_lock(lock_id)),
        ExternalResponse::MintedShares { .. } => Err(ContractError::DecodeFailure),
    }
}

/// What follows a token lock: the end of a compound.
pub open spec fn msg_lock_reply_outcome(payload: Option<Seq<u8>>) -> ActivationView {
    match token_lock_response(payload) {
        Err(error) => Err(error),
        Ok(response) => report_lock_outcome(response),
    }
}

/// Ends a compound after its lock has succeeded.
pub fn handle_msg_lock_reply(payload: &Option<Vec<u8>>) -> (result: Activation)
    ensures
        shown(result) == msg_lock_reply_outcome(bytes_of(*payload)),
{
    let response = decode_token_lock(payload)?;
    report_lock(response)
}

/// What follows a started unbonding: unlocking of the pending amount of
/// shares from the current lock is dispatched. The completion's payload is
/// not looked at.
pub open spec fn unbond_reply_outcome(store: StoreView, address: Seq<char>) -> ActivationView {
    match (store.pipeline, store.parameters) {
        (Some(state), Some(parameters)) => Ok(
            OutcomeView {
                dispatches: seq![
                    tagged(
                        OperationView::BeginUnlocking {
                            owner: address,
                            lock_id: state.lock_id,
                            shares: TransferView {
                                denom: parameters.share_denom,
                                amount: state.pending_unlock_amount as u128,
                            },
                        },
                        CorrelationTag::Redelegate,
                    ),
                ],
                attributes: seq![],
            },
        ),
        _ => Err(ContractError::NotInitialized),
    }
}

/// Continues an unbonding after its first step has succeeded.
pub fn handle_unbond_reply(store: &Store, address: &str) -> (result: Activation)
    ensures
        shown(result) == unbond_reply_outcome(store@, address@),
{
    let state = store.load_pipeline_state()?;
    let parameters = store.load_parameters()?;
    let unlock = Operation::BeginUnlocking {
        owner: address.to_owned(),
        lock_id: state.lock_id,
        shares: Transfer {
            denom: parameters.share_denom,
            amount: state.pending_unlock_amount as u128,
        },
    };
    Ok(new_outcome(one_dispatch(unlock, Some(CorrelationTag::Redelegate)), no_attributes()))
}

/// What follows a started unlocking: the current lock is delegated again.
/// Nothing reports how that ends, and the pending amount stays in the store.
pub open spec fn redelegate_reply_outcome(store: StoreView, address: Seq<char>) -> ActivationView {
    match store.pipeline {
        None => Err(ContractError::NotInitialized),
        Some(state) => Ok(
            OutcomeView {
                dispatches: seq![
                    untagged(
                        OperationView::Delegate {
                            sender: address,
                            lock_id: state.lock_id,
                            validator: validator_text(),
                        },
                    ),
                ],
                attributes: seq![],
            },
        ),
    }
}

/// Ends an unbonding after its second step has succeeded.
pub fn handle_redelegate_reply(store: &Store, address: &str) -> (result: Activation)
    ensures
        shown(result) == redelegate_reply_outcome(store@, address@),
{
    let state = store.load_pipeline_state()?;
    let delegate = Operation::Delegate {
        sender: address.to_owned(),
        lock_id: state.lock_id,
        validator: validator(),
    };
    Ok(new_outcome(one_dispatch(delegate, None), no_attributes()))
}

/// The lookup that a query asks the environment for.
#[derive(Clone, Copy, Debug, PartialEq, Eq, Structural)]
pub enum PoolLookup {
    /// The pool with this identifier.
    Pool { pool_id: u64 },
    /// How many pools there are.
    NumPools,
}

/// The lookup that answers each query.
pub open spec fn lookup_for(msg: QueryMsg) -> PoolLookup {
    match msg {
        QueryMsg::QueryPoolRequest { pool_id } => PoolLookup::Pool { pool_id },
        QueryMsg::QueryNumPoolsRequest {  } => PoolLookup::NumPools,
    }
}

/// Says which lookup answers a query. The vault adds nothing to the answer:
/// the caller makes the lookup and passes on what comes back.
pub fn query(msg: QueryMsg) -> (lookup: PoolLookup)
    ensures
        lookup == lookup_for(msg),
{
    match msg {
        QueryMsg::QueryPoolRequest { pool_id } => PoolLookup::Pool { pool_id },
        QueryMsg::QueryNumPoolsRequest {  } => PoolLookup::NumPools,
    }
}

} // verus!
