//! What holds of the pipelines as a whole.
//!
//! The contracts in [`crate::contract`] say what each activation does. The
//! proofs here draw from them what is true of every store, every command and
//! every completion, and of activations in a row.

use vstd::prelude::*;
use crate::codec::{delegated_lock_id_in, share_out_amount_in, token_lock_id_in};
use crate::contract::{
    attribute,
    compound_outcome,
    deposit_dispatches,
    deposit_mint,
    deposit_outcome,
    execute_step,
    lemma_deposit_dispatches_push,
    lock_and_delegate_outcome,
    lock_shown,
    needs_minting,
    reading,
    reply_step,
    reward_denom_text,
    tagged,
    unbond_step,
    untagged,
    validator_text,
    ActivationView,
    Step,
    COMPOUND_LOCK_SECONDS,
    DEPOSIT_MIN_SHARES,
};
use crate::correlation::{CompletionOutcomeView, CompletionView, CorrelationTag};
use crate::decimal::{decimal, lemma_parse_decimal};
use crate::decoder::{minted_shares_from_text, ExternalResponse};
use crate::error::ContractError;
use crate::msg::ExecuteMsg;
use crate::operation::{DispatchView, OperationView, OutcomeView, TransferView};
use crate::state::{ParametersView, PipelineState, StoreView};

verus! {

/// Whether a transfer is in shares of the pool already.
pub open spec fn in_shares(parameters: ParametersView) -> spec_fn(TransferView) -> bool {
    |transfer: TransferView| transfer.denom == parameters.share_denom
}

/// Two tests of which each item passes exactly one split a sequence in two
/// parts that together are as long as the whole.
pub proof fn lemma_filter_splits<A>(
    items: Seq<A>,
    one: spec_fn(A) -> bool,
    other: spec_fn(A) -> bool,
)
    requires
        forall|item: A| #[trigger] one(item) != other(item),
    ensures
        items.filter(one).len() + items.filter(other).len() == items.len(),
    decreases items.len(),
{
    reveal(Seq::filter);
    if items.len() > 0 {
        lemma_filter_splits(items.drop_last(), one, other);
    }
}

/// A deposit into a vault that was set up, whose transfers hold `k` that are
/// not in shares and `m` that are, dispatches exactly `k` operations: the
/// mints of the `k`, in their order, each reported back under the tag for
/// minted shares. None of them is for a transfer in shares.
pub proof fn lemma_deposit_mints_exactly_the_rest(
    store: StoreView,
    address: Seq<char>,
    funds: Seq<TransferView>,
    k: nat,
    m: nat,
)
    requires
        store.parameters is Some,
        funds.filter(needs_minting(store.parameters->Some_0)).len() == k,
        funds.filter(in_shares(store.parameters->Some_0)).len() == m,
    ensures
        k + m == funds.len(),
        deposit_outcome(store, address, funds) is Ok,
        deposit_outcome(store, address, funds)->Ok_0.dispatches.len() == k,
        forall|i: int|
            #![trigger deposit_outcome(store, address, funds)->Ok_0.dispatches[i]]
            0 <= i < k ==> {
                let dispatch = deposit_outcome(store, address, funds)->Ok_0.dispatches[i];
                let transfer = funds.filter(needs_minting(store.parameters->Some_0))[i];
                &&& funds.contains(transfer)
                &&& transfer.denom != store.parameters->Some_0.share_denom
                &&& dispatch.tag == Some(CorrelationTag::MintShares)
                &&& dispatch.operation == (OperationView::MintShares {
                    sender: address,
                    pool_id: store.parameters->Some_0.pool_id,
                    min_shares: DEPOSIT_MIN_SHARES,
                    token_in: transfer,
                })
            },
{
    let parameters = store.parameters->Some_0;
    lemma_filter_splits(funds, needs_minting(parameters), in_shares(parameters));
    let kept = funds.filter(needs_minting(parameters));
    assert forall|i: int| 0 <= i < k implies {
        let transfer = #[trigger] kept[i];
        funds.contains(transfer) && transfer.denom != parameters.share_denom
    } by {
        funds.lemma_filter_pred(needs_minting(parameters), i);
        funds.lemma_filter_contains_rev(needs_minting(parameters), kept[i]);
    }
}

/// The share amount that a mint answers with is the amount that is locked
/// and delegated next: the text of any 128-bit number reads back as that
/// number, and the lock takes it as it is.
pub proof fn lemma_minted_amount_is_carried(
    parameters: ParametersView,
    address: Seq<char>,
    amount: u128,
)
    ensures
        minted_shares_from_text(decimal(amount as nat)) == Ok::<ExternalResponse, ContractError>(
            ExternalResponse::MintedShares { amount },
        ),
        (lock_and_delegate_outcome(
            parameters,
            address,
            ExternalResponse::MintedShares { amount },
        ) matches Ok(outcome) && outcome.dispatches.len() == 1 && outcome.dispatches[0].operation
            == (OperationView::LockAndDelegate {
            sender: address,
            shares: TransferView { denom: parameters.share_denom, amount },
            validator: validator_text(),
        })),
{
    lemma_parse_decimal(amount as nat);
}

/// A completion under a tag that a dispatch can carry finds its
/// continuation: whatever else happens to it, it is not refused as unknown.
pub proof fn lemma_emitted_tags_are_routed(
    store: StoreView,
    address: Seq<char>,
    tag: CorrelationTag,
    outcome: CompletionOutcomeView,
)
    ensures
        !(reply_step(
            store,
            address,
            CompletionView { tag: tag.spec_id(), outcome },
        ).result matches Err(ContractError::UnknownCorrelation { .. })),
{
}

/// An activation that fails leaves the store as it found it.
pub proof fn lemma_failure_changes_nothing(
    store: StoreView,
    address: Seq<char>,
    funds: Seq<TransferView>,
    balance: u128,
    msg: ExecuteMsg,
    completion: CompletionView,
)
    ensures
        execute_step(store, address, funds, balance, msg).result is Err ==> execute_step(
            store,
            address,
            funds,
            balance,
            msg,
        ).store == store,
        reply_step(store, address, completion).result is Err ==> reply_step(
            store,
            address,
            completion,
        ).store == store,
{
}

/// Once written, the parameters stay as they are: no command and no
/// completion changes them.
pub proof fn lemma_parameters_are_kept(
    store: StoreView,
    address: Seq<char>,
    funds: Seq<TransferView>,
    balance: u128,
    msg: ExecuteMsg,
    completion: CompletionView,
)
    ensures
        execute_step(store, address, funds, balance, msg).store.parameters == store.parameters,
        reply_step(store, address, completion).store.parameters == store.parameters,
{
}

/// The completion that reports success under a tag.
pub open spec fn succeeded(tag: CorrelationTag, payload: Option<Seq<u8>>) -> CompletionView {
    CompletionView { tag: tag.spec_id(), outcome: CompletionOutcomeView::Success { payload } }
}

/// A deposit of one transfer that is not in shares, into a vault that was set
/// up, runs as follows. The deposit dispatches the mint of the transfer. When
/// the mint answers with an amount of shares, exactly that amount is locked
/// and delegated, and the store stays as it is. When the lock answers with
/// its identifier, that lock becomes the current one and is shown, and the
/// rest of the store stays as it is.
pub proof fn lemma_deposit_pipeline(
    store: StoreView,
    address: Seq<char>,
    transfer: TransferView,
    minted: Seq<u8>,
    amount: u128,
    locked: Seq<u8>,
    lock_id: u64,
)
    requires
        store.parameters is Some,
        store.pipeline is Some,
        transfer.denom != store.parameters->Some_0.share_denom,
    ensures
        deposit_outcome(store, address, seq![transfer]) == Ok::<OutcomeView, ContractError>(
            OutcomeView {
                dispatches: seq![
                    tagged(
                        OperationView::MintShares {
                            sender: address,
                            pool_id: store.parameters->Some_0.pool_id,
                            min_shares: DEPOSIT_MIN_SHARES,
                            token_in: transfer,
                        },
                        CorrelationTag::MintShares,
                    ),
                ],
                attributes: seq![attribute("method"@, "try_join"@)],
            },
        ),
        share_out_amount_in(minted) == Some(decimal(amount as nat)) ==> reply_step(
            store,
            address,
            succeeded(CorrelationTag::MintShares, Some(minted)),
        ) == reading(
            store,
            Ok(
                OutcomeView {
                    dispatches: seq![
                        tagged(
                            OperationView::LockAndDelegate {
                                sender: address,
                                shares: TransferView {
                                    denom: store.parameters->Some_0.share_denom,
                                    amount,
                                },
                                validator: validator_text(),
                            },
                            CorrelationTag::LockSuperfluidDelegate,
                        ),
                    ],
                    attributes: seq![],
                },
            ),
        ),
        delegated_lock_id_in(locked) == Some(lock_id) ==> reply_step(
            store,
            address,
            succeeded(CorrelationTag::LockSuperfluidDelegate, Some(locked)),
        ) == (Step {
            result: Ok(lock_shown(lock_id)),
            store: StoreView {
                parameters: store.parameters,
                pipeline: Some(
                    PipelineState {
                        lock_id,
                        pending_unlock_amount: store.pipeline->Some_0.pending_unlock_amount,
                    },
                ),
            },
        }),
{
    let parameters = store.parameters->Some_0;
    assert(deposit_dispatches(parameters, address, seq![transfer]) == seq![
        deposit_mint(parameters, address)(transfer),
    ]) by {
        reveal(Seq::filter);
        let none = Seq::<TransferView>::empty();
        assert(seq![transfer] =~= none.push(transfer));
        lemma_deposit_dispatches_push(parameters, address, none, transfer);
        assert(deposit_dispatches(parameters, address, none) =~= Seq::<DispatchView>::empty());
    }
    lemma_parse_decimal(amount as nat);
}

/// A compound of a balance that is not empty runs as follows. The compound
/// dispatches the mint of the whole balance. When the mint answers with an
/// amount of shares, exactly that amount is locked for the fixed duration.
/// When the lock answers with its identifier, the lock is shown. The store
/// stays as it is throughout: the current lock is not replaced.
pub proof fn lemma_compound_pipeline(
    store: StoreView,
    address: Seq<char>,
    min_shares: u64,
    balance: u128,
    minted: Seq<u8>,
    amount: u128,
    locked: Seq<u8>,
    lock_id: u64,
)
    requires
        store.parameters is Some,
        balance != 0,
    ensures
        compound_outcome(store, address, min_shares, balance) == Ok::<OutcomeView, ContractError>(
            OutcomeView {
                dispatches: seq![
                    tagged(
                        OperationView::MintShares {
                            sender: address,
                            pool_id: store.parameters->Some_0.pool_id,
                            min_shares,
                            token_in: TransferView { denom: reward_denom_text(), amount: balance },
                        },
                        CorrelationTag::Compound,
                    ),
                ],
                attributes: seq![attribute("method"@, "try_compound"@)],
            },
        ),
        share_out_amount_in(minted) == Some(decimal(amount as nat)) ==> reply_step(
            store,
            address,
            succeeded(CorrelationTag::Compound, Some(minted)),
        ) == reading(
            store,
            Ok(
                OutcomeView {
                    dispatches: seq![
                        tagged(
                            OperationView::LockTokens {
                                owner: address,
                                duration_seconds: COMPOUND_LOCK_SECONDS,
                                shares: TransferView {
                                    denom: store.parameters->Some_0.share_denom,
                                    amount,
                                },
                            },
                            CorrelationTag::LockTokens,
                        ),
                    ],
                    attributes: seq![],
                },
            ),
        ),
        token_lock_id_in(locked) == Some(lock_id) ==> reply_step(
            store,
            address,
            succeeded(CorrelationTag::LockTokens, Some(locked)),
        ) == reading(store, Ok(lock_shown(lock_id))),
{
    lemma_parse_decimal(amount as nat);
}

/// An unbonding runs as follows, whatever the two completions carry. The
/// unbond writes the amount to the store and dispatches the unbonding of the
/// current lock. When that has succeeded, the unlocking of the amount from
/// the same lock is dispatched. When that has succeeded, the lock is
/// delegated again, with no tag. After the unbond's own write the store does
/// not change: the amount is still pending at the end.
pub proof fn lemma_unbond_pipeline(
    store: StoreView,
    address: Seq<char>,
    amount: u64,
    first: Option<Seq<u8>>,
    second: Option<Seq<u8>>,
)
    requires
        store.parameters is Some,
        store.pipeline is Some,
    ensures
        ({
            let lock_id = store.pipeline->Some_0.lock_id;
            let written = StoreView {
                parameters: store.parameters,
                pipeline: Some(PipelineState { lock_id, pending_unlock_amount: amount }),
            };
            &&& unbond_step(store, address, amount) == (Step {
                result: Ok(
                    OutcomeView {
                        dispatches: seq![
                            tagged(
                                OperationView::UnbondLock { sender: address, lock_id },
                                CorrelationTag::Unbond,
                            ),
                        ],
                        attributes: seq![],
                    },
                ),
                store: written,
            })
            &&& reply_step(written, address, succeeded(CorrelationTag::Unbond, first)) == reading(
                written,
                Ok(
                    OutcomeView {
                        dispatches: seq![
                            tagged(
                                OperationView::BeginUnlocking {
                                    owner: address,
                                    lock_id,
                                    shares: TransferView {
                                        denom: store.parameters->Some_0.share_denom,
                                        amount: amount as u128,
                                    },
                                },
                                CorrelationTag::Redelegate,
                            ),
                        ],
                        attributes: seq![],
                    },
                ),
            )
            &&& reply_step(written, address, succeeded(CorrelationTag::Redelegate, second))
                == reading(
                written,
                Ok(
                    OutcomeView {
                        dispatches: seq![
                            untagged(
                                OperationView::Delegate {
                                    sender: address,
                                    lock_id,
                                    validator: validator_text(),
                                },
                            ),
                        ],
                        attributes: seq![],
                    },
                ),
            )
        }),
{
}

/// The pipeline state is one slot, and pipelines in flight write over each
/// other. Where the lock of a deposit completes between an unbond and its
/// continuation, the continuation finds the deposit's lock in place of the
/// one that was to be unbonded: it dispatches the unlocking of the pending
/// amount from the new lock.
pub proof fn lemma_pipelines_share_one_slot(
    store: StoreView,
    address: Seq<char>,
    amount: u64,
    locked: Seq<u8>,
    lock_id: u64,
    payload: Option<Seq<u8>>,
)
    requires
        store.parameters is Some,
        store.pipeline is Some,
    ensures
        delegated_lock_id_in(locked) == Some(lock_id) ==> ({
            let unbonding = unbond_step(store, address, amount).store;
            let between = reply_step(
                unbonding,
                address,
                succeeded(CorrelationTag::LockSuperfluidDelegate, Some(locked)),
            ).store;
            let continued = reply_step(
                between,
                address,
                succeeded(CorrelationTag::Unbond, payload),
            );
            continued.result == Ok::<OutcomeView, ContractError>(
                OutcomeView {
                    dispatches: seq![
                        tagged(
                            OperationView::BeginUnlocking {
                                owner: address,
                                lock_id,
                                shares: TransferView {
                                    denom: store.parameters->Some_0.share_denom,
                                    amount: amount as u128,
                                },
                            },
                            CorrelationTag::Redelegate,
                        ),
                    ],
                    attributes: seq![],
                },
            )
        }),
{
}

/// Whether a dispatch is one that the vault makes: the operation acts for
/// the vault itself, and it carries the tag of the continuation that can
/// read what the operation answers. A mint is followed up under the tag of
/// the pipeline that asked for it, a lock under the tag of its kind, the two
/// steps of an unbonding under theirs. Delegating a lock again is the one
/// operation that is not followed up.
pub open spec fn well_routed(address: Seq<char>, dispatch: DispatchView) -> bool {
    match dispatch.operation {
        OperationView::MintShares { sender, .. } => sender == address && (dispatch.tag == Some(
            CorrelationTag::MintShares,
        ) || dispatch.tag == Some(CorrelationTag::Compound)),
        OperationView::LockAndDelegate { sender, .. } => sender == address && dispatch.tag == Some(
            CorrelationTag::LockSuperfluidDelegate,
        ),
        OperationView::LockTokens { owner, .. } => owner == address && dispatch.tag == Some(
            CorrelationTag::LockTokens,
        ),
        OperationView::UnbondLock { sender, .. } => sender == address && dispatch.tag == Some(
            CorrelationTag::Unbond,
        ),
        OperationView::BeginUnlocking { owner, .. } => owner == address && dispatch.tag == Some(
            CorrelationTag::Redelegate,
        ),
        OperationView::Delegate { sender, .. } => sender == address && dispatch.tag is None,
    }
}

/// Whether every dispatch of a result, if it has any, is well routed.
pub open spec fn all_well_routed(address: Seq<char>, result: ActivationView) -> bool {
    result matches Ok(outcome) ==> forall|i: int|
        0 <= i < outcome.dispatches.len() ==> well_routed(address, #[trigger] outcome.dispatches[i])
}

/// Whatever the store, the command or the completion: every operation that
/// an activation dispatches acts for the vault and carries the tag of the
/// continuation that is written for its answer.
pub proof fn lemma_dispatches_are_well_routed(
    store: StoreView,
    address: Seq<char>,
    funds: Seq<TransferView>,
    balance: u128,
    msg: ExecuteMsg,
    completion: CompletionView,
)
    ensures
        all_well_routed(address, execute_step(store, address, funds, balance, msg).result),
        all_well_routed(address, reply_step(store, address, completion).result),
{
}

/// What wakes the vault: a command with what comes with it, or a completion.
pub enum Event {
    Command { funds: Seq<TransferView>, balance: u128, msg: ExecuteMsg },
    Completed { completion: CompletionView },
}

/// The store after the activation that an event causes.
pub open spec fn store_after(store: StoreView, address: Seq<char>, event: Event) -> StoreView {
    match event {
        Event::Command { funds, balance, msg } => execute_step(
            store,
            address,
            funds,
            balance,
            msg,
        ).store,
        Event::Completed { completion } => reply_step(store, address, completion).store,
    }
}

/// The store after the activations that a history of events causes, one
/// after the other.
pub open spec fn store_after_all(store: StoreView, address: Seq<char>, history: Seq<Event>) -> StoreView
    decreases history.len(),
{
    if history.len() == 0 {
        store
    } else {
        store_after(store_after_all(store, address, history.drop_last()), address, history.last())
    }
}

/// Whatever happens to a vault in whatever order, its parameters stay as
/// they were written, and a pipeline state that is there stays there.
pub proof fn lemma_history_keeps_what_was_set_up(
    store: StoreView,
    address: Seq<char>,
    history: Seq<Event>,
)
    ensures
        store_after_all(store, address, history).parameters == store.parameters,
        store.pipeline is Some ==> store_after_all(store, address, history).pipeline is Some,
    decreases history.len(),
{
    if history.len() > 0 {
        lemma_history_keeps_what_was_set_up(store, address, history.drop_last());
    }
}

} // verus!
