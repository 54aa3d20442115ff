//! What an activation hands back: operations to dispatch and results to show.

use vstd::prelude::*;
use crate::correlation::CorrelationTag;

verus! {

/// The views of the items of a sequence, in order.
pub open spec fn views_of<T: View>(items: Seq<T>) -> Seq<T::V> {
    items.map_values(|item: T| item@)
}

/// Adding an item at the end adds its view at the end.
pub proof fn lemma_views_of_push<T: View>(items: Seq<T>, item: T)
    ensures
        views_of(items.push(item)) == views_of(items).push(item@),
{
    assert(views_of(items.push(item)) =~= views_of(items).push(item@));
}

/// An amount of one denomination.
#[derive(Clone, Debug, PartialEq, Eq)]
pub struct Transfer {
    pub denom: String,
    pub amount: u128,
}

/// The value of a [`Transfer`]: its denomination as a sequence of characters.
pub struct TransferView {
    pub denom: Seq<char>,
    pub amount: u128,
}

impl View for Transfer {
    type V = TransferView;

    open spec fn view(&self) -> TransferView {
        TransferView { denom: self.denom@, amount: self.amount }
    }
}

/// An operation that the environment carries out on the vault's behalf.
///
/// `sender` and `owner` are the vault's own identity.
#[derive(Clone, Debug, PartialEq, Eq)]
pub enum Operation {
    /// Swap a single asset into the pool and mint shares for it.
    MintShares { sender: String, pool_id: u64, min_shares: u64, token_in: Transfer },
    /// Lock shares and delegate the lock to a validator.
    LockAndDelegate { sender: String, shares: Transfer, validator: String },
    /// Lock shares for a fixed duration.
    LockTokens { owner: String, duration_seconds: i64, shares: Transfer },
    /// Start unbonding a delegated lock.
    UnbondLock { sender: String, lock_id: u64 },
    /// Start unlocking part of a lock.
    BeginUnlocking { owner: String, lock_id: u64, shares: Transfer },
    /// Delegate an existing lock to a validator.
    Delegate { sender: String, lock_id: u64, validator: String },
}

/// The value of an [`Operation`]: its strings as sequences of characters.
pub enum OperationView {
    MintShares { sender: Seq<char>, pool_id: u64, min_shares: u64, token_in: TransferView },
    LockAndDelegate { sender: Seq<char>, shares: TransferView, validator: Seq<char> },
    LockTokens { owner: Seq<char>, duration_seconds: i64, shares: TransferView },
    UnbondLock { sender: Seq<char>, lock_id: u64 },
    BeginUnlocking { owner: Seq<char>, lock_id: u64, shares: TransferView },
    Delegate { sender: Seq<char>, lock_id: u64, validator: Seq<char> },
}

impl View for Operation {
    type V = OperationView;

    open spec fn view(&self) -> OperationView {
        match *self {
            Operation::MintShares { sender, pool_id, min_shares, token_in } => {
                OperationView::MintShares {
                    sender: sender@,
                    pool_id,
                    min_shares,
                    token_in: token_in@,
                }
            },
            Operation::LockAndDelegate { sender, shares, validator } => {
                OperationView::LockAndDelegate {
                    sender: sender@,
                    shares: shares@,
                    validator: validator@,
                }
            },
            Operation::LockTokens { owner, duration_seconds, shares } => OperationView::LockTokens {
                owner: owner@,
                duration_seconds,
                shares: shares@,
            },
            Operation::UnbondLock { sender, lock_id } => OperationView::UnbondLock {
                sender: sender@,
                lock_id,
            },
            Operation::BeginUnlocking { owner, lock_id, shares } => OperationView::BeginUnlocking {
                owner: owner@,
                lock_id,
                shares: shares@,
            },
            Operation::Delegate { sender, lock_id, validator } => OperationView::Delegate {
                sender: sender@,
                lock_id,
                validator: validator@,
            },
        }
    }
}

/// An operation on its way to the environment.
///
/// With a tag, the operation's success is reported back under that tag. With
/// none, nothing is reported and the outcome is never seen.
#[derive(Clone, Debug, PartialEq, Eq)]
pub struct Dispatch {
    pub operation: Operation,
    pub tag: Option<CorrelationTag>,
}

/// The value of a [`Dispatch`].
pub struct DispatchView {
    pub operation: OperationView,
    pub tag: Option<CorrelationTag>,
}

impl View for Dispatch {
    type V = DispatchView;

    open spec fn view(&self) -> DispatchView {
        DispatchView { operation: self.operation@, tag: self.tag }
    }
}

/// A named value that an activation shows to its caller.
#[derive(Clone, Debug, PartialEq, Eq)]
pub struct Attribute {
    pub key: String,
    pub value: String,
}

/// The value of an [`Attribute`]: key and value as sequences of characters.
pub struct AttributeView {
    pub key: Seq<char>,
    pub value: Seq<char>,
}

impl View for Attribute {
    type V = AttributeView;

    open spec fn view(&self) -> AttributeView {
        AttributeView { key: self.key@, value: self.value@ }
    }
}

/// What a successful activation hands back: the operations to dispatch, in
/// order, and the values to show.
#[derive(Clone, Debug, PartialEq, Eq)]
pub struct Outcome {
    pub dispatches: Vec<Dispatch>,
    pub attributes: Vec<Attribute>,
}

/// The value of an [`Outcome`]: the values of its dispatches and attributes,
/// in order.
pub struct OutcomeView {
    pub dispatches: Seq<DispatchView>,
    pub attributes: Seq<AttributeView>,
}

impl View for Outcome {
    type V = OutcomeView;

    open spec fn view(&self) -> OutcomeView {
        OutcomeView {
            dispatches: views_of(self.dispatches@),
            attributes: views_of(self.attributes@),
        }
    }
}

} // verus!
