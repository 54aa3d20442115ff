//! Correlation of completions with the continuations that wait for them.

use vstd::prelude::*;

verus! {

/// The kind of continuation that a dispatched operation resumes.
///
/// A tag names a kind of step, not a request: every dispatch of the same kind
/// carries the same tag, whichever pipeline instance emitted it.
#[derive(Clone, Copy, Debug, PartialEq, Eq, Structural)]
pub enum CorrelationTag {
    /// Shares were minted for a deposit.
    MintShares,
    /// Rewards were harvested and turned into shares.
    Compound,
    /// Shares were locked and delegated.
    LockSuperfluidDelegate,
    /// Shares were locked for a fixed duration.
    LockTokens,
    /// Unbonding of the lock was started.
    Unbond,
    /// Unlocking of part of the lock was started.
    Redelegate,
}

/// The integer of [`CorrelationTag::MintShares`].
pub const MINT_SHARES_REPLY_ID: u64 = 0;

/// The integer of [`CorrelationTag::Compound`].
pub const COMPOUND_REPLY_ID: u64 = 1;

/// The integer of [`CorrelationTag::LockSuperfluidDelegate`].
pub const LOCK_SUPERFLUID_DELEGATE_ID: u64 = 2;

/// The integer of [`CorrelationTag::LockTokens`].
pub const LOCK_ID: u64 = 3;

/// The integer of [`CorrelationTag::Unbond`].
pub const UNBOND_REPLY_ID: u64 = 4;

/// The integer of [`CorrelationTag::Redelegate`].
pub const REDELEGATE_ID: u64 = 5;

impl CorrelationTag {
    /// The integer that stands for this tag on a dispatched operation.
    pub open spec fn spec_id(self) -> u64 {
        match self {
            CorrelationTag::MintShares => MINT_SHARES_REPLY_ID,
            CorrelationTag::Compound => COMPOUND_REPLY_ID,
            CorrelationTag::LockSuperfluidDelegate => LOCK_SUPERFLUID_DELEGATE_ID,
            CorrelationTag::LockTokens => LOCK_ID,
            CorrelationTag::Unbond => UNBOND_REPLY_ID,
            CorrelationTag::Redelegate => REDELEGATE_ID,
        }
    }

    /// The tag that an integer stands for, if any.
    pub open spec fn spec_from_id(id: u64) -> Option<CorrelationTag> {
        if id == MINT_SHARES_REPLY_ID {
            Some(CorrelationTag::MintShares)
        } else if id == COMPOUND_REPLY_ID {
            Some(CorrelationTag::Compound)
        } else if id == LOCK_SUPERFLUID_DELEGATE_ID {
            Some(CorrelationTag::LockSuperfluidDelegate)
        } else if id == LOCK_ID {
            Some(CorrelationTag::LockTokens)
        } else if id == UNBOND_REPLY_ID {
            Some(CorrelationTag::Unbond)
        } else if id == REDELEGATE_ID {
            Some(CorrelationTag::Redelegate)
        } else {
            None
        }
    }

    /// The integer to put on a dispatch of this kind.
    #[verifier::when_used_as_spec(spec_id)]
    pub fn id(self) -> (id: u64)
        ensures
            id == self.spec_id(),
    {
        match self {
            CorrelationTag::MintShares => MINT_SHARES_REPLY_ID,
            CorrelationTag::Compound => COMPOUND_REPLY_ID,
            CorrelationTag::LockSuperfluidDelegate => LOCK_SUPERFLUID_DELEGATE_ID,
            CorrelationTag::LockTokens => LOCK_ID,
            CorrelationTag::Unbond => UNBOND_REPLY_ID,
            CorrelationTag::Redelegate => REDELEGATE_ID,
        }
    }

    /// Recognizes the integer that a completion carries.
    #[verifier::when_used_as_spec(spec_from_id)]
    pub fn from_id(id: u64) -> (tag: Option<CorrelationTag>)
        ensures
            tag == CorrelationTag::spec_from_id(id),
    {
        if id == MINT_SHARES_REPLY_ID {
            Some(CorrelationTag::MintShares)
        } else if id == COMPOUND_REPLY_ID {
            Some(CorrelationTag::Compound)
        } else if id == LOCK_SUPERFLUID_DELEGATE_ID {
            Some(CorrelationTag::LockSuperfluidDelegate)
        } else if id == LOCK_ID {
            Some(CorrelationTag::LockTokens)
        } else if id == UNBOND_REPLY_ID {
            Some(CorrelationTag::Unbond)
        } else if id == REDELEGATE_ID {
            Some(CorrelationTag::Redelegate)
        } else {
            None
        }
    }
}

/// How a dispatched operation ended.
#[derive(Clone, Debug, PartialEq, Eq)]
pub enum CompletionOutcome {
    /// The operation succeeded, and answered with this payload, if any.
    Success { payload: Option<Vec<u8>> },
    /// The operation failed. There is no payload to read.
    Failure,
}

/// The value of a [`CompletionOutcome`]: its payload as a sequence of bytes.
pub enum CompletionOutcomeView {
    Success { payload: Option<Seq<u8>> },
    Failure,
}

impl View for CompletionOutcome {
    type V = CompletionOutcomeView;

    open spec fn view(&self) -> CompletionOutcomeView {
        match *self {
            CompletionOutcome::Success { payload } => CompletionOutcomeView::Success {
                payload: match payload {
                    Some(bytes) => Some(bytes@),
                    None => None,
                },
            },
            CompletionOutcome::Failure => CompletionOutcomeView::Failure,
        }
    }
}

/// The notification that a dispatched operation has completed. It is
/// delivered in an activation of its own, and carries the integer of the tag
/// that the operation was dispatched with.
#[derive(Clone, Debug, PartialEq, Eq)]
pub struct Completion {
    pub tag: u64,
    pub outcome: CompletionOutcome,
}

/// The value of a [`Completion`].
pub struct CompletionView {
    pub tag: u64,
    pub outcome: CompletionOutcomeView,
}

impl View for Completion {
    type V = CompletionView;

    open spec fn view(&self) -> CompletionView {
        CompletionView { tag: self.tag, outcome: self.outcome@ }
    }
}

/// Every tag that can be put on a dispatch is recognized when it comes back,
/// and nothing else is: an integer stands for a tag exactly when that tag's
/// integer is the same one.
pub proof fn lemma_tag_round_trip(tag: CorrelationTag, id: u64)
    ensures
        CorrelationTag::spec_from_id(tag.spec_id()) == Some(tag),
        CorrelationTag::spec_from_id(id) == Some(tag) <==> id == tag.spec_id(),
        CorrelationTag::spec_from_id(id) is Some <==> id <= REDELEGATE_ID,
{
}

} // verus!
