//! The commands and queries that callers send.

use vstd::prelude::*;

verus! {

/// Sets the vault up for one pool.
#[derive(Clone, Copy, Debug, PartialEq, Eq, Structural)]
pub struct InstantiateMsg {
    pub pool_id: u64,
    pub lock_duration: u64,
}

/// Starts a pipeline.
#[derive(Clone, Copy, Debug, PartialEq, Eq, Structural)]
pub enum ExecuteMsg {
    /// Turn the attached transfers into locked, delegated shares.
    Deposit {  },
    /// Harvest the reward balance into shares and lock them.
    Compound { min_shares: u64 },
    /// Release part of the current lock.
    Unbond { amount: u64 },
}

/// Asks about pools; answered by the environment, not by the vault.
#[derive(Clone, Copy, Debug, PartialEq, Eq, Structural)]
pub enum QueryMsg {
    QueryPoolRequest { pool_id: u64 },
    QueryNumPoolsRequest {  },
}

} // verus!
