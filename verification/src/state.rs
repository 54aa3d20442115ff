//! The state that survives from one activation to the next.

use vstd::prelude::*;
use vstd::string::*;
use crate::decimal::{decimal, to_decimal};
use crate::error::ContractError;

verus! {

/// The denomination of the shares of a pool.
pub open spec fn share_denom_of(pool_id: u64) -> Seq<char> {
    "gamm/pool/"@ + decimal(pool_id as nat)
}

/// Writes the denomination of the shares of a pool.
pub fn share_denom(pool_id: u64) -> (denom: String)
    ensures
        denom@ == share_denom_of(pool_id),
{
    let mut denom = "gamm/pool/".to_owned();
    let number = to_decimal(pool_id as u128);
    denom.append(number.as_str());
    denom
}

/// What the vault was set up with. Written once, never changed afterwards.
#[derive(Clone, Debug, PartialEq, Eq)]
pub struct Parameters {
    pub pool_id: u64,
    pub lock_duration: u64,
    pub fee: u64,
    pub share_denom: String,
}

/// The value of [`Parameters`]: the share denomination as a sequence of
/// characters.
pub struct ParametersView {
    pub pool_id: u64,
    pub lock_duration: u64,
    pub fee: u64,
    pub share_denom: Seq<char>,
}

impl View for Parameters {
    type V = ParametersView;

    open spec fn view(&self) -> ParametersView {
        ParametersView {
            pool_id: self.pool_id,
            lock_duration: self.lock_duration,
            fee: self.fee,
            share_denom: self.share_denom@,
        }
    }
}

impl ParametersView {
    /// The parameters of a vault for the given pool: no fee, and the share
    /// denomination that belongs to the pool.
    pub open spec fn for_pool(pool_id: u64, lock_duration: u64) -> ParametersView {
        ParametersView { pool_id, lock_duration, fee: 0, share_denom: share_denom_of(pool_id) }
    }

    /// The share denomination is the one of the pool, and no fee is taken.
    pub open spec fn well_formed(self) -> bool {
        self == ParametersView::for_pool(self.pool_id, self.lock_duration)
    }
}

impl Parameters {
    /// The parameters of a vault for the given pool.
    pub fn new(pool_id: u64, lock_duration: u64) -> (parameters: Parameters)
        ensures
            parameters@ == ParametersView::for_pool(pool_id, lock_duration),
            parameters@.well_formed(),
    {
        Parameters { pool_id, lock_duration, fee: 0, share_denom: share_denom(pool_id) }
    }
}

/// Where the pipelines stand. One slot, shared by every pipeline in flight.
#[derive(Clone, Copy, Debug, PartialEq, Eq, Structural)]
pub struct PipelineState {
    /// The current lock; 0 while there is none.
    pub lock_id: u64,
    /// The amount that an unbonding is to unlock; 0 while none was asked for.
    pub pending_unlock_amount: u64,
}

/// The durable state as one activation sees it.
///
/// A plain store: it checks nothing but that what is read was written. Both
/// slots are empty until initialization fills them.
#[derive(Clone, Debug, PartialEq, Eq)]
pub struct Store {
    parameters: Option<Parameters>,
    pipeline: Option<PipelineState>,
}

/// The value of a [`Store`]: what each of its two slots holds, if anything.
pub struct StoreView {
    pub parameters: Option<ParametersView>,
    pub pipeline: Option<PipelineState>,
}

impl View for Store {
    type V = StoreView;

    closed spec fn view(&self) -> StoreView {
        StoreView {
            parameters: match self.parameters {
                Some(parameters) => Some(parameters@),
                None => None,
            },
            pipeline: self.pipeline,
        }
    }
}

impl Store {
    /// The store before initialization.
    pub fn new() -> (store: Store)
        ensures
            store@ == (StoreView { parameters: None, pipeline: None }),
    {
        Store { parameters: None, pipeline: None }
    }

    /// The store with the given contents, as read back from durable storage.
    pub fn restore(
        parameters: Option<Parameters>,
        pipeline: Option<PipelineState>,
    ) -> (store: Store)
        ensures
            store@.parameters == match parameters {
                Some(p) => Some(p@),
                None => None,
            },
            store@.pipeline == pipeline,
    {
        Store { parameters, pipeline }
    }

    /// Reads the parameters. They are there once initialization has written
    /// them.
    pub fn load_parameters(&self) -> (loaded: Result<Parameters, ContractError>)
        ensures
            match loaded {
                Ok(parameters) => self@.parameters == Some(parameters@),
                Err(error) => self@.parameters is None && error == ContractError::NotInitialized,
            },
    {
        match &self.parameters {
            Some(parameters) => Ok(
                Parameters {
                    pool_id: parameters.pool_id,
                    lock_duration: parameters.lock_duration,
                    fee: parameters.fee,
                    share_denom: parameters.share_denom.clone(),
                },
            ),
            None => Err(ContractError::NotInitialized),
        }
    }

    /// Writes the parameters. They are written once: a store that holds
    /// parameters already is not accepted.
    pub fn save_parameters(&mut self, parameters: Parameters)
        requires
            old(self)@.parameters is None,
        ensures
            final(self)@ == (StoreView {
                parameters: Some(parameters@),
                pipeline: old(self)@.pipeline,
            }),
    {
        self.parameters = Some(parameters);
    }

    /// Reads the pipeline state. It is there once initialization has written
    /// it.
    pub fn load_pipeline_state(&self) -> (loaded: Result<PipelineState, ContractError>)
        ensures
            match loaded {
                Ok(state) => self@.pipeline == Some(state),
                Err(error) => self@.pipeline is None && error == ContractError::NotInitialized,
            },
    {
        match self.pipeline {
            Some(state) => Ok(state),
            None => Err(ContractError::NotInitialized),
        }
    }

    /// Overwrites the pipeline state, whatever it was.
    pub fn save_pipeline_state(&mut self, state: PipelineState)
        ensures
            final(self)@ == (StoreView {
                parameters: old(self)@.parameters,
                pipeline: Some(state),
            }),
    {
        self.pipeline = Some(state);
    }
}

} // verus!
