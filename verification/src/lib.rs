//! Orchestration of a liquidity vault's multi-step pipelines.
//!
//! A pipeline (deposit, compound, unbond) hands operations to an execution
//! environment that runs them one at a time and reports each completion in a
//! later, separate activation. Nothing survives between activations but what
//! is written to the [`state::Store`], so every step is a function from the
//! stored state and the incoming event to the next stored state and the
//! operations to dispatch.
//!
//! - [`contract`]: the entry points and the continuations behind them.
//! - [`correlation`]: the tags that tie a completion to its continuation.
//! - [`state`]: the parameters, the pipeline state and the store of both.
//! - [`operation`]: what an activation hands back.
//! - [`decoder`]: reading the payload of a completion.
//! - [`codec`]: the wire forms, which are the work of `osmosis_std`.
//! - [`decimal`]: numbers as decimal text.
//! - [`msg`], [`error`]: commands, queries and failures.
//! - [`laws`]: what holds of the pipelines as a whole.

pub mod codec;
pub mod contract;
pub mod correlation;
pub mod decimal;
pub mod decoder;
pub mod error;
pub mod laws;
pub mod msg;
pub mod operation;
pub mod state;
