//! A pool factory: it spawns fund-holding pools on demand and forwards
//! incoming funds to a pool named by its numeric id, correlating each
//! outbound dispatch with the reply that the host delivers for it.
//!
//! The host (the chain) owns storage, message execution and address
//! validation; this crate holds the decisions, as functions from state and
//! input to next state and output.

pub mod contract;
pub mod error;
pub mod execute;
pub mod helpers;
pub mod host;
pub mod msg;
pub mod pool;
pub mod protocol;
pub mod query;
pub mod reply;
pub mod state;

pub use crate::error::ContractError;
