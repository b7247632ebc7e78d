//! Messages accepted by the factory.
use vstd::prelude::*;

verus! {

/// Creates a factory administered by `admin`, spawning pools from stored
/// code `pool_code_id`.
#[derive(Clone, Debug, PartialEq, Eq)]
pub struct InitMsg {
    pub admin: String,
    pub pool_code_id: u64,
}

/// The initialisation message a spawned pool receives.
#[derive(Clone, Debug, PartialEq, Eq)]
pub struct InitPoolMsg {
    pub admin: String,
    pub title: String,
}

#[derive(Clone, Debug, PartialEq, Eq)]
pub struct MigrateMsg {}

#[derive(Clone, Debug, PartialEq, Eq)]
pub enum ExecuteMsg {
    /// Spawn a new pool labelled `title`.
    CreatePool { title: String },
    /// Forward the attached funds to pool `pool_id`.
    RedirectFund { pool_id: u64 },
}

#[derive(Clone, Debug, PartialEq, Eq)]
pub enum QueryMsg {
    PoolAddress { pool_id: u64 },
    Config {},
}

} // verus!
