//! Read-only views of the factory.
use vstd::prelude::*;

use crate::state::{Factory, FactoryModel};

verus! {

#[derive(Clone, Debug, PartialEq, Eq)]
pub struct ConfigResponse {
    pub admin: String,
    pub pool_code_id: u64,
}

#[derive(Clone, Debug, PartialEq, Eq)]
pub struct PoolResponse {
    pub pool_id: u64,
    pub pool_addr: String,
}

/// The address a pool query reports: the recorded one, or empty text where
/// none is recorded.
pub open spec fn pool_addr_of(s: FactoryModel, pool_id: u64) -> Seq<char> {
    if s.pools.contains_key(pool_id) {
        s.pools[pool_id]
    } else {
        seq![]
    }
}

/// The factory's configuration.
pub fn query_config(state: &Factory) -> (r: ConfigResponse)
    ensures
        r.admin@ == state@.admin,
        r.pool_code_id == state@.pool_code_id,
{
    ConfigResponse { admin: state.config.admin.clone(), pool_code_id: state.config.pool_code_id }
}

/// The address recorded for pool `pool_id`, empty where there is none.
pub fn query_pool(state: &Factory, pool_id: u64) -> (r: PoolResponse)
    ensures
        r.pool_id == pool_id,
        r.pool_addr@ == pool_addr_of(state@, pool_id),
{
    match state.lookup(pool_id) {
        Some(pool) => PoolResponse { pool_id, pool_addr: pool },
        None => PoolResponse { pool_id, pool_addr: String::new() },
    }
}

} // verus!
