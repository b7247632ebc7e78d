//! Errors of the factory.
use vstd::prelude::*;

verus! {

/// Every error aborts the transaction it occurs in.
#[derive(Clone, Debug, PartialEq, Eq)]
pub enum ContractError {
    /// A call that must carry funds carried none.
    NoFunds {},
    /// No pool address is recorded under `pool_id`.
    PoolNotFound { pool_id: u64 },
    /// A reply came back with a tag that no dispatch of this contract uses.
    UnknownReplyId { id: u64 },
    /// The caller is not allowed to do this.
    Unauthorized,
    /// The token has not been allowed.
    NotOnAllowList,
    /// A reply reported failure, or carried a confirmation that could not
    /// be decoded.
    DecodeFailure {},
    /// A reply arrived with no pending request to resume.
    MissingCorrelatorContext {},
}

} // verus!
