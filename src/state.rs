//! The factory's durable state: its configuration, the pool id counter,
//! the table from pool id to pool address, and the single pending-requester
//! slot that carries a redirect's caller across to its reply.
use std::collections::HashMap;
use vstd::prelude::*;

use crate::error::ContractError;

verus! {

broadcast use vstd::std_specs::hash::group_hash_axioms;

/// Set once at instantiation, never changed.
#[derive(Clone, Debug, PartialEq, Eq)]
pub struct Config {
    pub admin: String,
    pub pool_code_id: u64,
}

/// Everything the factory keeps between calls.
#[derive(Clone, Debug, PartialEq, Eq)]
pub struct Factory {
    pub config: Config,
    /// The last pool id handed out; 0 while none has been.
    pub pool_count: u64,
    /// Addresses of spawned pools, by pool id.
    pub pools: HashMap<u64, String>,
    /// The caller of the redirect whose transfer reply is awaited.
    pub pending: Option<String>,
}

/// The factory's state as mathematical values.
pub ghost struct FactoryModel {
    pub admin: Seq<char>,
    pub pool_code_id: u64,
    pub pool_count: u64,
    pub pools: Map<u64, Seq<char>>,
    pub pending: Option<Seq<char>>,
}

pub open spec fn opt_view(o: Option<String>) -> Option<Seq<char>> {
    match o {
        Some(s) => Some(s@),
        None => None,
    }
}

impl View for Factory {
    type V = FactoryModel;

    open spec fn view(&self) -> FactoryModel {
        FactoryModel {
            admin: self.config.admin@,
            pool_code_id: self.config.pool_code_id,
            pool_count: self.pool_count,
            pools: self.pools@.map_values(|a: String| a@),
            pending: opt_view(self.pending),
        }
    }
}

impl FactoryModel {
    /// Every recorded pool id has been handed out: it lies in `1..=pool_count`.
    pub open spec fn wf(self) -> bool {
        forall|k: u64| #[trigger] self.pools.contains_key(k) ==> 1 <= k <= self.pool_count
    }

    /// The state after the counter moves on to `id`.
    pub open spec fn with_count(self, id: u64) -> FactoryModel {
        FactoryModel { pool_count: id, ..self }
    }

    /// The state after `address` is recorded under `id`.
    pub open spec fn with_pool(self, id: u64, address: Seq<char>) -> FactoryModel {
        FactoryModel { pools: self.pools.insert(id, address), ..self }
    }

    /// The state after the pending-requester slot is set to `c`.
    pub open spec fn with_pending(self, c: Option<Seq<char>>) -> FactoryModel {
        FactoryModel { pending: c, ..self }
    }
}

/// Allocates a fresh pool id: one more than the last one handed out.
pub fn next_id(state: &mut Factory) -> (id: u64)
    requires
        old(state).pool_count < u64::MAX,
    ensures
        id == old(state).pool_count + 1,
        final(state)@ == old(state)@.with_count(id),
{
    let id: u64 = state.pool_count + 1;
    state.pool_count = id;
    id
}

impl Factory {
    /// A fresh factory with configuration `config`: no id handed out, no
    /// pool recorded, no request pending.
    pub fn new(config: Config) -> (r: Factory)
        ensures
            r@.admin == config.admin@,
            r@.pool_code_id == config.pool_code_id,
            r@.pool_count == 0,
            r@.pools == Map::<u64, Seq<char>>::empty(),
            r@.pending is None,
            r@.wf(),
    {
        let r = Factory { config, pool_count: 0, pools: HashMap::new(), pending: None };
        assert(r@.pools =~= Map::<u64, Seq<char>>::empty());
        r
    }

    /// Records `address` as the pool with id `id`; a second record for the
    /// same id replaces the first.
    pub fn record(&mut self, id: u64, address: String)
        ensures
            final(self)@ == old(self)@.with_pool(id, address@),
    {
        self.pools.insert(id, address);
        assert(self@.pools =~= old(self)@.pools.insert(id, address@));
    }

    /// The address recorded for pool `id`, if any.
    pub fn lookup(&self, id: u64) -> (r: Option<String>)
        ensures
            opt_view(r) == (if self@.pools.contains_key(id) {
                Some(self@.pools[id])
            } else {
                None
            }),
    {
        match self.pools.get(&id) {
            Some(a) => Some(a.clone()),
            None => None,
        }
    }

    /// Puts `requester` in the pending-requester slot, replacing what was there.
    pub fn stash(&mut self, requester: String)
        ensures
            final(self)@ == old(self)@.with_pending(Some(requester@)),
    {
        self.pending = Some(requester);
    }

    /// Empties the pending-requester slot and returns what it held; fails
    /// when it held nothing.
    pub fn take(&mut self) -> (r: Result<String, ContractError>)
        ensures
            match old(self)@.pending {
                Some(c) => r is Ok && r->Ok_0@ == c && final(self)@ == old(self)@.with_pending(None),
                None => r == Err::<String, ContractError>(ContractError::MissingCorrelatorContext {})
                    && final(self)@ == old(self)@,
            },
    {
        match self.pending.take() {
            Some(c) => Ok(c),
            None => Err(ContractError::MissingCorrelatorContext {}),
        }
    }
}

} // verus!

verus! {

/// `r`, with the state going from `before` to `after`, is the outcome
/// `expected`: on success the new state and the response it names; on
/// failure that error, with the state untouched.
pub open spec fn outcome_is(
    r: Result<crate::host::Response, ContractError>,
    before: FactoryModel,
    after: FactoryModel,
    expected: Result<(FactoryModel, crate::host::ResponseModel), ContractError>,
) -> bool {
    match expected {
        Ok((s, m)) => r is Ok && r->Ok_0@ == m && after == s,
        Err(e) => r == Err::<crate::host::Response, ContractError>(e) && after == before,
    }
}

} // verus!
