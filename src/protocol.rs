//! Facts about the dispatch/reply protocol, proved over the specifications
//! that the entry points meet.
use vstd::prelude::*;

use crate::contract::{execute_spec, reply_spec, INSTANTIATE_REPLY_ID, REDIRECT_FUNDS_ID};
use crate::error::ContractError;
use crate::execute::{create_pool_spec, redirect_funds_spec};
use crate::host::{Coin, MsgModel, Reply, Response, ResponseModel, SubMsgResult};
use crate::pool::instantiated;
use crate::query::pool_addr_of;
use crate::reply::spawned_address;
use crate::state::{outcome_is, FactoryModel};

verus! {

/// Redirecting funds to a pool id that was never handed out fails with
/// `PoolNotFound` for that id, once funds are attached.
pub proof fn lemma_redirect_unallocated_not_found(
    s: FactoryModel,
    sender: Seq<char>,
    funds: Seq<Coin>,
    pool_id: u64,
)
    requires
        s.wf(),
        funds.len() > 0,
        pool_id == 0 || pool_id > s.pool_count,
    ensures
        redirect_funds_spec(s, sender, funds, pool_id) == Err::<
            (FactoryModel, ResponseModel),
            ContractError,
        >(ContractError::PoolNotFound { pool_id }),
{
}

/// Two pool creations in a row hand out two different ids, the first one
/// smaller: each creation moves the counter on by one.
pub proof fn lemma_create_ids_increase(
    s0: FactoryModel,
    sender1: Seq<char>,
    title1: Seq<char>,
    sender2: Seq<char>,
    title2: Seq<char>,
)
    requires
        s0.pool_count < u64::MAX - 1,
    ensures
        ({
            let s1 = create_pool_spec(s0, sender1, title1).0;
            let s2 = create_pool_spec(s1, sender2, title2).0;
            &&& s1.pool_count == s0.pool_count + 1
            &&& s2.pool_count == s1.pool_count + 1
            &&& s1.pool_count < s2.pool_count
        }),
{
}

/// No operation but a pool creation moves the counter, and none moves it
/// back: ids handed out later are larger, whatever happens in between.
pub proof fn lemma_counter_never_decreases(
    s: FactoryModel,
    sender: Seq<char>,
    funds: Seq<Coin>,
    msg: crate::msg::ExecuteMsg,
    reply: Reply,
)
    requires
        msg is CreatePool ==> s.pool_count < u64::MAX,
    ensures
        execute_spec(s, sender, funds, msg) is Ok ==> s.pool_count <= execute_spec(
            s,
            sender,
            funds,
            msg,
        )->Ok_0.0.pool_count,
        msg is RedirectFund && execute_spec(s, sender, funds, msg) is Ok ==> execute_spec(
            s,
            sender,
            funds,
            msg,
        )->Ok_0.0.pool_count == s.pool_count,
        reply_spec(s, reply) is Ok ==> reply_spec(s, reply)->Ok_0.0.pool_count == s.pool_count,
{
}

/// Every operation that succeeds keeps each recorded pool id among the
/// ids handed out.
pub proof fn lemma_operations_keep_wf(
    s: FactoryModel,
    sender: Seq<char>,
    funds: Seq<Coin>,
    msg: crate::msg::ExecuteMsg,
    reply: Reply,
)
    requires
        s.wf(),
        msg is CreatePool ==> s.pool_count < u64::MAX,
    ensures
        execute_spec(s, sender, funds, msg) is Ok ==> execute_spec(
            s,
            sender,
            funds,
            msg,
        )->Ok_0.0.wf(),
        reply_spec(s, reply) is Ok ==> reply_spec(s, reply)->Ok_0.0.wf(),
{
}

/// A reply whose tag no dispatch uses fails with `UnknownReplyId`, and the
/// state, pool table and counter included, stays as it was.
pub proof fn lemma_unknown_reply_aborts(s: FactoryModel, reply: Reply)
    requires
        reply.id != INSTANTIATE_REPLY_ID,
        reply.id != REDIRECT_FUNDS_ID,
    ensures
        reply_spec(s, reply) == Err::<(FactoryModel, ResponseModel), ContractError>(
            ContractError::UnknownReplyId { id: reply.id },
        ),
        forall|r: Result<Response, ContractError>, after: FactoryModel|
            #[trigger] outcome_is(r, s, after, reply_spec(s, reply)) ==> after == s
                && after.pools == s.pools && after.pool_count == s.pool_count,
{
}

/// A transfer reply with no pending requester fails with
/// `MissingCorrelatorContext`.
pub proof fn lemma_transfer_reply_needs_pending(s: FactoryModel, reply: Reply)
    requires
        reply.id == REDIRECT_FUNDS_ID,
        s.pending is None,
    ensures
        reply_spec(s, reply) == Err::<(FactoryModel, ResponseModel), ContractError>(
            ContractError::MissingCorrelatorContext {},
        ),
{
}

/// Creating a pool and then receiving the spawn's confirmation of
/// `address` leaves `address` as what a query of the new id reports; the
/// spawned pool is initialised with the factory's admin and the title
/// asked for, so that the pool reports the factory's admin as its own.
pub proof fn lemma_create_then_spawn_round_trip(
    s0: FactoryModel,
    sender: Seq<char>,
    title: Seq<char>,
    result: SubMsgResult,
    address: Seq<char>,
)
    requires
        s0.pool_count < u64::MAX,
        spawned_address(result) == Some(address),
    ensures
        ({
            let (s1, resp) = create_pool_spec(s0, sender, title);
            let id = s1.pool_count;
            let after = reply_spec(s1, Reply { id: INSTANTIATE_REPLY_ID, result });
            &&& resp.messages.len() == 1
            &&& resp.messages[0].id == INSTANTIATE_REPLY_ID
            &&& resp.messages[0].msg matches MsgModel::Instantiate { init_admin, init_title, .. }
                && init_admin == s0.admin && init_title == title
                && instantiated(init_admin, init_title).admin == s0.admin
            &&& after is Ok
            &&& pool_addr_of(after->Ok_0.0, id) == address
            &&& s0.wf() ==> after->Ok_0.0.wf()
        }),
{
}

} // verus!
