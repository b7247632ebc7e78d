//! The factory's entry operations and the dispatches they emit.
use vstd::prelude::*;

use crate::contract::{INSTANTIATE_REPLY_ID, REDIRECT_FUNDS_ID};
use crate::error::ContractError;
use crate::host::{Coin, CosmosMsg, MessageInfo, MsgModel, ReplyOn, Response, ResponseModel, SubMsg, SubMsgModel};
use crate::msg::InitPoolMsg;
use crate::state::{next_id, outcome_is, Factory, FactoryModel};

verus! {

/// The spawn dispatch: instantiate code `code_id` as a pool administered by
/// `admin` and labelled `title`, with `migration_admin` as the host-level
/// admin of the new unit; replied to on success only.
pub open spec fn spawn_msg_model(
    code_id: u64,
    migration_admin: Seq<char>,
    admin: Seq<char>,
    title: Seq<char>,
) -> SubMsgModel {
    SubMsgModel {
        id: INSTANTIATE_REPLY_ID,
        msg: MsgModel::Instantiate {
            admin: Some(migration_admin),
            code_id,
            init_admin: admin,
            init_title: title,
            funds: seq![],
            label: title,
        },
        reply_on: ReplyOn::Success,
    }
}

/// The transfer dispatch: send `funds` to `to_address`; replied to on
/// success only.
pub open spec fn transfer_msg_model(to_address: Seq<char>, funds: Seq<Coin>) -> SubMsgModel {
    SubMsgModel {
        id: REDIRECT_FUNDS_ID,
        msg: MsgModel::BankSend { to_address, amount: funds },
        reply_on: ReplyOn::Success,
    }
}

/// A response that carries the single dispatch `m` and no attributes.
pub open spec fn dispatch_response(m: SubMsgModel) -> ResponseModel {
    ResponseModel { messages: seq![m], attributes: seq![] }
}

/// Creating a pool: the next id is allocated and a spawn dispatch for a
/// pool administered by the factory's admin is emitted.
pub open spec fn create_pool_spec(s: FactoryModel, sender: Seq<char>, title: Seq<char>) -> (
    FactoryModel,
    ResponseModel,
) {
    (
        s.with_count((s.pool_count + 1) as u64),
        dispatch_response(spawn_msg_model(s.pool_code_id, sender, s.admin, title)),
    )
}

/// Redirecting funds: refused without funds, refused for an unknown pool;
/// else the caller is remembered and all the funds are sent to the pool.
pub open spec fn redirect_funds_spec(
    s: FactoryModel,
    sender: Seq<char>,
    funds: Seq<Coin>,
    pool_id: u64,
) -> Result<(FactoryModel, ResponseModel), ContractError> {
    if funds.len() == 0 {
        Err(ContractError::NoFunds {})
    } else if !s.pools.contains_key(pool_id) {
        Err(ContractError::PoolNotFound { pool_id })
    } else {
        Ok(
            (
                s.with_pending(Some(sender)),
                dispatch_response(transfer_msg_model(s.pools[pool_id], funds)),
            ),
        )
    }
}

/// Builds the spawn dispatch of a pool administered by `admin` and
/// labelled `title`.
pub fn spawn_pool(code_id: u64, migration_admin: String, admin: String, title: String) -> (r:
    SubMsg)
    ensures
        r@ == spawn_msg_model(code_id, migration_admin@, admin@, title@),
{
    let label = title.clone();
    let funds: Vec<Coin> = Vec::new();
    assert(funds@ =~= seq![]);
    SubMsg {
        id: INSTANTIATE_REPLY_ID,
        msg: CosmosMsg::Instantiate {
            admin: Some(migration_admin),
            code_id,
            msg: InitPoolMsg { admin, title },
            funds,
            label,
        },
        reply_on: ReplyOn::Success,
    }
}

/// Builds the dispatch that sends `funds` to `to_address`.
pub fn transfer_to_pool(to_address: String, funds: Vec<Coin>) -> (r: SubMsg)
    ensures
        r@ == transfer_msg_model(to_address@, funds@),
{
    SubMsg {
        id: REDIRECT_FUNDS_ID,
        msg: CosmosMsg::BankSend { to_address, amount: funds },
        reply_on: ReplyOn::Success,
    }
}

/// A response that carries `m` alone.
pub fn with_dispatch(m: SubMsg) -> (r: Response)
    ensures
        r@ == dispatch_response(m@),
{
    let mut r = Response::new();
    r.messages.push(m);
    assert(r@.messages =~= seq![m@]);
    assert(r@.attributes =~= seq![]);
    r
}

/// Sends the funds attached to the call to pool `pool_id`, and remembers
/// the caller until the transfer's reply arrives.
pub fn execute_redirect_funds(state: &mut Factory, info: MessageInfo, pool_id: u64) -> (r: Result<
    Response,
    ContractError,
>)
    ensures
        outcome_is(
            r,
            old(state)@,
            final(state)@,
            redirect_funds_spec(old(state)@, info.sender@, info.funds@, pool_id),
        ),
{
    if info.funds.len() == 0 {
        return Err(ContractError::NoFunds {});
    }
    match state.lookup(pool_id) {
        Some(pool) => {
            state.stash(info.sender);
            Ok(with_dispatch(transfer_to_pool(pool, info.funds)))
        },
        None => Err(ContractError::PoolNotFound { pool_id }),
    }
}

/// Allocates the next pool id and emits the dispatch that spawns a pool
/// labelled `title`, administered by the factory's admin.
pub fn execute_create_pool(state: &mut Factory, info: MessageInfo, title: String) -> (r: Result<
    Response,
    ContractError,
>)
    requires
        old(state).pool_count < u64::MAX,
    ensures
        outcome_is(
            r,
            old(state)@,
            final(state)@,
            Ok(create_pool_spec(old(state)@, info.sender@, title@)),
        ),
{
    let _id = next_id(state);
    let admin = state.config.admin.clone();
    Ok(with_dispatch(spawn_pool(state.config.pool_code_id, info.sender, admin, title)))
}

} // verus!
