//! The factory's entry points, as the host calls them.
use vstd::prelude::*;

use crate::error::ContractError;
use crate::execute::{
    create_pool_spec,
    execute_create_pool,
    execute_redirect_funds,
    redirect_funds_spec,
};
use crate::helpers::unwrap_reply;
use crate::host::{empty_response, Coin, MessageInfo, Reply, Response, ResponseModel, SubMsgResult};
use crate::msg::{ExecuteMsg, InitMsg, MigrateMsg, QueryMsg};
use crate::query::{query_config, query_pool, ConfigResponse, PoolResponse};
use crate::reply::{
    handle_instantiate_reply,
    handle_transfer_reply,
    instantiate_reply_spec,
    transfer_reply_spec,
};
use crate::state::{outcome_is, Config, Factory, FactoryModel};

verus! {

/// The correlation tag of a spawn dispatch.
pub const INSTANTIATE_REPLY_ID: u64 = 0;

/// The correlation tag of a transfer dispatch.
pub const REDIRECT_FUNDS_ID: u64 = 1;

/// The answer to a query.
#[derive(Clone, Debug, PartialEq, Eq)]
pub enum QueryResponse {
    PoolAddress(PoolResponse),
    Config(ConfigResponse),
}

/// A factory just instantiated: configured, with no id handed out, no pool
/// recorded and no request pending.
pub open spec fn initial_state(admin: Seq<char>, pool_code_id: u64) -> FactoryModel {
    FactoryModel {
        admin,
        pool_code_id,
        pool_count: 0,
        pools: Map::empty(),
        pending: None,
    }
}

/// What an execute message does to state `s` when `sender` calls with
/// `funds` attached.
pub open spec fn execute_spec(
    s: FactoryModel,
    sender: Seq<char>,
    funds: Seq<Coin>,
    msg: ExecuteMsg,
) -> Result<(FactoryModel, ResponseModel), ContractError> {
    match msg {
        ExecuteMsg::CreatePool { title } => Ok(create_pool_spec(s, sender, title@)),
        ExecuteMsg::RedirectFund { pool_id } => redirect_funds_spec(s, sender, funds, pool_id),
    }
}

/// What a reply does to state `s`, routed by its correlation tag. A
/// transfer reply first needs a pending requester, then a success outcome.
pub open spec fn reply_spec(s: FactoryModel, reply: Reply) -> Result<
    (FactoryModel, ResponseModel),
    ContractError,
> {
    if reply.id == INSTANTIATE_REPLY_ID {
        instantiate_reply_spec(s, reply.result)
    } else if reply.id == REDIRECT_FUNDS_ID {
        if s.pending is None {
            Err(ContractError::MissingCorrelatorContext {})
        } else {
            match reply.result {
                SubMsgResult::Success(_) => transfer_reply_spec(s),
                SubMsgResult::Failure(_) => Err(ContractError::DecodeFailure {}),
            }
        }
    } else {
        Err(ContractError::UnknownReplyId { id: reply.id })
    }
}

/// Sets up a factory from `msg`, whose admin the host has validated.
pub fn instantiate(msg: InitMsg) -> (r: (Factory, Response))
    ensures
        r.0@ == initial_state(msg.admin@, msg.pool_code_id),
        r.0@.wf(),
        r.1@ == empty_response(),
{
    let state = Factory::new(Config { admin: msg.admin, pool_code_id: msg.pool_code_id });
    (state, Response::new())
}

/// Runs an execute message sent by `info.sender` with `info.funds`.
pub fn execute(state: &mut Factory, info: MessageInfo, msg: ExecuteMsg) -> (r: Result<
    Response,
    ContractError,
>)
    requires
        msg is CreatePool ==> old(state).pool_count < u64::MAX,
    ensures
        outcome_is(
            r,
            old(state)@,
            final(state)@,
            execute_spec(old(state)@, info.sender@, info.funds@, msg),
        ),
{
    match msg {
        ExecuteMsg::CreatePool { title } => execute_create_pool(state, info, title),
        ExecuteMsg::RedirectFund { pool_id } => execute_redirect_funds(state, info, pool_id),
    }
}

/// Nothing to migrate.
pub fn migrate(_msg: MigrateMsg) -> (r: Response)
    ensures
        r@ == empty_response(),
{
    Response::new()
}

/// Answers a query.
pub fn query(state: &Factory, msg: QueryMsg) -> (r: QueryResponse)
    ensures
        match msg {
            QueryMsg::PoolAddress { pool_id } => r is PoolAddress && r->PoolAddress_0.pool_id
                == pool_id && r->PoolAddress_0.pool_addr@ == crate::query::pool_addr_of(
                state@,
                pool_id,
            ),
            QueryMsg::Config {  } => r is Config && r->Config_0.admin@ == state@.admin
                && r->Config_0.pool_code_id == state@.pool_code_id,
        },
{
    match msg {
        QueryMsg::PoolAddress { pool_id } => QueryResponse::PoolAddress(query_pool(state, pool_id)),
        QueryMsg::Config {  } => QueryResponse::Config(query_config(state)),
    }
}

/// Resumes the operation whose dispatch `reply` answers.
pub fn reply(state: &mut Factory, msg: Reply) -> (r: Result<Response, ContractError>)
    ensures
        outcome_is(r, old(state)@, final(state)@, reply_spec(old(state)@, msg)),
{
    if msg.id == INSTANTIATE_REPLY_ID {
        handle_instantiate_reply(state, msg)
    } else if msg.id == REDIRECT_FUNDS_ID {
        if state.pending.is_none() {
            return Err(ContractError::MissingCorrelatorContext {});
        }
        match unwrap_reply(msg) {
            Ok(resp) => handle_transfer_reply(state, resp),
            Err(_) => Err(ContractError::DecodeFailure {}),
        }
    } else {
        Err(ContractError::UnknownReplyId { id: msg.id })
    }
}

} // verus!
