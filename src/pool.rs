//! A pool: a unit that holds funds which only its admin can release.
use vstd::prelude::*;

use crate::host::{
    attr,
    attr_str,
    empty_response,
    Coin,
    CosmosMsg,
    MessageInfo,
    MsgModel,
    ReplyOn,
    Response,
    ResponseModel,
    SubMsg,
    SubMsgModel,
};

verus! {

#[derive(Clone, Debug, PartialEq, Eq)]
pub struct InitMsg {
    pub admin: String,
    pub title: String,
}

#[derive(Clone, Debug, PartialEq, Eq)]
pub struct MigrateMsg {}

#[derive(Clone, Debug, PartialEq, Eq)]
pub enum ExecuteMsg {
    /// Send the pool's whole balance to `recipient`.
    WithdrawFunds { recipient: String },
}

#[derive(Clone, Debug, PartialEq, Eq)]
pub enum QueryMsg {
    Config {},
}

#[derive(Clone, Debug, PartialEq, Eq)]
pub struct ConfigResponse {
    pub admin: String,
    pub title: String,
}

/// Errors of a pool.
#[derive(Clone, Debug, PartialEq, Eq)]
pub enum ContractError {
    NoFunds {},
    /// The caller is not the pool's admin.
    Unauthorized,
    /// The recipient is not a valid address.
    InvalidFormat { recipient: String },
    /// The pool holds nothing.
    EmptyBalance,
}

/// Set at instantiation, never changed.
#[derive(Clone, Debug, PartialEq, Eq)]
pub struct Config {
    pub admin: String,
    pub title: String,
}

/// Everything a pool keeps between calls.
#[derive(Clone, Debug, PartialEq, Eq)]
pub struct Pool {
    pub config: Config,
}

pub ghost struct PoolModel {
    pub admin: Seq<char>,
    pub title: Seq<char>,
}

impl View for Pool {
    type V = PoolModel;

    open spec fn view(&self) -> PoolModel {
        PoolModel { admin: self.config.admin@, title: self.config.title@ }
    }
}

/// A pool just instantiated with `admin` and `title`.
pub open spec fn instantiated(admin: Seq<char>, title: Seq<char>) -> PoolModel {
    PoolModel { admin, title }
}

/// The response of a withdrawal of `balance` to `recipient`: one transfer,
/// with no reply asked for.
pub open spec fn withdraw_response(recipient: Seq<char>, balance: Seq<Coin>) -> ResponseModel {
    ResponseModel {
        messages: seq![
            SubMsgModel {
                id: 0,
                msg: MsgModel::BankSend { to_address: recipient, amount: balance },
                reply_on: ReplyOn::Never,
            },
        ],
        attributes: seq![("action"@, "withdraw_funds"@), ("recipient"@, recipient)],
    }
}

/// A withdrawal asked by `sender`: only the admin may, to a valid
/// recipient, and only when the pool holds something.
pub open spec fn withdraw_spec(
    p: PoolModel,
    sender: Seq<char>,
    recipient: String,
    recipient_valid: bool,
    balance: Seq<Coin>,
) -> Result<ResponseModel, ContractError> {
    if sender != p.admin {
        Err(ContractError::Unauthorized)
    } else if !recipient_valid {
        Err(ContractError::InvalidFormat { recipient })
    } else if balance.len() == 0 {
        Err(ContractError::EmptyBalance)
    } else {
        Ok(withdraw_response(recipient@, balance))
    }
}

/// `r` is the outcome `expected`.
pub open spec fn pool_outcome_is(
    r: Result<Response, ContractError>,
    expected: Result<ResponseModel, ContractError>,
) -> bool {
    match expected {
        Ok(m) => r is Ok && r->Ok_0@ == m,
        Err(e) => r == Err::<Response, ContractError>(e),
    }
}

/// Sets up a pool from `msg`, whose admin the host has validated.
pub fn instantiate(msg: InitMsg) -> (r: (Pool, Response))
    ensures
        r.0@ == instantiated(msg.admin@, msg.title@),
        r.1@ == empty_response(),
{
    (Pool { config: Config { admin: msg.admin, title: msg.title } }, Response::new())
}

/// Sends the whole `balance` of the pool to `recipient`, on the admin's
/// request; `recipient_valid` is the host's verdict on the recipient's
/// address.
pub fn execute_withdraw_funds(
    pool: &Pool,
    info: MessageInfo,
    recipient: String,
    recipient_valid: bool,
    balance: Vec<Coin>,
) -> (r: Result<Response, ContractError>)
    ensures
        pool_outcome_is(r, withdraw_spec(pool@, info.sender@, recipient, recipient_valid, balance@)),
{
    if info.sender != pool.config.admin {
        return Err(ContractError::Unauthorized);
    }
    if !recipient_valid {
        return Err(ContractError::InvalidFormat { recipient });
    }
    if balance.len() == 0 {
        return Err(ContractError::EmptyBalance);
    }
    let to = recipient.clone();
    let m = SubMsg {
        id: 0,
        msg: CosmosMsg::BankSend { to_address: to, amount: balance },
        reply_on: ReplyOn::Never,
    };
    let mut resp = Response::new();
    resp.messages.push(m);
    resp.attributes.push(attr_str("action", "withdraw_funds"));
    resp.attributes.push(attr("recipient", recipient));
    assert(resp@.messages =~= withdraw_response(to@, balance@).messages);
    assert(resp@.attributes =~= withdraw_response(to@, balance@).attributes);
    Ok(resp)
}

/// Runs an execute message; for a withdrawal, `recipient_valid` and
/// `balance` are what the host reports of the recipient and of the pool's
/// holdings.
pub fn execute(
    pool: &Pool,
    info: MessageInfo,
    msg: ExecuteMsg,
    recipient_valid: bool,
    balance: Vec<Coin>,
) -> (r: Result<Response, ContractError>)
    ensures
        match msg {
            ExecuteMsg::WithdrawFunds { recipient } => pool_outcome_is(
                r,
                withdraw_spec(pool@, info.sender@, recipient, recipient_valid, balance@),
            ),
        },
{
    match msg {
        ExecuteMsg::WithdrawFunds { recipient } => execute_withdraw_funds(
            pool,
            info,
            recipient,
            recipient_valid,
            balance,
        ),
    }
}

/// The pool's configuration.
pub fn query_config(pool: &Pool) -> (r: ConfigResponse)
    ensures
        r.admin@ == pool@.admin,
        r.title@ == pool@.title,
{
    ConfigResponse { admin: pool.config.admin.clone(), title: pool.config.title.clone() }
}

/// Answers a query.
pub fn query(pool: &Pool, msg: QueryMsg) -> (r: ConfigResponse)
    ensures
        r.admin@ == pool@.admin,
        r.title@ == pool@.title,
{
    match msg {
        QueryMsg::Config {  } => query_config(pool),
    }
}

/// Nothing to migrate.
pub fn migrate(_msg: MigrateMsg) -> (r: Response)
    ensures
        r@ == empty_response(),
{
    Response::new()
}

} // verus!
