//! Plain values exchanged with the host: funds, attributes, events, the
//! outbound messages of a response, and the replies to them.
use vstd::prelude::*;

use crate::msg::InitPoolMsg;

verus! {

/// An amount of one denomination of native tokens.
#[derive(Clone, Debug, PartialEq, Eq)]
pub struct Coin {
    pub denom: String,
    pub amount: u128,
}

/// A key/value pair attached to a response or an event.
#[derive(Clone, Debug, PartialEq, Eq)]
pub struct Attribute {
    pub key: String,
    pub value: String,
}

/// An event emitted by a message the host executed.
#[derive(Clone, Debug, PartialEq, Eq)]
pub struct Event {
    pub ty: String,
    pub attributes: Vec<Attribute>,
}

/// Who called, and which funds came with the call.
#[derive(Clone, Debug, PartialEq, Eq)]
pub struct MessageInfo {
    pub sender: String,
    pub funds: Vec<Coin>,
}

/// When the host is to call back with the outcome of a dispatched message.
#[derive(Clone, Copy, Debug, PartialEq, Eq)]
pub enum ReplyOn {
    Always,
    Error,
    Success,
    Never,
}

/// An outbound request to another execution unit.
#[derive(Clone, Debug, PartialEq, Eq)]
pub enum CosmosMsg {
    /// Move `amount` from this contract to `to_address`.
    BankSend { to_address: String, amount: Vec<Coin> },
    /// Spawn a new unit from stored code `code_id`, initialised with `msg`.
    Instantiate {
        admin: Option<String>,
        code_id: u64,
        msg: InitPoolMsg,
        funds: Vec<Coin>,
        label: String,
    },
}

/// A message together with its correlation tag and reply policy.
#[derive(Clone, Debug, PartialEq, Eq)]
pub struct SubMsg {
    pub id: u64,
    pub msg: CosmosMsg,
    pub reply_on: ReplyOn,
}

/// What an operation hands back to the host.
#[derive(Clone, Debug, PartialEq, Eq)]
pub struct Response {
    pub messages: Vec<SubMsg>,
    pub attributes: Vec<Attribute>,
}

/// The result of a message that succeeded.
#[derive(Clone, Debug, PartialEq, Eq)]
pub struct SubMsgResponse {
    pub events: Vec<Event>,
    pub data: Option<Vec<u8>>,
}

/// The outcome of a dispatched message.
#[derive(Clone, Debug, PartialEq, Eq)]
pub enum SubMsgResult {
    Success(SubMsgResponse),
    Failure(String),
}

/// The host's callback for a dispatched message, carrying its tag.
#[derive(Clone, Debug, PartialEq, Eq)]
pub struct Reply {
    pub id: u64,
    pub result: SubMsgResult,
}

/// A message as mathematical values.
pub ghost enum MsgModel {
    BankSend { to_address: Seq<char>, amount: Seq<Coin> },
    Instantiate {
        admin: Option<Seq<char>>,
        code_id: u64,
        init_admin: Seq<char>,
        init_title: Seq<char>,
        funds: Seq<Coin>,
        label: Seq<char>,
    },
}

pub ghost struct SubMsgModel {
    pub id: u64,
    pub msg: MsgModel,
    pub reply_on: ReplyOn,
}

/// A response as mathematical values: its messages in order, and its
/// attributes as (key, value) pairs in order.
pub ghost struct ResponseModel {
    pub messages: Seq<SubMsgModel>,
    pub attributes: Seq<(Seq<char>, Seq<char>)>,
}

impl View for Attribute {
    type V = (Seq<char>, Seq<char>);

    open spec fn view(&self) -> (Seq<char>, Seq<char>) {
        (self.key@, self.value@)
    }
}

impl View for CosmosMsg {
    type V = MsgModel;

    open spec fn view(&self) -> MsgModel {
        match self {
            CosmosMsg::BankSend { to_address, amount } => MsgModel::BankSend {
                to_address: to_address@,
                amount: amount@,
            },
            CosmosMsg::Instantiate { admin, code_id, msg, funds, label } => MsgModel::Instantiate {
                admin: match admin {
                    Some(a) => Some(a@),
                    None => None,
                },
                code_id: *code_id,
                init_admin: msg.admin@,
                init_title: msg.title@,
                funds: funds@,
                label: label@,
            },
        }
    }
}

impl View for SubMsg {
    type V = SubMsgModel;

    open spec fn view(&self) -> SubMsgModel {
        SubMsgModel { id: self.id, msg: self.msg@, reply_on: self.reply_on }
    }
}

impl View for Response {
    type V = ResponseModel;

    open spec fn view(&self) -> ResponseModel {
        ResponseModel {
            messages: self.messages@.map_values(|m: SubMsg| m@),
            attributes: self.attributes@.map_values(|a: Attribute| a@),
        }
    }
}

/// A response with no messages and no attributes.
pub open spec fn empty_response() -> ResponseModel {
    ResponseModel { messages: seq![], attributes: seq![] }
}

impl Response {
    /// A response with no messages and no attributes.
    pub fn new() -> (r: Response)
        ensures
            r@ == empty_response(),
            r.messages@.len() == 0,
            r.attributes@.len() == 0,
    {
        let r = Response { messages: Vec::new(), attributes: Vec::new() };
        assert(r@.messages =~= seq![]);
        assert(r@.attributes =~= seq![]);
        r
    }
}

/// The attribute `key = value`, built from literals.
pub fn attr(key: &str, value: String) -> (r: Attribute)
    ensures
        r.key@ == key@,
        r.value == value,
{
    Attribute { key: key.to_string(), value }
}

} // verus!

verus! {

/// The attribute `key = value`, both given as text.
pub fn attr_str(key: &str, value: &str) -> (r: Attribute)
    ensures
        r@ == (key@, value@),
{
    Attribute { key: key.to_string(), value: value.to_string() }
}

} // verus!
