//! The reply resolver: resumes an operation when the host reports the
//! outcome of the dispatch it emitted.
use vstd::prelude::*;

use crate::error::ContractError;
use crate::host::{attr, attr_str, Response, ResponseModel, SubMsgResponse, SubMsgResult};
use crate::state::{outcome_is, Factory, FactoryModel};

verus! {

/// The address held in an encoded instantiation confirmation, or `None`
/// where the bytes do not decode.
pub uninterp spec fn instantiate_address_of(data: Seq<u8>) -> Option<Seq<char>>;

#[verifier::external_type_specification]
#[verifier::external_body]
pub struct ExParseReplyError(cw_utils::ParseReplyError);

/// Relies on cw_utils::parse_instantiate_response_data: decodes the
/// protobuf instantiation confirmation of a spawn's reply data into the new
/// contract's address; the outcome depends on the bytes alone.
#[verifier::external_body]
fn parse_instantiate_response_data(data: &Vec<u8>) -> (r: Result<
    String,
    cw_utils::ParseReplyError,
>)
    ensures
        match r {
            Ok(a) => instantiate_address_of(data@) == Some(a@),
            Err(_) => instantiate_address_of(data@) is None,
        },
{
    cw_utils::parse_instantiate_response_data(data.as_slice()).map(|res| res.contract_address)
}

/// The new pool's address that a spawn reply confirms, if it confirms one.
pub open spec fn spawned_address(result: SubMsgResult) -> Option<Seq<char>> {
    match result {
        SubMsgResult::Success(resp) => match resp.data {
            Some(d) => instantiate_address_of(d@),
            None => None,
        },
        SubMsgResult::Failure(_) => None,
    }
}

/// The observation of a pool spawned at `address`.
pub open spec fn spawned_response(address: Seq<char>) -> ResponseModel {
    ResponseModel {
        messages: seq![],
        attributes: seq![("action"@, "instantiated by factory"@), ("pool_addr"@, address)],
    }
}

/// A spawn confirmed at `address` is recorded under the id that the
/// creation allocated, the counter's current value; with no id allocated
/// there is no creation to resume.
pub open spec fn spawn_confirmed_spec(s: FactoryModel, address: Seq<char>) -> Result<
    (FactoryModel, ResponseModel),
    ContractError,
> {
    if s.pool_count == 0 {
        Err(ContractError::MissingCorrelatorContext {})
    } else {
        Ok((s.with_pool(s.pool_count, address), spawned_response(address)))
    }
}

/// The reply to a spawn dispatch.
pub open spec fn instantiate_reply_spec(s: FactoryModel, result: SubMsgResult) -> Result<
    (FactoryModel, ResponseModel),
    ContractError,
> {
    match spawned_address(result) {
        Some(a) => spawn_confirmed_spec(s, a),
        None => Err(ContractError::DecodeFailure {}),
    }
}

/// The observation of a redirect made by `requester`.
pub open spec fn redirected_response(requester: Seq<char>) -> ResponseModel {
    ResponseModel {
        messages: seq![],
        attributes: seq![("action"@, "redirected"@), ("contributor"@, requester)],
    }
}

/// The reply to a successful transfer dispatch: the pending requester is
/// taken out of its slot and named.
pub open spec fn transfer_reply_spec(s: FactoryModel) -> Result<
    (FactoryModel, ResponseModel),
    ContractError,
> {
    match s.pending {
        Some(c) => Ok((s.with_pending(None), redirected_response(c))),
        None => Err(ContractError::MissingCorrelatorContext {}),
    }
}

/// Records the pool that a spawn reply confirmed at `address`.
pub fn record_spawned_pool(state: &mut Factory, address: String) -> (r: Result<
    Response,
    ContractError,
>)
    ensures
        outcome_is(r, old(state)@, final(state)@, spawn_confirmed_spec(old(state)@, address@)),
{
    if state.pool_count == 0 {
        return Err(ContractError::MissingCorrelatorContext {});
    }
    let id = state.pool_count;
    let value = address.clone();
    state.record(id, address);
    let mut resp = Response::new();
    resp.attributes.push(attr_str("action", "instantiated by factory"));
    resp.attributes.push(attr("pool_addr", value));
    assert(resp@.messages =~= spawned_response(value@).messages);
    assert(resp@.attributes =~= spawned_response(value@).attributes);
    Ok(resp)
}

/// Resumes a pool creation: decodes the spawned pool's address from the
/// reply and records it.
pub fn handle_instantiate_reply(state: &mut Factory, msg: crate::host::Reply) -> (r: Result<
    Response,
    ContractError,
>)
    ensures
        outcome_is(r, old(state)@, final(state)@, instantiate_reply_spec(old(state)@, msg.result)),
{
    match msg.result {
        SubMsgResult::Success(resp) => match resp.data {
            Some(data) => match parse_instantiate_response_data(&data) {
                Ok(address) => record_spawned_pool(state, address),
                Err(_) => Err(ContractError::DecodeFailure {}),
            },
            None => Err(ContractError::DecodeFailure {}),
        },
        SubMsgResult::Failure(_) => Err(ContractError::DecodeFailure {}),
    }
}

/// Resumes a redirect: empties the pending-requester slot and names the
/// requester.
pub fn handle_transfer_reply(state: &mut Factory, _msg: SubMsgResponse) -> (r: Result<
    Response,
    ContractError,
>)
    ensures
        outcome_is(r, old(state)@, final(state)@, transfer_reply_spec(old(state)@)),
{
    let requester = state.take()?;
    let mut resp = Response::new();
    let a0 = attr_str("action", "redirected");
    let a1 = attr("contributor", requester);
    resp.attributes.push(a0);
    resp.attributes.push(a1);

    assert(resp@.messages =~= redirected_response(requester@).messages);
    assert(resp@.attributes =~= redirected_response(requester@).attributes);
    Ok(resp)
}

} // verus!
