use pool_factory::contract::{
    execute, instantiate, migrate, query, reply, QueryResponse, INSTANTIATE_REPLY_ID,
    REDIRECT_FUNDS_ID,
};
use pool_factory::execute::{execute_create_pool, spawn_pool, transfer_to_pool};
use pool_factory::helpers::{event_contains_attr, unwrap_reply};
use pool_factory::host::{
    Attribute, Coin, CosmosMsg, Event, MessageInfo, Reply, ReplyOn, SubMsg, SubMsgResponse,
    SubMsgResult,
};
use pool_factory::msg::{ExecuteMsg, InitMsg, InitPoolMsg, MigrateMsg, QueryMsg};
use pool_factory::query::{query_config, query_pool};
use pool_factory::reply::{handle_transfer_reply, record_spawned_pool};
use pool_factory::state::{next_id, Config, Factory};
use pool_factory::{pool, ContractError};

const DUMMY: &str = "cosmos1y4fu4qfxxs9yg2pec9ualrgr9wxfyt77k45e55";

fn info(sender: &str, funds: &[Coin]) -> MessageInfo {
    MessageInfo { sender: sender.to_string(), funds: funds.to_vec() }
}

fn coin(amount: u128, denom: &str) -> Coin {
    Coin { denom: denom.to_string(), amount }
}

fn factory(admin: &str) -> Factory {
    instantiate(InitMsg { admin: admin.to_string(), pool_code_id: 5 }).0
}

/// The protobuf instantiation confirmation naming `address`.
fn confirmation(address: &str) -> Vec<u8> {
    let mut data = vec![0x0a, address.len() as u8];
    data.extend_from_slice(address.as_bytes());
    data
}

fn spawn_reply(address: &str) -> Reply {
    Reply {
        id: INSTANTIATE_REPLY_ID,
        result: SubMsgResult::Success(SubMsgResponse {
            events: vec![],
            data: Some(confirmation(address)),
        }),
    }
}

fn transfer_reply() -> Reply {
    Reply {
        id: REDIRECT_FUNDS_ID,
        result: SubMsgResult::Success(SubMsgResponse { events: vec![], data: None }),
    }
}

fn attrs(pairs: &[(&str, &str)]) -> Vec<Attribute> {
    pairs
        .iter()
        .map(|(k, v)| Attribute { key: k.to_string(), value: v.to_string() })
        .collect()
}

#[test]
fn proper_init() {
    let (state, res) = instantiate(InitMsg { admin: DUMMY.to_string(), pool_code_id: 0 });
    assert_eq!(0, res.messages.len());
    let value = match query(&state, QueryMsg::Config {}) {
        QueryResponse::Config(c) => c,
        other => panic!("unexpected answer {:?}", other),
    };
    assert_eq!(DUMMY, value.admin);
    assert_eq!(0, value.pool_code_id);
}

#[test]
fn redirect_to_unallocated_pool_is_not_found() {
    let mut state = factory("A");
    for pool_id in [0u64, 1, 7, u64::MAX] {
        let before = state.clone();
        let err = execute(
            &mut state,
            info("caller", &[coin(100, "token")]),
            ExecuteMsg::RedirectFund { pool_id },
        )
        .unwrap_err();
        assert_eq!(err, ContractError::PoolNotFound { pool_id });
        assert_eq!(state, before);
    }
}

#[test]
fn create_hands_out_increasing_ids() {
    let mut state = factory("A");
    let title = "T".to_string();
    execute(&mut state, info("s", &[]), ExecuteMsg::CreatePool { title: title.clone() }).unwrap();
    assert_eq!(state.pool_count, 1);
    execute(&mut state, info("s", &[]), ExecuteMsg::CreatePool { title }).unwrap();
    assert_eq!(state.pool_count, 2);
    assert_eq!(next_id(&mut state), 3);
    assert_eq!(state.pool_count, 3);
}

#[test]
fn create_emits_spawn_dispatch() {
    let mut state = factory("A");
    let res = execute_create_pool(&mut state, info("creator", &[]), "T".to_string()).unwrap();
    let expected = SubMsg {
        id: INSTANTIATE_REPLY_ID,
        msg: CosmosMsg::Instantiate {
            admin: Some("creator".to_string()),
            code_id: 5,
            msg: InitPoolMsg { admin: "A".to_string(), title: "T".to_string() },
            funds: vec![],
            label: "T".to_string(),
        },
        reply_on: ReplyOn::Success,
    };
    assert_eq!(res.messages, vec![expected.clone()]);
    assert!(res.attributes.is_empty());
    assert_eq!(
        spawn_pool(5, "creator".to_string(), "A".to_string(), "T".to_string()),
        expected
    );
}

#[test]
fn unknown_reply_tag_aborts_without_change() {
    let mut state = factory("A");
    execute(&mut state, info("s", &[]), ExecuteMsg::CreatePool { title: "T".to_string() }).unwrap();
    reply(&mut state, spawn_reply("pool-1")).unwrap();
    let before = state.clone();
    let err = reply(&mut state, Reply { id: 9, ..spawn_reply("pool-2") }).unwrap_err();
    assert_eq!(err, ContractError::UnknownReplyId { id: 9 });
    assert_eq!(state, before);
}

#[test]
fn transfer_reply_without_pending_requester() {
    let mut state = factory("A");
    let err = reply(&mut state, transfer_reply()).unwrap_err();
    assert_eq!(err, ContractError::MissingCorrelatorContext {});
    let failed = Reply { id: REDIRECT_FUNDS_ID, result: SubMsgResult::Failure("x".to_string()) };
    assert_eq!(reply(&mut state, failed).unwrap_err(), ContractError::MissingCorrelatorContext {});
    let err = handle_transfer_reply(&mut state, SubMsgResponse { events: vec![], data: None });
    assert_eq!(err.unwrap_err(), ContractError::MissingCorrelatorContext {});
}

#[test]
fn create_then_spawn_reply_round_trip() {
    let mut state = factory("A");
    let res =
        execute(&mut state, info("creator", &[]), ExecuteMsg::CreatePool { title: "T".to_string() })
            .unwrap();
    let id = state.pool_count;
    let res2 = reply(&mut state, spawn_reply("pool-x")).unwrap();
    assert_eq!(res2.attributes, attrs(&[("action", "instantiated by factory"), ("pool_addr", "pool-x")]));
    assert_eq!(query_pool(&state, id).pool_addr, "pool-x");
    let init = match &res.messages[0].msg {
        CosmosMsg::Instantiate { msg, .. } => msg.clone(),
        other => panic!("unexpected message {:?}", other),
    };
    let (spawned, _) = pool::instantiate(pool::InitMsg { admin: init.admin, title: init.title });
    let cfg = pool::query(&spawned, pool::QueryMsg::Config {});
    assert_eq!(cfg.admin, "A");
    assert_eq!(cfg.title, "T");
}

#[test]
fn redirect_to_pool_seven() {
    let mut state = factory("A");
    state.pool_count = 7;
    state.record(7, "X".to_string());
    let res = execute(
        &mut state,
        info("caller", &[coin(100, "token")]),
        ExecuteMsg::RedirectFund { pool_id: 7 },
    )
    .unwrap();
    let expected = SubMsg {
        id: REDIRECT_FUNDS_ID,
        msg: CosmosMsg::BankSend { to_address: "X".to_string(), amount: vec![coin(100, "token")] },
        reply_on: ReplyOn::Success,
    };
    assert_eq!(res.messages, vec![expected.clone()]);
    assert_eq!(transfer_to_pool("X".to_string(), vec![coin(100, "token")]), expected);
    assert_eq!(state.pending, Some("caller".to_string()));
    let res2 = reply(&mut state, transfer_reply()).unwrap();
    assert_eq!(res2.attributes, attrs(&[("action", "redirected"), ("contributor", "caller")]));
    assert!(res2.messages.is_empty());
    assert_eq!(state.pending, None);
}

#[test]
fn redirect_sends_all_attached_funds() {
    let mut state = factory("A");
    state.pool_count = 1;
    state.record(1, "P".to_string());
    let funds = [coin(100, "token"), coin(3, "other")];
    let res = execute(&mut state, info("c", &funds), ExecuteMsg::RedirectFund { pool_id: 1 }).unwrap();
    assert_eq!(
        res.messages[0].msg,
        CosmosMsg::BankSend { to_address: "P".to_string(), amount: funds.to_vec() }
    );
}

#[test]
fn redirect_without_funds() {
    let mut state = factory("A");
    state.pool_count = 7;
    state.record(7, "X".to_string());
    let before = state.clone();
    let err = execute(&mut state, info("caller", &[]), ExecuteMsg::RedirectFund { pool_id: 7 })
        .unwrap_err();
    assert_eq!(err, ContractError::NoFunds {});
    assert_eq!(state, before);
}

#[test]
fn spawn_reply_decode_failures() {
    let mut state = factory("A");
    execute(&mut state, info("s", &[]), ExecuteMsg::CreatePool { title: "T".to_string() }).unwrap();
    let before = state.clone();
    let failed = Reply { id: INSTANTIATE_REPLY_ID, result: SubMsgResult::Failure("no".to_string()) };
    assert_eq!(reply(&mut state, failed).unwrap_err(), ContractError::DecodeFailure {});
    let no_data = Reply {
        id: INSTANTIATE_REPLY_ID,
        result: SubMsgResult::Success(SubMsgResponse { events: vec![], data: None }),
    };
    assert_eq!(reply(&mut state, no_data).unwrap_err(), ContractError::DecodeFailure {});
    let malformed = Reply {
        id: INSTANTIATE_REPLY_ID,
        result: SubMsgResult::Success(SubMsgResponse { events: vec![], data: Some(vec![0x12, 1, 0x41]) }),
    };
    assert_eq!(reply(&mut state, malformed).unwrap_err(), ContractError::DecodeFailure {});
    assert_eq!(state, before);
}

#[test]
fn spawn_reply_before_any_creation() {
    let mut state = factory("A");
    let err = reply(&mut state, spawn_reply("pool-x")).unwrap_err();
    assert_eq!(err, ContractError::MissingCorrelatorContext {});
    assert_eq!(
        record_spawned_pool(&mut state, "pool-x".to_string()).unwrap_err(),
        ContractError::MissingCorrelatorContext {}
    );
    assert!(state.pools.is_empty());
}

#[test]
fn transfer_reply_reporting_failure() {
    let mut state = factory("A");
    state.stash("caller".to_string());
    let failed = Reply { id: REDIRECT_FUNDS_ID, result: SubMsgResult::Failure("x".to_string()) };
    assert_eq!(reply(&mut state, failed).unwrap_err(), ContractError::DecodeFailure {});
    assert_eq!(state.pending, Some("caller".to_string()));
}

#[test]
fn record_replaces_and_lookup_reports() {
    let mut state = factory("A");
    assert_eq!(state.lookup(3), None);
    state.record(3, "one".to_string());
    state.record(3, "two".to_string());
    assert_eq!(state.lookup(3), Some("two".to_string()));
    assert_eq!(state.take(), Err(ContractError::MissingCorrelatorContext {}));
    state.stash("first".to_string());
    state.stash("second".to_string());
    assert_eq!(state.take(), Ok("second".to_string()));
    assert_eq!(state.pending, None);
}

#[test]
fn queries_report_config_and_pools() {
    let mut state = Factory::new(Config { admin: "adm".to_string(), pool_code_id: 42 });
    let cfg = query_config(&state);
    assert_eq!((cfg.admin.as_str(), cfg.pool_code_id), ("adm", 42));
    assert_eq!(query_pool(&state, 4).pool_addr, "");
    state.record(4, "addr4".to_string());
    match query(&state, QueryMsg::PoolAddress { pool_id: 4 }) {
        QueryResponse::PoolAddress(p) => {
            assert_eq!(p.pool_id, 4);
            assert_eq!(p.pool_addr, "addr4");
        },
        other => panic!("unexpected answer {:?}", other),
    }
}

#[test]
fn migrate_does_nothing() {
    let res = migrate(MigrateMsg {});
    assert!(res.messages.is_empty() && res.attributes.is_empty());
}

#[test]
fn reply_helpers() {
    let ok = SubMsgResponse { events: vec![], data: Some(vec![1]) };
    assert_eq!(
        unwrap_reply(Reply { id: 1, result: SubMsgResult::Success(ok.clone()) }),
        Ok(ok)
    );
    assert_eq!(
        unwrap_reply(Reply { id: 1, result: SubMsgResult::Failure("e".to_string()) }),
        Err("e".to_string())
    );
    let event = Event { ty: "wasm".to_string(), attributes: attrs(&[("a", "1"), ("b", "2")]) };
    assert!(event_contains_attr(&event, "b"));
    assert!(!event_contains_attr(&event, "c"));
    assert!(!event_contains_attr(&Event { ty: "x".to_string(), attributes: vec![] }, "a"));
}

#[test]
fn counter_unmoved_by_replies_and_redirects() {
    let mut state = factory("A");
    execute(&mut state, info("s", &[]), ExecuteMsg::CreatePool { title: "T".to_string() }).unwrap();
    reply(&mut state, spawn_reply("p1")).unwrap();
    execute(&mut state, info("c", &[coin(1, "t")]), ExecuteMsg::RedirectFund { pool_id: 1 }).unwrap();
    reply(&mut state, transfer_reply()).unwrap();
    assert_eq!(state.pool_count, 1);
    execute(&mut state, info("s", &[]), ExecuteMsg::CreatePool { title: "U".to_string() }).unwrap();
    reply(&mut state, spawn_reply("p2")).unwrap();
    assert_eq!(state.pool_count, 2);
    assert_eq!(query_pool(&state, 1).pool_addr, "p1");
    assert_eq!(query_pool(&state, 2).pool_addr, "p2");
}
