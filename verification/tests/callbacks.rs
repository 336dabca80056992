use callbacks_counter::contract::query::{count, total_funds};
use callbacks_counter::contract::utils::{apply_transition, step_of, update_counter};
use callbacks_counter::contract::{
    accepts_destination, execute, handle_destination_callback, ibc_destination_callback,
    ibc_source_callback, ibc_timeout, instantiate, query, receive_ack, same_bytes, transfer_funds,
    transfer_response, try_ibc_destination_callback,
};
use callbacks_counter::error::ContractError;
use callbacks_counter::msg::{
    Env, ExecuteMsg, IbcDestinationCallbackMsg, IbcSourceCallbackMsg, InstantiateMsg, MessageInfo,
    QueryMsg, QueryResponse, Response, TransferMsg, TransitionKind,
};
use callbacks_counter::state::{Coin, Counter, CounterStore};

const CONTRACT: &str = "cosmos1contract";

fn env() -> Env {
    Env { block_time_nanos: 1_571_797_419_879_305_533, contract_address: CONTRACT.to_string() }
}

fn success_ack() -> Vec<u8> {
    b"{\"result\":\"AQ==\"}".to_vec()
}

fn report(port: &str, ack: Vec<u8>) -> IbcDestinationCallbackMsg {
    IbcDestinationCallbackMsg { port_id: port.to_string(), ack_data: ack }
}

fn stored_count(store: &CounterStore, owner: &str) -> Option<i32> {
    store.may_load(&owner.to_string()).map(|c| c.count)
}

fn store_with(owner: &str, count: i32, funds: Vec<Coin>) -> CounterStore {
    let mut store = CounterStore::new();
    store.save(&owner.to_string(), Counter { count, total_funds: funds, owner: owner.to_string() });
    store
}

fn some_funds() -> Vec<Coin> {
    vec![Coin { denom: "ucoin".to_string(), amount: 12 }]
}

fn pairs(response: &Response) -> Vec<(String, String)> {
    response.attributes.iter().map(|a| (a.key.clone(), a.value.clone())).collect()
}

fn pair(key: &str, value: &str) -> (String, String) {
    (key.to_string(), value.to_string())
}

#[test]
fn instantiate_stores_the_count_and_reports_it() {
    let mut store = CounterStore::new();
    let info = MessageInfo { sender: "alice".to_string() };
    let resp = instantiate(&mut store, info, InstantiateMsg { count: 5 }).unwrap();
    assert!(resp.messages.is_empty());
    assert_eq!(
        pairs(&resp),
        vec![pair("method", "instantiate"), pair("owner", "alice"), pair("count", "5")]
    );
    let stored = store.load(&"alice".to_string()).unwrap();
    assert_eq!(stored.count, 5);
    assert_eq!(stored.owner, "alice");
    assert!(stored.total_funds.is_empty());
}

#[test]
fn instantiate_reports_a_negative_count() {
    let mut store = store_with("alice", 1, some_funds());
    let info = MessageInfo { sender: "alice".to_string() };
    let resp = instantiate(&mut store, info, InstantiateMsg { count: i32::MIN }).unwrap();
    assert_eq!(pairs(&resp)[2], pair("count", "-2147483648"));
    let stored = store.load(&"alice".to_string()).unwrap();
    assert_eq!(stored.count, i32::MIN);
    assert!(stored.total_funds.is_empty());
}

#[test]
fn scenario_instantiate_transfer_timeout() {
    let mut store = CounterStore::new();
    let info = MessageInfo { sender: "alice".to_string() };
    instantiate(&mut store, info, InstantiateMsg { count: 5 }).unwrap();
    match query(&store, QueryMsg::GetCount { addr: "alice".to_string() }).unwrap() {
        QueryResponse::Count(r) => assert_eq!(r.count, 5),
        QueryResponse::TotalFunds(_) => panic!("the wrong answer"),
    }

    let msg = ExecuteMsg::TransferFunds {
        channel: "channel-0".to_string(),
        amount: Coin { denom: "ucoin".to_string(), amount: 100 },
        recipient: "osmo1recipient".to_string(),
    };
    let resp = execute(env(), msg).unwrap();
    assert!(pairs(&resp).contains(&pair("action", "transfer_funds")));
    assert_eq!(stored_count(&store, CONTRACT), None);

    ibc_source_callback(&mut store, env(), IbcSourceCallbackMsg::Timeout).unwrap();
    assert_eq!(count(&store, CONTRACT.to_string()).unwrap().count, 10);
    ibc_source_callback(&mut store, env(), IbcSourceCallbackMsg::Timeout).unwrap();
    assert_eq!(count(&store, CONTRACT.to_string()).unwrap().count, 20);
    assert_eq!(count(&store, "alice".to_string()).unwrap().count, 5);
}

#[test]
fn scenario_timeout_for_an_instantiated_contract_address() {
    let mut store = CounterStore::new();
    let info = MessageInfo { sender: CONTRACT.to_string() };
    instantiate(&mut store, info, InstantiateMsg { count: 5 }).unwrap();
    ibc_source_callback(&mut store, env(), IbcSourceCallbackMsg::Timeout).unwrap();
    assert_eq!(count(&store, CONTRACT.to_string()).unwrap().count, 15);
}

#[test]
fn query_for_an_unknown_owner_is_not_found() {
    let store = store_with("alice", 5, vec![]);
    assert!(matches!(count(&store, "bob".to_string()), Err(ContractError::NotFound)));
    assert!(matches!(total_funds(&store, "bob".to_string()), Err(ContractError::NotFound)));
    assert!(matches!(
        query(&store, QueryMsg::GetCount { addr: "bob".to_string() }),
        Err(ContractError::NotFound)
    ));
    assert!(matches!(
        query(&store, QueryMsg::GetTotalFunds { addr: "bob".to_string() }),
        Err(ContractError::NotFound)
    ));
}

#[test]
fn query_total_funds_returns_what_is_stored() {
    let store = store_with("alice", 5, some_funds());
    let funds = total_funds(&store, "alice".to_string()).unwrap().total_funds;
    assert_eq!(funds.len(), 1);
    assert_eq!(funds[0].denom, "ucoin");
    assert_eq!(funds[0].amount, 12);
    match query(&store, QueryMsg::GetTotalFunds { addr: "alice".to_string() }).unwrap() {
        QueryResponse::TotalFunds(r) => assert_eq!(r.total_funds.len(), 1),
        QueryResponse::Count(_) => panic!("the wrong answer"),
    }
}

#[test]
fn first_acknowledgement_sets_one_and_first_timeout_sets_ten() {
    let mut store = CounterStore::new();
    ibc_source_callback(&mut store, env(), IbcSourceCallbackMsg::Acknowledgement).unwrap();
    assert_eq!(stored_count(&store, CONTRACT), Some(1));
    assert_eq!(store.load(&CONTRACT.to_string()).unwrap().owner, CONTRACT);

    let mut store = CounterStore::new();
    ibc_source_callback(&mut store, env(), IbcSourceCallbackMsg::Timeout).unwrap();
    assert_eq!(stored_count(&store, CONTRACT), Some(10));
}

#[test]
fn later_events_add_one_and_ten() {
    let mut store = store_with(CONTRACT, 41, vec![]);
    ibc_source_callback(&mut store, env(), IbcSourceCallbackMsg::Acknowledgement).unwrap();
    assert_eq!(stored_count(&store, CONTRACT), Some(42));
    ibc_source_callback(&mut store, env(), IbcSourceCallbackMsg::Timeout).unwrap();
    assert_eq!(stored_count(&store, CONTRACT), Some(52));

    let mut store = store_with(CONTRACT, -7, vec![]);
    ibc_source_callback(&mut store, env(), IbcSourceCallbackMsg::Timeout).unwrap();
    assert_eq!(stored_count(&store, CONTRACT), Some(3));
}

#[test]
fn events_reach_the_last_count_that_fits() {
    let mut store = store_with(CONTRACT, i32::MAX - 1, vec![]);
    receive_ack(&mut store, CONTRACT.to_string(), true).unwrap();
    assert_eq!(stored_count(&store, CONTRACT), Some(i32::MAX));

    let mut store = store_with(CONTRACT, i32::MAX - 10, vec![]);
    ibc_timeout(&mut store, CONTRACT.to_string()).unwrap();
    assert_eq!(stored_count(&store, CONTRACT), Some(i32::MAX));
}

#[test]
fn callbacks_clear_the_funds() {
    let mut store = store_with(CONTRACT, 1, some_funds());
    ibc_source_callback(&mut store, env(), IbcSourceCallbackMsg::Acknowledgement).unwrap();
    assert!(total_funds(&store, CONTRACT.to_string()).unwrap().total_funds.is_empty());

    let mut store = store_with(CONTRACT, 1, some_funds());
    ibc_source_callback(&mut store, env(), IbcSourceCallbackMsg::Timeout).unwrap();
    assert!(total_funds(&store, CONTRACT.to_string()).unwrap().total_funds.is_empty());

    let mut store = store_with(CONTRACT, 1, some_funds());
    ibc_destination_callback(&mut store, env(), report("transfer", success_ack())).unwrap();
    assert!(total_funds(&store, CONTRACT.to_string()).unwrap().total_funds.is_empty());
}

#[test]
fn callbacks_leave_other_owners_alone() {
    let mut store = store_with("alice", 5, some_funds());
    ibc_source_callback(&mut store, env(), IbcSourceCallbackMsg::Acknowledgement).unwrap();
    assert_eq!(stored_count(&store, "alice"), Some(5));
    assert_eq!(total_funds(&store, "alice".to_string()).unwrap().total_funds.len(), 1);
    assert_eq!(stored_count(&store, CONTRACT), Some(1));
}

#[test]
fn source_callback_reports_its_action() {
    let mut store = CounterStore::new();
    let resp =
        ibc_source_callback(&mut store, env(), IbcSourceCallbackMsg::Acknowledgement).unwrap();
    assert_eq!(resp.attributes.len(), 1);
    assert_eq!(resp.attributes[0].key, "action");
    assert_eq!(resp.attributes[0].value, "ibc_source_callback");
}

#[test]
fn receive_ack_ignores_the_success_flag() {
    let mut store = CounterStore::new();
    let resp = receive_ack(&mut store, CONTRACT.to_string(), false).unwrap();
    assert_eq!(pairs(&resp), vec![pair("action", "ack")]);
    assert!(resp.messages.is_empty());
    assert_eq!(stored_count(&store, CONTRACT), Some(1));
    receive_ack(&mut store, CONTRACT.to_string(), true).unwrap();
    assert_eq!(stored_count(&store, CONTRACT), Some(2));
}

#[test]
fn ibc_timeout_reports_its_action() {
    let mut store = CounterStore::new();
    let resp = ibc_timeout(&mut store, CONTRACT.to_string()).unwrap();
    assert_eq!(pairs(&resp), vec![pair("action", "timeout")]);
    assert_eq!(stored_count(&store, CONTRACT), Some(10));
}

#[test]
fn destination_report_for_another_port_is_ignored() {
    let mut store = store_with(CONTRACT, 3, some_funds());
    let resp = ibc_destination_callback(&mut store, env(), report("wasm.abc", success_ack()))
        .unwrap();
    assert!(resp.attributes.is_empty());
    assert_eq!(stored_count(&store, CONTRACT), Some(3));
    assert_eq!(total_funds(&store, CONTRACT.to_string()).unwrap().total_funds.len(), 1);

    let mut store = CounterStore::new();
    ibc_destination_callback(&mut store, env(), report("Transfer", success_ack())).unwrap();
    assert_eq!(stored_count(&store, CONTRACT), None);
}

#[test]
fn destination_report_with_another_acknowledgement_is_ignored() {
    let mut store = store_with(CONTRACT, 3, some_funds());
    let failure = b"{\"error\":\"kaputt\"}".to_vec();
    let resp = ibc_destination_callback(&mut store, env(), report("transfer", failure)).unwrap();
    assert!(resp.attributes.is_empty());
    assert_eq!(stored_count(&store, CONTRACT), Some(3));
    assert_eq!(total_funds(&store, CONTRACT.to_string()).unwrap().total_funds.len(), 1);

    // The bare payload is not its encoding, and neither is the empty string.
    ibc_destination_callback(&mut store, env(), report("transfer", vec![1u8])).unwrap();
    ibc_destination_callback(&mut store, env(), report("transfer", vec![])).unwrap();
    assert_eq!(stored_count(&store, CONTRACT), Some(3));
}

#[test]
fn destination_report_of_a_success_counts_as_an_acknowledgement() {
    let mut by_destination = store_with(CONTRACT, 3, some_funds());
    let resp = ibc_destination_callback(&mut by_destination, env(), report("transfer", success_ack()))
        .unwrap();
    assert_eq!(resp.attributes.len(), 1);
    assert_eq!(resp.attributes[0].key, "action");
    assert_eq!(resp.attributes[0].value, "ibc_destination_callback");

    let mut by_source = store_with(CONTRACT, 3, some_funds());
    ibc_source_callback(&mut by_source, env(), IbcSourceCallbackMsg::Acknowledgement).unwrap();

    assert_eq!(stored_count(&by_destination, CONTRACT), Some(4));
    assert_eq!(stored_count(&by_destination, CONTRACT), stored_count(&by_source, CONTRACT));
    assert!(total_funds(&by_destination, CONTRACT.to_string()).unwrap().total_funds.is_empty());

    let mut fresh = CounterStore::new();
    ibc_destination_callback(&mut fresh, env(), report("transfer", success_ack())).unwrap();
    assert_eq!(stored_count(&fresh, CONTRACT), Some(1));
}

#[test]
fn handle_destination_callback_goes_by_the_given_bytes() {
    let canonical = vec![9u8, 8, 7];
    let mut store = CounterStore::new();
    handle_destination_callback(&mut store, env(), report("transfer", vec![9, 8, 7]), &canonical)
        .unwrap();
    assert_eq!(stored_count(&store, CONTRACT), Some(1));
    handle_destination_callback(&mut store, env(), report("transfer", vec![9, 8]), &canonical)
        .unwrap();
    handle_destination_callback(&mut store, env(), report("other", vec![9, 8, 7]), &canonical)
        .unwrap();
    assert_eq!(stored_count(&store, CONTRACT), Some(1));
}

#[test]
fn accepts_destination_needs_port_and_bytes() {
    let canonical = vec![1u8, 2];
    assert!(accepts_destination(&report("transfer", vec![1, 2]), &canonical));
    assert!(!accepts_destination(&report("transfer", vec![1, 3]), &canonical));
    assert!(!accepts_destination(&report("transfer", vec![1, 2, 3]), &canonical));
    assert!(!accepts_destination(&report("transfe", vec![1, 2]), &canonical));
    assert!(!accepts_destination(&report("", vec![1, 2]), &canonical));
}

#[test]
fn same_bytes_compares_every_byte() {
    assert!(same_bytes(&vec![], &vec![]));
    assert!(same_bytes(&vec![1, 2, 3], &vec![1, 2, 3]));
    assert!(!same_bytes(&vec![1, 2, 3], &vec![1, 2, 4]));
    assert!(!same_bytes(&vec![1, 2, 3], &vec![1, 2]));
    assert!(!same_bytes(&vec![], &vec![0]));
}

#[test]
fn try_destination_callback_stops_at_the_largest_count() {
    let mut store = store_with(CONTRACT, i32::MAX, some_funds());
    let r = try_ibc_destination_callback(&mut store, env(), report("transfer", success_ack()));
    assert!(r.is_none());
    assert_eq!(stored_count(&store, CONTRACT), Some(i32::MAX));
    assert_eq!(total_funds(&store, CONTRACT.to_string()).unwrap().total_funds.len(), 1);

    // A report that is ignored needs no room.
    let r = try_ibc_destination_callback(&mut store, env(), report("other", success_ack()));
    assert!(r.unwrap().unwrap().attributes.is_empty());
    assert_eq!(stored_count(&store, CONTRACT), Some(i32::MAX));

    let mut store = store_with(CONTRACT, i32::MAX - 1, vec![]);
    let r = try_ibc_destination_callback(&mut store, env(), report("transfer", success_ack()));
    assert_eq!(r.unwrap().unwrap().attributes.len(), 1);
    assert_eq!(stored_count(&store, CONTRACT), Some(i32::MAX));
}

#[test]
fn update_counter_applies_the_step() {
    let mut store = CounterStore::new();
    assert!(matches!(
        update_counter(&mut store, "alice".to_string(), TransitionKind::AckSuccess),
        Ok(true)
    ));
    assert_eq!(stored_count(&store, "alice"), Some(1));
    assert!(matches!(
        update_counter(&mut store, "alice".to_string(), TransitionKind::Timeout),
        Ok(true)
    ));
    assert_eq!(stored_count(&store, "alice"), Some(11));
    assert_eq!(step_of(TransitionKind::AckSuccess), 1);
    assert_eq!(step_of(TransitionKind::Timeout), 10);
}

#[test]
fn apply_transition_builds_the_next_counter() {
    let next = apply_transition(None, TransitionKind::Timeout, "alice".to_string());
    assert_eq!(next.count, 10);
    assert_eq!(next.owner, "alice");
    assert!(next.total_funds.is_empty());

    let prior = Counter { count: 4, total_funds: some_funds(), owner: "bob".to_string() };
    let next = apply_transition(Some(prior), TransitionKind::AckSuccess, "alice".to_string());
    assert_eq!(next.count, 5);
    assert_eq!(next.owner, "alice");
    assert!(next.total_funds.is_empty());
}

#[test]
fn transfer_funds_builds_the_request() {
    let amount = Coin { denom: "ucoin".to_string(), amount: 100 };
    let resp =
        transfer_funds(env(), "channel-0".to_string(), amount, "osmo1recipient".to_string())
            .unwrap();
    assert_eq!(resp.messages.len(), 1);
    let msg = &resp.messages[0];
    assert_eq!(msg.channel_id, "channel-0");
    assert_eq!(msg.to_address, "osmo1recipient");
    assert_eq!(msg.amount.denom, "ucoin");
    assert_eq!(msg.amount.amount, 100);
    assert_eq!(msg.timeout_nanos, Some(1_571_797_419_879_305_533 + 300_000_000_000));
    assert_eq!(
        msg.memo.as_deref(),
        Some("{\"src_callback\":{\"address\":\"cosmos1contract\"}}")
    );
    assert_eq!(
        pairs(&resp),
        vec![
            pair("action", "transfer_funds"),
            pair("channel", "channel-0"),
            pair("amount", "100ucoin"),
            pair("recipient", "osmo1recipient"),
        ]
    );
}

#[test]
fn transfer_funds_at_the_last_block_time_that_fits() {
    let env = Env {
        block_time_nanos: u64::MAX - 300_000_000_000,
        contract_address: "c".to_string(),
    };
    let amount = Coin { denom: "x".to_string(), amount: u128::MAX };
    let resp = transfer_funds(env, String::new(), amount, String::new()).unwrap();
    assert_eq!(resp.messages[0].timeout_nanos, Some(u64::MAX));
    assert_eq!(resp.messages[0].amount.amount, u128::MAX);
    assert_eq!(
        pairs(&resp)[2],
        pair("amount", "340282366920938463463374607431768211455x")
    );
}

#[test]
fn transfer_response_lists_message_and_attributes() {
    let transfer = TransferMsg {
        channel_id: "channel-7".to_string(),
        to_address: "there".to_string(),
        amount: Coin { denom: "ucoin".to_string(), amount: 1 },
        timeout_nanos: Some(5),
        memo: None,
    };
    let resp = transfer_response(
        transfer,
        "channel-7".to_string(),
        "1ucoin".to_string(),
        "there".to_string(),
    );
    assert_eq!(resp.messages.len(), 1);
    assert_eq!(resp.messages[0].timeout_nanos, Some(5));
    assert_eq!(
        pairs(&resp),
        vec![
            pair("action", "transfer_funds"),
            pair("channel", "channel-7"),
            pair("amount", "1ucoin"),
            pair("recipient", "there"),
        ]
    );
}
