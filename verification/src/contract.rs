//! The entry points: instantiation, the transfer command, the callbacks and
//! the queries.

use vstd::prelude::*;
use vstd::string::*;

use crate::cosmwasm::{
    build_transfer, coin_text, plus_minutes, src_callback_memo, std_ack_success_json, success_ack,
    uint128_display,
};
use crate::error::ContractError;
use crate::msg::{
    Env, ExecuteMsg, IbcBasicResponse, IbcDestinationCallbackMsg, IbcSourceCallbackMsg,
    InstantiateMsg, MessageInfo, QueryMsg, QueryResponse, QueryResponseView, Response,
    ResponseView, TransferMsg, TransferMsgView, TransitionKind,
};
use crate::contract::utils::{apply_event, can_apply, update_counter};
use crate::state::{Coin, CoinView, Counter, CounterStore, CounterView, lookup};

pub mod query;
pub mod utils;

verus! {

/// The minutes that a transfer is given to arrive.
pub const TRANSFER_TIMEOUT_MINUTES: u64 = 5;

/// The nanoseconds that a transfer is given to arrive.
pub open spec fn transfer_timeout_nanos() -> int {
    TRANSFER_TIMEOUT_MINUTES * 60_000_000_000
}

/// What a counter is when it is first set up with `count`.
pub open spec fn initial_counter(owner: Seq<char>, count: int) -> CounterView {
    CounterView { count, total_funds: Seq::empty(), owner }
}

/// The attributes that report an instantiation.
pub open spec fn instantiate_attributes(owner: Seq<char>, count_text: Seq<char>) -> Seq<
    (Seq<char>, Seq<char>),
> {
    seq![("method"@, "instantiate"@), ("owner"@, owner), ("count"@, count_text)]
}

/// Sets up the sender's counter with the count of `msg` and no funds.
///
/// The answer names the method, the owner and the count; the count's text is
/// what `to_string` gives for it.
pub fn instantiate(store: &mut CounterStore, info: MessageInfo, msg: InstantiateMsg) -> (r: Result<
    Response,
    ContractError,
>)
    requires
        old(store).wf(),
    ensures
        final(store).wf(),
        final(store)@ == old(store)@.insert(
            info.sender@,
            initial_counter(info.sender@, msg.count as int),
        ),
        r matches Ok(resp) && exists|text: String| #[trigger]
            to_string_from_display_ensures::<i32>(&msg.count, text) && resp@ == (ResponseView {
                messages: Seq::empty(),
                attributes: instantiate_attributes(info.sender@, text@),
            }),
{
    let initial_counter = Counter {
        count: msg.count,
        total_funds: Vec::new(),
        owner: info.sender.clone(),
    };
    assert(initial_counter@.total_funds =~= Seq::empty());
    store.save(&info.sender, initial_counter);
    let count_text = msg.count.to_string();
    let ghost owner = info.sender@;
    let resp = Response::new().add_attribute("method", String::from_str("instantiate"))
        .add_attribute("owner", info.sender).add_attribute("count", count_text);
    assert(resp@.attributes =~= instantiate_attributes(owner, count_text@));
    assert(to_string_from_display_ensures::<i32>(&msg.count, count_text));
    Ok(resp)
}

/// The transfer that `transfer_funds` asks for.
pub open spec fn expected_transfer(
    block_time_nanos: u64,
    contract_address: Seq<char>,
    channel: Seq<char>,
    amount: CoinView,
    recipient: Seq<char>,
) -> TransferMsgView {
    TransferMsgView {
        channel_id: channel,
        to_address: recipient,
        amount,
        timeout_nanos: Some((block_time_nanos + transfer_timeout_nanos()) as u64),
        memo: Some(src_callback_memo(contract_address)),
    }
}

/// The attributes that report a transfer.
pub open spec fn transfer_attributes(
    channel: Seq<char>,
    amount_text: Seq<char>,
    recipient: Seq<char>,
) -> Seq<(Seq<char>, Seq<char>)> {
    seq![
        ("action"@, "transfer_funds"@),
        ("channel"@, channel),
        ("amount"@, amount_text),
        ("recipient"@, recipient),
    ]
}

/// The answer to a transfer command: the one message, and the attributes
/// that report it.
pub fn transfer_response(
    transfer: TransferMsg,
    channel: String,
    amount_text: String,
    recipient: String,
) -> (r: Response)
    ensures
        r@ == (ResponseView {
            messages: seq![transfer@],
            attributes: transfer_attributes(channel@, amount_text@, recipient@),
        }),
{
    let r = Response::new().add_message(transfer).add_attribute(
        "action",
        String::from_str("transfer_funds"),
    ).add_attribute("channel", channel).add_attribute("amount", amount_text).add_attribute(
        "recipient",
        recipient,
    );
    assert(r@.messages =~= seq![transfer@]);
    assert(r@.attributes =~= transfer_attributes(channel@, amount_text@, recipient@));
    r
}

/// Asks for `amount` to be sent over `channel` to `recipient`, to arrive
/// within five minutes of the block's time, and registers the program itself
/// for the callback on the sending side. No counter is touched.
pub fn transfer_funds(env: Env, channel: String, amount: Coin, recipient: String) -> (r: Result<
    Response,
    ContractError,
>)
    requires
        env.block_time_nanos + transfer_timeout_nanos() <= u64::MAX,
    ensures
        r matches Ok(resp) && resp@ == (ResponseView {
            messages: seq![
                expected_transfer(
                    env.block_time_nanos,
                    env.contract_address@,
                    channel@,
                    amount@,
                    recipient@,
                ),
            ],
            attributes: transfer_attributes(
                channel@,
                uint128_display(amount.amount) + amount.denom@,
                recipient@,
            ),
        }),
{
    let deadline = plus_minutes(env.block_time_nanos, TRANSFER_TIMEOUT_MINUTES);
    let transfer = build_transfer(&channel, &recipient, &amount, deadline, &env.contract_address)
        .unwrap();
    let amount_text = coin_text(&amount);
    Ok(transfer_response(transfer, channel, amount_text, recipient))
}

/// Carries out a command.
pub fn execute(env: Env, msg: ExecuteMsg) -> (r: Result<Response, ContractError>)
    requires
        env.block_time_nanos + transfer_timeout_nanos() <= u64::MAX,
    ensures
        msg matches ExecuteMsg::TransferFunds { channel, amount, recipient } && r matches Ok(resp)
            && resp@ == (ResponseView {
            messages: seq![
                expected_transfer(
                    env.block_time_nanos,
                    env.contract_address@,
                    channel@,
                    amount@,
                    recipient@,
                ),
            ],
            attributes: transfer_attributes(
                channel@,
                uint128_display(amount.amount) + amount.denom@,
                recipient@,
            ),
        }),
{
    match msg {
        ExecuteMsg::TransferFunds { channel, amount, recipient } => transfer_funds(
            env,
            channel,
            amount,
            recipient,
        ),
    }
}

/// The one attribute that a handler reports: what it did.
pub open spec fn action(name: Seq<char>) -> Seq<(Seq<char>, Seq<char>)> {
    seq![("action"@, name)]
}

/// Counts an acknowledgement for `contract`: one more, or one where it had no
/// counter. Whether the acknowledgement reports a success is not looked at.
pub fn receive_ack(store: &mut CounterStore, contract: String, _success: bool) -> (r: Result<
    Response,
    ContractError,
>)
    requires
        old(store).wf(),
        can_apply(lookup(old(store)@, contract@), TransitionKind::AckSuccess),
    ensures
        final(store).wf(),
        final(store)@ == apply_event(old(store)@, contract@, TransitionKind::AckSuccess),
        r matches Ok(resp) && resp@ == (ResponseView {
            messages: Seq::empty(),
            attributes: action("ack"@),
        }),
{
    match update_counter(store, contract, TransitionKind::AckSuccess) {
        Ok(_) => {},
        Err(e) => {
            return Err(e);
        },
    }
    let resp = Response::new().add_attribute("action", String::from_str("ack"));
    assert(resp@.attributes =~= action("ack"@));
    Ok(resp)
}

/// Counts a timeout for `contract`: ten more, or ten where it had no counter.
pub fn ibc_timeout(store: &mut CounterStore, contract: String) -> (r: Result<
    Response,
    ContractError,
>)
    requires
        old(store).wf(),
        can_apply(lookup(old(store)@, contract@), TransitionKind::Timeout),
    ensures
        final(store).wf(),
        final(store)@ == apply_event(old(store)@, contract@, TransitionKind::Timeout),
        r matches Ok(resp) && resp@ == (ResponseView {
            messages: Seq::empty(),
            attributes: action("timeout"@),
        }),
{
    match update_counter(store, contract, TransitionKind::Timeout) {
        Ok(_) => {},
        Err(e) => {
            return Err(e);
        },
    }
    let resp = Response::new().add_attribute("action", String::from_str("timeout"));
    assert(resp@.attributes =~= action("timeout"@));
    Ok(resp)
}

/// The event that an outcome on the sending side stands for.
pub open spec fn source_event(msg: IbcSourceCallbackMsg) -> TransitionKind {
    match msg {
        IbcSourceCallbackMsg::Acknowledgement => TransitionKind::AckSuccess,
        IbcSourceCallbackMsg::Timeout => TransitionKind::Timeout,
    }
}

/// The stored counters after an outcome on the sending side has been
/// delivered to the program at `contract`.
pub open spec fn after_source_callback(
    state: Map<Seq<char>, CounterView>,
    contract: Seq<char>,
    msg: IbcSourceCallbackMsg,
) -> Map<Seq<char>, CounterView> {
    apply_event(state, contract, source_event(msg))
}

/// Handles the outcome of a transfer that this chain sent. The counter that
/// moves is the one under the program's own address.
pub fn ibc_source_callback(store: &mut CounterStore, env: Env, msg: IbcSourceCallbackMsg) -> (r:
    Result<IbcBasicResponse, ContractError>)
    requires
        old(store).wf(),
        can_apply(lookup(old(store)@, env.contract_address@), source_event(msg)),
    ensures
        final(store).wf(),
        final(store)@ == after_source_callback(old(store)@, env.contract_address@, msg),
        r matches Ok(resp) && resp@ == action("ibc_source_callback"@),
{
    match msg {
        IbcSourceCallbackMsg::Acknowledgement => {
            match receive_ack(store, env.contract_address.clone(), true) {
                Ok(_) => {},
                Err(e) => {
                    return Err(e.into_generic());
                },
            }
        },
        IbcSourceCallbackMsg::Timeout => {
            match ibc_timeout(store, env.contract_address.clone()) {
                Ok(_) => {},
                Err(e) => {
                    return Err(e.into_generic());
                },
            }
        },
    }
    Ok(IbcBasicResponse::new().add_attribute("action", String::from_str("ibc_source_callback")))
}

/// The port that the transfer module is bound to.
pub open spec fn transfer_port() -> Seq<char> {
    "transfer"@
}

/// The payload that the acknowledgement of a successful transfer carries.
pub open spec fn transfer_success_payload() -> Seq<u8> {
    seq![1u8]
}

/// Whether a report from the receiving side counts: the packet went to the
/// transfer port and its acknowledgement is, byte for byte, `canonical`.
pub open spec fn destination_accepts(port_id: Seq<char>, ack: Seq<u8>, canonical: Seq<u8>) -> bool {
    port_id == transfer_port() && ack == canonical
}

/// The stored counters after a report from the receiving side has been
/// delivered to the program at `contract`.
pub open spec fn after_destination_callback(
    state: Map<Seq<char>, CounterView>,
    contract: Seq<char>,
    port_id: Seq<char>,
    ack: Seq<u8>,
    canonical: Seq<u8>,
) -> Map<Seq<char>, CounterView> {
    if destination_accepts(port_id, ack, canonical) {
        apply_event(state, contract, TransitionKind::AckSuccess)
    } else {
        state
    }
}

/// What a report from the receiving side is answered with.
pub open spec fn destination_answer(port_id: Seq<char>, ack: Seq<u8>, canonical: Seq<u8>) -> Seq<
    (Seq<char>, Seq<char>),
> {
    if destination_accepts(port_id, ack, canonical) {
        action("ibc_destination_callback"@)
    } else {
        Seq::empty()
    }
}

/// Whether two byte strings are the same.
pub fn same_bytes(a: &Vec<u8>, b: &Vec<u8>) -> (r: bool)
    ensures
        r == (a@ == b@),
{
    if a.len() != b.len() {
        return false;
    }
    let mut i: usize = 0;
    while i < a.len()
        invariant
            a.len() == b.len(),
            i <= a.len(),
            forall|j: int| 0 <= j < i ==> a[j] == b[j],
        decreases a.len() - i,
    {
        if a[i] != b[i] {
            return false;
        }
        i += 1;
    }
    assert(a@ =~= b@);
    true
}

/// Whether a report from the receiving side counts, given the bytes of the
/// acknowledgement of a successful transfer.
pub fn accepts_destination(msg: &IbcDestinationCallbackMsg, canonical: &Vec<u8>) -> (r: bool)
    ensures
        r == destination_accepts(msg.port_id@, msg.ack_data@, canonical@),
{
    let port = String::from_str("transfer");
    msg.port_id == port && same_bytes(&msg.ack_data, canonical)
}

/// Handles a report from the receiving side, given the bytes of the
/// acknowledgement of a successful transfer. A report that does not count is
/// answered with an empty response and changes nothing; one that counts is an
/// acknowledgement for the program's own address.
pub fn handle_destination_callback(
    store: &mut CounterStore,
    env: Env,
    msg: IbcDestinationCallbackMsg,
    canonical: &Vec<u8>,
) -> (r: Result<IbcBasicResponse, ContractError>)
    requires
        old(store).wf(),
        destination_accepts(msg.port_id@, msg.ack_data@, canonical@) ==> can_apply(
            lookup(old(store)@, env.contract_address@),
            TransitionKind::AckSuccess,
        ),
    ensures
        final(store).wf(),
        final(store)@ == after_destination_callback(
            old(store)@,
            env.contract_address@,
            msg.port_id@,
            msg.ack_data@,
            canonical@,
        ),
        r matches Ok(resp) && resp@ == destination_answer(msg.port_id@, msg.ack_data@, canonical@),
{
    if !accepts_destination(&msg, canonical) {
        return Ok(IbcBasicResponse::new());
    }
    match receive_ack(store, env.contract_address.clone(), true) {
        Ok(_) => {},
        Err(e) => {
            return Err(e.into_generic());
        },
    }
    Ok(IbcBasicResponse::new().add_attribute("action", String::from_str("ibc_destination_callback")))
}

/// Handles a report from the receiving side. The acknowledgement must equal
/// what the standard acknowledgement of the one-byte success payload encodes
/// to.
pub fn ibc_destination_callback(
    store: &mut CounterStore,
    env: Env,
    msg: IbcDestinationCallbackMsg,
) -> (r: Result<IbcBasicResponse, ContractError>)
    requires
        old(store).wf(),
        destination_accepts(
            msg.port_id@,
            msg.ack_data@,
            std_ack_success_json(transfer_success_payload()),
        ) ==> can_apply(lookup(old(store)@, env.contract_address@), TransitionKind::AckSuccess),
    ensures
        final(store).wf(),
        final(store)@ == after_destination_callback(
            old(store)@,
            env.contract_address@,
            msg.port_id@,
            msg.ack_data@,
            std_ack_success_json(transfer_success_payload()),
        ),
        r matches Ok(resp) && resp@ == destination_answer(
            msg.port_id@,
            msg.ack_data@,
            std_ack_success_json(transfer_success_payload()),
        ),
{
    let payload: Vec<u8> = vec![1u8];
    assert(payload@ =~= transfer_success_payload());
    let canonical = success_ack(payload.as_slice());
    handle_destination_callback(store, env, msg, &canonical)
}

/// Handles a report from the receiving side where the counter has room for
/// it. Where the report counts and the count cannot grow, nothing is done and
/// nothing is answered.
pub fn try_ibc_destination_callback(
    store: &mut CounterStore,
    env: Env,
    msg: IbcDestinationCallbackMsg,
) -> (r: Option<Result<IbcBasicResponse, ContractError>>)
    requires
        old(store).wf(),
    ensures
        final(store).wf(),
        ({
            let canonical = std_ack_success_json(transfer_success_payload());
            let prior = lookup(old(store)@, env.contract_address@);
            if destination_accepts(msg.port_id@, msg.ack_data@, canonical) && !can_apply(
                prior,
                TransitionKind::AckSuccess,
            ) {
                r.is_none() && final(store)@ == old(store)@
            } else {
                r matches Some(Ok(resp)) && resp@ == destination_answer(
                    msg.port_id@,
                    msg.ack_data@,
                    canonical,
                ) && final(store)@ == after_destination_callback(
                    old(store)@,
                    env.contract_address@,
                    msg.port_id@,
                    msg.ack_data@,
                    canonical,
                )
            }
        }),
{
    let payload: Vec<u8> = vec![1u8];
    assert(payload@ =~= transfer_success_payload());
    let canonical = success_ack(payload.as_slice());
    if accepts_destination(&msg, &canonical) {
        match store.may_load(&env.contract_address) {
            Some(counter) => {
                if counter.count == i32::MAX {
                    return None;
                }
            },
            None => {},
        }
    }
    Some(ibc_destination_callback(store, env, msg))
}

/// Answers a question about the stored counters. Nothing is changed.
pub fn query(store: &CounterStore, msg: QueryMsg) -> (r: Result<QueryResponse, ContractError>)
    requires
        store.wf(),
    ensures
        match r {
            Ok(resp) => lookup(store@, query_owner(msg)) matches Some(c) && resp@ == (match msg {
                QueryMsg::GetCount { .. } => QueryResponseView::Count(c.count),
                QueryMsg::GetTotalFunds { .. } => QueryResponseView::TotalFunds(c.total_funds),
            }),
            Err(e) => lookup(store@, query_owner(msg)).is_none() && e == ContractError::NotFound,
        },
{
    match msg {
        QueryMsg::GetCount { addr } => {
            match query::count(store, addr) {
                Ok(resp) => Ok(QueryResponse::Count(resp)),
                Err(e) => Err(e),
            }
        },
        QueryMsg::GetTotalFunds { addr } => {
            match query::total_funds(store, addr) {
                Ok(resp) => Ok(QueryResponse::TotalFunds(resp)),
                Err(e) => Err(e),
            }
        },
    }
}

/// The owner that a question is about.
pub open spec fn query_owner(msg: QueryMsg) -> Seq<char> {
    match msg {
        QueryMsg::GetCount { addr } => addr@,
        QueryMsg::GetTotalFunds { addr } => addr@,
    }
}

} // verus!
