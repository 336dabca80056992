//! What holds of the callbacks, whatever the stored counters are.

use vstd::prelude::*;

use crate::contract::{
    after_destination_callback, after_source_callback, destination_accepts, destination_answer,
    transfer_port,
};
use crate::msg::IbcSourceCallbackMsg;
use crate::state::{CoinView, CounterView};

verus! {

/// For an owner without a counter, an acknowledgement sets the count to one
/// and a timeout sets it to ten.
pub proof fn first_event_sets_count(state: Map<Seq<char>, CounterView>, owner: Seq<char>)
    requires
        !state.contains_key(owner),
    ensures
        after_source_callback(state, owner, IbcSourceCallbackMsg::Acknowledgement).contains_key(
            owner,
        ),
        after_source_callback(state, owner, IbcSourceCallbackMsg::Acknowledgement)[owner].count
            == 1,
        after_source_callback(state, owner, IbcSourceCallbackMsg::Timeout).contains_key(owner),
        after_source_callback(state, owner, IbcSourceCallbackMsg::Timeout)[owner].count == 10,
{
}

/// For an owner with a counter, an acknowledgement adds one to the count and
/// a timeout adds ten.
pub proof fn later_event_adds_to_count(state: Map<Seq<char>, CounterView>, owner: Seq<char>)
    requires
        state.contains_key(owner),
    ensures
        after_source_callback(state, owner, IbcSourceCallbackMsg::Acknowledgement)[owner].count
            == state[owner].count + 1,
        after_source_callback(state, owner, IbcSourceCallbackMsg::Timeout)[owner].count
            == state[owner].count + 10,
{
}

/// After a callback that moved the counter, the counter holds no funds,
/// whatever it held before.
pub proof fn event_clears_total_funds(
    state: Map<Seq<char>, CounterView>,
    owner: Seq<char>,
    msg: IbcSourceCallbackMsg,
    port_id: Seq<char>,
    ack: Seq<u8>,
    canonical: Seq<u8>,
)
    ensures
        after_source_callback(state, owner, msg)[owner].total_funds == Seq::<CoinView>::empty(),
        destination_accepts(port_id, ack, canonical) ==> after_destination_callback(
            state,
            owner,
            port_id,
            ack,
            canonical,
        )[owner].total_funds == Seq::<CoinView>::empty(),
{
}

/// After a callback the counter that moved is stored, and names the owner
/// that it is stored for.
pub proof fn event_keeps_owner(
    state: Map<Seq<char>, CounterView>,
    owner: Seq<char>,
    msg: IbcSourceCallbackMsg,
)
    ensures
        after_source_callback(state, owner, msg).contains_key(owner),
        after_source_callback(state, owner, msg)[owner].owner == owner,
{
}

/// A callback touches no counter but the one of the owner it is delivered for.
pub proof fn event_leaves_other_owners(
    state: Map<Seq<char>, CounterView>,
    owner: Seq<char>,
    other: Seq<char>,
    msg: IbcSourceCallbackMsg,
)
    requires
        other != owner,
    ensures
        after_source_callback(state, owner, msg).contains_key(other) == state.contains_key(other),
        state.contains_key(other) ==> after_source_callback(state, owner, msg)[other]
            == state[other],
{
}

/// A report for a port other than the transfer port changes nothing, and is
/// answered with an empty response.
pub proof fn other_port_is_ignored(
    state: Map<Seq<char>, CounterView>,
    contract: Seq<char>,
    port_id: Seq<char>,
    ack: Seq<u8>,
    canonical: Seq<u8>,
)
    requires
        port_id != transfer_port(),
    ensures
        after_destination_callback(state, contract, port_id, ack, canonical) == state,
        destination_answer(port_id, ack, canonical) == Seq::<(Seq<char>, Seq<char>)>::empty(),
{
}

/// A report for the transfer port whose acknowledgement is not the one of a
/// successful transfer changes nothing.
pub proof fn other_acknowledgement_is_ignored(
    state: Map<Seq<char>, CounterView>,
    contract: Seq<char>,
    ack: Seq<u8>,
    canonical: Seq<u8>,
)
    requires
        ack != canonical,
    ensures
        after_destination_callback(state, contract, transfer_port(), ack, canonical) == state,
        destination_answer(transfer_port(), ack, canonical) == Seq::<
            (Seq<char>, Seq<char>),
        >::empty(),
{
}

/// A report for the transfer port with the acknowledgement of a successful
/// transfer does what an acknowledgement on the sending side does.
pub proof fn accepted_report_is_an_acknowledgement(
    state: Map<Seq<char>, CounterView>,
    contract: Seq<char>,
    canonical: Seq<u8>,
)
    ensures
        after_destination_callback(state, contract, transfer_port(), canonical, canonical)
            == after_source_callback(state, contract, IbcSourceCallbackMsg::Acknowledgement),
{
}

} // verus!
