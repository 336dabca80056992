use vstd::prelude::*;

use crate::error::ContractError;
use crate::msg::TransitionKind;
use crate::state::{Counter, CounterStore, CounterView, counter_option_view, lookup};

verus! {

/// By how much an event moves the count.
pub open spec fn step(kind: TransitionKind) -> int {
    match kind {
        TransitionKind::AckSuccess => 1,
        TransitionKind::Timeout => 10,
    }
}

/// Whether the count that follows `prior` under `kind` fits the counter.
pub open spec fn can_apply(prior: Option<CounterView>, kind: TransitionKind) -> bool {
    match prior {
        Some(c) => c.count + step(kind) <= i32::MAX,
        None => true,
    }
}

/// The counter that follows `prior` under `kind`: the count starts at the
/// step or grows by it, and the funds are empty.
pub open spec fn next_counter(
    prior: Option<CounterView>,
    kind: TransitionKind,
    owner: Seq<char>,
) -> CounterView {
    CounterView {
        count: match prior {
            Some(c) => c.count + step(kind),
            None => step(kind),
        },
        total_funds: Seq::empty(),
        owner,
    }
}

/// The stored counters after `kind` has reached `owner`.
pub open spec fn apply_event(
    state: Map<Seq<char>, CounterView>,
    owner: Seq<char>,
    kind: TransitionKind,
) -> Map<Seq<char>, CounterView> {
    state.insert(owner, next_counter(lookup(state, owner), kind, owner))
}

/// By how much an event moves the count.
pub fn step_of(kind: TransitionKind) -> (r: i32)
    ensures
        r == step(kind),
{
    match kind {
        TransitionKind::AckSuccess => 1,
        TransitionKind::Timeout => 10,
    }
}

/// The counter that follows `prior` under `kind`, for `owner`.
pub fn apply_transition(prior: Option<Counter>, kind: TransitionKind, owner: String) -> (r: Counter)
    requires
        can_apply(counter_option_view(prior), kind),
    ensures
        r@ == next_counter(counter_option_view(prior), kind, owner@),
{
    let count: i32 = match prior {
        None => step_of(kind),
        Some(counter) => counter.count + step_of(kind),
    };
    let r = Counter { count, total_funds: Vec::new(), owner };
    assert(r@.total_funds =~= Seq::empty());
    r
}

/// Moves the counter of `sender` by the event `kind`, or sets it up where
/// there is none. The store cannot fail, so the answer is always `Ok(true)`.
pub fn update_counter(store: &mut CounterStore, sender: String, kind: TransitionKind) -> (r: Result<
    bool,
    ContractError,
>)
    requires
        old(store).wf(),
        can_apply(lookup(old(store)@, sender@), kind),
    ensures
        final(store).wf(),
        final(store)@ == apply_event(old(store)@, sender@, kind),
        r == Ok::<bool, ContractError>(true),
{
    let prior = store.may_load(&sender);
    let next = apply_transition(prior, kind, sender.clone());
    store.save(&sender, next);
    Ok(true)
}

} // verus!
