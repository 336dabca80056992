use vstd::prelude::*;

use crate::error::ContractError;
use crate::msg::{GetCountResponse, GetTotalFundsResponse};
use crate::state::{CounterStore, coins_view, lookup};

verus! {

/// The count stored for `addr`; `NotFound` where it has no counter.
pub fn count(store: &CounterStore, addr: String) -> (r: Result<GetCountResponse, ContractError>)
    requires
        store.wf(),
    ensures
        match r {
            Ok(resp) => lookup(store@, addr@) matches Some(c) && resp.count == c.count,
            Err(e) => lookup(store@, addr@).is_none() && e == ContractError::NotFound,
        },
{
    match store.load(&addr) {
        Ok(state) => Ok(GetCountResponse { count: state.count }),
        Err(e) => Err(e),
    }
}

/// The funds stored for `addr`; `NotFound` where it has no counter.
pub fn total_funds(store: &CounterStore, addr: String) -> (r: Result<
    GetTotalFundsResponse,
    ContractError,
>)
    requires
        store.wf(),
    ensures
        match r {
            Ok(resp) => lookup(store@, addr@) matches Some(c) && coins_view(resp.total_funds@)
                == c.total_funds,
            Err(e) => lookup(store@, addr@).is_none() && e == ContractError::NotFound,
        },
{
    match store.load(&addr) {
        Ok(state) => Ok(GetTotalFundsResponse { total_funds: state.total_funds }),
        Err(e) => Err(e),
    }
}

} // verus!
