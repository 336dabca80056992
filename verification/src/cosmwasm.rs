//! The calls into `cosmwasm_std`. Their contracts are taken on trust.

use vstd::prelude::*;

use crate::msg::TransferMsg;
use crate::state::Coin;

verus! {

/// The JSON bytes of a standard acknowledgement that reports success with `data`.
pub uninterp spec fn std_ack_success_json(data: Seq<u8>) -> Seq<u8>;

/// The text that stands for an amount when a coin is displayed.
pub uninterp spec fn uint128_display(amount: u128) -> Seq<char>;

/// The memo that registers a callback on the sending side for `address`, with
/// no limit on gas.
pub uninterp spec fn src_callback_memo(address: Seq<char>) -> Seq<char>;

/// Calls `StdAck::success` and `StdAck::to_binary`. The bytes that come back
/// are a function of `data` alone; they are not spelled out here.
#[verifier::external_body]
pub(crate) fn success_ack(data: &[u8]) -> (r: Vec<u8>)
    ensures
        r@ == std_ack_success_json(data@),
{
    cosmwasm_std::StdAck::success(data).to_binary().into()
}

/// Calls `to_string` on a `cosmwasm_std::Coin`, whose `Display` writes the
/// amount as its `Uint128` displays, then the denomination, with nothing
/// between them.
#[verifier::external_body]
pub(crate) fn coin_text(coin: &Coin) -> (r: String)
    ensures
        r@ == uint128_display(coin.amount) + coin.denom@,
{
    cosmwasm_std::Coin::new(coin.amount, coin.denom.clone()).to_string()
}

/// Calls `Timestamp::plus_minutes`, which adds sixty thousand million
/// nanoseconds for each minute and panics where the sum leaves `u64`.
#[verifier::external_body]
pub(crate) fn plus_minutes(nanos: u64, minutes: u64) -> (r: u64)
    requires
        nanos + minutes * 60_000_000_000 <= u64::MAX,
    ensures
        r == nanos + minutes * 60_000_000_000,
{
    cosmwasm_std::Timestamp::from_nanos(nanos).plus_minutes(minutes).nanos()
}

/// Calls `TransferMsgBuilder::new`, `with_src_callback` (for `callback`, with
/// no gas limit) and `build`. The builder hands its four arguments on as they
/// are, always builds a transfer, and writes the callback registration into
/// the memo.
#[verifier::external_body]
pub(crate) fn build_transfer(
    channel: &String,
    recipient: &String,
    amount: &Coin,
    timeout_nanos: u64,
    callback: &String,
) -> (r: Option<TransferMsg>)
    ensures
        r.is_some(),
        r.unwrap()@.channel_id == channel@,
        r.unwrap()@.to_address == recipient@,
        r.unwrap()@.amount == amount@,
        r.unwrap()@.timeout_nanos == Some(timeout_nanos),
        r.unwrap()@.memo == Some(src_callback_memo(callback@)),
{
    let coin = cosmwasm_std::Coin::new(amount.amount, amount.denom.clone());
    let timeout = cosmwasm_std::Timestamp::from_nanos(timeout_nanos);
    let address = cosmwasm_std::Addr::unchecked(callback.clone());
    let src = cosmwasm_std::IbcSrcCallback { address, gas_limit: None };
    match cosmwasm_std::TransferMsgBuilder::new(channel.clone(), recipient.clone(), coin, timeout)
        .with_src_callback(src).build() {
        cosmwasm_std::IbcMsg::Transfer { channel_id, to_address, amount, timeout, memo } => {
            let amount = Coin { denom: amount.denom, amount: amount.amount.u128() };
            let timeout_nanos = timeout.timestamp().map(|t| t.nanos());
            Some(TransferMsg { channel_id, to_address, amount, timeout_nanos, memo })
        },
        _ => None,
    }
}

} // verus!
