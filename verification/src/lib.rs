//! Per-owner counters driven by the outcomes of cross-chain transfers.
//!
//! A transfer is sent with a callback registration on the sending side; the
//! acknowledgement or timeout that later comes back moves the counter kept
//! under the program's own address.

pub mod contract;
pub mod cosmwasm;
pub mod error;
pub mod msg;
pub mod state;
pub mod theorems;
