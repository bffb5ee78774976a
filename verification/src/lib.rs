//! Dollar-cost-average orders on a fixed schedule: owners lock wrapped SOL in
//! a per-order escrow, a keeper debits one slice per cycle, the owner can
//! always cancel. The instructions decide; the account operations they ask
//! for (token transfers, account closes) are carried out by the runtime.

use vstd::prelude::*;

pub mod errors;
pub mod events;
pub mod holderscan_dca;
pub mod instructions;
pub mod laws;
pub mod pda;
pub mod pubkey;
pub mod state;
pub mod token;

pub use instructions::{
    AcceptAdmin, CancelOrder, CreateOrder, ExecuteCycle, InitializeConfig, ProposeAdmin,
    RefundCycle, UpdateConfig,
};

verus! {

} // verus!
