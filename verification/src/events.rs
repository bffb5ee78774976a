//! Events that instructions emit.

use vstd::prelude::*;
use crate::pubkey::Pubkey;

verus! {

/// Emitted by `create_order`.
#[derive(Clone, Copy, Debug, PartialEq, Eq)]
pub struct OrderCreated {
    pub order: Pubkey,
    pub owner: Pubkey,
    pub input_mint: Pubkey,
    pub output_mint: Pubkey,
    pub total_amount: u64,
    pub per_cycle: u64,
    pub cycles: u64,
    pub frequency: i64,
    pub fee_paid: u64,
}

/// Emitted by `execute_cycle`.
#[derive(Clone, Copy, Debug, PartialEq, Eq)]
pub struct CycleExecuted {
    pub order: Pubkey,
    pub cycles_remaining: u64,
    pub swap_amount: u64,
    pub timestamp: i64,
}

/// Emitted by `cancel_order`.
#[derive(Clone, Copy, Debug, PartialEq, Eq)]
pub struct OrderCancelled {
    pub order: Pubkey,
    pub owner: Pubkey,
    pub refunded_amount: u64,
}

/// Emitted by `refund_cycle`.
#[derive(Clone, Copy, Debug, PartialEq, Eq)]
pub struct CycleRefunded {
    pub order: Pubkey,
    pub cycles_remaining: u64,
    pub refund_amount: u64,
    pub timestamp: i64,
}

} // verus!
