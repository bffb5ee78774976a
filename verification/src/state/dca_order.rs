//! Per-order state.

use vstd::prelude::*;
use crate::pubkey::Pubkey;

verus! {

/// One owner's dollar-cost-average schedule.
#[derive(Clone, Copy, Debug, PartialEq, Eq)]
pub struct DcaOrder {
    /// Who can cancel.
    pub owner: Pubkey,
    pub input_mint: Pubkey,
    pub output_mint: Pubkey,
    pub in_amount_per_cycle: u64,
    pub cycles_remaining: u64,
    /// Snapshot of `cycles_remaining` at creation; caps `refund_cycle`.
    pub initial_num_cycles: u64,
    /// Seconds between cycles.
    pub cycle_frequency: i64,
    /// Unix timestamp from which the next cycle may run.
    pub next_cycle_at: i64,
    pub is_active: bool,
    pub bump: u8,
    pub escrow_bump: u8,
}

impl DcaOrder {
    /// What holds of every order account that exists: it is active, has a
    /// cycle left, and has never more cycles left than it started with.
    pub open spec fn well_formed(&self) -> bool {
        &&& self.is_active
        &&& 0 < self.cycles_remaining <= self.initial_num_cycles
    }

    /// The fields that only `create_order` sets: neither the keeper's
    /// instructions nor anything else ever changes them.
    pub open spec fn same_terms(&self, other: DcaOrder) -> bool {
        &&& self.owner == other.owner
        &&& self.input_mint == other.input_mint
        &&& self.output_mint == other.output_mint
        &&& self.in_amount_per_cycle == other.in_amount_per_cycle
        &&& self.initial_num_cycles == other.initial_num_cycles
        &&& self.cycle_frequency == other.cycle_frequency
        &&& self.bump == other.bump
        &&& self.escrow_bump == other.escrow_bump
    }
}

} // verus!
