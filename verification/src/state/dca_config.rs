//! The singleton protocol configuration.

use vstd::prelude::*;
use crate::pubkey::Pubkey;

verus! {

/// Hard ceiling on the percentage fee: 300 bps = 3%.
pub const MAX_FEE_BPS: u16 = 300;

/// Hard ceiling on the absolute fee floor: 1 SOL in lamports.
pub const MAX_MIN_FEE_LAMPORTS: u64 = 1_000_000_000;

/// Lower bound on seconds between cycles.
pub const MIN_CYCLE_FREQUENCY: i64 = 60;

/// Upper bound on seconds between cycles: 30 days.
pub const MAX_CYCLE_FREQUENCY: i64 = 30 * 24 * 60 * 60;

/// Upper bound on the number of cycles of an order.
pub const MAX_NUM_CYCLES: u64 = 1_000;

/// Tolerance, in seconds, of a user-supplied `created_at` against on-chain time.
pub const CREATED_AT_TOLERANCE_SECS: i64 = 60;

/// The protocol-wide settings, stored once at the config PDA.
#[derive(Clone, Copy, Debug, PartialEq, Eq)]
pub struct DcaConfig {
    /// Who can update the config.
    pub admin: Pubkey,
    /// Proposed new admin of a two-step transfer.
    pub pending_admin: Option<Pubkey>,
    /// Token account that receives the upfront fees.
    pub fee_vault: Pubkey,
    /// The only signer allowed to execute and refund cycles.
    pub keeper: Pubkey,
    /// Percentage fee on the input amount, in basis points.
    pub fee_bps: u16,
    /// Absolute fee floor in lamports.
    pub min_fee_lamports: u64,
    /// Seconds between cycles of new orders.
    pub default_cycle_frequency: i64,
    /// Number of cycles of new orders.
    pub default_num_cycles: u64,
    /// Minimum input amount of a new order.
    pub min_total_in_amount: u64,
    /// Kill-switch on `create_order` and `execute_cycle`.
    pub paused: bool,
    pub bump: u8,
}

impl DcaConfig {
    /// Every bound that `initialize_config` and `update_config` enforce.
    pub open spec fn well_formed(&self) -> bool {
        &&& self.fee_bps <= MAX_FEE_BPS
        &&& self.min_fee_lamports <= MAX_MIN_FEE_LAMPORTS
        &&& MIN_CYCLE_FREQUENCY <= self.default_cycle_frequency <= MAX_CYCLE_FREQUENCY
        &&& 0 < self.default_num_cycles <= MAX_NUM_CYCLES
        &&& self.min_total_in_amount >= self.default_num_cycles
    }

    /// `total_in_amount * fee_bps / 10_000`, as the `u64` the program keeps of it.
    pub open spec fn percentage_fee(&self, total_in_amount: u64) -> u64 {
        ((total_in_amount as int * self.fee_bps as int) / 10_000) as u64
    }

    /// The upfront fee: the greater of the percentage fee and the floor.
    pub open spec fn fee_for(&self, total_in_amount: u64) -> u64 {
        let pct = self.percentage_fee(total_in_amount);
        if pct >= self.min_fee_lamports {
            pct
        } else {
            self.min_fee_lamports
        }
    }

    /// Compute the upfront fee on the user's input amount: the greater of the
    /// percentage fee and the absolute floor. The product is taken in `u128`,
    /// so the computation never fails.
    pub fn compute_fee(&self, total_in_amount: u64) -> (r: Option<u64>)
        ensures
            r == Some(self.fee_for(total_in_amount)),
    {
        assert((total_in_amount as int) * (self.fee_bps as int) <= 0xffff_ffff_ffff_ffff * 0xffff)
            by (nonlinear_arith)
            requires
                total_in_amount <= 0xffff_ffff_ffff_ffff,
                self.fee_bps <= 0xffff,
        ;
        let product: u128 = (total_in_amount as u128) * (self.fee_bps as u128);
        let quotient: u128 = product / 10_000;
        let pct_fee: u64 = #[verifier::truncate] (quotient as u64);
        if pct_fee >= self.min_fee_lamports {
            Some(pct_fee)
        } else {
            Some(self.min_fee_lamports)
        }
    }
}

} // verus!
