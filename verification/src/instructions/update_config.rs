//! `update_config`: the admin patches any subset of the configuration.

use vstd::prelude::*;
use crate::errors::{check, first_error, DcaError, InstructionError};
use crate::instructions::initialize_config::{
    frequency_error, num_cycles_error, validate_cycle_frequency, validate_num_cycles,
};
use crate::pda::{at_bumped_address, check_config_address, config_seeds};
use crate::pubkey::Pubkey;
use crate::state::{DcaConfig, MAX_FEE_BPS, MAX_MIN_FEE_LAMPORTS};

verus! {

/// Accounts of `update_config`.
#[derive(Clone, Copy, Debug)]
pub struct UpdateConfig {
    pub program_id: Pubkey,
    /// The signer; must be the config's admin.
    pub admin: Pubkey,
    pub config_key: Pubkey,
    /// `None` when no config exists at `config_key`.
    pub config: Option<DcaConfig>,
}

/// The config's address check, shared by every instruction that reads it:
/// `seeds = [b"dca_config"], bump = config.bump`.
pub open spec fn config_at_pda(program_id: Pubkey, config_key: Pubkey, config: DcaConfig) -> bool {
    at_bumped_address(config_key, config_seeds(), config.bump, program_id)
}

impl UpdateConfig {
    /// The account check that fails, if any.
    pub open spec fn accounts_error(&self) -> Option<InstructionError> {
        match self.config {
            None => Some(InstructionError::AccountNotInitialized),
            Some(config) => if self.admin != config.admin {
                Some(InstructionError::Dca(DcaError::UnauthorizedAdmin))
            } else if !config_at_pda(self.program_id, self.config_key, config) {
                Some(InstructionError::ConstraintSeeds)
            } else {
                None
            },
        }
    }

    /// Runs the account checks.
    pub fn try_accounts(&self) -> (r: Result<(), InstructionError>)
        ensures
            r == match self.accounts_error() {
                Some(e) => Err(e),
                None => Ok(()),
            },
    {
        let config = match &self.config {
            None => return Err(InstructionError::AccountNotInitialized),
            Some(c) => c,
        };
        if !self.admin.key_eq(&config.admin) {
            return Err(InstructionError::Dca(DcaError::UnauthorizedAdmin));
        }
        if !check_config_address(&self.config_key, config.bump, &self.program_id) {
            return Err(InstructionError::ConstraintSeeds);
        }
        Ok(())
    }
}

/// The new value where one is given, else the current one.
pub open spec fn keep<T>(new: Option<T>, current: T) -> T {
    match new {
        Some(v) => v,
        None => current,
    }
}

/// The error the body of `update_config` reports, if any: each given value is
/// checked against its cap, then the patched config must still satisfy
/// `min_total_in_amount >= default_num_cycles`.
pub open spec fn update_error(
    config: DcaConfig,
    new_fee_bps: Option<u16>,
    new_min_fee_lamports: Option<u64>,
    new_default_cycle_frequency: Option<i64>,
    new_default_num_cycles: Option<u64>,
    new_min_total_in_amount: Option<u64>,
) -> Option<DcaError> {
    first_error(
        match new_fee_bps {
            Some(b) => if b > MAX_FEE_BPS { Some(DcaError::FeeTooHigh) } else { None },
            None => None,
        },
        first_error(
            match new_min_fee_lamports {
                Some(m) => if m > MAX_MIN_FEE_LAMPORTS { Some(DcaError::FeeTooHigh) } else { None },
                None => None,
            },
            first_error(
                match new_default_cycle_frequency {
                    Some(f) => frequency_error(f),
                    None => None,
                },
                first_error(
                    match new_default_num_cycles {
                        Some(n) => num_cycles_error(n),
                        None => None,
                    },
                    if keep(new_min_total_in_amount, config.min_total_in_amount) < keep(
                        new_default_num_cycles,
                        config.default_num_cycles,
                    ) {
                        Some(DcaError::MinTotalBelowNumCycles)
                    } else {
                        None
                    },
                ),
            ),
        ),
    )
}

/// The config after a successful `update_config`: every given field
/// replaced, every other field (admin, pending admin, bump) as it was.
pub open spec fn updated_config(
    config: DcaConfig,
    new_keeper: Option<Pubkey>,
    new_fee_vault: Option<Pubkey>,
    new_fee_bps: Option<u16>,
    new_min_fee_lamports: Option<u64>,
    new_default_cycle_frequency: Option<i64>,
    new_default_num_cycles: Option<u64>,
    new_min_total_in_amount: Option<u64>,
    paused: Option<bool>,
) -> DcaConfig {
    DcaConfig {
        keeper: keep(new_keeper, config.keeper),
        fee_vault: keep(new_fee_vault, config.fee_vault),
        fee_bps: keep(new_fee_bps, config.fee_bps),
        min_fee_lamports: keep(new_min_fee_lamports, config.min_fee_lamports),
        default_cycle_frequency: keep(new_default_cycle_frequency, config.default_cycle_frequency),
        default_num_cycles: keep(new_default_num_cycles, config.default_num_cycles),
        min_total_in_amount: keep(new_min_total_in_amount, config.min_total_in_amount),
        paused: keep(paused, config.paused),
        ..config
    }
}

/// Body of `update_config`: applies every given field, checking each capped
/// value, and requires the result to keep `min_total_in_amount >=
/// default_num_cycles` whichever fields were touched. On error nothing changes.
pub fn handler(
    ctx: &mut UpdateConfig,
    new_keeper: Option<Pubkey>,
    new_fee_vault: Option<Pubkey>,
    new_fee_bps: Option<u16>,
    new_min_fee_lamports: Option<u64>,
    new_default_cycle_frequency: Option<i64>,
    new_default_num_cycles: Option<u64>,
    new_min_total_in_amount: Option<u64>,
    paused: Option<bool>,
) -> (r: Result<(), DcaError>)
    requires
        old(ctx).config is Some,
    ensures
        r == check(update_error(
            old(ctx).config.unwrap(),
            new_fee_bps,
            new_min_fee_lamports,
            new_default_cycle_frequency,
            new_default_num_cycles,
            new_min_total_in_amount,
        )),
        r is Err ==> *final(ctx) == *old(ctx),
        r is Ok ==> *final(ctx) == (UpdateConfig {
            config: Some(updated_config(
                old(ctx).config.unwrap(),
                new_keeper,
                new_fee_vault,
                new_fee_bps,
                new_min_fee_lamports,
                new_default_cycle_frequency,
                new_default_num_cycles,
                new_min_total_in_amount,
                paused,
            )),
            ..*old(ctx)
        }),
{
    let mut config = ctx.config.unwrap();

    if let Some(keeper) = new_keeper {
        config.keeper = keeper;
    }

    if let Some(fee_vault) = new_fee_vault {
        config.fee_vault = fee_vault;
    }

    if let Some(fee_bps) = new_fee_bps {
        if fee_bps > MAX_FEE_BPS {
            return Err(DcaError::FeeTooHigh);
        }
        config.fee_bps = fee_bps;
    }

    if let Some(min_fee) = new_min_fee_lamports {
        if min_fee > MAX_MIN_FEE_LAMPORTS {
            return Err(DcaError::FeeTooHigh);
        }
        config.min_fee_lamports = min_fee;
    }

    if let Some(frequency) = new_default_cycle_frequency {
        validate_cycle_frequency(frequency)?;
        config.default_cycle_frequency = frequency;
    }

    if let Some(num_cycles) = new_default_num_cycles {
        validate_num_cycles(num_cycles)?;
        config.default_num_cycles = num_cycles;
    }

    if let Some(min_total) = new_min_total_in_amount {
        config.min_total_in_amount = min_total;
    }

    if let Some(p) = paused {
        config.paused = p;
    }

    // Every valid `create_order` at exactly `min_total_in_amount` must be able
    // to pass its `in_amount_per_cycle > 0` check, whichever fields this call
    // touched.
    if config.min_total_in_amount < config.default_num_cycles {
        return Err(DcaError::MinTotalBelowNumCycles);
    }

    ctx.config = Some(config);
    Ok(())
}

} // verus!
