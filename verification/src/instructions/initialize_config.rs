//! `initialize_config`: one-shot creation of the protocol configuration.

use vstd::prelude::*;
use crate::errors::{check, first_error, DcaError, InstructionError};
use crate::pda::{at_bumped_address, canonical_bump, config_seeds, find_program_address, pda, seeds_config};
use crate::pubkey::Pubkey;
use crate::state::{
    DcaConfig, MAX_CYCLE_FREQUENCY, MAX_FEE_BPS, MAX_MIN_FEE_LAMPORTS, MAX_NUM_CYCLES,
    MIN_CYCLE_FREQUENCY,
};

verus! {

/// Accounts of `initialize_config`.
#[derive(Clone, Copy, Debug)]
pub struct InitializeConfig {
    pub program_id: Pubkey,
    /// The signer; becomes the admin.
    pub admin: Pubkey,
    /// Address passed for the config account.
    pub config_key: Pubkey,
    /// What that address holds: `None` while no config exists there.
    pub config: Option<DcaConfig>,
}

impl InitializeConfig {
    /// The account check that fails, if any: the config must be created at
    /// its PDA, and nothing may exist there yet.
    pub open spec fn accounts_error(&self) -> Option<InstructionError> {
        if self.config_key@ != pda(config_seeds(), self.program_id) {
            Some(InstructionError::ConstraintSeeds)
        } else if self.config is Some {
            Some(InstructionError::AccountAlreadyInUse)
        } else {
            None
        }
    }

    /// Runs the account checks; on success returns the config's bump.
    pub fn try_accounts(&self) -> (r: Result<u8, InstructionError>)
        ensures
            r == match self.accounts_error() {
                Some(e) => Err(e),
                None => Ok(canonical_bump(config_seeds(), self.program_id)),
            },
            r matches Ok(b) ==> at_bumped_address(self.config_key, config_seeds(), b, self.program_id),
    {
        let (address, bump) = find_program_address(&seeds_config(), &self.program_id);
        if !address.key_eq(&self.config_key) {
            return Err(InstructionError::ConstraintSeeds);
        }
        if self.config.is_some() {
            return Err(InstructionError::AccountAlreadyInUse);
        }
        Ok(bump)
    }
}

/// The error `validate_fee_tiers` reports, if any.
pub open spec fn fee_error(fee_bps: u16, min_fee_lamports: u64) -> Option<DcaError> {
    if fee_bps > MAX_FEE_BPS {
        Some(DcaError::FeeTooHigh)
    } else if min_fee_lamports > MAX_MIN_FEE_LAMPORTS {
        Some(DcaError::FeeTooHigh)
    } else {
        None
    }
}

/// The error `validate_cycle_frequency` reports, if any.
pub open spec fn frequency_error(frequency: i64) -> Option<DcaError> {
    if frequency < MIN_CYCLE_FREQUENCY {
        Some(DcaError::FrequencyTooLow)
    } else if frequency > MAX_CYCLE_FREQUENCY {
        Some(DcaError::FrequencyTooHigh)
    } else {
        None
    }
}

/// The error `validate_num_cycles` reports, if any.
pub open spec fn num_cycles_error(num_cycles: u64) -> Option<DcaError> {
    if num_cycles == 0 {
        Some(DcaError::InvalidAmount)
    } else if num_cycles > MAX_NUM_CYCLES {
        Some(DcaError::NumCyclesTooHigh)
    } else {
        None
    }
}

/// The error the body of `initialize_config` reports, if any.
pub open spec fn init_error(
    fee_bps: u16,
    min_fee_lamports: u64,
    default_cycle_frequency: i64,
    default_num_cycles: u64,
    min_total_in_amount: u64,
) -> Option<DcaError> {
    first_error(
        fee_error(fee_bps, min_fee_lamports),
        first_error(
            frequency_error(default_cycle_frequency),
            first_error(
                num_cycles_error(default_num_cycles),
                if min_total_in_amount < default_num_cycles {
                    Some(DcaError::MinTotalBelowNumCycles)
                } else {
                    None
                },
            ),
        ),
    )
}

/// The config that a successful `initialize_config` stores.
pub open spec fn initial_config(
    admin: Pubkey,
    fee_vault: Pubkey,
    keeper: Pubkey,
    fee_bps: u16,
    min_fee_lamports: u64,
    default_cycle_frequency: i64,
    default_num_cycles: u64,
    min_total_in_amount: u64,
    bump: u8,
) -> DcaConfig {
    DcaConfig {
        admin,
        pending_admin: None,
        fee_vault,
        keeper,
        fee_bps,
        min_fee_lamports,
        default_cycle_frequency,
        default_num_cycles,
        min_total_in_amount,
        paused: false,
        bump,
    }
}

/// Checks the fee schedule against its caps: the percentage fee against
/// `MAX_FEE_BPS` and the absolute floor against `MAX_MIN_FEE_LAMPORTS`.
pub fn validate_fee_tiers(fee_bps: u16, min_fee_lamports: u64) -> (r: Result<(), DcaError>)
    ensures
        r == check(fee_error(fee_bps, min_fee_lamports)),
{
    if fee_bps > MAX_FEE_BPS {
        return Err(DcaError::FeeTooHigh);
    }
    if min_fee_lamports > MAX_MIN_FEE_LAMPORTS {
        return Err(DcaError::FeeTooHigh);
    }
    Ok(())
}

/// Checks seconds between cycles against `[MIN_CYCLE_FREQUENCY, MAX_CYCLE_FREQUENCY]`.
pub fn validate_cycle_frequency(frequency: i64) -> (r: Result<(), DcaError>)
    ensures
        r == check(frequency_error(frequency)),
{
    if frequency < MIN_CYCLE_FREQUENCY {
        return Err(DcaError::FrequencyTooLow);
    }
    if frequency > MAX_CYCLE_FREQUENCY {
        return Err(DcaError::FrequencyTooHigh);
    }
    Ok(())
}

/// Checks a cycle count against `[1, MAX_NUM_CYCLES]`.
pub fn validate_num_cycles(num_cycles: u64) -> (r: Result<(), DcaError>)
    ensures
        r == check(num_cycles_error(num_cycles)),
{
    if num_cycles == 0 {
        return Err(DcaError::InvalidAmount);
    }
    if num_cycles > MAX_NUM_CYCLES {
        return Err(DcaError::NumCyclesTooHigh);
    }
    Ok(())
}

/// Body of `initialize_config`: validates the parameters and stores the
/// config, with the signer as admin, no pending admin, and not paused.
/// On error nothing changes.
pub fn handler(
    ctx: &mut InitializeConfig,
    config_bump: u8,
    fee_vault: Pubkey,
    keeper: Pubkey,
    fee_bps: u16,
    min_fee_lamports: u64,
    default_cycle_frequency: i64,
    default_num_cycles: u64,
    min_total_in_amount: u64,
) -> (r: Result<(), DcaError>)
    ensures
        r == check(init_error(fee_bps, min_fee_lamports, default_cycle_frequency, default_num_cycles, min_total_in_amount)),
        r is Err ==> *final(ctx) == *old(ctx),
        r is Ok ==> *final(ctx) == (InitializeConfig {
            config: Some(initial_config(
                old(ctx).admin,
                fee_vault,
                keeper,
                fee_bps,
                min_fee_lamports,
                default_cycle_frequency,
                default_num_cycles,
                min_total_in_amount,
                config_bump,
            )),
            ..*old(ctx)
        }),
{
    validate_fee_tiers(fee_bps, min_fee_lamports)?;
    validate_cycle_frequency(default_cycle_frequency)?;
    validate_num_cycles(default_num_cycles)?;
    if min_total_in_amount < default_num_cycles {
        return Err(DcaError::MinTotalBelowNumCycles);
    }
    ctx.config = Some(DcaConfig {
        admin: ctx.admin,
        pending_admin: None,
        fee_vault,
        keeper,
        fee_bps,
        min_fee_lamports,
        default_cycle_frequency,
        default_num_cycles,
        min_total_in_amount,
        paused: false,
        bump: config_bump,
    });
    Ok(())
}

} // verus!
