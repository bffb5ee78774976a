//! `accept_admin`: second step of the two-step admin transfer.

use vstd::prelude::*;
use crate::errors::{DcaError, InstructionError};
use crate::instructions::update_config::config_at_pda;
use crate::pda::check_config_address;
use crate::pubkey::Pubkey;
use crate::state::DcaConfig;

verus! {

/// Accounts of `accept_admin`.
#[derive(Clone, Copy, Debug)]
pub struct AcceptAdmin {
    pub program_id: Pubkey,
    /// The signer; must be the pending admin.
    pub new_admin: Pubkey,
    pub config_key: Pubkey,
    /// `None` when no config exists at `config_key`.
    pub config: Option<DcaConfig>,
}

impl AcceptAdmin {
    /// The account check that fails, if any.
    pub open spec fn accounts_error(&self) -> Option<InstructionError> {
        match self.config {
            None => Some(InstructionError::AccountNotInitialized),
            Some(config) => if !config_at_pda(self.program_id, self.config_key, config) {
                Some(InstructionError::ConstraintSeeds)
            } else if config.pending_admin is None {
                Some(InstructionError::Dca(DcaError::NoPendingAdmin))
            } else if config.pending_admin != Some(self.new_admin) {
                Some(InstructionError::Dca(DcaError::PendingAdminMismatch))
            } else {
                None
            },
        }
    }

    /// Runs the account checks.
    pub fn try_accounts(&self) -> (r: Result<(), InstructionError>)
        ensures
            r == match self.accounts_error() {
                Some(e) => Err(e),
                None => Ok(()),
            },
    {
        let config = match &self.config {
            None => return Err(InstructionError::AccountNotInitialized),
            Some(c) => c,
        };
        if !check_config_address(&self.config_key, config.bump, &self.program_id) {
            return Err(InstructionError::ConstraintSeeds);
        }
        match &config.pending_admin {
            None => Err(InstructionError::Dca(DcaError::NoPendingAdmin)),
            Some(pending) => if pending.key_eq(&self.new_admin) {
                Ok(())
            } else {
                Err(InstructionError::Dca(DcaError::PendingAdminMismatch))
            },
        }
    }
}

/// Body of `accept_admin`: the signer becomes the admin and the proposal is
/// consumed.
pub fn handler(ctx: &mut AcceptAdmin) -> (r: Result<(), DcaError>)
    requires
        old(ctx).config is Some,
    ensures
        r is Ok,
        *final(ctx) == (AcceptAdmin {
            config: Some(DcaConfig { admin: old(ctx).new_admin, pending_admin: None, ..old(ctx).config.unwrap() }),
            ..*old(ctx)
        }),
{
    let config = ctx.config.unwrap();
    ctx.config = Some(DcaConfig { admin: ctx.new_admin, pending_admin: None, ..config });
    Ok(())
}

} // verus!
