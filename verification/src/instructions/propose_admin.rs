//! `propose_admin`: first step of the two-step admin transfer.

use vstd::prelude::*;
use crate::errors::{DcaError, InstructionError};
use crate::instructions::update_config::config_at_pda;
use crate::pda::check_config_address;
use crate::pubkey::Pubkey;
use crate::state::DcaConfig;

verus! {

/// Accounts of `propose_admin`.
#[derive(Clone, Copy, Debug)]
pub struct ProposeAdmin {
    pub program_id: Pubkey,
    /// The signer; must be the config's admin.
    pub admin: Pubkey,
    pub config_key: Pubkey,
    /// `None` when no config exists at `config_key`.
    pub config: Option<DcaConfig>,
}

impl ProposeAdmin {
    /// The account check that fails, if any.
    pub open spec fn accounts_error(&self) -> Option<InstructionError> {
        match self.config {
            None => Some(InstructionError::AccountNotInitialized),
            Some(config) => if self.admin != config.admin {
                Some(InstructionError::Dca(DcaError::UnauthorizedAdmin))
            } else if !config_at_pda(self.program_id, self.config_key, config) {
                Some(InstructionError::ConstraintSeeds)
            } else {
                None
            },
        }
    }

    /// Runs the account checks.
    pub fn try_accounts(&self) -> (r: Result<(), InstructionError>)
        ensures
            r == match self.accounts_error() {
                Some(e) => Err(e),
                None => Ok(()),
            },
    {
        let config = match &self.config {
            None => return Err(InstructionError::AccountNotInitialized),
            Some(c) => c,
        };
        if !self.admin.key_eq(&config.admin) {
            return Err(InstructionError::Dca(DcaError::UnauthorizedAdmin));
        }
        if !check_config_address(&self.config_key, config.bump, &self.program_id) {
            return Err(InstructionError::ConstraintSeeds);
        }
        Ok(())
    }
}

/// Body of `propose_admin`: records `new_admin` as the pending admin,
/// replacing any earlier proposal. The admin itself does not change.
pub fn handler(ctx: &mut ProposeAdmin, new_admin: Pubkey) -> (r: Result<(), DcaError>)
    requires
        old(ctx).config is Some,
    ensures
        r is Ok,
        *final(ctx) == (ProposeAdmin {
            config: Some(DcaConfig { pending_admin: Some(new_admin), ..old(ctx).config.unwrap() }),
            ..*old(ctx)
        }),
{
    let config = ctx.config.unwrap();
    ctx.config = Some(DcaConfig { pending_admin: Some(new_admin), ..config });
    Ok(())
}

} // verus!
