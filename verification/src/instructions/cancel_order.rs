//! `cancel_order`: the owner closes an order and takes back its escrow.

use vstd::prelude::*;
use crate::errors::{DcaError, InstructionError};
use crate::events::OrderCancelled;
use crate::pda::{
    at_bumped_address, canonical_bump, check_escrow_address, escrow_auth_seeds, escrow_seeds,
    find_program_address, pda, seeds_escrow_auth,
};
use crate::pubkey::Pubkey;
use crate::state::DcaOrder;
use crate::token::{escrow_transfer, Action, EscrowSeeds, TokenAccount};

verus! {

/// Accounts of `cancel_order`. The config is not among them: neither the
/// pause switch nor the admin nor the keeper has a say.
#[derive(Clone, Copy, Debug)]
pub struct CancelOrder {
    pub program_id: Pubkey,
    /// The signer; must be the order's owner.
    pub owner: Pubkey,
    pub order_key: Pubkey,
    /// `None` when no order exists at `order_key`.
    pub order: Option<DcaOrder>,
    pub escrow_token_account: TokenAccount,
    pub escrow_authority: Pubkey,
    /// The owner's account that receives the refund.
    pub user_input_ata: TokenAccount,
}

/// What the body of `cancel_order` hands back.
#[derive(Debug)]
pub struct CancelOrderOutput {
    pub actions: Vec<Action>,
    pub event: OrderCancelled,
}

impl CancelOrder {
    /// The account check that fails, if any, in the order the checks run.
    pub open spec fn accounts_error(&self) -> Option<InstructionError> {
        match self.order {
            None => Some(InstructionError::AccountNotInitialized),
            Some(order) => if self.owner != order.owner {
                Some(InstructionError::Dca(DcaError::OrderInactive))
            } else if !order.is_active {
                Some(InstructionError::Dca(DcaError::OrderInactive))
            } else if !at_bumped_address(
                self.escrow_token_account.key,
                escrow_seeds(self.order_key),
                order.escrow_bump,
                self.program_id,
            ) {
                Some(InstructionError::ConstraintSeeds)
            } else if self.escrow_authority@ != pda(escrow_auth_seeds(self.order_key), self.program_id) {
                Some(InstructionError::ConstraintSeeds)
            } else if self.user_input_ata.mint != order.input_mint || self.user_input_ata.owner != self.owner {
                Some(InstructionError::ConstraintRaw)
            } else {
                None
            },
        }
    }

    /// Runs the account checks; on success returns the escrow authority's bump.
    pub fn try_accounts(&self) -> (r: Result<u8, InstructionError>)
        ensures
            r == match self.accounts_error() {
                Some(e) => Err(e),
                None => Ok(canonical_bump(escrow_auth_seeds(self.order_key), self.program_id)),
            },
    {
        let order = match &self.order {
            None => return Err(InstructionError::AccountNotInitialized),
            Some(o) => o,
        };
        if !self.owner.key_eq(&order.owner) {
            return Err(InstructionError::Dca(DcaError::OrderInactive));
        }
        if !order.is_active {
            return Err(InstructionError::Dca(DcaError::OrderInactive));
        }
        if !check_escrow_address(&self.escrow_token_account.key, &self.order_key, order.escrow_bump, &self.program_id) {
            return Err(InstructionError::ConstraintSeeds);
        }
        let (auth_address, auth_bump) = find_program_address(&seeds_escrow_auth(&self.order_key), &self.program_id);
        if !auth_address.key_eq(&self.escrow_authority) {
            return Err(InstructionError::ConstraintSeeds);
        }
        if !self.user_input_ata.mint.key_eq(&order.input_mint) || !self.user_input_ata.owner.key_eq(&self.owner) {
            return Err(InstructionError::ConstraintRaw);
        }
        Ok(auth_bump)
    }
}

/// The actions of a cancellation: the whole escrow balance (when non-zero)
/// back to the owner's account, then the escrow and the order closed with
/// their rent to the owner.
pub open spec fn cancel_actions(ctx: CancelOrder, escrow_authority_bump: u8) -> Seq<Action> {
    let remaining = ctx.escrow_token_account.amount;
    let seeds = EscrowSeeds { order: ctx.order_key, bump: escrow_authority_bump };
    let close = seq![
        Action::CloseTokenAccount {
            account: ctx.escrow_token_account.key,
            destination: ctx.owner,
            authority: ctx.escrow_authority,
            signer_seeds: seeds,
        },
        Action::CloseProgramAccount { account: ctx.order_key, destination: ctx.owner },
    ];
    if remaining > 0 {
        seq![escrow_transfer(
            ctx.escrow_token_account.key,
            ctx.user_input_ata.key,
            ctx.escrow_authority,
            remaining,
            ctx.order_key,
            escrow_authority_bump,
        )] + close
    } else {
        close
    }
}

/// Body of `cancel_order`: refunds the remaining escrow to the owner and
/// closes the escrow and the order. It cannot fail.
pub fn handler(ctx: &mut CancelOrder, escrow_authority_bump: u8) -> (r: Result<CancelOrderOutput, DcaError>)
    ensures
        r matches Ok(out) && {
            &&& out.actions@ == cancel_actions(*old(ctx), escrow_authority_bump)
            &&& out.event == (OrderCancelled {
                order: old(ctx).order_key,
                owner: old(ctx).owner,
                refunded_amount: old(ctx).escrow_token_account.amount,
            })
        },
        *final(ctx) == (CancelOrder { order: None, ..*old(ctx) }),
{
    let remaining = ctx.escrow_token_account.amount;
    let seeds = EscrowSeeds { order: ctx.order_key, bump: escrow_authority_bump };
    let mut actions: Vec<Action> = Vec::new();

    // Transfer remaining tokens back to the owner.
    if remaining > 0 {
        actions.push(Action::Transfer {
            from: ctx.escrow_token_account.key,
            to: ctx.user_input_ata.key,
            authority: ctx.escrow_authority,
            amount: remaining,
            signer_seeds: Some(seeds),
        });
    }

    // Close the escrow token account, then the order, returning rent to the owner.
    actions.push(Action::CloseTokenAccount {
        account: ctx.escrow_token_account.key,
        destination: ctx.owner,
        authority: ctx.escrow_authority,
        signer_seeds: seeds,
    });
    actions.push(Action::CloseProgramAccount { account: ctx.order_key, destination: ctx.owner });
    ctx.order = None;

    let event = OrderCancelled { order: ctx.order_key, owner: ctx.owner, refunded_amount: remaining };
    proof {
        assert(actions@ =~= cancel_actions(*old(ctx), escrow_authority_bump));
    }
    Ok(CancelOrderOutput { actions, event })
}

} // verus!
