//! `refund_cycle`: the keeper undoes the most recent cycle of an order whose
//! off-chain swap failed.

use vstd::prelude::*;
use crate::errors::{DcaError, InstructionError};
use crate::events::CycleRefunded;
use crate::instructions::update_config::config_at_pda;
use crate::pda::{at_bumped_address, check_config_address, check_escrow_address, escrow_seeds};
use crate::pubkey::Pubkey;
use crate::state::{DcaConfig, DcaOrder};
use crate::token::{wallet_transfer, Action, TokenAccount};

verus! {

/// Accounts of `refund_cycle`.
#[derive(Clone, Copy, Debug)]
pub struct RefundCycle {
    pub program_id: Pubkey,
    /// The signer; must be the config's keeper. Pays and signs the transfer.
    pub keeper: Pubkey,
    pub config_key: Pubkey,
    /// `None` when no config exists at `config_key`.
    pub config: Option<DcaConfig>,
    pub order_key: Pubkey,
    /// `None` when no order exists at `order_key`: a closed order cannot be refunded.
    pub order: Option<DcaOrder>,
    pub owner: Pubkey,
    /// The keeper's input account holding the failed cycle's funds.
    pub keeper_input_ata: TokenAccount,
    /// The order's escrow, which receives the funds back.
    pub escrow_token_account: TokenAccount,
}

/// What the body of `refund_cycle` hands back.
#[derive(Debug)]
pub struct RefundCycleOutput {
    /// The return of one cycle's input from the keeper to the escrow.
    pub actions: Vec<Action>,
    pub event: CycleRefunded,
}

impl RefundCycle {
    /// The account check that fails, if any, in the order the checks run.
    /// The pause switch is not among them.
    pub open spec fn accounts_error(&self) -> Option<InstructionError> {
        match (self.config, self.order) {
            (None, _) => Some(InstructionError::AccountNotInitialized),
            (_, None) => Some(InstructionError::AccountNotInitialized),
            (Some(config), Some(order)) => if self.keeper != config.keeper {
                Some(InstructionError::Dca(DcaError::UnauthorizedKeeper))
            } else if !config_at_pda(self.program_id, self.config_key, config) {
                Some(InstructionError::ConstraintSeeds)
            } else if order.owner != self.owner {
                Some(InstructionError::ConstraintHasOne)
            } else if !order.is_active {
                Some(InstructionError::Dca(DcaError::OrderInactive))
            } else if self.keeper_input_ata.mint != order.input_mint || self.keeper_input_ata.owner != self.keeper {
                Some(InstructionError::ConstraintRaw)
            } else if !at_bumped_address(
                self.escrow_token_account.key,
                escrow_seeds(self.order_key),
                order.escrow_bump,
                self.program_id,
            ) {
                Some(InstructionError::ConstraintSeeds)
            } else if self.escrow_token_account.mint != order.input_mint {
                Some(InstructionError::ConstraintRaw)
            } else {
                None
            },
        }
    }

    /// Runs the account checks.
    pub fn try_accounts(&self) -> (r: Result<(), InstructionError>)
        ensures
            r == match self.accounts_error() {
                Some(e) => Err(e),
                None => Ok(()),
            },
    {
        let config = match &self.config {
            None => return Err(InstructionError::AccountNotInitialized),
            Some(c) => c,
        };
        let order = match &self.order {
            None => return Err(InstructionError::AccountNotInitialized),
            Some(o) => o,
        };
        if !self.keeper.key_eq(&config.keeper) {
            return Err(InstructionError::Dca(DcaError::UnauthorizedKeeper));
        }
        if !check_config_address(&self.config_key, config.bump, &self.program_id) {
            return Err(InstructionError::ConstraintSeeds);
        }
        if !order.owner.key_eq(&self.owner) {
            return Err(InstructionError::ConstraintHasOne);
        }
        if !order.is_active {
            return Err(InstructionError::Dca(DcaError::OrderInactive));
        }
        if !self.keeper_input_ata.mint.key_eq(&order.input_mint) || !self.keeper_input_ata.owner.key_eq(&self.keeper) {
            return Err(InstructionError::ConstraintRaw);
        }
        if !check_escrow_address(&self.escrow_token_account.key, &self.order_key, order.escrow_bump, &self.program_id) {
            return Err(InstructionError::ConstraintSeeds);
        }
        if !self.escrow_token_account.mint.key_eq(&order.input_mint) {
            return Err(InstructionError::ConstraintRaw);
        }
        Ok(())
    }
}

/// The error the body of `refund_cycle` reports, if any: the refund may not
/// lift `cycles_remaining` above `initial_num_cycles`, and the previous due
/// time must fit in `i64`.
pub open spec fn refund_error(order: DcaOrder) -> Option<DcaError> {
    if order.cycles_remaining >= order.initial_num_cycles {
        Some(DcaError::CycleOverRefund)
    } else if order.next_cycle_at - order.cycle_frequency > i64::MAX
        || order.next_cycle_at - order.cycle_frequency < i64::MIN {
        Some(DcaError::MathOverflow)
    } else {
        None
    }
}

/// The order after a refund: one cycle re-credited, next due time wound back
/// one period; all else as it was.
pub open spec fn refunded_order(order: DcaOrder) -> DcaOrder {
    DcaOrder {
        cycles_remaining: (order.cycles_remaining + 1) as u64,
        next_cycle_at: (order.next_cycle_at - order.cycle_frequency) as i64,
        ..order
    }
}

/// The return of one cycle's input from the keeper's account to the escrow,
/// signed by the keeper.
pub open spec fn refund_actions(ctx: RefundCycle) -> Seq<Action> {
    seq![wallet_transfer(
        ctx.keeper_input_ata.key,
        ctx.escrow_token_account.key,
        ctx.keeper,
        ctx.order.unwrap().in_amount_per_cycle,
    )]
}

/// The event of a refund at on-chain time `now`.
pub open spec fn refund_event(ctx: RefundCycle, now: i64) -> CycleRefunded {
    CycleRefunded {
        order: ctx.order_key,
        cycles_remaining: refunded_order(ctx.order.unwrap()).cycles_remaining,
        refund_amount: ctx.order.unwrap().in_amount_per_cycle,
        timestamp: now,
    }
}

/// Body of `refund_cycle` at on-chain time `now`: returns one cycle's input
/// to the escrow, re-credits the cycle and winds the schedule back. On error
/// nothing changes.
pub fn handler(ctx: &mut RefundCycle, now: i64) -> (r: Result<RefundCycleOutput, DcaError>)
    requires
        old(ctx).order is Some,
    ensures
        match refund_error(old(ctx).order.unwrap()) {
            Some(e) => r == Err::<RefundCycleOutput, DcaError>(e) && *final(ctx) == *old(ctx),
            None => r matches Ok(out) && {
                &&& out.actions@ == refund_actions(*old(ctx))
                &&& out.event == refund_event(*old(ctx), now)
                &&& *final(ctx) == (RefundCycle { order: Some(refunded_order(old(ctx).order.unwrap())), ..*old(ctx) })
            },
        },
{
    let order = ctx.order.unwrap();
    let refund_amount = order.in_amount_per_cycle;

    // Cap cycles_remaining at the schedule the owner signed, so that
    // repeated refunds cannot inflate it.
    if order.cycles_remaining >= order.initial_num_cycles {
        return Err(DcaError::CycleOverRefund);
    }
    let cycles_remaining = match order.cycles_remaining.checked_add(1) {
        Some(c) => c,
        None => return Err(DcaError::MathOverflow),
    };
    let next_cycle_at = match order.next_cycle_at.checked_sub(order.cycle_frequency) {
        Some(t) => t,
        None => return Err(DcaError::MathOverflow),
    };

    let mut actions: Vec<Action> = Vec::new();
    actions.push(Action::Transfer {
        from: ctx.keeper_input_ata.key,
        to: ctx.escrow_token_account.key,
        authority: ctx.keeper,
        amount: refund_amount,
        signer_seeds: None,
    });

    ctx.order = Some(DcaOrder { cycles_remaining, next_cycle_at, ..order });

    let event = CycleRefunded { order: ctx.order_key, cycles_remaining, refund_amount, timestamp: now };
    proof {
        assert(actions@ =~= refund_actions(*old(ctx)));
    }
    Ok(RefundCycleOutput { actions, event })
}

} // verus!
