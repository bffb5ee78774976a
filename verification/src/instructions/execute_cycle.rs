//! `execute_cycle`: the keeper debits one cycle's input from an order's escrow.

use vstd::prelude::*;
use crate::errors::{DcaError, InstructionError};
use crate::events::CycleExecuted;
use crate::instructions::update_config::config_at_pda;
use crate::pda::{
    at_bumped_address, canonical_bump, check_config_address, check_escrow_address,
    escrow_auth_seeds, escrow_seeds, find_program_address, pda, seeds_escrow_auth,
};
use crate::pubkey::Pubkey;
use crate::state::{DcaConfig, DcaOrder};
use crate::token::{escrow_transfer, Action, EscrowSeeds, TokenAccount};

verus! {

/// Accounts of `execute_cycle`.
#[derive(Clone, Copy, Debug)]
pub struct ExecuteCycle {
    pub program_id: Pubkey,
    /// The signer; must be the config's keeper.
    pub keeper: Pubkey,
    pub config_key: Pubkey,
    /// `None` when no config exists at `config_key`.
    pub config: Option<DcaConfig>,
    pub order_key: Pubkey,
    /// `None` when no order exists at `order_key` (never created, or closed).
    pub order: Option<DcaOrder>,
    /// The order's owner; receives the rent and residue when the order completes.
    pub owner: Pubkey,
    pub escrow_token_account: TokenAccount,
    pub escrow_authority: Pubkey,
    /// The owner's input account; receives any residue on the final cycle.
    pub user_input_ata: TokenAccount,
    /// The keeper's input account; receives the cycle's input to swap.
    pub keeper_input_ata: TokenAccount,
}

/// What the body of `execute_cycle` hands back.
#[derive(Debug)]
pub struct ExecuteCycleOutput {
    /// The cycle's debit from the escrow to the keeper.
    pub actions: Vec<Action>,
    pub event: CycleExecuted,
    /// This was the order's last cycle: once the debit has landed, the escrow
    /// is drained to the owner and both accounts are closed
    /// (see `close_final_cycle`).
    pub is_final: bool,
    /// The bump with which the escrow authority signs.
    pub escrow_authority_bump: u8,
}

impl ExecuteCycle {
    /// The account check that fails, if any, in the order the checks run.
    pub open spec fn accounts_error(&self) -> Option<InstructionError> {
        match (self.config, self.order) {
            (None, _) => Some(InstructionError::AccountNotInitialized),
            (_, None) => Some(InstructionError::AccountNotInitialized),
            (Some(config), Some(order)) => if self.keeper != config.keeper {
                Some(InstructionError::Dca(DcaError::UnauthorizedKeeper))
            } else if !config_at_pda(self.program_id, self.config_key, config) {
                Some(InstructionError::ConstraintSeeds)
            } else if config.paused {
                Some(InstructionError::Dca(DcaError::ProgramPaused))
            } else if order.owner != self.owner {
                Some(InstructionError::ConstraintHasOne)
            } else if !order.is_active {
                Some(InstructionError::Dca(DcaError::OrderInactive))
            } else if !at_bumped_address(
                self.escrow_token_account.key,
                escrow_seeds(self.order_key),
                order.escrow_bump,
                self.program_id,
            ) {
                Some(InstructionError::ConstraintSeeds)
            } else if self.escrow_token_account.mint != order.input_mint {
                Some(InstructionError::ConstraintRaw)
            } else if self.escrow_authority@ != pda(escrow_auth_seeds(self.order_key), self.program_id) {
                Some(InstructionError::ConstraintSeeds)
            } else if self.user_input_ata.mint != order.input_mint || self.user_input_ata.owner != order.owner {
                Some(InstructionError::ConstraintRaw)
            } else if self.keeper_input_ata.mint != order.input_mint || self.keeper_input_ata.owner != self.keeper {
                Some(InstructionError::ConstraintRaw)
            } else {
                None
            },
        }
    }

    /// Runs the account checks; on success returns the escrow authority's bump.
    pub fn try_accounts(&self) -> (r: Result<u8, InstructionError>)
        ensures
            r == match self.accounts_error() {
                Some(e) => Err(e),
                None => Ok(canonical_bump(escrow_auth_seeds(self.order_key), self.program_id)),
            },
    {
        let config = match &self.config {
            None => return Err(InstructionError::AccountNotInitialized),
            Some(c) => c,
        };
        let order = match &self.order {
            None => return Err(InstructionError::AccountNotInitialized),
            Some(o) => o,
        };
        if !self.keeper.key_eq(&config.keeper) {
            return Err(InstructionError::Dca(DcaError::UnauthorizedKeeper));
        }
        if !check_config_address(&self.config_key, config.bump, &self.program_id) {
            return Err(InstructionError::ConstraintSeeds);
        }
        if config.paused {
            return Err(InstructionError::Dca(DcaError::ProgramPaused));
        }
        if !order.owner.key_eq(&self.owner) {
            return Err(InstructionError::ConstraintHasOne);
        }
        if !order.is_active {
            return Err(InstructionError::Dca(DcaError::OrderInactive));
        }
        if !check_escrow_address(&self.escrow_token_account.key, &self.order_key, order.escrow_bump, &self.program_id) {
            return Err(InstructionError::ConstraintSeeds);
        }
        if !self.escrow_token_account.mint.key_eq(&order.input_mint) {
            return Err(InstructionError::ConstraintRaw);
        }
        let (auth_address, auth_bump) = find_program_address(&seeds_escrow_auth(&self.order_key), &self.program_id);
        if !auth_address.key_eq(&self.escrow_authority) {
            return Err(InstructionError::ConstraintSeeds);
        }
        if !self.user_input_ata.mint.key_eq(&order.input_mint) || !self.user_input_ata.owner.key_eq(&order.owner) {
            return Err(InstructionError::ConstraintRaw);
        }
        if !self.keeper_input_ata.mint.key_eq(&order.input_mint) || !self.keeper_input_ata.owner.key_eq(&self.keeper) {
            return Err(InstructionError::ConstraintRaw);
        }
        Ok(auth_bump)
    }
}

/// The error the body of `execute_cycle` reports, if any: the cycle must be
/// due, there must be a cycle left, and the next due time must fit in `i64`.
pub open spec fn execution_error(order: DcaOrder, now: i64) -> Option<DcaError> {
    if now < order.next_cycle_at {
        Some(DcaError::CycleTooEarly)
    } else if order.cycles_remaining == 0 {
        Some(DcaError::OrderComplete)
    } else if order.next_cycle_at + order.cycle_frequency > i64::MAX
        || order.next_cycle_at + order.cycle_frequency < i64::MIN {
        Some(DcaError::MathOverflow)
    } else {
        None
    }
}

/// The order after one executed cycle: one cycle fewer, next one a period
/// later, inactive once no cycle is left; all else as it was.
pub open spec fn executed_order(order: DcaOrder) -> DcaOrder {
    DcaOrder {
        cycles_remaining: (order.cycles_remaining - 1) as u64,
        next_cycle_at: (order.next_cycle_at + order.cycle_frequency) as i64,
        is_active: order.cycles_remaining - 1 != 0,
        ..order
    }
}

/// The debit of one cycle: `in_amount_per_cycle` from the escrow to the
/// keeper's account, signed by the escrow authority.
pub open spec fn execution_actions(ctx: ExecuteCycle, escrow_authority_bump: u8) -> Seq<Action> {
    seq![escrow_transfer(
        ctx.escrow_token_account.key,
        ctx.keeper_input_ata.key,
        ctx.escrow_authority,
        ctx.order.unwrap().in_amount_per_cycle,
        ctx.order_key,
        escrow_authority_bump,
    )]
}

/// The event of an executed cycle.
pub open spec fn execution_event(ctx: ExecuteCycle, now: i64) -> CycleExecuted {
    CycleExecuted {
        order: ctx.order_key,
        cycles_remaining: executed_order(ctx.order.unwrap()).cycles_remaining,
        swap_amount: ctx.order.unwrap().in_amount_per_cycle,
        timestamp: now,
    }
}

/// Body of `execute_cycle` at on-chain time `now`: debits one cycle from the
/// escrow to the keeper, counts the cycle and schedules the next one. On
/// error nothing changes.
pub fn handler(ctx: &mut ExecuteCycle, escrow_authority_bump: u8, now: i64) -> (r: Result<ExecuteCycleOutput, DcaError>)
    requires
        old(ctx).order is Some,
    ensures
        match execution_error(old(ctx).order.unwrap(), now) {
            Some(e) => r == Err::<ExecuteCycleOutput, DcaError>(e) && *final(ctx) == *old(ctx),
            None => r matches Ok(out) && {
                &&& out.actions@ == execution_actions(*old(ctx), escrow_authority_bump)
                &&& out.event == execution_event(*old(ctx), now)
                &&& out.is_final == (executed_order(old(ctx).order.unwrap()).cycles_remaining == 0)
                &&& out.escrow_authority_bump == escrow_authority_bump
                &&& *final(ctx) == (ExecuteCycle { order: Some(executed_order(old(ctx).order.unwrap())), ..*old(ctx) })
            },
        },
{
    let order = ctx.order.unwrap();

    // Time gate
    if now < order.next_cycle_at {
        return Err(DcaError::CycleTooEarly);
    }
    if order.cycles_remaining == 0 {
        return Err(DcaError::OrderComplete);
    }

    let swap_amount = order.in_amount_per_cycle;

    let cycles_remaining = order.cycles_remaining - 1;
    let next_cycle_at = match order.next_cycle_at.checked_add(order.cycle_frequency) {
        Some(t) => t,
        None => return Err(DcaError::MathOverflow),
    };
    let is_final = cycles_remaining == 0;

    let mut actions: Vec<Action> = Vec::new();
    actions.push(Action::Transfer {
        from: ctx.escrow_token_account.key,
        to: ctx.keeper_input_ata.key,
        authority: ctx.escrow_authority,
        amount: swap_amount,
        signer_seeds: Some(EscrowSeeds { order: ctx.order_key, bump: escrow_authority_bump }),
    });

    ctx.order = Some(DcaOrder { cycles_remaining, next_cycle_at, is_active: !is_final, ..order });

    let event = CycleExecuted { order: ctx.order_key, cycles_remaining, swap_amount, timestamp: now };
    proof {
        assert(actions@ =~= execution_actions(*old(ctx), escrow_authority_bump));
    }
    Ok(ExecuteCycleOutput { actions, event, is_final, escrow_authority_bump })
}

/// The wind-down after the final cycle's debit has landed: the escrow's
/// `residual` balance (when non-zero) goes back to the owner, then the escrow
/// token account and the order account are closed with their rent to the owner.
pub open spec fn closing_actions(ctx: ExecuteCycle, escrow_authority_bump: u8, residual: u64) -> Seq<Action> {
    let seeds = EscrowSeeds { order: ctx.order_key, bump: escrow_authority_bump };
    let close = seq![
        Action::CloseTokenAccount {
            account: ctx.escrow_token_account.key,
            destination: ctx.owner,
            authority: ctx.escrow_authority,
            signer_seeds: seeds,
        },
        Action::CloseProgramAccount { account: ctx.order_key, destination: ctx.owner },
    ];
    if residual > 0 {
        seq![escrow_transfer(
            ctx.escrow_token_account.key,
            ctx.user_input_ata.key,
            ctx.escrow_authority,
            residual,
            ctx.order_key,
            escrow_authority_bump,
        )] + close
    } else {
        close
    }
}

/// Completes the final cycle of an order, given the escrow balance read back
/// after the cycle's debit: drains the residue to the owner and closes the
/// escrow and the order. Only an order whose last cycle has just run (no
/// cycle left, inactive) is closed this way.
pub fn close_final_cycle(ctx: &mut ExecuteCycle, escrow_authority_bump: u8, residual: u64) -> (r: Vec<Action>)
    requires
        old(ctx).order matches Some(o) && o.cycles_remaining == 0 && !o.is_active,
    ensures
        r@ == closing_actions(*old(ctx), escrow_authority_bump, residual),
        *final(ctx) == (ExecuteCycle { order: None, ..*old(ctx) }),
{
    let seeds = EscrowSeeds { order: ctx.order_key, bump: escrow_authority_bump };
    let mut actions: Vec<Action> = Vec::new();
    if residual > 0 {
        actions.push(Action::Transfer {
            from: ctx.escrow_token_account.key,
            to: ctx.user_input_ata.key,
            authority: ctx.escrow_authority,
            amount: residual,
            signer_seeds: Some(seeds),
        });
    }
    actions.push(Action::CloseTokenAccount {
        account: ctx.escrow_token_account.key,
        destination: ctx.owner,
        authority: ctx.escrow_authority,
        signer_seeds: seeds,
    });
    actions.push(Action::CloseProgramAccount { account: ctx.order_key, destination: ctx.owner });
    ctx.order = None;
    proof {
        assert(actions@ =~= closing_actions(*old(ctx), escrow_authority_bump, residual));
    }
    actions
}

} // verus!
