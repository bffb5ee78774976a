//! `create_order`: the owner opens a DCA order and funds its escrow.

use vstd::prelude::*;
use crate::errors::{DcaError, InstructionError};
use crate::events::OrderCreated;
use crate::instructions::update_config::config_at_pda;
use crate::pda::{
    at_bumped_address, canonical_bump, check_config_address, escrow_auth_seeds, escrow_seeds, find_program_address,
    order_seeds, pda, seeds_escrow, seeds_escrow_auth, seeds_order,
};
use crate::pubkey::Pubkey;
use crate::state::{DcaConfig, DcaOrder, CREATED_AT_TOLERANCE_SECS};
use crate::token::{wallet_transfer, Action, TokenAccount};

verus! {

/// The bytes of the wrapped-SOL mint address,
/// `So11111111111111111111111111111111111111112`.
pub open spec fn wsol_mint_bytes() -> Seq<u8> {
    seq![
        6u8, 155, 136, 87, 254, 171, 129, 132, 251, 104, 127, 99, 70, 24, 192, 53,
        218, 196, 57, 220, 26, 235, 59, 85, 152, 160, 240, 0, 0, 0, 0, 1,
    ]
}

/// Reads anchor_spl's `token::spl_token::native_mint::ID`, the wrapped-SOL mint.
///
/// Trusted: its bytes are those of the base58 address
/// `So11111111111111111111111111111111111111112` declared in
/// spl-token-interface's `native_mint` module, which `wsol_mint_bytes` spells out.
#[verifier::external_body]
fn native_mint_id() -> (r: Pubkey)
    ensures
        r@ == wsol_mint_bytes(),
{
    Pubkey { bytes: anchor_spl::token::spl_token::native_mint::ID.to_bytes() }
}

/// Accounts of `create_order`.
#[derive(Clone, Copy, Debug)]
pub struct CreateOrder {
    pub program_id: Pubkey,
    /// The signer; pays and owns the order.
    pub owner: Pubkey,
    pub config_key: Pubkey,
    /// `None` when no config exists at `config_key`.
    pub config: Option<DcaConfig>,
    pub input_mint: Pubkey,
    /// Any SPL Token or Token-2022 mint; recorded, never called.
    pub output_mint: Pubkey,
    /// Address of the order account to create.
    pub order_key: Pubkey,
    /// What that address holds: `None` while nothing exists there.
    pub order: Option<DcaOrder>,
    /// Address of the escrow token account to create.
    pub escrow_key: Pubkey,
    /// Whether an account already exists at `escrow_key`.
    pub escrow_exists: bool,
    /// The PDA that will own the escrow.
    pub escrow_authority: Pubkey,
    /// The owner's wSOL account that funds the order and the fee.
    pub user_input_ata: TokenAccount,
    /// The account receiving the upfront fee.
    pub fee_vault: TokenAccount,
}

/// The bumps that the account checks of `create_order` find.
#[derive(Clone, Copy, Debug, PartialEq, Eq)]
pub struct CreateOrderBumps {
    pub order: u8,
    pub escrow_token_account: u8,
    pub escrow_authority: u8,
}

/// What a successful `create_order` hands back: the token transfers to make
/// and the event to emit.
#[derive(Debug)]
pub struct CreateOrderOutput {
    pub actions: Vec<Action>,
    pub event: OrderCreated,
}

impl CreateOrder {
    /// The account check that fails, if any, in the order the checks run:
    /// the config must exist; the order and escrow are created at their
    /// PDAs, where nothing may exist yet; then the config's address, the
    /// pause switch, the input mint (wSOL only), the escrow authority's
    /// address, and the owner's and fee vault's token accounts.
    pub open spec fn accounts_error(&self, created_at: i64) -> Option<InstructionError> {
        match self.config {
            None => Some(InstructionError::AccountNotInitialized),
            Some(config) => if self.order_key@ != pda(
                order_seeds(self.owner, self.input_mint, self.output_mint, created_at),
                self.program_id,
            ) {
                Some(InstructionError::ConstraintSeeds)
            } else if self.order is Some {
                Some(InstructionError::AccountAlreadyInUse)
            } else if self.escrow_key@ != pda(escrow_seeds(self.order_key), self.program_id) {
                Some(InstructionError::ConstraintSeeds)
            } else if self.escrow_exists {
                Some(InstructionError::AccountAlreadyInUse)
            } else if !config_at_pda(self.program_id, self.config_key, config) {
                Some(InstructionError::ConstraintSeeds)
            } else if config.paused {
                Some(InstructionError::Dca(DcaError::ProgramPaused))
            } else if self.input_mint@ != wsol_mint_bytes() {
                Some(InstructionError::Dca(DcaError::InvalidInputMint))
            } else if self.escrow_authority@ != pda(escrow_auth_seeds(self.order_key), self.program_id) {
                Some(InstructionError::ConstraintSeeds)
            } else if self.user_input_ata.mint != self.input_mint || self.user_input_ata.owner != self.owner {
                Some(InstructionError::ConstraintRaw)
            } else if self.fee_vault.key != config.fee_vault || self.fee_vault.mint != self.input_mint {
                Some(InstructionError::ConstraintRaw)
            } else {
                None
            },
        }
    }

    /// The bumps found for the order, the escrow and the escrow authority.
    pub open spec fn bumps(&self, created_at: i64) -> CreateOrderBumps {
        CreateOrderBumps {
            order: canonical_bump(
                order_seeds(self.owner, self.input_mint, self.output_mint, created_at),
                self.program_id,
            ),
            escrow_token_account: canonical_bump(escrow_seeds(self.order_key), self.program_id),
            escrow_authority: canonical_bump(escrow_auth_seeds(self.order_key), self.program_id),
        }
    }

    /// Runs the account checks.
    pub fn try_accounts(&self, created_at: i64) -> (r: Result<CreateOrderBumps, InstructionError>)
        ensures
            r == match self.accounts_error(created_at) {
                Some(e) => Err(e),
                None => Ok(self.bumps(created_at)),
            },
            r matches Ok(b) ==> at_bumped_address(
                self.escrow_key,
                escrow_seeds(self.order_key),
                b.escrow_token_account,
                self.program_id,
            ),
    {
        let config = match &self.config {
            None => return Err(InstructionError::AccountNotInitialized),
            Some(c) => c,
        };
        let (order_address, order_bump) = find_program_address(
            &seeds_order(&self.owner, &self.input_mint, &self.output_mint, created_at),
            &self.program_id,
        );
        if !order_address.key_eq(&self.order_key) {
            return Err(InstructionError::ConstraintSeeds);
        }
        if self.order.is_some() {
            return Err(InstructionError::AccountAlreadyInUse);
        }
        let (escrow_address, escrow_bump) = find_program_address(&seeds_escrow(&self.order_key), &self.program_id);
        if !escrow_address.key_eq(&self.escrow_key) {
            return Err(InstructionError::ConstraintSeeds);
        }
        if self.escrow_exists {
            return Err(InstructionError::AccountAlreadyInUse);
        }
        if !check_config_address(&self.config_key, config.bump, &self.program_id) {
            return Err(InstructionError::ConstraintSeeds);
        }
        if config.paused {
            return Err(InstructionError::Dca(DcaError::ProgramPaused));
        }
        if !self.input_mint.key_eq(&native_mint_id()) {
            return Err(InstructionError::Dca(DcaError::InvalidInputMint));
        }
        let (auth_address, auth_bump) = find_program_address(&seeds_escrow_auth(&self.order_key), &self.program_id);
        if !auth_address.key_eq(&self.escrow_authority) {
            return Err(InstructionError::ConstraintSeeds);
        }
        if !self.user_input_ata.mint.key_eq(&self.input_mint) || !self.user_input_ata.owner.key_eq(&self.owner) {
            return Err(InstructionError::ConstraintRaw);
        }
        if !self.fee_vault.key.key_eq(&config.fee_vault) || !self.fee_vault.mint.key_eq(&self.input_mint) {
            return Err(InstructionError::ConstraintRaw);
        }
        Ok(CreateOrderBumps { order: order_bump, escrow_token_account: escrow_bump, escrow_authority: auth_bump })
    }
}

/// `created_at` lies within `CREATED_AT_TOLERANCE_SECS` of on-chain time.
pub open spec fn created_at_in_window(created_at: i64, now: i64) -> bool {
    -CREATED_AT_TOLERANCE_SECS <= created_at - now <= CREATED_AT_TOLERANCE_SECS
}

/// The error the body of `create_order` reports, if any.
pub open spec fn creation_error(config: DcaConfig, total_in_amount: u64, created_at: i64, now: i64) -> Option<DcaError> {
    if !created_at_in_window(created_at, now) {
        Some(DcaError::InvalidCreatedAt)
    } else if total_in_amount < config.min_total_in_amount {
        Some(DcaError::TotalAmountBelowMinimum)
    } else if total_in_amount % config.default_num_cycles != 0 {
        Some(DcaError::UnevenCycles)
    } else if total_in_amount / config.default_num_cycles == 0 {
        Some(DcaError::InvalidAmount)
    } else {
        None
    }
}

/// The order that a successful `create_order` stores: the schedule is the
/// config's, the first cycle is due at once.
pub open spec fn created_order(ctx: CreateOrder, bumps: CreateOrderBumps, total_in_amount: u64, now: i64) -> DcaOrder {
    let config = ctx.config.unwrap();
    DcaOrder {
        owner: ctx.owner,
        input_mint: ctx.input_mint,
        output_mint: ctx.output_mint,
        in_amount_per_cycle: (total_in_amount / config.default_num_cycles) as u64,
        cycles_remaining: config.default_num_cycles,
        initial_num_cycles: config.default_num_cycles,
        cycle_frequency: config.default_cycle_frequency,
        next_cycle_at: now,
        is_active: true,
        bump: bumps.order,
        escrow_bump: bumps.escrow_token_account,
    }
}

/// The transfers of a successful `create_order`: the whole input into the
/// escrow, then the fee (when non-zero) into the fee vault, both from the
/// owner's account.
pub open spec fn creation_actions(ctx: CreateOrder, total_in_amount: u64) -> Seq<Action> {
    let fee = ctx.config.unwrap().fee_for(total_in_amount);
    let fund = wallet_transfer(ctx.user_input_ata.key, ctx.escrow_key, ctx.owner, total_in_amount);
    if fee > 0 {
        seq![fund, wallet_transfer(ctx.user_input_ata.key, ctx.fee_vault.key, ctx.owner, fee)]
    } else {
        seq![fund]
    }
}

/// The event of a successful `create_order`.
pub open spec fn creation_event(ctx: CreateOrder, total_in_amount: u64) -> OrderCreated {
    let config = ctx.config.unwrap();
    OrderCreated {
        order: ctx.order_key,
        owner: ctx.owner,
        input_mint: ctx.input_mint,
        output_mint: ctx.output_mint,
        total_amount: total_in_amount,
        per_cycle: (total_in_amount / config.default_num_cycles) as u64,
        cycles: config.default_num_cycles,
        frequency: config.default_cycle_frequency,
        fee_paid: config.fee_for(total_in_amount),
    }
}

/// Body of `create_order`. Checks `created_at` against on-chain time `now`,
/// the minimum amount, that the amount splits evenly into the configured
/// number of cycles with a non-zero slice; then stores the order and asks for
/// the input and the fee to be moved. On error nothing changes.
pub fn handler(
    ctx: &mut CreateOrder,
    bumps: CreateOrderBumps,
    total_in_amount: u64,
    created_at: i64,
    now: i64,
) -> (r: Result<CreateOrderOutput, DcaError>)
    requires
        old(ctx).config is Some,
        i64::MIN < created_at - now <= i64::MAX,
        created_at_in_window(created_at, now) && total_in_amount >= old(ctx).config.unwrap().min_total_in_amount
            ==> old(ctx).config.unwrap().default_num_cycles > 0,
    ensures
        match creation_error(old(ctx).config.unwrap(), total_in_amount, created_at, now) {
            Some(e) => r == Err::<CreateOrderOutput, DcaError>(e) && *final(ctx) == *old(ctx),
            None => r matches Ok(out) && {
                &&& out.actions@ == creation_actions(*old(ctx), total_in_amount)
                &&& out.event == creation_event(*old(ctx), total_in_amount)
                &&& *final(ctx) == (CreateOrder {
                    order: Some(created_order(*old(ctx), bumps, total_in_amount, now)),
                    ..*old(ctx)
                })
            },
        },
{
    let config = ctx.config.unwrap();

    // Schedule is a protocol-wide setting, not a per-order choice.
    let frequency = config.default_cycle_frequency;
    let cycles = config.default_num_cycles;

    // `created_at` seeds the order PDA; it must track on-chain time.
    let offset = created_at - now;
    let distance = if offset < 0 { -offset } else { offset };
    if distance > CREATED_AT_TOLERANCE_SECS {
        return Err(DcaError::InvalidCreatedAt);
    }

    if total_in_amount < config.min_total_in_amount {
        return Err(DcaError::TotalAmountBelowMinimum);
    }
    if total_in_amount % cycles != 0 {
        return Err(DcaError::UnevenCycles);
    }

    let in_amount_per_cycle = total_in_amount / cycles;
    if in_amount_per_cycle == 0 {
        return Err(DcaError::InvalidAmount);
    }

    let fee_amount = match config.compute_fee(total_in_amount) {
        Some(f) => f,
        None => return Err(DcaError::MathOverflow),
    };

    let mut actions: Vec<Action> = Vec::new();
    actions.push(Action::Transfer {
        from: ctx.user_input_ata.key,
        to: ctx.escrow_key,
        authority: ctx.owner,
        amount: total_in_amount,
        signer_seeds: None,
    });
    if fee_amount > 0 {
        actions.push(Action::Transfer {
            from: ctx.user_input_ata.key,
            to: ctx.fee_vault.key,
            authority: ctx.owner,
            amount: fee_amount,
            signer_seeds: None,
        });
    }

    ctx.order = Some(DcaOrder {
        owner: ctx.owner,
        input_mint: ctx.input_mint,
        output_mint: ctx.output_mint,
        in_amount_per_cycle,
        cycles_remaining: cycles,
        initial_num_cycles: cycles,
        cycle_frequency: frequency,
        next_cycle_at: now,
        is_active: true,
        bump: bumps.order,
        escrow_bump: bumps.escrow_token_account,
    });

    let event = OrderCreated {
        order: ctx.order_key,
        owner: ctx.owner,
        input_mint: ctx.input_mint,
        output_mint: ctx.output_mint,
        total_amount: total_in_amount,
        per_cycle: in_amount_per_cycle,
        cycles,
        frequency,
        fee_paid: fee_amount,
    };
    proof {
        assert(actions@ =~= creation_actions(*old(ctx), total_in_amount));
    }
    Ok(CreateOrderOutput { actions, event })
}

} // verus!
