//! The program's instructions as a client invokes them: each runs its account
//! checks, then its body. A refused instruction changes nothing.

use vstd::prelude::*;
use crate::errors::{lift, InstructionError};
use crate::instructions::accept_admin::{self, AcceptAdmin};
use crate::instructions::cancel_order::{self, CancelOrder, CancelOrderOutput};
use crate::instructions::create_order::{self, CreateOrder, CreateOrderOutput};
use crate::instructions::execute_cycle::{self, ExecuteCycle, ExecuteCycleOutput};
use crate::instructions::initialize_config::{self, InitializeConfig};
use crate::instructions::propose_admin::{self, ProposeAdmin};
use crate::instructions::refund_cycle::{self, RefundCycle, RefundCycleOutput};
use crate::instructions::update_config::{self, UpdateConfig};
use crate::pda::{canonical_bump, config_seeds, escrow_auth_seeds};
use crate::pubkey::Pubkey;
use crate::state::DcaConfig;

verus! {

/// One-shot config initialization, signed by the initial admin.
pub fn initialize_config(
    ctx: &mut InitializeConfig,
    fee_vault: Pubkey,
    keeper: Pubkey,
    fee_bps: u16,
    min_fee_lamports: u64,
    default_cycle_frequency: i64,
    default_num_cycles: u64,
    min_total_in_amount: u64,
) -> (r: Result<(), InstructionError>)
    ensures
        match crate::errors::first_error(
            old(ctx).accounts_error(),
            lift(initialize_config::init_error(
                fee_bps,
                min_fee_lamports,
                default_cycle_frequency,
                default_num_cycles,
                min_total_in_amount,
            )),
        ) {
            Some(e) => r == Err::<(), InstructionError>(e) && *final(ctx) == *old(ctx),
            None => r is Ok && crate::instructions::update_config::config_at_pda(
                old(ctx).program_id,
                old(ctx).config_key,
                final(ctx).config.unwrap(),
            ) && *final(ctx) == (InitializeConfig {
                config: Some(initialize_config::initial_config(
                    old(ctx).admin,
                    fee_vault,
                    keeper,
                    fee_bps,
                    min_fee_lamports,
                    default_cycle_frequency,
                    default_num_cycles,
                    min_total_in_amount,
                    canonical_bump(config_seeds(), old(ctx).program_id),
                )),
                ..*old(ctx)
            }),
        },
{
    let bump = ctx.try_accounts()?;
    match initialize_config::handler(
        ctx,
        bump,
        fee_vault,
        keeper,
        fee_bps,
        min_fee_lamports,
        default_cycle_frequency,
        default_num_cycles,
        min_total_in_amount,
    ) {
        Ok(()) => Ok(()),
        Err(e) => Err(InstructionError::Dca(e)),
    }
}

/// Admin-signed patch of any subset of the config (within caps); pause/unpause.
pub fn update_config(
    ctx: &mut UpdateConfig,
    new_keeper: Option<Pubkey>,
    new_fee_vault: Option<Pubkey>,
    new_fee_bps: Option<u16>,
    new_min_fee_lamports: Option<u64>,
    new_default_cycle_frequency: Option<i64>,
    new_default_num_cycles: Option<u64>,
    new_min_total_in_amount: Option<u64>,
    paused: Option<bool>,
) -> (r: Result<(), InstructionError>)
    ensures
        match old(ctx).accounts_error() {
            Some(e) => r == Err::<(), InstructionError>(e) && *final(ctx) == *old(ctx),
            None => match update_config::update_error(
                old(ctx).config.unwrap(),
                new_fee_bps,
                new_min_fee_lamports,
                new_default_cycle_frequency,
                new_default_num_cycles,
                new_min_total_in_amount,
            ) {
                Some(e) => r == Err::<(), InstructionError>(InstructionError::Dca(e)) && *final(ctx) == *old(ctx),
                None => r is Ok && *final(ctx) == (UpdateConfig {
                    config: Some(update_config::updated_config(
                        old(ctx).config.unwrap(),
                        new_keeper,
                        new_fee_vault,
                        new_fee_bps,
                        new_min_fee_lamports,
                        new_default_cycle_frequency,
                        new_default_num_cycles,
                        new_min_total_in_amount,
                        paused,
                    )),
                    ..*old(ctx)
                }),
            },
        },
{
    ctx.try_accounts()?;
    match update_config::handler(
        ctx,
        new_keeper,
        new_fee_vault,
        new_fee_bps,
        new_min_fee_lamports,
        new_default_cycle_frequency,
        new_default_num_cycles,
        new_min_total_in_amount,
        paused,
    ) {
        Ok(()) => Ok(()),
        Err(e) => Err(InstructionError::Dca(e)),
    }
}

/// Admin-signed proposal of a new admin.
pub fn propose_admin(ctx: &mut ProposeAdmin, new_admin: Pubkey) -> (r: Result<(), InstructionError>)
    ensures
        match old(ctx).accounts_error() {
            Some(e) => r == Err::<(), InstructionError>(e) && *final(ctx) == *old(ctx),
            None => r is Ok && *final(ctx) == (ProposeAdmin {
                config: Some(DcaConfig { pending_admin: Some(new_admin), ..old(ctx).config.unwrap() }),
                ..*old(ctx)
            }),
        },
{
    ctx.try_accounts()?;
    match propose_admin::handler(ctx, new_admin) {
        Ok(()) => Ok(()),
        Err(e) => Err(InstructionError::Dca(e)),
    }
}

/// Completion of the admin transfer, signed by the proposed admin.
pub fn accept_admin(ctx: &mut AcceptAdmin) -> (r: Result<(), InstructionError>)
    ensures
        match old(ctx).accounts_error() {
            Some(e) => r == Err::<(), InstructionError>(e) && *final(ctx) == *old(ctx),
            None => r is Ok && *final(ctx) == (AcceptAdmin {
                config: Some(DcaConfig {
                    admin: old(ctx).new_admin,
                    pending_admin: None,
                    ..old(ctx).config.unwrap()
                }),
                ..*old(ctx)
            }),
        },
{
    ctx.try_accounts()?;
    match accept_admin::handler(ctx) {
        Ok(()) => Ok(()),
        Err(e) => Err(InstructionError::Dca(e)),
    }
}

/// Owner-signed creation of an order of `total_in_amount` lamports of wSOL,
/// its PDA seeded with `created_at`, at on-chain time `now`.
pub fn create_order(
    ctx: &mut CreateOrder,
    total_in_amount: u64,
    created_at: i64,
    now: i64,
) -> (r: Result<CreateOrderOutput, InstructionError>)
    requires
        old(ctx).accounts_error(created_at) is None ==> {
            &&& i64::MIN < created_at - now <= i64::MAX
            &&& create_order::created_at_in_window(created_at, now)
                && total_in_amount >= old(ctx).config.unwrap().min_total_in_amount
                ==> old(ctx).config.unwrap().default_num_cycles > 0
        },
    ensures
        match crate::errors::first_error(
            old(ctx).accounts_error(created_at),
            lift(create_order::creation_error(old(ctx).config.unwrap(), total_in_amount, created_at, now)),
        ) {
            Some(e) => r == Err::<CreateOrderOutput, InstructionError>(e) && *final(ctx) == *old(ctx),
            None => r matches Ok(out) && {
                &&& out.actions@ == create_order::creation_actions(*old(ctx), total_in_amount)
                &&& out.event == create_order::creation_event(*old(ctx), total_in_amount)
                &&& crate::pda::at_bumped_address(
                    old(ctx).escrow_key,
                    crate::pda::escrow_seeds(old(ctx).order_key),
                    final(ctx).order.unwrap().escrow_bump,
                    old(ctx).program_id,
                )
                &&& *final(ctx) == (CreateOrder {
                    order: Some(create_order::created_order(
                        *old(ctx),
                        old(ctx).bumps(created_at),
                        total_in_amount,
                        now,
                    )),
                    ..*old(ctx)
                })
            },
        },
{
    let bumps = ctx.try_accounts(created_at)?;
    match create_order::handler(ctx, bumps, total_in_amount, created_at, now) {
        Ok(out) => Ok(out),
        Err(e) => Err(InstructionError::Dca(e)),
    }
}

/// Keeper-signed execution of an order's due cycle at on-chain time `now`.
/// When `is_final` comes back set, `execute_cycle::close_final_cycle`
/// completes the instruction once the debit has landed.
pub fn execute_cycle(ctx: &mut ExecuteCycle, now: i64) -> (r: Result<ExecuteCycleOutput, InstructionError>)
    ensures
        match crate::errors::first_error(
            old(ctx).accounts_error(),
            lift(execute_cycle::execution_error(old(ctx).order.unwrap(), now)),
        ) {
            Some(e) => r == Err::<ExecuteCycleOutput, InstructionError>(e) && *final(ctx) == *old(ctx),
            None => r matches Ok(out) && {
                let bump = canonical_bump(escrow_auth_seeds(old(ctx).order_key), old(ctx).program_id);
                &&& out.actions@ == execute_cycle::execution_actions(*old(ctx), bump)
                &&& out.event == execute_cycle::execution_event(*old(ctx), now)
                &&& out.is_final == (execute_cycle::executed_order(old(ctx).order.unwrap()).cycles_remaining == 0)
                &&& out.escrow_authority_bump == bump
                &&& *final(ctx) == (ExecuteCycle {
                    order: Some(execute_cycle::executed_order(old(ctx).order.unwrap())),
                    ..*old(ctx)
                })
            },
        },
{
    let bump = ctx.try_accounts()?;
    match execute_cycle::handler(ctx, bump, now) {
        Ok(out) => Ok(out),
        Err(e) => Err(InstructionError::Dca(e)),
    }
}

/// Keeper-signed undo of an order's most recent cycle at on-chain time `now`.
pub fn refund_cycle(ctx: &mut RefundCycle, now: i64) -> (r: Result<RefundCycleOutput, InstructionError>)
    ensures
        match crate::errors::first_error(
            old(ctx).accounts_error(),
            lift(refund_cycle::refund_error(old(ctx).order.unwrap())),
        ) {
            Some(e) => r == Err::<RefundCycleOutput, InstructionError>(e) && *final(ctx) == *old(ctx),
            None => r matches Ok(out) && {
                &&& out.actions@ == refund_cycle::refund_actions(*old(ctx))
                &&& out.event == refund_cycle::refund_event(*old(ctx), now)
                &&& *final(ctx) == (RefundCycle {
                    order: Some(refund_cycle::refunded_order(old(ctx).order.unwrap())),
                    ..*old(ctx)
                })
            },
        },
{
    ctx.try_accounts()?;
    match refund_cycle::handler(ctx, now) {
        Ok(out) => Ok(out),
        Err(e) => Err(InstructionError::Dca(e)),
    }
}

/// Owner-signed cancellation: the remaining escrow back, the order closed.
pub fn cancel_order(ctx: &mut CancelOrder) -> (r: Result<CancelOrderOutput, InstructionError>)
    ensures
        match old(ctx).accounts_error() {
            Some(e) => r == Err::<CancelOrderOutput, InstructionError>(e) && *final(ctx) == *old(ctx),
            None => r matches Ok(out) && {
                let bump = canonical_bump(escrow_auth_seeds(old(ctx).order_key), old(ctx).program_id);
                &&& out.actions@ == cancel_order::cancel_actions(*old(ctx), bump)
                &&& out.event.refunded_amount == old(ctx).escrow_token_account.amount
                &&& out.event.order == old(ctx).order_key
                &&& out.event.owner == old(ctx).owner
                &&& *final(ctx) == (CancelOrder { order: None, ..*old(ctx) })
            },
        },
{
    let bump = ctx.try_accounts()?;
    match cancel_order::handler(ctx, bump) {
        Ok(out) => Ok(out),
        Err(e) => Err(InstructionError::Dca(e)),
    }
}

} // verus!
