//! Properties of the program that span instructions: what every instruction
//! keeps, what one undoes of another, and what no one but the owner decides.

use vstd::prelude::*;
use crate::errors::{dca_error_index, DcaError, InstructionError};
use crate::instructions::accept_admin::AcceptAdmin;
use crate::instructions::cancel_order::{cancel_actions, CancelOrder};
use crate::instructions::execute_cycle::closing_actions;
use crate::instructions::create_order::{
    created_at_in_window, created_order, creation_actions, creation_error, creation_event, CreateOrder,
    CreateOrderBumps,
};
use crate::instructions::execute_cycle::{
    execution_actions, execution_error, execution_event, executed_order, ExecuteCycle,
};
use crate::instructions::initialize_config::{init_error, initial_config};
use crate::instructions::refund_cycle::{refund_actions, refund_error, refund_event, refunded_order, RefundCycle};
use crate::instructions::propose_admin::ProposeAdmin;
use crate::instructions::update_config::{config_at_pda, update_error, updated_config, UpdateConfig};
use crate::pda::{config_seeds, escrow_auth_seeds, escrow_seeds, order_seeds, pda};
use crate::pubkey::Pubkey;
use crate::state::{
    DcaConfig, DcaOrder, CREATED_AT_TOLERANCE_SECS, MAX_CYCLE_FREQUENCY, MAX_FEE_BPS, MAX_MIN_FEE_LAMPORTS,
    MAX_NUM_CYCLES, MIN_CYCLE_FREQUENCY,
};
use crate::token::{lemma_net_flow_small, net_flow, Action};

verus! {

/// A config that `initialize_config` accepts satisfies every bound:
/// fee caps, frequency range, cycle-count range, and
/// `min_total_in_amount >= default_num_cycles`.
pub proof fn initialized_config_is_well_formed(
    admin: Pubkey,
    fee_vault: Pubkey,
    keeper: Pubkey,
    fee_bps: u16,
    min_fee_lamports: u64,
    default_cycle_frequency: i64,
    default_num_cycles: u64,
    min_total_in_amount: u64,
    bump: u8,
)
    requires
        init_error(fee_bps, min_fee_lamports, default_cycle_frequency, default_num_cycles, min_total_in_amount) is None,
    ensures
        initial_config(
            admin,
            fee_vault,
            keeper,
            fee_bps,
            min_fee_lamports,
            default_cycle_frequency,
            default_num_cycles,
            min_total_in_amount,
            bump,
        ).well_formed(),
{
}

/// `update_config` keeps a well-formed config well-formed, whichever subset
/// of fields it touches: the admin cannot lift any cap.
pub proof fn update_keeps_config_well_formed(
    config: DcaConfig,
    new_keeper: Option<Pubkey>,
    new_fee_vault: Option<Pubkey>,
    new_fee_bps: Option<u16>,
    new_min_fee_lamports: Option<u64>,
    new_default_cycle_frequency: Option<i64>,
    new_default_num_cycles: Option<u64>,
    new_min_total_in_amount: Option<u64>,
    paused: Option<bool>,
)
    requires
        config.well_formed(),
        update_error(
            config,
            new_fee_bps,
            new_min_fee_lamports,
            new_default_cycle_frequency,
            new_default_num_cycles,
            new_min_total_in_amount,
        ) is None,
    ensures
        updated_config(
            config,
            new_keeper,
            new_fee_vault,
            new_fee_bps,
            new_min_fee_lamports,
            new_default_cycle_frequency,
            new_default_num_cycles,
            new_min_total_in_amount,
            paused,
        ).well_formed(),
        updated_config(
            config,
            new_keeper,
            new_fee_vault,
            new_fee_bps,
            new_min_fee_lamports,
            new_default_cycle_frequency,
            new_default_num_cycles,
            new_min_total_in_amount,
            paused,
        ).admin == config.admin,
{
}

/// Two-step admin transfer: once `new_admin` is proposed, `accept_admin`
/// passes its checks exactly when `new_admin` signs; any other signer is
/// refused with `PendingAdminMismatch`. After the transfer no proposal is
/// left, so a second acceptance is refused with `NoPendingAdmin`.
pub proof fn admin_transfer_needs_the_proposed_signer(ctx: AcceptAdmin, config: DcaConfig, new_admin: Pubkey)
    requires
        ctx.config == Some(DcaConfig { pending_admin: Some(new_admin), ..config }),
        config_at_pda(ctx.program_id, ctx.config_key, config),
    ensures
        ctx.accounts_error() is None <==> ctx.new_admin == new_admin,
        ctx.new_admin != new_admin ==> ctx.accounts_error() == Some(
            InstructionError::Dca(DcaError::PendingAdminMismatch),
        ),
        (AcceptAdmin {
            config: Some(DcaConfig { admin: ctx.new_admin, pending_admin: None, ..config }),
            ..ctx
        }).accounts_error() == Some(InstructionError::Dca(DcaError::NoPendingAdmin)),
{
}

/// An order that `create_order` stores from a well-formed config is
/// well-formed: active, with all its cycles ahead.
pub proof fn created_order_is_well_formed(ctx: CreateOrder, bumps: CreateOrderBumps, total_in_amount: u64, now: i64)
    requires
        ctx.config matches Some(c) && c.well_formed(),
    ensures
        created_order(ctx, bumps, total_in_amount, now).well_formed(),
        created_order(ctx, bumps, total_in_amount, now).cycles_remaining
            == created_order(ctx, bumps, total_in_amount, now).initial_num_cycles,
{
}

/// `execute_cycle` never raises `cycles_remaining`, and leaves a well-formed
/// order well-formed unless it ran its last cycle, in which case the order is
/// inactive (and the instruction closes it).
pub proof fn execution_keeps_order_well_formed(order: DcaOrder, now: i64)
    requires
        order.well_formed(),
        execution_error(order, now) is None,
    ensures
        executed_order(order).cycles_remaining < order.cycles_remaining,
        executed_order(order).cycles_remaining > 0 ==> executed_order(order).well_formed(),
        executed_order(order).cycles_remaining == 0 ==> !executed_order(order).is_active,
{
}

/// `refund_cycle` never pushes `cycles_remaining` above
/// `initial_num_cycles`, however often the keeper calls it: every accepted
/// refund leaves a well-formed order well-formed.
pub proof fn refund_keeps_order_well_formed(order: DcaOrder)
    requires
        order.well_formed(),
        refund_error(order) is None,
    ensures
        refunded_order(order).well_formed(),
        refunded_order(order).cycles_remaining <= refunded_order(order).initial_num_cycles,
{
}

/// An order at its full schedule cannot be refunded.
pub proof fn no_refund_at_full_schedule(order: DcaOrder)
    requires
        order.cycles_remaining >= order.initial_num_cycles,
    ensures
        refund_error(order) == Some(DcaError::CycleOverRefund),
{
}

/// The keeper's instructions cannot alter an order's terms: owner, mints,
/// per-cycle amount, initial cycle count, frequency and bumps stay as the
/// owner created them.
pub proof fn keeper_cannot_change_terms(order: DcaOrder)
    ensures
        executed_order(order).same_terms(order),
        refunded_order(order).same_terms(order),
{
}

/// `refund_cycle` undoes a non-final `execute_cycle`: the order returns to
/// exactly its state before the cycle, and the escrow gets back what the
/// cycle took from it.
pub proof fn refund_undoes_execution(
    ectx: ExecuteCycle,
    rctx: RefundCycle,
    escrow_authority_bump: u8,
    now: i64,
)
    requires
        ectx.order matches Some(o) && o.is_active && o.cycles_remaining <= o.initial_num_cycles,
        execution_error(ectx.order.unwrap(), now) is None,
        executed_order(ectx.order.unwrap()).cycles_remaining > 0,
        rctx.order == Some(executed_order(ectx.order.unwrap())),
        rctx.escrow_token_account.key == ectx.escrow_token_account.key,
        ectx.keeper_input_ata.key != ectx.escrow_token_account.key,
        rctx.keeper_input_ata.key != rctx.escrow_token_account.key,
    ensures
        refund_error(executed_order(ectx.order.unwrap())) is None,
        refunded_order(executed_order(ectx.order.unwrap())) == ectx.order.unwrap(),
        net_flow(execution_actions(ectx, escrow_authority_bump), ectx.escrow_token_account.key)
            + net_flow(refund_actions(rctx), ectx.escrow_token_account.key) == 0,
{
    let key = ectx.escrow_token_account.key;
    lemma_net_flow_small(execution_actions(ectx, escrow_authority_bump), key);
    lemma_net_flow_small(refund_actions(rctx), key);
}

/// The escrow holds `cycles_remaining * in_amount_per_cycle`: `create_order`
/// funds it with exactly that, and each executed cycle takes one slice out.
pub proof fn escrow_tracks_schedule_on_creation(ctx: CreateOrder, bumps: CreateOrderBumps, total_in_amount: u64, created_at: i64, now: i64)
    requires
        ctx.config matches Some(c) && c.default_num_cycles > 0,
        creation_error(ctx.config.unwrap(), total_in_amount, created_at, now) is None,
        ctx.escrow_key != ctx.user_input_ata.key,
        ctx.escrow_key != ctx.fee_vault.key,
    ensures
        net_flow(creation_actions(ctx, total_in_amount), ctx.escrow_key)
            == created_order(ctx, bumps, total_in_amount, now).cycles_remaining
                * created_order(ctx, bumps, total_in_amount, now).in_amount_per_cycle,
{
    let c = ctx.config.unwrap();
    lemma_net_flow_small(creation_actions(ctx, total_in_amount), ctx.escrow_key);
    assert(total_in_amount == c.default_num_cycles * (total_in_amount / c.default_num_cycles)) by (nonlinear_arith)
        requires
            c.default_num_cycles > 0,
            total_in_amount % c.default_num_cycles == 0,
    ;
}

/// Executing a cycle keeps the escrow at `cycles_remaining * in_amount_per_cycle`.
pub proof fn escrow_tracks_schedule_on_execution(ctx: ExecuteCycle, escrow_authority_bump: u8, now: i64, balance: int)
    requires
        ctx.order is Some,
        execution_error(ctx.order.unwrap(), now) is None,
        ctx.keeper_input_ata.key != ctx.escrow_token_account.key,
        balance == ctx.order.unwrap().cycles_remaining * ctx.order.unwrap().in_amount_per_cycle,
    ensures
        balance + net_flow(execution_actions(ctx, escrow_authority_bump), ctx.escrow_token_account.key)
            == executed_order(ctx.order.unwrap()).cycles_remaining * executed_order(ctx.order.unwrap()).in_amount_per_cycle,
{
    let o = ctx.order.unwrap();
    lemma_net_flow_small(execution_actions(ctx, escrow_authority_bump), ctx.escrow_token_account.key);
    assert(o.cycles_remaining * o.in_amount_per_cycle - o.in_amount_per_cycle
        == (o.cycles_remaining - 1) * o.in_amount_per_cycle) by (nonlinear_arith);
}

/// Refunding a cycle keeps the escrow at `cycles_remaining * in_amount_per_cycle`.
pub proof fn escrow_tracks_schedule_on_refund(ctx: RefundCycle, balance: int)
    requires
        ctx.order is Some,
        refund_error(ctx.order.unwrap()) is None,
        ctx.keeper_input_ata.key != ctx.escrow_token_account.key,
        balance == ctx.order.unwrap().cycles_remaining * ctx.order.unwrap().in_amount_per_cycle,
    ensures
        balance + net_flow(refund_actions(ctx), ctx.escrow_token_account.key)
            == refunded_order(ctx.order.unwrap()).cycles_remaining * refunded_order(ctx.order.unwrap()).in_amount_per_cycle,
{
    let o = ctx.order.unwrap();
    lemma_net_flow_small(refund_actions(ctx), ctx.escrow_token_account.key);
    assert(o.cycles_remaining * o.in_amount_per_cycle + o.in_amount_per_cycle
        == (o.cycles_remaining + 1) * o.in_amount_per_cycle) by (nonlinear_arith);
}

/// The fee is taken upfront and never above the caps: at most 3% of the
/// input or the 1 SOL floor cap, whichever is larger. The owner's account
/// pays the input plus the fee; the escrow receives the input and the fee
/// vault the fee.
pub proof fn creation_fee_flows(ctx: CreateOrder, total_in_amount: u64)
    requires
        ctx.config matches Some(c) && c.well_formed(),
        ctx.user_input_ata.key != ctx.escrow_key,
        ctx.user_input_ata.key != ctx.fee_vault.key,
        ctx.escrow_key != ctx.fee_vault.key,
    ensures
        ({
            let fee = ctx.config.unwrap().fee_for(total_in_amount);
            &&& fee <= total_in_amount * MAX_FEE_BPS / 10_000 || fee <= MAX_MIN_FEE_LAMPORTS
            &&& net_flow(creation_actions(ctx, total_in_amount), ctx.user_input_ata.key) == -(total_in_amount + fee)
            &&& net_flow(creation_actions(ctx, total_in_amount), ctx.escrow_key) == total_in_amount
            &&& net_flow(creation_actions(ctx, total_in_amount), ctx.fee_vault.key) == fee
        }),
{
    let c = ctx.config.unwrap();
    lemma_net_flow_small(creation_actions(ctx, total_in_amount), ctx.user_input_ata.key);
    lemma_net_flow_small(creation_actions(ctx, total_in_amount), ctx.escrow_key);
    lemma_net_flow_small(creation_actions(ctx, total_in_amount), ctx.fee_vault.key);
    assert(total_in_amount * c.fee_bps <= total_in_amount * MAX_FEE_BPS) by (nonlinear_arith)
        requires
            c.fee_bps <= MAX_FEE_BPS,
    ;
    assert((total_in_amount * c.fee_bps) / 10_000 <= (total_in_amount * MAX_FEE_BPS) / 10_000) by (nonlinear_arith)
        requires
            total_in_amount * c.fee_bps <= total_in_amount * MAX_FEE_BPS,
            0 <= total_in_amount * c.fee_bps,
    ;
    assert((total_in_amount * MAX_FEE_BPS) / 10_000 <= 0xffff_ffff_ffff_ffff) by (nonlinear_arith)
        requires
            total_in_amount <= 0xffff_ffff_ffff_ffff,
    ;
}

/// Under a well-formed config no order that meets the minimum and splits
/// evenly is refused for a zero slice: `min_total_in_amount >=
/// default_num_cycles` makes every such slice at least one lamport.
pub proof fn minimum_order_has_nonzero_slice(config: DcaConfig, total_in_amount: u64, created_at: i64, now: i64)
    requires
        config.well_formed(),
        created_at_in_window(created_at, now),
        total_in_amount >= config.min_total_in_amount,
        total_in_amount % config.default_num_cycles == 0,
    ensures
        creation_error(config, total_in_amount, created_at, now) is None,
        total_in_amount / config.default_num_cycles >= 1,
{
    assert(total_in_amount / config.default_num_cycles >= 1) by (nonlinear_arith)
        requires
            total_in_amount >= config.default_num_cycles,
            config.default_num_cycles > 0,
    ;
}

/// Pausing the program does not touch refunds: `refund_cycle` passes or
/// fails its checks the same way whether or not the config is paused.
pub proof fn pause_does_not_block_refund(ctx: RefundCycle, config: DcaConfig, paused: bool)
    requires
        ctx.config == Some(config),
    ensures
        (RefundCycle { config: Some(DcaConfig { paused, ..config }), ..ctx }).accounts_error()
            == ctx.accounts_error(),
{
}

/// A paused program executes no cycle.
pub proof fn pause_blocks_execution(ctx: ExecuteCycle)
    requires
        ctx.config matches Some(c) && c.paused,
    ensures
        ctx.accounts_error() is Some,
{
}

/// The owner can always cancel an active order and takes back the whole
/// escrow: with the order's own accounts, `cancel_order` passes every check
/// (no config, pause switch, admin or keeper is consulted) and its body
/// cannot fail; the owner's account receives the full escrow balance.
pub proof fn owner_can_always_cancel(ctx: CancelOrder, escrow_authority_bump: u8)
    requires
        ctx.order matches Some(o) && o.is_active && o.owner == ctx.owner,
        crate::pda::at_bumped_address(
            ctx.escrow_token_account.key,
            crate::pda::escrow_seeds(ctx.order_key),
            ctx.order.unwrap().escrow_bump,
            ctx.program_id,
        ),
        ctx.escrow_authority@ == crate::pda::pda(crate::pda::escrow_auth_seeds(ctx.order_key), ctx.program_id),
        ctx.user_input_ata.mint == ctx.order.unwrap().input_mint,
        ctx.user_input_ata.owner == ctx.owner,
        ctx.user_input_ata.key != ctx.escrow_token_account.key,
    ensures
        ctx.accounts_error() is None,
        net_flow(cancel_actions(ctx, escrow_authority_bump), ctx.user_input_ata.key)
            == ctx.escrow_token_account.amount,
{
    lemma_net_flow_small(cancel_actions(ctx, escrow_authority_bump), ctx.user_input_ata.key);
}

/// No cycle runs before it is due, and each cycle pushes the next due time
/// strictly later (frequencies are positive in any well-formed config).
pub proof fn cycles_run_on_schedule(order: DcaOrder, now: i64)
    requires
        execution_error(order, now) is None,
        order.cycle_frequency > 0,
    ensures
        now >= order.next_cycle_at,
        executed_order(order).next_cycle_at > order.next_cycle_at,
{
}

/// A paused program opens no order.
pub proof fn pause_blocks_creation(ctx: CreateOrder, created_at: i64)
    requires
        ctx.config matches Some(c) && c.paused,
    ensures
        ctx.accounts_error(created_at) is Some,
{
}

/// Every order is funded in wrapped SOL, from the owner's own wrapped-SOL
/// account, and pays its fee into the configured vault.
pub proof fn orders_are_wsol_only(ctx: CreateOrder, created_at: i64)
    requires
        ctx.accounts_error(created_at) is None,
    ensures
        ctx.input_mint@ == crate::instructions::create_order::wsol_mint_bytes(),
        ctx.user_input_ata.mint == ctx.input_mint,
        ctx.user_input_ata.owner == ctx.owner,
        ctx.fee_vault.key == ctx.config.unwrap().fee_vault,
        ctx.fee_vault.mint == ctx.input_mint,
{
}

/// An order is only opened with a `created_at` within
/// `CREATED_AT_TOLERANCE_SECS` of on-chain time, so its address cannot be
/// seeded with an arbitrary timestamp.
pub proof fn created_at_tracks_the_clock(config: DcaConfig, total_in_amount: u64, created_at: i64, now: i64)
    requires
        creation_error(config, total_in_amount, created_at, now) is None,
    ensures
        now - crate::state::CREATED_AT_TOLERANCE_SECS <= created_at <= now + crate::state::CREATED_AT_TOLERANCE_SECS,
{
}

/// Fees are never refunded: once paid into the fee vault at creation, no
/// later instruction on the order (a cycle, its wind-down, a refund, a
/// cancellation) moves tokens into or out of any account other than the
/// order's escrow and the keeper's and owner's accounts it names.
pub proof fn fees_stay_in_the_vault(
    ectx: ExecuteCycle,
    rctx: RefundCycle,
    cctx: CancelOrder,
    escrow_authority_bump: u8,
    residual: u64,
    vault: Pubkey,
)
    requires
        vault != ectx.escrow_token_account.key,
        vault != ectx.keeper_input_ata.key,
        vault != ectx.user_input_ata.key,
        vault != rctx.keeper_input_ata.key,
        vault != rctx.escrow_token_account.key,
        vault != cctx.escrow_token_account.key,
        vault != cctx.user_input_ata.key,
    ensures
        net_flow(execution_actions(ectx, escrow_authority_bump), vault) == 0,
        net_flow(closing_actions(ectx, escrow_authority_bump, residual), vault) == 0,
        net_flow(refund_actions(rctx), vault) == 0,
        net_flow(cancel_actions(cctx, escrow_authority_bump), vault) == 0,
{
    lemma_net_flow_small(execution_actions(ectx, escrow_authority_bump), vault);
    lemma_net_flow_small(closing_actions(ectx, escrow_authority_bump, residual), vault);
    lemma_net_flow_small(refund_actions(rctx), vault);
    lemma_net_flow_small(cancel_actions(cctx, escrow_authority_bump), vault);
}

/// No order below the configured minimum is ever opened: whatever the
/// config, an input under `min_total_in_amount` is refused, and once
/// `created_at` is within the tolerance the refusal is
/// `TotalAmountBelowMinimum`.
pub proof fn orders_below_minimum_are_refused(config: DcaConfig, total_in_amount: u64, created_at: i64, now: i64)
    requires
        total_in_amount < config.min_total_in_amount,
    ensures
        creation_error(config, total_in_amount, created_at, now) is Some,
        -CREATED_AT_TOLERANCE_SECS <= created_at - now <= CREATED_AT_TOLERANCE_SECS ==> creation_error(
            config,
            total_in_amount,
            created_at,
            now,
        ) == Some(DcaError::TotalAmountBelowMinimum),
{
}

/// `create_order` accepts an amount exactly when `created_at` is within the
/// tolerance of on-chain time, the amount meets the configured minimum, and
/// it splits evenly into the configured number of cycles with at least one
/// lamport per cycle.
pub proof fn creation_accepts_exactly_the_valid_requests(
    config: DcaConfig,
    total_in_amount: u64,
    created_at: i64,
    now: i64,
)
    requires
        config.default_num_cycles > 0,
    ensures
        creation_error(config, total_in_amount, created_at, now) is None <==> {
            &&& -CREATED_AT_TOLERANCE_SECS <= created_at - now <= CREATED_AT_TOLERANCE_SECS
            &&& total_in_amount >= config.min_total_in_amount
            &&& total_in_amount % config.default_num_cycles == 0
            &&& total_in_amount >= config.default_num_cycles
        },
{
    let n = config.default_num_cycles;
    assert(total_in_amount / n == 0 <==> total_in_amount < n) by (nonlinear_arith)
        requires
            n > 0,
    ;
}

/// The order that `create_order` stores is the one requested: the owner's,
/// on the given mints, splitting the whole input into the configured number
/// of equal slices (`in_amount_per_cycle * cycles == total_in_amount`), on
/// the configured frequency, with every cycle ahead and the first one due at
/// once. The event reports the input and the fee actually charged.
pub proof fn created_order_records_the_request(
    ctx: CreateOrder,
    bumps: CreateOrderBumps,
    total_in_amount: u64,
    created_at: i64,
    now: i64,
)
    requires
        ctx.config matches Some(c) && c.default_num_cycles > 0,
        creation_error(ctx.config.unwrap(), total_in_amount, created_at, now) is None,
    ensures
        ({
            let c = ctx.config.unwrap();
            let o = created_order(ctx, bumps, total_in_amount, now);
            let ev = creation_event(ctx, total_in_amount);
            &&& o.owner == ctx.owner
            &&& o.input_mint == ctx.input_mint
            &&& o.output_mint == ctx.output_mint
            &&& o.in_amount_per_cycle * c.default_num_cycles == total_in_amount
            &&& o.in_amount_per_cycle > 0
            &&& o.cycles_remaining == c.default_num_cycles
            &&& o.initial_num_cycles == c.default_num_cycles
            &&& o.cycle_frequency == c.default_cycle_frequency
            &&& o.next_cycle_at == now
            &&& o.is_active
            &&& o.bump == bumps.order
            &&& o.escrow_bump == bumps.escrow_token_account
            &&& ev.order == ctx.order_key
            &&& ev.owner == ctx.owner
            &&& ev.input_mint == ctx.input_mint
            &&& ev.output_mint == ctx.output_mint
            &&& ev.total_amount == total_in_amount
            &&& ev.per_cycle == o.in_amount_per_cycle
            &&& ev.cycles == c.default_num_cycles
            &&& ev.frequency == c.default_cycle_frequency
            &&& ev.fee_paid == c.fee_for(total_in_amount)
        }),
{
    let n = ctx.config.unwrap().default_num_cycles;
    assert((total_in_amount / n) * n == total_in_amount && total_in_amount / n > 0) by (nonlinear_arith)
        requires
            n > 0,
            total_in_amount % n == 0,
            total_in_amount / n != 0,
    ;
    assert(total_in_amount / n <= total_in_amount) by (nonlinear_arith)
        requires
            n > 0,
    ;
}

/// A due cycle is never refused, however late it is executed: with a cycle
/// left and a next due time that fits in `i64`, `execute_cycle` passes its
/// checks at every `now >= next_cycle_at`. Before that it is refused with
/// `CycleTooEarly`, and once no cycle is left with `OrderComplete`.
pub proof fn due_cycle_is_never_refused(order: DcaOrder, now: i64)
    ensures
        execution_error(order, now) is None <==> {
            &&& now >= order.next_cycle_at
            &&& order.cycles_remaining > 0
            &&& i64::MIN <= order.next_cycle_at + order.cycle_frequency <= i64::MAX
        },
        now < order.next_cycle_at ==> execution_error(order, now) == Some(DcaError::CycleTooEarly),
        now >= order.next_cycle_at && order.cycles_remaining == 0 ==> execution_error(order, now) == Some(
            DcaError::OrderComplete,
        ),
{
}

/// Each executed cycle uses up exactly one cycle and moves the next due time
/// exactly one period on, counted from the previous due time (not from
/// `now`); the order stays active exactly while cycles are left.
pub proof fn execution_advances_the_schedule_by_one(order: DcaOrder, now: i64)
    requires
        execution_error(order, now) is None,
    ensures
        executed_order(order).cycles_remaining + 1 == order.cycles_remaining,
        executed_order(order).next_cycle_at == order.next_cycle_at + order.cycle_frequency,
        executed_order(order).is_active <==> executed_order(order).cycles_remaining > 0,
        executed_order(order).same_terms(order),
{
}

/// `refund_cycle` is accepted exactly when a cycle has been used and the
/// previous due time fits in `i64`; it gives back exactly one cycle and
/// winds the next due time back exactly one period.
pub proof fn refund_gives_back_one_cycle(order: DcaOrder)
    ensures
        refund_error(order) is None <==> {
            &&& order.cycles_remaining < order.initial_num_cycles
            &&& i64::MIN <= order.next_cycle_at - order.cycle_frequency <= i64::MAX
        },
        refund_error(order) is None ==> {
            &&& refunded_order(order).cycles_remaining == order.cycles_remaining + 1
            &&& refunded_order(order).next_cycle_at + order.cycle_frequency == order.next_cycle_at
            &&& refunded_order(order).is_active == order.is_active
            &&& refunded_order(order).same_terms(order)
        },
{
}

/// `update_config` sets every field it is given to the given value and
/// leaves every other field as it was; the admin, the pending admin and the
/// bump are never touched. It succeeds exactly when each given value is
/// within its cap and the resulting config keeps `min_total_in_amount >=
/// default_num_cycles`.
pub proof fn update_sets_each_given_field(
    config: DcaConfig,
    new_keeper: Option<Pubkey>,
    new_fee_vault: Option<Pubkey>,
    new_fee_bps: Option<u16>,
    new_min_fee_lamports: Option<u64>,
    new_default_cycle_frequency: Option<i64>,
    new_default_num_cycles: Option<u64>,
    new_min_total_in_amount: Option<u64>,
    paused: Option<bool>,
)
    ensures
        ({
            let u = updated_config(
                config,
                new_keeper,
                new_fee_vault,
                new_fee_bps,
                new_min_fee_lamports,
                new_default_cycle_frequency,
                new_default_num_cycles,
                new_min_total_in_amount,
                paused,
            );
            &&& u.keeper == (match new_keeper {
                Some(v) => v,
                None => config.keeper,
            })
            &&& u.fee_vault == (match new_fee_vault {
                Some(v) => v,
                None => config.fee_vault,
            })
            &&& u.fee_bps == (match new_fee_bps {
                Some(v) => v,
                None => config.fee_bps,
            })
            &&& u.min_fee_lamports == (match new_min_fee_lamports {
                Some(v) => v,
                None => config.min_fee_lamports,
            })
            &&& u.default_cycle_frequency == (match new_default_cycle_frequency {
                Some(v) => v,
                None => config.default_cycle_frequency,
            })
            &&& u.default_num_cycles == (match new_default_num_cycles {
                Some(v) => v,
                None => config.default_num_cycles,
            })
            &&& u.min_total_in_amount == (match new_min_total_in_amount {
                Some(v) => v,
                None => config.min_total_in_amount,
            })
            &&& u.paused == (match paused {
                Some(v) => v,
                None => config.paused,
            })
            &&& u.admin == config.admin
            &&& u.pending_admin == config.pending_admin
            &&& u.bump == config.bump
            &&& update_error(
                config,
                new_fee_bps,
                new_min_fee_lamports,
                new_default_cycle_frequency,
                new_default_num_cycles,
                new_min_total_in_amount,
            ) is None <==> {
                &&& (new_fee_bps matches Some(b) ==> b <= MAX_FEE_BPS)
                &&& (new_min_fee_lamports matches Some(m) ==> m <= MAX_MIN_FEE_LAMPORTS)
                &&& (new_default_cycle_frequency matches Some(f) ==> MIN_CYCLE_FREQUENCY <= f
                    <= MAX_CYCLE_FREQUENCY)
                &&& (new_default_num_cycles matches Some(n) ==> 0 < n <= MAX_NUM_CYCLES)
                &&& u.min_total_in_amount >= u.default_num_cycles
            }
        }),
{
}

/// `initialize_config` stores every parameter exactly as given, with the
/// signer as admin, no pending admin, and the program not paused. It
/// succeeds exactly when every parameter is within its bounds and
/// `min_total_in_amount >= default_num_cycles`.
pub proof fn initialize_stores_parameters_as_given(
    admin: Pubkey,
    fee_vault: Pubkey,
    keeper: Pubkey,
    fee_bps: u16,
    min_fee_lamports: u64,
    default_cycle_frequency: i64,
    default_num_cycles: u64,
    min_total_in_amount: u64,
    bump: u8,
)
    ensures
        ({
            let c = initial_config(
                admin,
                fee_vault,
                keeper,
                fee_bps,
                min_fee_lamports,
                default_cycle_frequency,
                default_num_cycles,
                min_total_in_amount,
                bump,
            );
            &&& c.admin == admin
            &&& c.pending_admin is None
            &&& c.fee_vault == fee_vault
            &&& c.keeper == keeper
            &&& c.fee_bps == fee_bps
            &&& c.min_fee_lamports == min_fee_lamports
            &&& c.default_cycle_frequency == default_cycle_frequency
            &&& c.default_num_cycles == default_num_cycles
            &&& c.min_total_in_amount == min_total_in_amount
            &&& !c.paused
            &&& c.bump == bump
        }),
        init_error(fee_bps, min_fee_lamports, default_cycle_frequency, default_num_cycles, min_total_in_amount)
            is None <==> {
            &&& fee_bps <= MAX_FEE_BPS
            &&& min_fee_lamports <= MAX_MIN_FEE_LAMPORTS
            &&& MIN_CYCLE_FREQUENCY <= default_cycle_frequency <= MAX_CYCLE_FREQUENCY
            &&& 0 < default_num_cycles <= MAX_NUM_CYCLES
            &&& min_total_in_amount >= default_num_cycles
        },
{
}

/// The upfront fee is the greater of `total_in_amount * fee_bps / 10_000`
/// and the floor `min_fee_lamports`: never below the floor, never below the
/// percentage fee, and equal to one of them. The percentage fee always fits
/// in a `u64` when `fee_bps` is at most 100% (as every well-formed config's is).
pub proof fn fee_is_the_greater_of_percentage_and_floor(config: DcaConfig, total_in_amount: u64)
    ensures
        config.fee_for(total_in_amount) >= config.min_fee_lamports,
        (total_in_amount as int * config.fee_bps as int) / 10_000 <= u64::MAX ==> {
            let pct = (total_in_amount as int * config.fee_bps as int) / 10_000;
            &&& config.fee_for(total_in_amount) >= pct
            &&& config.fee_for(total_in_amount) == pct || config.fee_for(total_in_amount)
                == config.min_fee_lamports
        },
        config.fee_bps <= 10_000 ==> (total_in_amount as int * config.fee_bps as int) / 10_000 <= u64::MAX,
{
    let t = total_in_amount as int;
    let b = config.fee_bps as int;
    assert(0 <= (t * b) / 10_000) by (nonlinear_arith)
        requires
            0 <= t,
            0 <= b,
    ;
    assert(b <= 10_000 ==> (t * b) / 10_000 <= t) by (nonlinear_arith)
        requires
            0 <= t,
            0 <= b,
    ;
}

/// Only the configured keeper runs or refunds cycles, and only on an active
/// order of the named owner; only the admin updates the config or proposes
/// a new admin; only the order's owner cancels it.
pub proof fn only_authorized_signers_pass(
    ectx: ExecuteCycle,
    rctx: RefundCycle,
    uctx: UpdateConfig,
    pctx: ProposeAdmin,
    cctx: CancelOrder,
)
    ensures
        ectx.accounts_error() is None ==> {
            &&& ectx.config matches Some(c) && ectx.keeper == c.keeper && !c.paused
            &&& ectx.order matches Some(o) && o.is_active && o.owner == ectx.owner
        },
        rctx.accounts_error() is None ==> {
            &&& rctx.config matches Some(c) && rctx.keeper == c.keeper
            &&& rctx.order matches Some(o) && o.is_active && o.owner == rctx.owner
        },
        uctx.accounts_error() is None ==> (uctx.config matches Some(c) && uctx.admin == c.admin),
        pctx.accounts_error() is None ==> (pctx.config matches Some(c) && pctx.admin == c.admin),
        cctx.accounts_error() is None ==> (cctx.order matches Some(o) && o.is_active && o.owner == cctx.owner),
{
}

/// An executed cycle moves exactly one slice, `in_amount_per_cycle`, out of
/// the escrow into the keeper's account and touches no other balance; its
/// event reports that slice, the cycles left afterwards and the time.
pub proof fn a_cycle_moves_one_slice_to_the_keeper(ctx: ExecuteCycle, escrow_authority_bump: u8, now: i64, other: Pubkey)
    requires
        ctx.order is Some,
        ctx.keeper_input_ata.key != ctx.escrow_token_account.key,
        other != ctx.keeper_input_ata.key,
        other != ctx.escrow_token_account.key,
    ensures
        ({
            let o = ctx.order.unwrap();
            let actions = execution_actions(ctx, escrow_authority_bump);
            let ev = execution_event(ctx, now);
            &&& net_flow(actions, ctx.keeper_input_ata.key) == o.in_amount_per_cycle
            &&& net_flow(actions, ctx.escrow_token_account.key) == -o.in_amount_per_cycle
            &&& net_flow(actions, other) == 0
            &&& ev.order == ctx.order_key
            &&& ev.swap_amount == o.in_amount_per_cycle
            &&& ev.timestamp == now
            &&& (o.cycles_remaining > 0 ==> ev.cycles_remaining + 1 == o.cycles_remaining)
        }),
{
    let actions = execution_actions(ctx, escrow_authority_bump);
    lemma_net_flow_small(actions, ctx.keeper_input_ata.key);
    lemma_net_flow_small(actions, ctx.escrow_token_account.key);
    lemma_net_flow_small(actions, other);
}

/// A refund moves exactly one slice back from the keeper's account into the
/// escrow and touches no other balance; its event reports that slice, the
/// cycles left afterwards and the time.
pub proof fn a_refund_moves_one_slice_back(ctx: RefundCycle, now: i64, other: Pubkey)
    requires
        ctx.order is Some,
        ctx.keeper_input_ata.key != ctx.escrow_token_account.key,
        other != ctx.keeper_input_ata.key,
        other != ctx.escrow_token_account.key,
    ensures
        ({
            let o = ctx.order.unwrap();
            let actions = refund_actions(ctx);
            let ev = refund_event(ctx, now);
            &&& net_flow(actions, ctx.keeper_input_ata.key) == -o.in_amount_per_cycle
            &&& net_flow(actions, ctx.escrow_token_account.key) == o.in_amount_per_cycle
            &&& net_flow(actions, other) == 0
            &&& ev.order == ctx.order_key
            &&& ev.refund_amount == o.in_amount_per_cycle
            &&& ev.timestamp == now
            &&& (o.cycles_remaining < u64::MAX ==> ev.cycles_remaining == o.cycles_remaining + 1)
        }),
{
    let actions = refund_actions(ctx);
    lemma_net_flow_small(actions, ctx.keeper_input_ata.key);
    lemma_net_flow_small(actions, ctx.escrow_token_account.key);
    lemma_net_flow_small(actions, other);
}

/// Winding an order down (after its last cycle, or on cancellation) hands
/// the whole given balance from the escrow to the owner's account, and then
/// closes the escrow token account and the order account, in that order,
/// with their rent to the owner.
pub proof fn wind_down_returns_everything_to_the_owner(
    ectx: ExecuteCycle,
    cctx: CancelOrder,
    escrow_authority_bump: u8,
    residual: u64,
)
    requires
        ectx.user_input_ata.key != ectx.escrow_token_account.key,
        cctx.user_input_ata.key != cctx.escrow_token_account.key,
    ensures
        ({
            let c = closing_actions(ectx, escrow_authority_bump, residual);
            &&& net_flow(c, ectx.user_input_ata.key) == residual
            &&& net_flow(c, ectx.escrow_token_account.key) == -residual
            &&& c.len() >= 2
            &&& c[c.len() - 2] matches Action::CloseTokenAccount { account, destination, .. }
                && account == ectx.escrow_token_account.key && destination == ectx.owner
            &&& c[c.len() - 1] == Action::CloseProgramAccount { account: ectx.order_key, destination: ectx.owner }
        }),
        ({
            let c = cancel_actions(cctx, escrow_authority_bump);
            &&& net_flow(c, cctx.user_input_ata.key) == cctx.escrow_token_account.amount
            &&& net_flow(c, cctx.escrow_token_account.key) == -cctx.escrow_token_account.amount
            &&& c.len() >= 2
            &&& c[c.len() - 2] matches Action::CloseTokenAccount { account, destination, .. }
                && account == cctx.escrow_token_account.key && destination == cctx.owner
            &&& c[c.len() - 1] == Action::CloseProgramAccount { account: cctx.order_key, destination: cctx.owner }
        }),
{
    let c = closing_actions(ectx, escrow_authority_bump, residual);
    lemma_net_flow_small(c, ectx.user_input_ata.key);
    lemma_net_flow_small(c, ectx.escrow_token_account.key);
    let d = cancel_actions(cctx, escrow_authority_bump);
    lemma_net_flow_small(d, cctx.user_input_ata.key);
    lemma_net_flow_small(d, cctx.escrow_token_account.key);
}

/// `create_order` only creates fresh accounts at their own addresses: the
/// order at the PDA of its owner, mints and `created_at`, the escrow and its
/// authority at the PDAs of that order, where nothing exists yet, under an
/// unpaused config. `initialize_config` only creates the config at its PDA,
/// once.
pub proof fn accounts_are_created_fresh_at_their_addresses(
    ctx: CreateOrder,
    created_at: i64,
    ictx: crate::instructions::initialize_config::InitializeConfig,
)
    ensures
        ctx.accounts_error(created_at) is None ==> {
            &&& ctx.config matches Some(c) && !c.paused
            &&& ctx.order is None
            &&& !ctx.escrow_exists
            &&& ctx.order_key@ == pda(order_seeds(ctx.owner, ctx.input_mint, ctx.output_mint, created_at), ctx.program_id)
            &&& ctx.escrow_key@ == pda(escrow_seeds(ctx.order_key), ctx.program_id)
            &&& ctx.escrow_authority@ == pda(escrow_auth_seeds(ctx.order_key), ctx.program_id)
        },
        ictx.accounts_error() is None ==> {
            &&& ictx.config is None
            &&& ictx.config_key@ == pda(config_seeds(), ictx.program_id)
        },
{
}

/// Every program error has its own code, from 6000 up, one per variant.
pub proof fn error_codes_are_distinct(a: DcaError, b: DcaError)
    ensures
        a != b ==> dca_error_index(a) != dca_error_index(b),
        dca_error_index(a) <= 20,
{
}

} // verus!
