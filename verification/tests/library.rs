// Unit-level checks of the library's pieces: fee arithmetic, address
// derivation, and the instruction bodies on states no instruction sequence
// reaches.

use holderscan_dca::errors::DcaError;
use holderscan_dca::instructions::execute_cycle::{self, ExecuteCycle};
use holderscan_dca::instructions::initialize_config::{
    validate_cycle_frequency, validate_fee_tiers, validate_num_cycles,
};
use holderscan_dca::instructions::refund_cycle::{self, RefundCycle};
use holderscan_dca::pda::{config_address, escrow_address, escrow_authority_address, order_address};
use holderscan_dca::pubkey::Pubkey;
use holderscan_dca::state::{DcaConfig, DcaOrder};
use holderscan_dca::token::{Action, TokenAccount};

const PROGRAM_ID: [u8; 32] = [
    25, 230, 200, 69, 10, 197, 206, 116, 166, 147, 70, 65, 79, 134, 212, 94, 166, 105, 125, 96,
    161, 81, 109, 93, 65, 47, 9, 207, 246, 142, 86, 190,
];

fn key(b: u8) -> Pubkey {
    Pubkey::new_from_array([b; 32])
}

fn config(fee_bps: u16, min_fee_lamports: u64) -> DcaConfig {
    DcaConfig {
        admin: key(1),
        pending_admin: None,
        fee_vault: key(2),
        keeper: key(3),
        fee_bps,
        min_fee_lamports,
        default_cycle_frequency: 14_400,
        default_num_cycles: 42,
        min_total_in_amount: 42,
        paused: false,
        bump: 255,
    }
}

#[test]
fn fee_is_percentage_or_floor() {
    // 45 bps of 1 SOL is 4_500_000 lamports; a 0.01 SOL floor is below it.
    assert_eq!(config(45, 10_000_000).compute_fee(1_000_000_000), Some(10_000_000));
    assert_eq!(config(45, 1_000_000).compute_fee(1_000_000_000), Some(4_500_000));
    assert_eq!(config(100, 0).compute_fee(1_000_000), Some(10_000));
    // Rounds down.
    assert_eq!(config(100, 0).compute_fee(1_000_001), Some(10_000));
    assert_eq!(config(100, 0).compute_fee(99), Some(0));
    // Never overflows: the product is taken in 128 bits.
    assert_eq!(config(300, 0).compute_fee(u64::MAX), Some(553_402_322_211_286_548));
}

#[test]
fn validators_report_each_bound() {
    assert_eq!(validate_fee_tiers(300, 1_000_000_000), Ok(()));
    assert_eq!(validate_fee_tiers(301, 0), Err(DcaError::FeeTooHigh));
    assert_eq!(validate_fee_tiers(0, 1_000_000_001), Err(DcaError::FeeTooHigh));
    assert_eq!(validate_cycle_frequency(60), Ok(()));
    assert_eq!(validate_cycle_frequency(59), Err(DcaError::FrequencyTooLow));
    assert_eq!(validate_cycle_frequency(2_592_000), Ok(()));
    assert_eq!(validate_cycle_frequency(2_592_001), Err(DcaError::FrequencyTooHigh));
    assert_eq!(validate_num_cycles(1), Ok(()));
    assert_eq!(validate_num_cycles(0), Err(DcaError::InvalidAmount));
    assert_eq!(validate_num_cycles(1_000), Ok(()));
    assert_eq!(validate_num_cycles(1_001), Err(DcaError::NumCyclesTooHigh));
}

#[test]
fn config_pda_matches_the_derivation() {
    let program_id = Pubkey::new_from_array(PROGRAM_ID);
    let (address, bump) = config_address(&program_id);
    assert_eq!(
        address.to_bytes(),
        [
            71, 221, 37, 217, 182, 92, 39, 177, 188, 95, 160, 232, 43, 107, 95, 237, 33, 63, 139,
            124, 211, 74, 224, 19, 171, 222, 194, 51, 99, 161, 106, 30,
        ]
    );
    assert_eq!(bump, 255);
    let (escrow, escrow_bump) = escrow_address(&program_id, &key(7));
    assert_eq!(
        escrow.to_bytes(),
        [
            40, 75, 250, 135, 218, 32, 143, 81, 28, 19, 118, 6, 129, 46, 151, 244, 31, 113, 103,
            237, 145, 220, 168, 181, 250, 51, 142, 62, 111, 154, 253, 61,
        ]
    );
    assert_eq!(escrow_bump, 255);
}

#[test]
fn derived_addresses_depend_on_every_seed() {
    let program_id = Pubkey::new_from_array(PROGRAM_ID);
    let a = order_address(&program_id, &key(1), &key(2), &key(3), 1_000_000).0;
    assert_ne!(a, order_address(&program_id, &key(9), &key(2), &key(3), 1_000_000).0);
    assert_ne!(a, order_address(&program_id, &key(1), &key(9), &key(3), 1_000_000).0);
    assert_ne!(a, order_address(&program_id, &key(1), &key(2), &key(9), 1_000_000).0);
    assert_ne!(a, order_address(&program_id, &key(1), &key(2), &key(3), 1_000_001).0);
    assert_ne!(a, order_address(&key(5), &key(1), &key(2), &key(3), 1_000_000).0);
    assert_eq!(a, order_address(&program_id, &key(1), &key(2), &key(3), 1_000_000).0);
    assert_ne!(escrow_address(&program_id, &a).0, escrow_authority_address(&program_id, &a).0);
    assert_ne!(config_address(&program_id).0, program_id);
}

fn order(cycles_remaining: u64, next_cycle_at: i64) -> DcaOrder {
    DcaOrder {
        owner: key(4),
        input_mint: key(5),
        output_mint: key(6),
        in_amount_per_cycle: 100,
        cycles_remaining,
        initial_num_cycles: 10,
        cycle_frequency: 3_600,
        next_cycle_at,
        is_active: true,
        bump: 254,
        escrow_bump: 253,
    }
}

fn token(k: u8, owner: u8) -> TokenAccount {
    TokenAccount { key: key(k), mint: key(5), owner: key(owner), amount: 1_000 }
}

fn execute_ctx(o: DcaOrder) -> ExecuteCycle {
    ExecuteCycle {
        program_id: Pubkey::new_from_array(PROGRAM_ID),
        keeper: key(3),
        config_key: key(20),
        config: Some(config(45, 0)),
        order_key: key(21),
        order: Some(o),
        owner: key(4),
        escrow_token_account: token(22, 23),
        escrow_authority: key(23),
        user_input_ata: token(24, 4),
        keeper_input_ata: token(25, 3),
    }
}

fn refund_ctx(o: DcaOrder) -> RefundCycle {
    RefundCycle {
        program_id: Pubkey::new_from_array(PROGRAM_ID),
        keeper: key(3),
        config_key: key(20),
        config: Some(config(45, 0)),
        order_key: key(21),
        order: Some(o),
        owner: key(4),
        keeper_input_ata: token(25, 3),
        escrow_token_account: token(22, 23),
    }
}

#[test]
fn execution_body_outcomes() {
    // Not yet due.
    let mut ctx = execute_ctx(order(5, 1_000));
    assert_eq!(execute_cycle::handler(&mut ctx, 250, 999).unwrap_err(), DcaError::CycleTooEarly);
    assert_eq!(ctx.order, Some(order(5, 1_000)));
    // No cycle left.
    let mut ctx = execute_ctx(order(0, 1_000));
    assert_eq!(execute_cycle::handler(&mut ctx, 250, 1_000).unwrap_err(), DcaError::OrderComplete);
    // Next due time does not fit.
    let mut ctx = execute_ctx(order(5, i64::MAX - 10));
    assert_eq!(execute_cycle::handler(&mut ctx, 250, i64::MAX).unwrap_err(), DcaError::MathOverflow);
    // A due cycle.
    let mut ctx = execute_ctx(order(5, 1_000));
    let out = execute_cycle::handler(&mut ctx, 250, 2_000).unwrap();
    assert_eq!(ctx.order.unwrap().cycles_remaining, 4);
    assert_eq!(ctx.order.unwrap().next_cycle_at, 4_600);
    assert!(!out.is_final);
    assert_eq!(out.event.cycles_remaining, 4);
    assert_eq!(out.event.swap_amount, 100);
    assert_eq!(out.event.timestamp, 2_000);
    match out.actions[0] {
        Action::Transfer { from, to, authority, amount, signer_seeds } => {
            assert_eq!((from, to, authority, amount), (key(22), key(25), key(23), 100));
            assert_eq!(signer_seeds.unwrap().order, key(21));
            assert_eq!(signer_seeds.unwrap().bump, 250);
        }
        _ => panic!("expected a transfer"),
    }
    // The last cycle.
    let mut ctx = execute_ctx(order(1, 1_000));
    let out = execute_cycle::handler(&mut ctx, 250, 1_000).unwrap();
    assert!(out.is_final);
    assert!(!ctx.order.unwrap().is_active);
    let closing = execute_cycle::close_final_cycle(&mut ctx, 250, 7);
    assert_eq!(closing.len(), 3);
    assert!(ctx.order.is_none());
    let closing = execute_cycle::close_final_cycle(
        &mut execute_ctx(DcaOrder { is_active: false, ..order(0, 0) }),
        250,
        0,
    );
    assert_eq!(closing.len(), 2);
}

#[test]
fn refund_body_outcomes() {
    let mut ctx = refund_ctx(order(10, 1_000));
    assert_eq!(refund_cycle::handler(&mut ctx, 5).unwrap_err(), DcaError::CycleOverRefund);
    let mut ctx = refund_ctx(order(3, i64::MIN + 10));
    assert_eq!(refund_cycle::handler(&mut ctx, 5).unwrap_err(), DcaError::MathOverflow);
    let mut ctx = refund_ctx(order(3, 10_000));
    let out = refund_cycle::handler(&mut ctx, 5).unwrap();
    assert_eq!(ctx.order.unwrap(), DcaOrder { cycles_remaining: 4, next_cycle_at: 6_400, ..order(3, 10_000) });
    assert_eq!(out.event.refund_amount, 100);
    assert_eq!(out.event.cycles_remaining, 4);
    assert_eq!(
        out.actions,
        vec![Action::Transfer { from: key(25), to: key(22), authority: key(3), amount: 100, signer_seeds: None }]
    );
}
