//! Accounts the program owns.

pub mod dca_config;
pub mod dca_order;

pub use dca_config::{
    DcaConfig, CREATED_AT_TOLERANCE_SECS, MAX_CYCLE_FREQUENCY, MAX_FEE_BPS, MAX_MIN_FEE_LAMPORTS,
    MAX_NUM_CYCLES, MIN_CYCLE_FREQUENCY,
};
pub use dca_order::DcaOrder;
