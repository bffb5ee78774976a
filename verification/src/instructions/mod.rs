//! The program's instructions: for each, its accounts, their checks, and the body.

pub mod initialize_config;

pub use initialize_config::InitializeConfig;
pub mod update_config;

pub use update_config::UpdateConfig;
pub mod propose_admin;
pub mod accept_admin;

pub use propose_admin::ProposeAdmin;
pub use accept_admin::AcceptAdmin;
pub mod create_order;

pub use create_order::CreateOrder;
pub mod execute_cycle;

pub use execute_cycle::ExecuteCycle;
pub mod refund_cycle;
pub mod cancel_order;

pub use refund_cycle::RefundCycle;
pub use cancel_order::CancelOrder;
