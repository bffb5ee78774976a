//! Errors of the program.

use vstd::prelude::*;

verus! {

/// The program's own error codes, in declaration order (Anchor numbers them
/// from 6000 up).
#[derive(Clone, Copy, Debug, PartialEq, Eq, Structural)]
pub enum DcaError {
    /// Program is paused
    ProgramPaused,
    /// Amount must be greater than zero
    InvalidAmount,
    /// Total amount must be evenly divisible by number of cycles
    UnevenCycles,
    /// Input mint must be Wrapped SOL
    InvalidInputMint,
    /// Cycle frequency must be at least 60 seconds
    FrequencyTooLow,
    /// Cycle frequency exceeds MAX_CYCLE_FREQUENCY cap
    FrequencyTooHigh,
    /// Number of cycles exceeds MAX_NUM_CYCLES cap
    NumCyclesTooHigh,
    /// created_at is outside the allowed tolerance window
    InvalidCreatedAt,
    /// Cycle is not due yet
    CycleTooEarly,
    /// Order is no longer active
    OrderInactive,
    /// Order has no remaining cycles
    OrderComplete,
    /// Unauthorized keeper
    UnauthorizedKeeper,
    /// Fee basis points exceed MAX_FEE_BPS cap
    FeeTooHigh,
    /// Fee tier thresholds must be strictly increasing
    InvalidFeeTiers,
    /// Unauthorized admin
    UnauthorizedAdmin,
    /// No pending admin transfer
    NoPendingAdmin,
    /// Signer does not match pending admin
    PendingAdminMismatch,
    /// Arithmetic overflow
    MathOverflow,
    /// Total DCA amount is below the configured minimum
    TotalAmountBelowMinimum,
    /// min_total_in_amount must be greater than or equal to default_num_cycles
    MinTotalBelowNumCycles,
    /// refund would push cycles_remaining above initial_num_cycles
    CycleOverRefund,
}

/// Position of each error in the declaration above.
pub open spec fn dca_error_index(e: DcaError) -> u32 {
    match e {
        DcaError::ProgramPaused => 0,
        DcaError::InvalidAmount => 1,
        DcaError::UnevenCycles => 2,
        DcaError::InvalidInputMint => 3,
        DcaError::FrequencyTooLow => 4,
        DcaError::FrequencyTooHigh => 5,
        DcaError::NumCyclesTooHigh => 6,
        DcaError::InvalidCreatedAt => 7,
        DcaError::CycleTooEarly => 8,
        DcaError::OrderInactive => 9,
        DcaError::OrderComplete => 10,
        DcaError::UnauthorizedKeeper => 11,
        DcaError::FeeTooHigh => 12,
        DcaError::InvalidFeeTiers => 13,
        DcaError::UnauthorizedAdmin => 14,
        DcaError::NoPendingAdmin => 15,
        DcaError::PendingAdminMismatch => 16,
        DcaError::MathOverflow => 17,
        DcaError::TotalAmountBelowMinimum => 18,
        DcaError::MinTotalBelowNumCycles => 19,
        DcaError::CycleOverRefund => 20,
    }
}

impl DcaError {
    /// The numeric error code a client sees: 6000 plus the variant's position.
    pub fn code(&self) -> (r: u32)
        ensures
            r == 6000 + dca_error_index(*self),
    {
        match self {
            DcaError::ProgramPaused => 6000,
            DcaError::InvalidAmount => 6001,
            DcaError::UnevenCycles => 6002,
            DcaError::InvalidInputMint => 6003,
            DcaError::FrequencyTooLow => 6004,
            DcaError::FrequencyTooHigh => 6005,
            DcaError::NumCyclesTooHigh => 6006,
            DcaError::InvalidCreatedAt => 6007,
            DcaError::CycleTooEarly => 6008,
            DcaError::OrderInactive => 6009,
            DcaError::OrderComplete => 6010,
            DcaError::UnauthorizedKeeper => 6011,
            DcaError::FeeTooHigh => 6012,
            DcaError::InvalidFeeTiers => 6013,
            DcaError::UnauthorizedAdmin => 6014,
            DcaError::NoPendingAdmin => 6015,
            DcaError::PendingAdminMismatch => 6016,
            DcaError::MathOverflow => 6017,
            DcaError::TotalAmountBelowMinimum => 6018,
            DcaError::MinTotalBelowNumCycles => 6019,
            DcaError::CycleOverRefund => 6020,
        }
    }
}

/// Why an instruction was refused: either one of the program's own errors,
/// or one of the account checks that the account declarations impose.
#[derive(Clone, Copy, Debug, PartialEq, Eq, Structural)]
pub enum InstructionError {
    /// A program error raised by a constraint or by the instruction body.
    Dca(DcaError),
    /// An account the instruction reads holds no data of its type.
    AccountNotInitialized,
    /// An account the instruction would create already exists.
    AccountAlreadyInUse,
    /// An account's address is not the program address its seeds derive.
    ConstraintSeeds,
    /// A stored key does not match the account passed in its place.
    ConstraintHasOne,
    /// A constraint without a program error of its own failed.
    ConstraintRaw,
}

} // verus!

verus! {

/// The first of two possible errors.
pub open spec fn first_error<E>(a: Option<E>, b: Option<E>) -> Option<E> {
    if a is Some {
        a
    } else {
        b
    }
}

/// `Err(e)` for `Some(e)`, `Ok(())` for `None`.
pub open spec fn check(e: Option<DcaError>) -> Result<(), DcaError> {
    match e {
        Some(e) => Err(e),
        None => Ok(()),
    }
}

/// A program error as an instruction error.
pub open spec fn lift(e: Option<DcaError>) -> Option<InstructionError> {
    match e {
        Some(e) => Some(InstructionError::Dca(e)),
        None => None,
    }
}

} // verus!
