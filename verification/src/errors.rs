use vstd::prelude::*;

verus! {

/// Shared error type used across all Soroban Forge contracts.
///
/// Error codes start at 1; code 0 is reserved by the Soroban host.
#[derive(Clone, Copy, Debug, PartialEq, Eq, PartialOrd, Ord, Structural)]
pub enum ForgeError {
    /// The caller is not permitted to perform this action.
    Unauthorized,
    /// The requested entity (escrow, proposal, subscription, ...) does not exist.
    NotFound,
    /// One or more arguments failed validation (e.g. zero amount, bad address).
    InvalidInput,
    /// The contract does not hold enough balance to satisfy the operation.
    InsufficientFunds,
    /// The entity was already initialised; re-initialisation is rejected.
    AlreadyInitialized,
    /// The entity was expected to be initialised but was not.
    NotInitialized,
    /// An operation was attempted after its deadline elapsed.
    DeadlineReached,
    /// A required token allowance was lower than the amount being spent.
    InsufficientAllowance,
    /// An arithmetic operation overflowed.
    ArithmeticOverflow,
    /// Contract-specific error that does not map to the categories above.
    Custom,
    /// A SEP-41 token invocation failed; the token's own error is bucketed
    /// into this one code.
    TokenTransferFailed,
}

impl ForgeError {
    /// The on-chain error code of this error (codes start at 1).
    pub fn code(&self) -> (c: u32)
        ensures
            c == error_code(*self),
    {
        match self {
            ForgeError::Unauthorized => 1,
            ForgeError::NotFound => 2,
            ForgeError::InvalidInput => 3,
            ForgeError::InsufficientFunds => 4,
            ForgeError::AlreadyInitialized => 5,
            ForgeError::NotInitialized => 6,
            ForgeError::DeadlineReached => 7,
            ForgeError::InsufficientAllowance => 8,
            ForgeError::ArithmeticOverflow => 9,
            ForgeError::Custom => 10,
            ForgeError::TokenTransferFailed => 11,
        }
    }

    /// The error carrying the on-chain code `code`, if any.
    pub fn from_code(code: u32) -> (r: Option<ForgeError>)
        ensures
            r matches Some(e) ==> error_code(e) == code,
            r is None <==> (code == 0 || code > 11),
    {
        match code {
            1 => Some(ForgeError::Unauthorized),
            2 => Some(ForgeError::NotFound),
            3 => Some(ForgeError::InvalidInput),
            4 => Some(ForgeError::InsufficientFunds),
            5 => Some(ForgeError::AlreadyInitialized),
            6 => Some(ForgeError::NotInitialized),
            7 => Some(ForgeError::DeadlineReached),
            8 => Some(ForgeError::InsufficientAllowance),
            9 => Some(ForgeError::ArithmeticOverflow),
            10 => Some(ForgeError::Custom),
            11 => Some(ForgeError::TokenTransferFailed),
            _ => None,
        }
    }
}

/// The on-chain code of each error, as the contract-error spec fixes it.
pub open spec fn error_code(e: ForgeError) -> u32 {
    match e {
        ForgeError::Unauthorized => 1,
        ForgeError::NotFound => 2,
        ForgeError::InvalidInput => 3,
        ForgeError::InsufficientFunds => 4,
        ForgeError::AlreadyInitialized => 5,
        ForgeError::NotInitialized => 6,
        ForgeError::DeadlineReached => 7,
        ForgeError::InsufficientAllowance => 8,
        ForgeError::ArithmeticOverflow => 9,
        ForgeError::Custom => 10,
        ForgeError::TokenTransferFailed => 11,
    }
}

/// Distinct errors have distinct codes, and every code lies between 1 and 11.
pub proof fn lemma_error_codes_are_injective(a: ForgeError, b: ForgeError)
    ensures
        error_code(a) == error_code(b) ==> a == b,
        1 <= error_code(a) <= 11,
{
}

} // verus!
