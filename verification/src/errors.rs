use vstd::prelude::*;

verus! {

/// Why a transition was rejected. A rejected transition changes nothing.
#[derive(Clone, Copy, Debug, PartialEq, Eq, Structural)]
pub enum VoltchainError {
    /// The caller is not the identity the record requires.
    InvalidAuthority,
    /// No sale is stored under the requested identifier.
    SaleNotFound,
    /// The sale has already been finalized.
    SaleAlreadyFinalized,
    /// The burn amount exceeds the accrued balance.
    InsufficientBalance,
    /// The caller has no registered position.
    UserPositionNotFound,
    /// The sale record handed in belongs to another period than the one named.
    InvalidSalePeriod,
    /// The pool has not been initialized.
    PoolNotInitialized,
    /// A record already exists where a new one was to be created.
    AccountAlreadyInUse,
    /// A counter would leave the range of a 64-bit unsigned integer.
    ArithmeticOverflow,
}

impl VoltchainError {
    /// The text shown to a caller for each rejection.
    pub open spec fn spec_message(self) -> Seq<char> {
        match self {
            VoltchainError::InvalidAuthority => "Invalid authority"@,
            VoltchainError::SaleNotFound => "Sale not found"@,
            VoltchainError::SaleAlreadyFinalized => "Sale already finalized"@,
            VoltchainError::InsufficientBalance => "Insufficient VoltChain balance"@,
            VoltchainError::UserPositionNotFound => "User position not found"@,
            VoltchainError::InvalidSalePeriod => "Invalid sale period"@,
            VoltchainError::PoolNotInitialized => "Pool not initialized"@,
            VoltchainError::AccountAlreadyInUse => "Account already in use"@,
            VoltchainError::ArithmeticOverflow => "Arithmetic overflow"@,
        }
    }

    /// Human-readable description of the rejection.
    pub fn message(&self) -> (r: &'static str)
        ensures
            r@ == self.spec_message(),
    {
        match self {
            VoltchainError::InvalidAuthority => "Invalid authority",
            VoltchainError::SaleNotFound => "Sale not found",
            VoltchainError::SaleAlreadyFinalized => "Sale already finalized",
            VoltchainError::InsufficientBalance => "Insufficient VoltChain balance",
            VoltchainError::UserPositionNotFound => "User position not found",
            VoltchainError::InvalidSalePeriod => "Invalid sale period",
            VoltchainError::PoolNotInitialized => "Pool not initialized",
            VoltchainError::AccountAlreadyInUse => "Account already in use",
            VoltchainError::ArithmeticOverflow => "Arithmetic overflow",
        }
    }
}

} // verus!
