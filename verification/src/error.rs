//! The ways a request can fail.
use vstd::prelude::*;

verus! {

/// Why a request was refused. A refused request leaves the ledger as it was.
#[derive(Clone, Copy, Debug, PartialEq, Eq, Structural)]
pub enum ContractError {
    /// An integer operation left the range of its type.
    Overflow {},
    /// A division had a zero divisor.
    DivideByZero {},
    /// The caller is not the administrator.
    OnlyAdmin {},
    /// A grant named no beneficiary.
    NoUsers {},
    /// The instant-unlock share is above one hundred percent.
    InvalidPercents {},
    /// A grant came with no deposit, with several, or with one of another size
    /// than the amounts granted.
    InvalidFunds {},
    /// The deposit is not in the vesting token.
    InvalidCoin {},
    /// The period length is zero.
    InvalidLockMinutes {},
    /// The number of periods is zero.
    InvalidLockPeriods {},
    /// A beneficiary was granted nothing.
    InvalidInjxAmount {},
    /// The ledger holds less of the vesting token than is owed.
    InsufficientContractBalance {},
    /// Nothing has accrued and no instant amount is pending.
    CannotClaim {},
}

impl ContractError {
    /// The text shown for the error.
    pub open spec fn message(self) -> Seq<char> {
        match self {
            ContractError::Overflow {} => "Arithmetic overflow"@,
            ContractError::DivideByZero {} => "Division by zero"@,
            ContractError::OnlyAdmin {} => "Only admin"@,
            ContractError::NoUsers {} => "No users"@,
            ContractError::InvalidPercents {} => "Invalid percents"@,
            ContractError::InvalidFunds {} => "Invalid funds were provided"@,
            ContractError::InvalidCoin {} => "Invalid coin passed in funds"@,
            ContractError::InvalidLockMinutes {} => "Invalid lock minutes"@,
            ContractError::InvalidLockPeriods {} => "Invalid lock periods"@,
            ContractError::InvalidInjxAmount {} => "Invalid user INJX amount"@,
            ContractError::InsufficientContractBalance {} => "Insufficient contract balance"@,
            ContractError::CannotClaim {} => "Cannot claim"@,
        }
    }

    /// The text shown for the error, as a string.
    pub fn to_string(&self) -> (s: String)
        ensures
            s@ == self.message(),
    {
        match self {
            ContractError::Overflow {} => "Arithmetic overflow".to_owned(),
            ContractError::DivideByZero {} => "Division by zero".to_owned(),
            ContractError::OnlyAdmin {} => "Only admin".to_owned(),
            ContractError::NoUsers {} => "No users".to_owned(),
            ContractError::InvalidPercents {} => "Invalid percents".to_owned(),
            ContractError::InvalidFunds {} => "Invalid funds were provided".to_owned(),
            ContractError::InvalidCoin {} => "Invalid coin passed in funds".to_owned(),
            ContractError::InvalidLockMinutes {} => "Invalid lock minutes".to_owned(),
            ContractError::InvalidLockPeriods {} => "Invalid lock periods".to_owned(),
            ContractError::InvalidInjxAmount {} => "Invalid user INJX amount".to_owned(),
            ContractError::InsufficientContractBalance {} => {
                "Insufficient contract balance".to_owned()
            },
            ContractError::CannotClaim {} => "Cannot claim".to_owned(),
        }
    }
}

} // verus!
