//! Why an escrow operation is refused.

use vstd::prelude::*;

verus! {

/// Every way in which an escrow operation can fail. A failed operation
/// emits no instruction.
#[derive(Clone, Copy, Debug, PartialEq, Eq, Structural)]
pub enum ContractError {
    /// The notification comes from a registry that is not trusted, or a
    /// privileged operation was called by someone else than its owner.
    Unauthorized,
    /// The asset is already recorded and was neither settled nor recovered.
    DuplicateDeposit,
    /// The registry does not name the custodian as holder of the asset.
    CustodyMismatch,
    /// The asset's metadata does not hold a price.
    MalformedPrice,
    /// The custodian holds less than the price.
    InsufficientFunds,
    /// No record exists under the given key.
    NotFound,
    /// The arguments of the call cannot be used.
    InvalidParameter,
}

impl ContractError {
    /// A sentence for the caller.
    pub fn message(&self) -> (text: String)
        ensures
            text@ == self.spec_message(),
    {
        match self {
            ContractError::Unauthorized => "Unauthorized".to_owned(),
            ContractError::DuplicateDeposit => "DuplicateDeposit".to_owned(),
            ContractError::CustodyMismatch => "CustodyMismatch".to_owned(),
            ContractError::MalformedPrice => "MalformedPrice".to_owned(),
            ContractError::InsufficientFunds => "InsufficientFunds".to_owned(),
            ContractError::NotFound => "NotFound".to_owned(),
            ContractError::InvalidParameter => "InvalidParameter".to_owned(),
        }
    }

    /// The text of [`ContractError::message`].
    pub open spec fn spec_message(&self) -> Seq<char> {
        match self {
            ContractError::Unauthorized => "Unauthorized"@,
            ContractError::DuplicateDeposit => "DuplicateDeposit"@,
            ContractError::CustodyMismatch => "CustodyMismatch"@,
            ContractError::MalformedPrice => "MalformedPrice"@,
            ContractError::InsufficientFunds => "InsufficientFunds"@,
            ContractError::NotFound => "NotFound"@,
            ContractError::InvalidParameter => "InvalidParameter"@,
        }
    }
}

} // verus!
