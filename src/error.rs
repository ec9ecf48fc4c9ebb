use vstd::prelude::*;
use vstd::string::StringExecFns;

verus! {

/// The errors of this contract.
#[derive(Debug, PartialEq)]
pub enum ContractError {
    /// A failure reported by the host's standard library.
    Std(cosmwasm_std::StdError),
    /// A scaling factor does not fit in 64 bits.
    TryFromInt(core::num::TryFromIntError),
    /// A failure of the ownership gate.
    Ownership(cw_ownable::OwnershipError),
    /// The action is not handled here.
    NotSupported,
    /// A configured precision above seventeen fractional digits.
    DecimalsMustBeLessThan18,
}

impl ContractError {
    /// The error's message; a carried error gives its own.
    pub fn to_string(&self) -> (r: String)
        ensures
            self is NotSupported ==> r@ == "not supported"@,
            self is DecimalsMustBeLessThan18 ==> r@ == "decimals must be less than 18"@,
    {
        match self {
            ContractError::Std(e) => e.to_string(),
            ContractError::TryFromInt(e) => e.to_string(),
            ContractError::Ownership(e) => e.to_string(),
            ContractError::NotSupported => String::from_str("not supported"),
            ContractError::DecimalsMustBeLessThan18 => String::from_str(
                "decimals must be less than 18",
            ),
        }
    }
}

/// The host's error type, carried through unread.
#[verifier::external_type_specification]
#[verifier::external_body]
pub struct ExStdError(cosmwasm_std::StdError);

/// The ownership gate's error type, carried through unread.
#[verifier::external_type_specification]
#[verifier::external_body]
pub struct ExOwnershipError(cw_ownable::OwnershipError);

} // verus!
