//! Messages of the contract and its stored configuration.
use crate::factors::{valid_decimals, MAX_DECIMALS};
use vstd::prelude::*;

verus! {

/// A validated account address of the host chain, carried through unread.
#[verifier::external_type_specification]
#[verifier::external_body]
pub struct ExAddr(cosmwasm_std::Addr);

/// An ownership transfer request, handed on to the ownership gate unread.
#[verifier::external_type_specification]
#[verifier::external_body]
pub struct ExAction(cw_ownable::Action);

/// The parameters the contract is created with.
#[derive(Clone, Debug, PartialEq, Eq)]
pub struct InstantiateMsg {
    pub pool_id: u64,
    pub scale_first: bool,
    pub hub: String,
    pub owner: String,
    pub decimals: u32,
}

/// The actions the contract performs.
#[derive(Debug, PartialEq)]
pub enum ExecuteMsg {
    UpdateScalingFactor {},
    UpdateConfig {
        pool_id: Option<u64>,
        hub: Option<String>,
        scale_first: Option<bool>,
        decimals: Option<u32>,
    },
    UpdateOwnership(cw_ownable::Action),
}

/// The read-only requests the contract answers.
#[derive(Clone, Copy, Debug, PartialEq, Eq)]
pub enum QueryMsg {
    Config {},
    Ownership {},
}

/// The (empty) parameters of an upgrade.
#[derive(Clone, Copy, Debug, PartialEq, Eq)]
pub struct MigrateMsg {}

/// The stored configuration.
#[derive(Debug, PartialEq, Eq)]
pub struct Config {
    /// The pool whose scaling factors are recalibrated.
    pub pool_id: u64,
    /// The contract that reports the exchange rate.
    pub hub: cosmwasm_std::Addr,
    /// Whether the rate's numerator gives the first factor.
    pub scale_first: bool,
    /// Fractional digits kept of the rate; four where `None`.
    pub decimals: Option<u32>,
}

impl Config {
    /// The precision is at most seventeen digits.
    pub open spec fn is_valid(&self) -> bool {
        valid_decimals(self.decimals)
    }

    /// Whether the precision is at most seventeen digits.
    pub fn has_valid_decimals(&self) -> (r: bool)
        ensures
            r == self.is_valid(),
    {
        match self.decimals {
            Some(d) => d <= MAX_DECIMALS,
            None => true,
        }
    }
}

} // verus!
