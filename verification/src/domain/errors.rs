//! Errors raised when an operation would break a business invariant.
use vstd::prelude::*;

use crate::decimal::{decimal_text, u64_to_decimal};

verus! {

/// Domain-specific errors that enforce business invariants
#[derive(Debug, Clone, PartialEq, Eq)]
pub enum DomainError {
    /// Vault does not have sufficient funds to complete operation
    InsufficientFunds { required: u64, available: u64 },
    /// Integer overflow detected in arithmetic operation
    OverflowDetected { operation: String },
    /// Invalid threshold configuration
    InvalidThreshold { threshold: u32, reason: String },
    /// Contract not found in vault's registered contracts
    ContractNotFound { contract_id: String },
    /// Invalid reserve configuration
    InvalidReserve { reason: String },
    /// State transition not allowed
    InvalidStateTransition { from: String, to: String, reason: String },
    /// Invalid gas configuration
    InvalidGasConfiguration { reason: String },
}

/// Result type of domain operations.
pub type DomainResult<T> = Result<T, DomainError>;

/// The human-readable message of an error.
pub open spec fn error_text(e: DomainError) -> Seq<char> {
    match e {
        DomainError::InsufficientFunds { required, available } => "Insufficient funds: required "@
            + decimal_text(required as nat) + " stroops, available "@ + decimal_text(
            available as nat,
        ) + " stroops"@,
        DomainError::OverflowDetected { operation } => "Integer overflow detected during: "@
            + operation@,
        DomainError::InvalidThreshold { threshold, reason } => "Invalid threshold "@
            + decimal_text(threshold as nat) + ": "@ + reason@,
        DomainError::ContractNotFound { contract_id } => "Contract not found: "@ + contract_id@,
        DomainError::InvalidReserve { reason } => "Invalid reserve configuration: "@ + reason@,
        DomainError::InvalidStateTransition { from, to, reason } => "Invalid state transition from "@
            + from@ + " to "@ + to@ + ": "@ + reason@,
        DomainError::InvalidGasConfiguration { reason } => "Invalid gas configuration: "@
            + reason@,
    }
}

impl DomainError {
    /// The human-readable message of this error (what `Display` prints).
    pub fn to_display_string(&self) -> (s: String)
        ensures
            s@ == error_text(*self),
    {
        match self {
            DomainError::InsufficientFunds { required, available } => {
                let mut s = String::from_str("Insufficient funds: required ");
                s.append(u64_to_decimal(*required).as_str());
                s.append(" stroops, available ");
                s.append(u64_to_decimal(*available).as_str());
                s.append(" stroops");
                s
            },
            DomainError::OverflowDetected { operation } => {
                let mut s = String::from_str("Integer overflow detected during: ");
                s.append(operation.as_str());
                s
            },
            DomainError::InvalidThreshold { threshold, reason } => {
                let mut s = String::from_str("Invalid threshold ");
                s.append(u64_to_decimal(*threshold as u64).as_str());
                s.append(": ");
                s.append(reason.as_str());
                s
            },
            DomainError::ContractNotFound { contract_id } => {
                let mut s = String::from_str("Contract not found: ");
                s.append(contract_id.as_str());
                s
            },
            DomainError::InvalidReserve { reason } => {
                let mut s = String::from_str("Invalid reserve configuration: ");
                s.append(reason.as_str());
                s
            },
            DomainError::InvalidStateTransition { from, to, reason } => {
                let mut s = String::from_str("Invalid state transition from ");
                s.append(from.as_str());
                s.append(" to ");
                s.append(to.as_str());
                s.append(": ");
                s.append(reason.as_str());
                s
            },
            DomainError::InvalidGasConfiguration { reason } => {
                let mut s = String::from_str("Invalid gas configuration: ");
                s.append(reason.as_str());
                s
            },
        }
    }
}

} // verus!
