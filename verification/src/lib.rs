//! Core domain of a state keeper: execution jobs that move through a
//! transaction lifecycle, keeper vaults that hold fee reserves, and monitors
//! that decide when a contract's storage needs its time-to-live extended.
pub mod adapters;
pub mod decimal;
pub mod domain;
