//! The domain model: errors, contract monitors, execution jobs and vaults.
pub mod contract_monitor;
pub mod errors;
pub mod execution_job;
pub mod keeper_vault;
