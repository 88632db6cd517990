//! Configuration and the synchronous decisions of the infrastructure
//! adapters; their asynchronous port implementations live with the host.
pub mod stellar_tx_submitter;
pub mod zephyr_ingestion;
