//! A token-issuance controller and a hook-acknowledgement aggregator.
//!
//! The controller owns a single managed token denomination. A single
//! authorized address may mint and burn that token through an external
//! token-supply registry; the controller itself keeps no balances. The
//! denomination is provisioned asynchronously: creation emits a request to
//! the registry and the canonical denomination name is committed once the
//! correlated callback confirms success.
//!
//! The aggregator is a passive sink that appends every success or error
//! acknowledgement it receives into two ordered logs.

pub mod error;
pub mod hook_tester;
pub mod payment;
pub mod response;
pub mod token;

pub use error::{ContractError, PaymentIssue};
