//! A treasury and whistleblower-report registry for a ledger of independently
//! addressed records.
//!
//! Parties register content digests of corruption reports against a
//! treasury, and the treasury pays rewards in a fungible token out of a
//! vault that only the treasury's derived address may debit. Every operation
//! is all-or-nothing: it either succeeds and leaves exactly the stated
//! changes, or it fails and leaves the records it was given untouched.
//!
//! The operations keep no state of their own. The caller resolves the
//! accounts at their addresses, hands them over, and stores what comes back;
//! it reads the ledger's clock and makes the token transfer.

pub mod derivation;
pub mod errors;
pub mod report_registry;
pub mod reward_disburser;
pub mod signer;
pub mod state;
pub mod treasury_manager;

pub use errors::{BriberyBusterError, Failure, TransferError};
pub use report_registry::{submit_report, SubmitReport};
pub use reward_disburser::{
    reward_user, RewardAction, RewardEvent, RewardUser, TransferInstruction,
};
pub use signer::TreasurySigner;
pub use state::{Account, Address, Report, Treasury};
pub use treasury_manager::{initialize, Initialize};
