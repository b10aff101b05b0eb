//! Signature-gated reward accounting for device-bound accounts.
//!
//! A reward account belongs to one device. An oracle attests the rewards the
//! device has earned over its lifetime, and the account's withdrawal authority
//! draws the difference to what was already paid out. Every privileged step is
//! gated by a signature proof that travels in the same atomic batch, directly
//! before the operation that consumes it.
//!
//! The library decides; it moves no funds and stores nothing. Its caller reads
//! the batch, moves what a granted claim entitles to, and keeps the account
//! records.

pub mod authority;
pub mod config;
pub mod envelope;
pub mod error;
pub mod identity;
pub mod ledger;

pub use authority::{
    accept_handover, change_authority, change_authority_with_device_sig, is_handover_text,
    HANDOVER_PREFIX,
};
pub use config::{Config, ORACLE_ADDRESS};
pub use envelope::{
    check_ed25519_data, verify_companion, verify_ed25519_ix, Operation, HEADER_LEN, SAME_RECORD,
};
pub use error::ErrorCode;
pub use identity::{Identity, IDENTITY_LEN, SIGNATURE_MODULE_ADDRESS};
pub use ledger::{claim_rewards, initialize_reward_account, record_claim, RewardAccount};
