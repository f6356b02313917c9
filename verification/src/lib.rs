//! A deterministic state-transition core for a crowdfunding ledger.
//!
//! Given a program identity, an ordered list of externally supplied account
//! records, and a tagged instruction envelope, the core validates ownership,
//! signer, and balance preconditions and then applies one of three guarded
//! transitions: create a campaign, withdraw funds, or donate funds. Campaign
//! records travel through account data buffers in a deterministic,
//! length-prefixed binary encoding, and every transition either fully applies
//! its mutations or fails with a typed error and changes nothing.

pub mod account;
pub mod campaign;
pub mod codec;
pub mod dispatch;
pub mod error;
pub mod ops;
pub mod pubkey;

pub use account::Account;
pub use campaign::{CampaignRecord, WithdrawRequest};
pub use dispatch::process_instruction;
pub use error::ProgramError;
pub use pubkey::Pubkey;
