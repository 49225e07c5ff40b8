//! A rate-limited token-distribution ledger: grants a fixed drip of test
//! currency per request, enforces a per-account cooldown between grants, and
//! keeps aggregate usage statistics.
//!
//! The host that persists the records, authenticates callers and supplies the
//! clock is an external collaborator; this crate holds the decision logic and
//! the ledger model, with the contracts and proofs that pin them down.

pub mod faucet;
pub mod laws;
pub mod model;
pub mod records;

pub use faucet::disburse;
pub use faucet::TestnetFaucet;
pub use records::Address;
pub use records::AdminConfig;
pub use records::FaucetError;
pub use records::FaucetStats;
pub use records::UserBook;
pub use records::UserRequest;
pub use records::DEFAULT_COOLDOWN_SECONDS;
pub use records::DEFAULT_DRIP_AMOUNT;
