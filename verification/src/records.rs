//! The persisted record kinds of the faucet ledger: the one-time
//! configuration, the aggregate statistics, and the per-account request
//! history, together with the storage-key type for the latter.

use vstd::prelude::*;

verus! {

/// Amount granted per request when no configuration record exists.
pub const DEFAULT_DRIP_AMOUNT: i128 = 10_0000000;

/// Cooldown applied when no configuration record exists (24 hours).
pub const DEFAULT_COOLDOWN_SECONDS: u64 = 86400;

/// Identity of an account, as the host names it.
#[derive(Clone, Copy, PartialEq, Eq, Structural, Debug)]
pub struct Address {
    pub id: u64,
}

/// One-time configuration, written by `initialize` and immutable thereafter.
#[derive(Clone, Copy, PartialEq, Eq, Structural, Debug)]
pub struct AdminConfig {
    /// Principal that performed the setup; stored for future administrative
    /// use, not consulted by any current operation.
    pub admin: Address,
    /// Amount granted per successful request; positive by construction.
    pub drip_amount: i128,
    /// Minimum elapsed time between two successful requests by one account.
    pub cooldown_seconds: u64,
}

/// Aggregate statistics over all disbursements ever made.
#[derive(Clone, Copy, PartialEq, Eq, Structural, Debug)]
pub struct FaucetStats {
    /// Count of all successful disbursements.
    pub total_requests: u64,
    /// Sum of all amounts ever disbursed.
    pub total_distributed: i128,
    /// Count of distinct accounts that received at least one disbursement.
    pub active_users: u64,
}

/// Per-account request history, created lazily on the first grant.
#[derive(Clone, Copy, PartialEq, Eq, Structural, Debug)]
pub struct UserRequest {
    /// The account this record belongs to.
    pub address: Address,
    /// Timestamp of the most recent successful disbursement.
    pub last_request_time: u64,
    /// Cumulative amount granted to this account.
    pub total_received: i128,
    /// Number of successful disbursements to this account.
    pub request_count: u64,
}

/// Composite storage key under which the host files an account's record.
#[derive(Clone, Copy, PartialEq, Eq, Structural, Debug)]
pub enum UserBook {
    User(Address),
}

/// Why a call was rejected; every rejection is fatal to the call and leaves
/// the ledger untouched.
#[derive(Clone, Copy, PartialEq, Eq, Structural, Debug)]
pub enum FaucetError {
    /// `initialize` was called while a configuration record already exists.
    AlreadyInitialized,
    /// The caller's cooldown window has not yet elapsed.
    CooldownActive,
}

impl UserRequest {
    /// The zero-valued record an account conceptually holds before its first
    /// successful request.
    pub open spec fn spec_absent(address: Address) -> UserRequest {
        UserRequest { address, last_request_time: 0, total_received: 0, request_count: 0 }
    }

    /// Builds the zero-valued record for `address`.
    pub fn absent(address: Address) -> (r: UserRequest)
        ensures
            r == UserRequest::spec_absent(address),
    {
        UserRequest { address, last_request_time: 0, total_received: 0, request_count: 0 }
    }
}

impl FaucetStats {
    /// The zero-valued statistics record written by `initialize`.
    pub open spec fn spec_zero() -> FaucetStats {
        FaucetStats { total_requests: 0, total_distributed: 0, active_users: 0 }
    }

    /// Builds the zero-valued statistics record.
    pub fn zero() -> (r: FaucetStats)
        ensures
            r == FaucetStats::spec_zero(),
    {
        FaucetStats { total_requests: 0, total_distributed: 0, active_users: 0 }
    }
}

} // verus!
