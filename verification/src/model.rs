//! Mathematical model of the faucet ledger: unbounded-integer views of the
//! persisted records, the transition functions of the two mutating
//! operations, and the well-formedness and consistency predicates that the
//! laws in `laws` are proved over.

use vstd::prelude::*;

use crate::records::Address;
use crate::records::AdminConfig;
use crate::records::FaucetError;
use crate::records::FaucetStats;
use crate::records::UserRequest;
use crate::records::DEFAULT_COOLDOWN_SECONDS;
use crate::records::DEFAULT_DRIP_AMOUNT;

verus! {

/// View of the one-time configuration.
pub struct ConfigView {
    pub admin: Address,
    pub drip_amount: int,
    pub cooldown_seconds: int,
}

/// View of the aggregate statistics record.
pub struct StatsView {
    pub total_requests: int,
    pub total_distributed: int,
    pub active_users: int,
}

/// View of one account's request history.
pub struct UserView {
    pub address: Address,
    pub last_request_time: int,
    pub total_received: int,
    pub request_count: int,
}

/// The whole ledger: configuration, statistics, and one record per account
/// that has ever been granted tokens.
#[verifier::ext_equal]
pub struct FaucetView {
    pub config: Option<ConfigView>,
    pub stats: StatsView,
    pub users: Seq<UserView>,
}

impl View for AdminConfig {
    type V = ConfigView;

    open spec fn view(&self) -> ConfigView {
        ConfigView {
            admin: self.admin,
            drip_amount: self.drip_amount as int,
            cooldown_seconds: self.cooldown_seconds as int,
        }
    }
}

impl View for FaucetStats {
    type V = StatsView;

    open spec fn view(&self) -> StatsView {
        StatsView {
            total_requests: self.total_requests as int,
            total_distributed: self.total_distributed as int,
            active_users: self.active_users as int,
        }
    }
}

impl View for UserRequest {
    type V = UserView;

    open spec fn view(&self) -> UserView {
        UserView {
            address: self.address,
            last_request_time: self.last_request_time as int,
            total_received: self.total_received as int,
            request_count: self.request_count as int,
        }
    }
}

/// View of an optional configuration record.
pub open spec fn opt_config_view(c: Option<AdminConfig>) -> Option<ConfigView> {
    match c {
        Some(cfg) => Some(cfg@),
        None => None,
    }
}

/// Amount granted per request: the configured drip amount, or the hardcoded
/// default when no configuration record exists.
pub open spec fn effective_drip(config: Option<ConfigView>) -> int {
    match config {
        Some(c) => c.drip_amount,
        None => DEFAULT_DRIP_AMOUNT as int,
    }
}

/// Cooldown between grants: the configured value, or the hardcoded default
/// when no configuration record exists.
pub open spec fn effective_cooldown(config: Option<ConfigView>) -> int {
    match config {
        Some(c) => c.cooldown_seconds,
        None => DEFAULT_COOLDOWN_SECONDS as int,
    }
}

/// The record an account conceptually holds before its first grant.
pub open spec fn absent_user(address: Address) -> UserView {
    UserView { address, last_request_time: 0, total_received: 0, request_count: 0 }
}

/// Whether a request now is rejected by the cooldown rule: only an account
/// that has a recorded grant at a nonzero time is held to the window.
pub open spec fn cooldown_blocks(rec: UserView, cooldown: int, now: int) -> bool {
    rec.last_request_time > 0 && now - rec.last_request_time < cooldown
}

/// The caller's record after a grant of `drip` at time `now`.
pub open spec fn granted_record(rec: UserView, address: Address, drip: int, now: int) -> UserView {
    UserView {
        address,
        last_request_time: now,
        total_received: rec.total_received + drip,
        request_count: rec.request_count + 1,
    }
}

/// The statistics record after one grant of `drip`, to a first-time
/// requester when `is_new_user`.
pub open spec fn granted_stats(st: StatsView, drip: int, is_new_user: bool) -> StatsView {
    StatsView {
        total_requests: st.total_requests + 1,
        total_distributed: st.total_distributed + drip,
        active_users: st.active_users + if is_new_user { 1int } else { 0int },
    }
}

/// Number of records in `users` that have received at least one grant.
/// Under `FaucetView::wf` the records carry pairwise-distinct addresses and
/// an absent account reads as a zero record, so this is the number of
/// distinct accounts with a positive request count.
pub open spec fn count_active(users: Seq<UserView>) -> int
    decreases users.len(),
{
    if users.len() == 0 {
        0
    } else {
        count_active(users.drop_last()) + if users.last().request_count > 0 { 1int } else { 0int }
    }
}

impl FaucetView {
    /// The ledger of a freshly deployed faucet: nothing stored yet.
    pub open spec fn fresh() -> FaucetView {
        FaucetView {
            config: None,
            stats: StatsView { total_requests: 0, total_distributed: 0, active_users: 0 },
            users: Seq::empty(),
        }
    }

    pub open spec fn drip_amount(self) -> int {
        effective_drip(self.config)
    }

    pub open spec fn cooldown(self) -> int {
        effective_cooldown(self.config)
    }

    /// Whether a record for `a` is stored.
    pub open spec fn has_user(self, a: Address) -> bool {
        exists|i: int| 0 <= i < self.users.len() && self.users[i].address == a
    }

    /// Index of the record for `a`; meaningful only when `has_user(a)`.
    pub open spec fn user_index(self, a: Address) -> int {
        choose|i: int| 0 <= i < self.users.len() && self.users[i].address == a
    }

    /// The record for `a`, or the zero record when none is stored.
    pub open spec fn user_record(self, a: Address) -> UserView {
        if self.has_user(a) {
            self.users[self.user_index(a)]
        } else {
            absent_user(a)
        }
    }

    /// No two stored records belong to the same account.
    pub open spec fn distinct_addresses(self) -> bool {
        forall|i: int, j: int|
            #![trigger self.users[i].address, self.users[j].address]
            0 <= i < j < self.users.len() ==> self.users[i].address != self.users[j].address
    }

    /// Structural soundness of the ledger: records belong to pairwise
    /// distinct accounts, a record exists only once its account has been
    /// granted at least once, timestamps and amounts are non-negative, and a
    /// stored configuration carries a positive drip amount and a
    /// non-negative cooldown.
    pub open spec fn wf(self) -> bool {
        &&& self.distinct_addresses()
        &&& forall|i: int| #![trigger self.users[i]]
                0 <= i < self.users.len() ==> {
                    &&& self.users[i].request_count >= 1
                    &&& self.users[i].last_request_time >= 0
                    &&& self.users[i].total_received >= 0
                }
        &&& self.stats.total_requests >= 0
        &&& self.stats.total_distributed >= 0
        &&& self.stats.active_users >= 0
        &&& match self.config {
                Some(c) => c.drip_amount > 0 && c.cooldown_seconds >= 0,
                None => true,
            }
    }

    /// Aggregate consistency: the total distributed is exactly the grant
    /// count times the drip amount, and the active-user count is exactly the
    /// number of accounts with at least one grant.
    pub open spec fn consistent(self) -> bool {
        &&& self.stats.total_distributed == self.stats.total_requests * self.drip_amount()
        &&& self.stats.active_users == count_active(self.users)
    }
}

/// Outcome of `initialize` on ledger `s`: rejected exactly when a
/// configuration record already exists.
pub open spec fn spec_initialize_result(
    s: FaucetView,
    admin: Address,
    drip_amount: int,
    cooldown_seconds: int,
) -> Result<(), FaucetError> {
    if s.config is Some {
        Err(FaucetError::AlreadyInitialized)
    } else {
        Ok(())
    }
}

/// Ledger after `initialize`: unchanged on rejection; otherwise the
/// configuration is written and the statistics are reset to zero, while any
/// user records are left as they are.
pub open spec fn spec_initialize_state(
    s: FaucetView,
    admin: Address,
    drip_amount: int,
    cooldown_seconds: int,
) -> FaucetView {
    if s.config is Some {
        s
    } else {
        FaucetView {
            config: Some(ConfigView { admin, drip_amount, cooldown_seconds }),
            stats: StatsView { total_requests: 0, total_distributed: 0, active_users: 0 },
            users: s.users,
        }
    }
}

/// Outcome of `request_tokens` by `user` at time `now` on ledger `s`:
/// rejected exactly when the caller's cooldown window has not elapsed,
/// granted the effective drip amount otherwise.
pub open spec fn spec_request_result(s: FaucetView, user: Address, now: int) -> Result<
    int,
    FaucetError,
> {
    if cooldown_blocks(s.user_record(user), s.cooldown(), now) {
        Err(FaucetError::CooldownActive)
    } else {
        Ok(s.drip_amount())
    }
}

/// Ledger after `request_tokens`: unchanged on rejection; on a grant the
/// caller's record is stamped and accumulated (created if absent) and the
/// statistics take one more request, the drip amount, and one more active
/// user exactly when the caller had no prior grant.
pub open spec fn spec_request_state(s: FaucetView, user: Address, now: int) -> FaucetView {
    let rec = s.user_record(user);
    if cooldown_blocks(rec, s.cooldown(), now) {
        s
    } else {
        let new_rec = granted_record(rec, user, s.drip_amount(), now);
        FaucetView {
            config: s.config,
            stats: granted_stats(s.stats, s.drip_amount(), rec.request_count == 0),
            users: if s.has_user(user) {
                s.users.update(s.user_index(user), new_rec)
            } else {
                s.users.push(new_rec)
            },
        }
    }
}

} // verus!
