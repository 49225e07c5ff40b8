//! The faucet itself: the ledger held as explicit records behind one type,
//! the pure per-record disbursement decision, and the four operations of the
//! public surface, each pinned to its transition in `model`.

use vstd::prelude::*;

use crate::model::cooldown_blocks;
use crate::model::effective_cooldown;
use crate::model::effective_drip;
use crate::model::granted_record;
use crate::model::granted_stats;
use crate::model::opt_config_view;
use crate::model::spec_initialize_result;
use crate::model::spec_initialize_state;
use crate::model::spec_request_result;
use crate::model::spec_request_state;
use crate::model::FaucetView;
use crate::records::Address;
use crate::records::AdminConfig;
use crate::records::FaucetError;
use crate::records::FaucetStats;
use crate::records::UserRequest;
use crate::records::DEFAULT_COOLDOWN_SECONDS;
use crate::records::DEFAULT_DRIP_AMOUNT;

verus! {

/// View of the granted amount a successful request reports.
pub open spec fn result_view(r: Result<i128, FaucetError>) -> Result<int, FaucetError> {
    match r {
        Ok(amount) => Ok(amount as int),
        Err(e) => Err(e),
    }
}

/// The cooldown-gated disbursement decision on one account record: the step
/// a host adapter runs once per call, after loading the caller's record and
/// the statistics and before persisting what comes back.
///
/// Rejects with `CooldownActive` exactly when the record shows a grant at a
/// nonzero time less than one cooldown ago; otherwise returns the caller's
/// updated record, the updated statistics, and the amount granted.
pub fn disburse(
    config: Option<AdminConfig>,
    rec: UserRequest,
    stats: FaucetStats,
    user: Address,
    now: u64,
) -> (r: Result<(UserRequest, FaucetStats, i128), FaucetError>)
    requires
        rec.address == user,
        rec.last_request_time <= now,
        (config matches Some(c) ==> c.drip_amount > 0),
        stats.total_requests < u64::MAX,
        rec.request_count < u64::MAX,
        rec.request_count == 0 ==> stats.active_users < u64::MAX,
        stats@.total_distributed + effective_drip(opt_config_view(config)) <= i128::MAX,
        rec@.total_received + effective_drip(opt_config_view(config)) <= i128::MAX,
    ensures
        (match r {
            Err(e) => {
                &&& e == FaucetError::CooldownActive
                &&& cooldown_blocks(rec@, effective_cooldown(opt_config_view(config)), now as int)
            },
            Ok((new_rec, new_stats, amount)) => {
                &&& !cooldown_blocks(rec@, effective_cooldown(opt_config_view(config)), now as int)
                &&& amount as int == effective_drip(opt_config_view(config))
                &&& new_rec@ == granted_record(
                    rec@,
                    user,
                    effective_drip(opt_config_view(config)),
                    now as int,
                )
                &&& new_stats@ == granted_stats(
                    stats@,
                    effective_drip(opt_config_view(config)),
                    rec.request_count == 0,
                )
            },
        }),
{
    let drip_amount: i128 = match config {
        Some(c) => c.drip_amount,
        None => DEFAULT_DRIP_AMOUNT,
    };
    let cooldown: u64 = match config {
        Some(c) => c.cooldown_seconds,
        None => DEFAULT_COOLDOWN_SECONDS,
    };
    if rec.last_request_time > 0 {
        let elapsed: u64 = now - rec.last_request_time;
        if elapsed < cooldown {
            return Err(FaucetError::CooldownActive);
        }
    }
    let is_new_user: bool = rec.request_count == 0;
    let new_rec = UserRequest {
        address: user,
        last_request_time: now,
        total_received: rec.total_received + drip_amount,
        request_count: rec.request_count + 1,
    };
    let new_stats = FaucetStats {
        total_requests: stats.total_requests + 1,
        total_distributed: stats.total_distributed + drip_amount,
        active_users: if is_new_user {
            stats.active_users + 1
        } else {
            stats.active_users
        },
    };
    Ok((new_rec, new_stats, drip_amount))
}

/// The faucet ledger: the one-time configuration, the aggregate statistics,
/// and one record per account that has ever been granted tokens. The host
/// that persists these records, authenticates callers and supplies the clock
/// stands outside; every decision is taken here.
pub struct TestnetFaucet {
    config: Option<AdminConfig>,
    stats: FaucetStats,
    users: Vec<UserRequest>,
}

impl View for TestnetFaucet {
    type V = FaucetView;

    closed spec fn view(&self) -> FaucetView {
        FaucetView {
            config: opt_config_view(self.config),
            stats: self.stats@,
            users: self.users@.map_values(|r: UserRequest| r@),
        }
    }
}

impl TestnetFaucet {
    /// A freshly deployed faucet: nothing stored yet.
    pub fn new() -> (f: TestnetFaucet)
        ensures
            f@ == FaucetView::fresh(),
            f@.wf(),
            f@.consistent(),
    {
        let f = TestnetFaucet { config: None, stats: FaucetStats::zero(), users: Vec::new() };
        proof {
            assert(f@ =~= FaucetView::fresh());
        }
        f
    }

    /// Rebuilds a ledger from records the host has persisted; the host holds
    /// no user records when it only ever persists what `initialize` and
    /// `request_tokens` hand it for one account at a time.
    pub fn from_parts(
        config: Option<AdminConfig>,
        stats: FaucetStats,
        users: Vec<UserRequest>,
    ) -> (f: TestnetFaucet)
        ensures
            f@ == (FaucetView {
                config: opt_config_view(config),
                stats: stats@,
                users: users@.map_values(|r: UserRequest| r@),
            }),
    {
        TestnetFaucet { config, stats, users }
    }

    /// Index of the caller's record, if one is stored.
    fn find_user(&self, user: Address) -> (r: Option<usize>)
        requires
            self@.wf(),
        ensures
            (match r {
                Some(i) => {
                    &&& i < self.users.len()
                    &&& self@.has_user(user)
                    &&& self@.user_index(user) == i as int
                    &&& self@.users[i as int].address == user
                },
                None => !self@.has_user(user),
            }),
    {
        let ghost v = self@;
        assert(v.users.len() == self.users@.len());
        let mut i: usize = 0;
        while i < self.users.len()
            invariant
                i <= self.users.len(),
                v == self@,
                v.users.len() == self.users@.len(),
                self@.wf(),
                forall|k: int|
                    #![trigger v.users[k]]
                    0 <= k < i ==> v.users[k].address != user,
            decreases self.users.len() - i,
        {
            if self.users[i].address == user {
                proof {
                    assert(v.users[i as int] == self.users@[i as int]@);
                    assert(v.users[i as int].address == user);
                    assert(v.has_user(user));
                    let j = v.user_index(user);
                    assert(0 <= j < v.users.len() && v.users[j].address == user);
                    if j < i as int {
                        assert(v.users[j].address != v.users[i as int].address);
                    } else if j > i as int {
                        assert(v.users[i as int].address != v.users[j].address);
                    }
                }
                return Some(i);
            }
            proof {
                assert(v.users[i as int] == self.users@[i as int]@);
            }
            i += 1;
        }
        proof {
            assert forall|k: int| 0 <= k < v.users.len() implies v.users[k].address != user by {
                assert(v.users[k].address != user);
            }
        }
        None
    }

    /// One-time setup: records the administrator, the drip amount and the
    /// cooldown, and resets the statistics to zero. Rejected with
    /// `AlreadyInitialized`, leaving the ledger untouched, if a
    /// configuration record already exists.
    pub fn initialize(
        &mut self,
        admin: Address,
        drip_amount: i128,
        cooldown_seconds: u64,
    ) -> (r: Result<(), FaucetError>)
        requires
            drip_amount > 0,
        ensures
            r == spec_initialize_result(
                old(self)@,
                admin,
                drip_amount as int,
                cooldown_seconds as int,
            ),
            final(self)@ == spec_initialize_state(
                old(self)@,
                admin,
                drip_amount as int,
                cooldown_seconds as int,
            ),
            old(self)@.wf() ==> final(self)@.wf(),
    {
        if self.config.is_some() {
            return Err(FaucetError::AlreadyInitialized);
        }
        self.config = Some(AdminConfig { admin, drip_amount, cooldown_seconds });
        self.stats = FaucetStats::zero();
        proof {
            assert(final(self)@ =~= spec_initialize_state(
                old(self)@,
                admin,
                drip_amount as int,
                cooldown_seconds as int,
            ));
        }
        Ok(())
    }

    /// One disbursement attempt by `user` at time `now`: rejected with
    /// `CooldownActive` exactly when the caller's cooldown window has not
    /// elapsed, and otherwise grants the effective drip amount, stamping the
    /// caller's record and the statistics in one step. The caller was
    /// already authenticated by the host, and `now` comes from the host's
    /// clock, which never runs behind a stored grant time.
    pub fn request_tokens(&mut self, user: Address, now: u64) -> (r: Result<i128, FaucetError>)
        requires
            old(self)@.wf(),
            old(self)@.user_record(user).last_request_time <= now as int,
            old(self)@.stats.total_requests < u64::MAX,
            old(self)@.user_record(user).request_count < u64::MAX,
            old(self)@.user_record(user).request_count == 0 ==> old(
                self,
            )@.stats.active_users < u64::MAX,
            old(self)@.stats.total_distributed + old(self)@.drip_amount() <= i128::MAX,
            old(self)@.user_record(user).total_received + old(self)@.drip_amount() <= i128::MAX,
        ensures
            result_view(r) == spec_request_result(old(self)@, user, now as int),
            final(self)@ == spec_request_state(old(self)@, user, now as int),
            final(self)@.wf(),
            old(self)@.consistent() ==> final(self)@.consistent(),
    {
        let ghost v = old(self)@;
        proof {
            crate::laws::request_preserves_wf(v, user, now as int);
            if v.consistent() {
                crate::laws::request_preserves_consistency(v, user, now as int);
            }
        }
        let idx_opt = self.find_user(user);
        let rec: UserRequest = match idx_opt {
            Some(i) => self.users[i],
            None => UserRequest::absent(user),
        };
        proof {
            if idx_opt is Some {
                let i = idx_opt->Some_0 as int;
                assert(v.users[i] == self.users@[i]@);
                assert(rec@ == v.user_record(user));
            } else {
                assert(rec@ == v.user_record(user));
            }
        }
        match disburse(self.config, rec, self.stats, user, now) {
            Err(e) => {
                proof {
                    assert(final(self)@ =~= spec_request_state(v, user, now as int));
                }
                Err(e)
            },
            Ok((new_rec, new_stats, amount)) => {
                self.stats = new_stats;
                match idx_opt {
                    Some(i) => {
                        self.users[i] = new_rec;
                        proof {
                            assert(self.users@ == old(self).users@.update(i as int, new_rec));
                            assert(self@.users =~= v.users.update(i as int, new_rec@));
                        }
                    },
                    None => {
                        self.users.push(new_rec);
                        proof {
                            assert(self@.users =~= v.users.push(new_rec@));
                        }
                    },
                }
                proof {
                    assert(final(self)@ =~= spec_request_state(v, user, now as int));
                }
                Ok(amount)
            },
        }
    }

    /// Current aggregate statistics; zero-valued on a faucet that was never
    /// initialized. Never fails and never mutates.
    pub fn get_faucet_stats(&self) -> (r: FaucetStats)
        ensures
            r@ == self@.stats,
    {
        self.stats
    }

    /// The account's request history; the zero-valued record when the
    /// account was never granted. Never fails and never mutates.
    pub fn get_user_request(&self, user: Address) -> (r: UserRequest)
        requires
            self@.wf(),
        ensures
            r@ == self@.user_record(user),
    {
        match self.find_user(user) {
            Some(i) => self.users[i],
            None => UserRequest::absent(user),
        }
    }
}

} // verus!
