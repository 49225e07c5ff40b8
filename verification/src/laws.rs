//! The properties the faucet is meant to have, each proved over the ledger
//! model and the transition functions of `model`: initialization happens
//! once, a first request is always granted, the cooldown window is enforced,
//! and the aggregate statistics stay consistent with the user records over
//! any run of requests.

use vstd::prelude::*;

use crate::model::cooldown_blocks;
use crate::model::count_active;
use crate::model::granted_record;
use crate::model::spec_initialize_result;
use crate::model::spec_initialize_state;
use crate::model::spec_request_result;
use crate::model::spec_request_state;
use crate::model::FaucetView;
use crate::model::UserView;
use crate::records::Address;
use crate::records::FaucetError;

verus! {

/// Appending a record adds one active user exactly when the record has a
/// positive request count.
proof fn lemma_count_active_push(users: Seq<UserView>, r: UserView)
    ensures
        count_active(users.push(r)) == count_active(users) + if r.request_count > 0 {
            1int
        } else {
            0int
        },
{
    assert(users.push(r).drop_last() =~= users);
    assert(users.push(r).last() == r);
}

/// Replacing a record leaves the active-user count unchanged when the
/// replacement has a positive request count exactly where the replaced
/// record did.
proof fn lemma_count_active_update(users: Seq<UserView>, i: int, r: UserView)
    requires
        0 <= i < users.len(),
        (r.request_count > 0) == (users[i].request_count > 0),
    ensures
        count_active(users.update(i, r)) == count_active(users),
    decreases users.len(),
{
    let u2 = users.update(i, r);
    if i == users.len() - 1 {
        assert(u2.drop_last() =~= users.drop_last());
        assert(u2.last() == r);
    } else {
        assert(u2.drop_last() =~= users.drop_last().update(i, r));
        lemma_count_active_update(users.drop_last(), i, r);
        assert(u2.last() == users.last());
    }
}

/// Initialization happens once: on an unconfigured ledger it succeeds, and
/// any further attempt, whatever its arguments, is rejected with
/// `AlreadyInitialized` and leaves the ledger exactly as the first call left
/// it.
pub proof fn init_once(
    s: FaucetView,
    admin1: Address,
    drip1: int,
    cooldown1: int,
    admin2: Address,
    drip2: int,
    cooldown2: int,
)
    requires
        s.config is None,
    ensures
        spec_initialize_result(s, admin1, drip1, cooldown1) is Ok,
        spec_initialize_result(spec_initialize_state(s, admin1, drip1, cooldown1), admin2, drip2, cooldown2)
            == Err::<(), FaucetError>(FaucetError::AlreadyInitialized),
        spec_initialize_state(spec_initialize_state(s, admin1, drip1, cooldown1), admin2, drip2, cooldown2)
            == spec_initialize_state(s, admin1, drip1, cooldown1),
{
}

/// A first request always succeeds: an account with no stored record is
/// granted the effective drip amount whatever the current time is.
pub proof fn first_request_succeeds(s: FaucetView, user: Address, now: int)
    requires
        !s.has_user(user),
    ensures
        spec_request_result(s, user, now) == Ok::<int, FaucetError>(s.drip_amount()),
{
}

/// Cooldown enforcement: for an account whose record shows a grant at a
/// nonzero time, a request strictly inside the cooldown window is rejected
/// with `CooldownActive` and mutates nothing, and a request at or after the
/// end of the window is granted. A grant recorded at time zero is treated by
/// the engine as no prior grant, so it is left out here.
pub proof fn cooldown_enforced(s: FaucetView, user: Address, now: int)
    requires
        s.user_record(user).last_request_time > 0,
    ensures
        now < s.user_record(user).last_request_time + s.cooldown() ==> {
            &&& spec_request_result(s, user, now) == Err::<int, FaucetError>(
                FaucetError::CooldownActive,
            )
            &&& spec_request_state(s, user, now) == s
        },
        now >= s.user_record(user).last_request_time + s.cooldown() ==> spec_request_result(
            s,
            user,
            now,
        ) == Ok::<int, FaucetError>(s.drip_amount()),
{
}

/// A request keeps the ledger well-formed.
pub proof fn request_preserves_wf(s: FaucetView, user: Address, now: int)
    requires
        s.wf(),
        now >= 0,
    ensures
        spec_request_state(s, user, now).wf(),
{
    let rec = s.user_record(user);
    if !cooldown_blocks(rec, s.cooldown(), now) {
        let new_rec = granted_record(rec, user, s.drip_amount(), now);
        let s2 = spec_request_state(s, user, now);
        if s.has_user(user) {
            let idx = s.user_index(user);
            assert(0 <= idx < s.users.len() && s.users[idx].address == user);
            assert forall|k: int| 0 <= k < s2.users.len() implies #[trigger] s2.users[k].address
                == s.users[k].address by {
                if k == idx {
                    assert(s2.users[k] == new_rec);
                } else {
                    assert(s2.users[k] == s.users[k]);
                }
            }
        } else {
            assert forall|k: int| 0 <= k < s.users.len() implies #[trigger] s.users[k].address
                != user by {
                if s.users[k].address == user {
                    assert(s.has_user(user));
                }
            }
        }
    }
}

/// Aggregate consistency is preserved by every request, granted or
/// rejected: the total distributed stays equal to the grant count times the
/// drip amount, and the active-user count stays equal to the number of
/// accounts with at least one grant.
pub proof fn request_preserves_consistency(s: FaucetView, user: Address, now: int)
    requires
        s.wf(),
        s.consistent(),
    ensures
        spec_request_state(s, user, now).consistent(),
{
    let rec = s.user_record(user);
    if !cooldown_blocks(rec, s.cooldown(), now) {
        let d = s.drip_amount();
        let new_rec = granted_record(rec, user, d, now);
        assert((s.stats.total_requests + 1) * d == s.stats.total_requests * d + d)
            by (nonlinear_arith);
        if s.has_user(user) {
            let idx = s.user_index(user);
            assert(0 <= idx < s.users.len() && s.users[idx].address == user);
            assert(rec == s.users[idx]);
            assert(rec.request_count >= 1);
            lemma_count_active_update(s.users, idx, new_rec);
        } else {
            assert(rec.request_count == 0);
            lemma_count_active_push(s.users, new_rec);
        }
    }
}

/// A successful initialization on a fresh ledger leaves it well-formed and
/// consistent: the starting point of every run.
pub proof fn initialize_establishes_consistency(
    s: FaucetView,
    admin: Address,
    drip_amount: int,
    cooldown_seconds: int,
)
    requires
        s.config is None,
        s.users.len() == 0,
        drip_amount > 0,
        cooldown_seconds >= 0,
    ensures
        spec_initialize_state(s, admin, drip_amount, cooldown_seconds).wf(),
        spec_initialize_state(s, admin, drip_amount, cooldown_seconds).consistent(),
{
}

/// One request event: who asked, and what the host clock read.
pub struct RequestEvent {
    pub user: Address,
    pub now: int,
}

/// The ledger after a run of request events, each applied in order.
pub open spec fn run_requests(s: FaucetView, events: Seq<RequestEvent>) -> FaucetView
    decreases events.len(),
{
    if events.len() == 0 {
        s
    } else {
        run_requests(spec_request_state(s, events[0].user, events[0].now), events.drop_first())
    }
}

/// Aggregate consistency holds after any sequence of requests on a
/// well-formed, consistent ledger — in particular after any sequence of
/// successful grants following initialization, since rejected requests
/// change nothing.
pub proof fn consistency_after_requests(s: FaucetView, events: Seq<RequestEvent>)
    requires
        s.wf(),
        s.consistent(),
        forall|i: int| #![trigger events[i]] 0 <= i < events.len() ==> events[i].now >= 0,
    ensures
        run_requests(s, events).wf(),
        run_requests(s, events).consistent(),
    decreases events.len(),
{
    if events.len() > 0 {
        request_preserves_wf(s, events[0].user, events[0].now);
        request_preserves_consistency(s, events[0].user, events[0].now);
        let s2 = spec_request_state(s, events[0].user, events[0].now);
        let rest = events.drop_first();
        assert forall|i: int| 0 <= i < rest.len() implies #[trigger] rest[i].now >= 0 by {
            assert(rest[i] == events[i + 1]);
        }
        consistency_after_requests(s2, rest);
    }
}

} // verus!
