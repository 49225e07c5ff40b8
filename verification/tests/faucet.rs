use testnet_faucet::Address;
use testnet_faucet::FaucetError;
use testnet_faucet::FaucetStats;
use testnet_faucet::TestnetFaucet;
use testnet_faucet::UserBook;
use testnet_faucet::UserRequest;
use testnet_faucet::disburse;
use testnet_faucet::DEFAULT_COOLDOWN_SECONDS;
use testnet_faucet::DEFAULT_DRIP_AMOUNT;

#[test]
fn test_faucet_initialization() {
    let mut faucet = TestnetFaucet::new();
    let admin = Address { id: 1 };
    let drip_amount: i128 = 100_0000000; // 100 XLM
    let cooldown: u64 = 86400; // 24 hours

    assert!(faucet.initialize(admin, drip_amount, cooldown).is_ok());

    let stats = faucet.get_faucet_stats();
    assert_eq!(stats.total_requests, 0);
    assert_eq!(stats.total_distributed, 0);
}

#[test]
fn test_request_tokens() {
    let mut faucet = TestnetFaucet::new();
    let admin = Address { id: 1 };
    let user = Address { id: 2 };
    let drip_amount: i128 = 100_0000000;
    let cooldown: u64 = 60; // 1 minute for testing

    assert!(faucet.initialize(admin, drip_amount, cooldown).is_ok());

    let received = faucet.request_tokens(user, 0).unwrap();

    assert_eq!(received, drip_amount);

    let stats = faucet.get_faucet_stats();
    assert_eq!(stats.total_requests, 1);
    assert_eq!(stats.total_distributed, drip_amount);
}

#[test]
fn init_twice_fails_and_preserves_state() {
    let mut faucet = TestnetFaucet::new();
    let admin = Address { id: 1 };
    assert!(faucet.initialize(admin, 500, 60).is_ok());

    let before = faucet.get_faucet_stats();
    let second = faucet.initialize(Address { id: 9 }, 700, 10);
    assert_eq!(second, Err(FaucetError::AlreadyInitialized));
    assert_eq!(faucet.get_faucet_stats(), before);

    // The first configuration is still in force: a grant hands out the first
    // drip amount, not the one the rejected call carried.
    let granted = faucet.request_tokens(Address { id: 2 }, 100).unwrap();
    assert_eq!(granted, 500);
}

#[test]
fn first_request_always_succeeds() {
    let mut faucet = TestnetFaucet::new();
    assert!(faucet.initialize(Address { id: 1 }, 25, 86400).is_ok());

    // Accounts with no record are granted whatever the clock reads.
    assert_eq!(faucet.request_tokens(Address { id: 2 }, 0), Ok(25));
    assert_eq!(faucet.request_tokens(Address { id: 3 }, 1), Ok(25));
    assert_eq!(faucet.request_tokens(Address { id: 4 }, u64::MAX), Ok(25));
}

#[test]
fn cooldown_window_boundaries() {
    let mut faucet = TestnetFaucet::new();
    let user = Address { id: 2 };
    assert!(faucet.initialize(Address { id: 1 }, 25, 60).is_ok());

    assert_eq!(faucet.request_tokens(user, 100), Ok(25));
    // Strictly inside the window: rejected, nothing changes.
    let before = faucet.get_faucet_stats();
    assert_eq!(faucet.request_tokens(user, 101), Err(FaucetError::CooldownActive));
    assert_eq!(faucet.request_tokens(user, 159), Err(FaucetError::CooldownActive));
    assert_eq!(faucet.get_faucet_stats(), before);
    assert_eq!(faucet.get_user_request(user).last_request_time, 100);
    // Exactly at the end of the window: granted.
    assert_eq!(faucet.request_tokens(user, 160), Ok(25));
    assert_eq!(faucet.get_user_request(user).last_request_time, 160);
}

#[test]
fn aggregate_consistency_over_many_requests() {
    let mut faucet = TestnetFaucet::new();
    let drip: i128 = 40;
    assert!(faucet.initialize(Address { id: 1 }, drip, 10).is_ok());

    let a = Address { id: 2 };
    let b = Address { id: 3 };
    let c = Address { id: 4 };
    let mut now: u64 = 100;
    // Interleaved grants and rejections for three accounts.
    assert!(faucet.request_tokens(a, now).is_ok());
    assert!(faucet.request_tokens(b, now).is_ok());
    assert!(faucet.request_tokens(a, now + 5).is_err());
    assert!(faucet.request_tokens(b, now + 4).is_err());
    now += 10;
    assert!(faucet.request_tokens(a, now).is_ok());
    assert!(faucet.request_tokens(c, now).is_ok());
    now += 10;
    assert!(faucet.request_tokens(b, now).is_ok());

    let stats = faucet.get_faucet_stats();
    assert_eq!(stats.total_requests, 5);
    assert_eq!(stats.total_distributed, 5 * drip);
    // Three distinct accounts hold a record with a positive request count.
    assert_eq!(stats.active_users, 3);
    assert!(faucet.get_user_request(a).request_count > 0);
    assert!(faucet.get_user_request(b).request_count > 0);
    assert!(faucet.get_user_request(c).request_count > 0);
    assert_eq!(faucet.get_user_request(Address { id: 5 }).request_count, 0);
}

#[test]
fn reads_are_idempotent() {
    let mut faucet = TestnetFaucet::new();
    assert!(faucet.initialize(Address { id: 1 }, 25, 60).is_ok());
    let user = Address { id: 2 };
    assert!(faucet.request_tokens(user, 100).is_ok());

    let stats1 = faucet.get_faucet_stats();
    let stats2 = faucet.get_faucet_stats();
    assert_eq!(stats1, stats2);

    let rec1 = faucet.get_user_request(user);
    let rec2 = faucet.get_user_request(user);
    assert_eq!(rec1, rec2);

    let absent1 = faucet.get_user_request(Address { id: 9 });
    let absent2 = faucet.get_user_request(Address { id: 9 });
    assert_eq!(absent1, absent2);
}

#[test]
fn example_scenario() {
    let mut faucet = TestnetFaucet::new();
    let a = Address { id: 10 };
    let b = Address { id: 11 };
    let drip: i128 = 100_0000000;
    assert!(faucet.initialize(Address { id: 1 }, drip, 60).is_ok());

    // The base time is positive so that the first grant is a recorded one;
    // a grant stamped at time zero reads as no prior grant.
    assert_eq!(faucet.request_tokens(a, 100), Ok(drip));
    let stats = faucet.get_faucet_stats();
    assert_eq!(stats.total_requests, 1);
    assert_eq!(stats.total_distributed, drip);
    assert_eq!(stats.active_users, 1);

    assert_eq!(faucet.request_tokens(a, 130), Err(FaucetError::CooldownActive));
    assert_eq!(faucet.get_faucet_stats(), stats);

    assert_eq!(faucet.request_tokens(a, 161), Ok(drip));
    let stats = faucet.get_faucet_stats();
    assert_eq!(stats.total_requests, 2);
    assert_eq!(stats.total_distributed, 2 * drip);
    assert_eq!(stats.active_users, 1);

    assert_eq!(faucet.request_tokens(b, 161), Ok(drip));
    let stats = faucet.get_faucet_stats();
    assert_eq!(stats.total_requests, 3);
    assert_eq!(stats.total_distributed, 3 * drip);
    assert_eq!(stats.active_users, 2);
}

#[test]
fn grant_at_time_zero_reads_as_first_time() {
    // A record whose grant was stamped at time zero is treated by the
    // cooldown rule as having no prior grant, so a second request inside
    // the window still succeeds.
    let mut faucet = TestnetFaucet::new();
    let user = Address { id: 2 };
    assert!(faucet.initialize(Address { id: 1 }, 25, 60).is_ok());
    assert_eq!(faucet.request_tokens(user, 0), Ok(25));
    assert_eq!(faucet.request_tokens(user, 30), Ok(25));
    assert_eq!(faucet.get_user_request(user).request_count, 2);
}

#[test]
fn defaults_apply_without_initialization() {
    let mut faucet = TestnetFaucet::new();
    let user = Address { id: 2 };

    // No configuration record: the hardcoded drip and cooldown apply.
    assert_eq!(faucet.request_tokens(user, 100), Ok(DEFAULT_DRIP_AMOUNT));
    assert_eq!(
        faucet.request_tokens(user, 100 + DEFAULT_COOLDOWN_SECONDS - 1),
        Err(FaucetError::CooldownActive)
    );
    assert_eq!(
        faucet.request_tokens(user, 100 + DEFAULT_COOLDOWN_SECONDS),
        Ok(DEFAULT_DRIP_AMOUNT)
    );
}

#[test]
fn absent_account_reads_as_zero_record() {
    let faucet = TestnetFaucet::new();
    let user = Address { id: 7 };
    let rec = faucet.get_user_request(user);
    assert_eq!(
        rec,
        UserRequest { address: user, last_request_time: 0, total_received: 0, request_count: 0 }
    );
}

#[test]
fn disburse_decides_one_record() {
    // The per-record decision step a host adapter runs: no configuration,
    // a fresh record, zero statistics.
    let user = Address { id: 3 };
    let rec = UserRequest { address: user, last_request_time: 0, total_received: 0, request_count: 0 };
    let stats = FaucetStats { total_requests: 0, total_distributed: 0, active_users: 0 };
    let (new_rec, new_stats, amount) = disburse(None, rec, stats, user, 50).unwrap();
    assert_eq!(amount, DEFAULT_DRIP_AMOUNT);
    assert_eq!(new_rec.last_request_time, 50);
    assert_eq!(new_rec.total_received, DEFAULT_DRIP_AMOUNT);
    assert_eq!(new_rec.request_count, 1);
    assert_eq!(new_stats.total_requests, 1);
    assert_eq!(new_stats.total_distributed, DEFAULT_DRIP_AMOUNT);
    assert_eq!(new_stats.active_users, 1);

    // Inside the window the same record is rejected and nothing is handed back.
    let blocked = disburse(None, new_rec, new_stats, user, 60);
    assert_eq!(blocked, Err(FaucetError::CooldownActive));
}

#[test]
fn user_book_keys_one_account() {
    let key = UserBook::User(Address { id: 4 });
    let UserBook::User(addr) = key;
    assert_eq!(addr, Address { id: 4 });
}
