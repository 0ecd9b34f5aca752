use auth_core::error::DatabaseFailure;
use auth_core::gate::AuthUser;
use auth_core::store::{
    plan_redeem, redeem_row, session_expiry_after, RedeemError, Redemption, RefreshToken,
    RefreshTokenStore, RotationPolicy, StoreAction,
};

fn row(token: &str, user_id: i32, username: &str, expires_at: i64) -> RefreshToken {
    RefreshToken {
        token: token.to_string(),
        user_id,
        username: username.to_string(),
        expires_at,
    }
}

fn alice() -> AuthUser {
    AuthUser { id: 1, username: "alice".to_string() }
}

#[test]
fn redeem_row_follows_the_rule() {
    assert_eq!(redeem_row(None, 0), Err(RedeemError::NotFound));
    let stored = row("t1", 1, "alice", 1_000);
    assert_eq!(redeem_row(Some(&stored), 999), Ok(alice()));
    assert_eq!(redeem_row(Some(&stored), 1_000), Err(RedeemError::Expired));
    assert_eq!(redeem_row(Some(&stored), 1_001), Err(RedeemError::Expired));
    assert_eq!(redeem_row(Some(&stored), i64::MIN), Ok(alice()));
}

#[test]
fn plan_redeem_keeps_a_static_token() {
    let stored = row("t1", 1, "alice", 1_000);
    let plan =
        plan_redeem(Some(&stored), 10, RotationPolicy::Static, "t2".to_string(), 1_990).unwrap();
    assert_eq!(
        plan,
        Redemption { user: alice(), refresh_token: "t1".to_string(), action: StoreAction::Keep }
    );
}

#[test]
fn plan_redeem_replaces_a_rotating_token() {
    let stored = row("t1", 1, "alice", 1_000);
    let plan =
        plan_redeem(Some(&stored), 10, RotationPolicy::Rotating, "t2".to_string(), 1_990).unwrap();
    assert_eq!(
        plan,
        Redemption {
            user: alice(),
            refresh_token: "t2".to_string(),
            action: StoreAction::Replace {
                retired: "t1".to_string(),
                successor: row("t2", 1, "alice", 2_000),
            },
        }
    );
}

#[test]
fn plan_redeem_refuses_unknown_and_expired_under_both_policies() {
    let stored = row("t1", 1, "alice", 1_000);
    for policy in [RotationPolicy::Static, RotationPolicy::Rotating] {
        assert_eq!(
            plan_redeem(None, 10, policy, "t2".to_string(), 2_000),
            Err(RedeemError::NotFound)
        );
        assert_eq!(
            plan_redeem(Some(&stored), 1_000, policy, "t2".to_string(), 2_000),
            Err(RedeemError::Expired)
        );
    }
}

#[test]
fn new_store_is_empty_and_keeps_its_policy() {
    let store = RefreshTokenStore::new(RotationPolicy::Rotating);
    assert_eq!(store.policy(), RotationPolicy::Rotating);
    assert_eq!(store.lookup("t1"), None);
    let store = RefreshTokenStore::new(RotationPolicy::Static);
    assert_eq!(store.policy(), RotationPolicy::Static);
}

#[test]
fn persist_then_lookup_finds_the_row() {
    let mut store = RefreshTokenStore::new(RotationPolicy::Static);
    assert_eq!(store.persist(row("t1", 1, "alice", 1_000)), Ok(()));
    assert_eq!(store.lookup("t1"), Some(&row("t1", 1, "alice", 1_000)));
    assert_eq!(store.lookup("t2"), None);
    assert_eq!(store.lookup("T1"), None);
    assert_eq!(store.lookup(""), None);
}

#[test]
fn persist_does_not_invalidate_other_tokens_of_the_same_user() {
    let mut store = RefreshTokenStore::new(RotationPolicy::Static);
    store.persist(row("phone", 1, "alice", 1_000)).unwrap();
    store.persist(row("laptop", 1, "alice", 2_000)).unwrap();
    store.persist(row("other", 2, "bob", 3_000)).unwrap();
    assert_eq!(store.lookup("phone"), Some(&row("phone", 1, "alice", 1_000)));
    assert_eq!(store.lookup("laptop"), Some(&row("laptop", 1, "alice", 2_000)));
    assert_eq!(store.lookup("other"), Some(&row("other", 2, "bob", 3_000)));
    assert_eq!(
        store.redeem_at("phone", 10, "unused".to_string(), 1).unwrap().user,
        alice()
    );
    assert_eq!(
        store.redeem_at("laptop", 10, "unused".to_string(), 1).unwrap().user,
        alice()
    );
}

#[test]
fn persisting_a_token_twice_is_a_uniqueness_violation() {
    let mut store = RefreshTokenStore::new(RotationPolicy::Static);
    store.persist(row("t1", 1, "alice", 1_000)).unwrap();
    assert_eq!(
        store.persist(row("t1", 2, "bob", 5_000)),
        Err(DatabaseFailure::UniqueViolation)
    );
    assert_eq!(store.lookup("t1"), Some(&row("t1", 1, "alice", 1_000)));
}

#[test]
fn redeem_unknown_token_is_not_found() {
    for policy in [RotationPolicy::Static, RotationPolicy::Rotating] {
        let mut store = RefreshTokenStore::new(policy);
        store.persist(row("t1", 1, "alice", 1_000)).unwrap();
        assert_eq!(
            store.redeem_at("nope", 10, "t2".to_string(), 2_000),
            Err(RedeemError::NotFound)
        );
        assert_eq!(store.lookup("t1"), Some(&row("t1", 1, "alice", 1_000)));
        assert_eq!(store.lookup("t2"), None);
    }
}

#[test]
fn redeem_expired_token_is_expired() {
    for policy in [RotationPolicy::Static, RotationPolicy::Rotating] {
        let mut store = RefreshTokenStore::new(policy);
        store.persist(row("t1", 1, "alice", 1_000)).unwrap();
        assert_eq!(
            store.redeem_at("t1", 1_000, "t2".to_string(), 2_000),
            Err(RedeemError::Expired)
        );
        assert_eq!(
            store.redeem_at("t1", 1_001, "t2".to_string(), 2_000),
            Err(RedeemError::Expired)
        );
        assert_eq!(store.lookup("t1"), Some(&row("t1", 1, "alice", 1_000)));
        assert_eq!(store.lookup("t2"), None);
    }
}

#[test]
fn redeem_valid_token_returns_the_owner() {
    for policy in [RotationPolicy::Static, RotationPolicy::Rotating] {
        let mut store = RefreshTokenStore::new(policy);
        store.persist(row("t1", 1, "alice", 1_000)).unwrap();
        store.persist(row("t9", 2, "bob", 1_000)).unwrap();
        let redeemed = store.redeem_at("t9", 999, "t2".to_string(), 2_000).unwrap();
        assert_eq!(redeemed.user, AuthUser { id: 2, username: "bob".to_string() });
    }
}

#[test]
fn static_token_redeems_again_and_again() {
    let mut store = RefreshTokenStore::new(RotationPolicy::Static);
    store.persist(row("t1", 1, "alice", 1_000)).unwrap();
    let first = store.redeem_at("t1", 10, "t2".to_string(), 2_000).unwrap();
    let second = store.redeem_at("t1", 10, "t3".to_string(), 3_000).unwrap();
    assert_eq!(first, second);
    assert_eq!(first.refresh_token, "t1");
    assert_eq!(first.action, StoreAction::Keep);
    assert_eq!(store.lookup("t1"), Some(&row("t1", 1, "alice", 1_000)));
    assert_eq!(store.lookup("t2"), None);
    assert_eq!(store.lookup("t3"), None);
    assert_eq!(store.redeem_at("t1", 1_000, "t4".to_string(), 4_000), Err(RedeemError::Expired));
}

#[test]
fn rotating_token_redeems_once() {
    let mut store = RefreshTokenStore::new(RotationPolicy::Rotating);
    store.persist(row("t1", 1, "alice", 1_000)).unwrap();
    let first = store.redeem_at("t1", 10, "t2".to_string(), 1_990).unwrap();
    assert_eq!(first.user, alice());
    assert_eq!(first.refresh_token, "t2");
    assert_eq!(
        first.action,
        StoreAction::Replace { retired: "t1".to_string(), successor: row("t2", 1, "alice", 2_000) }
    );
    assert_eq!(store.redeem_at("t1", 10, "t3".to_string(), 3_000), Err(RedeemError::NotFound));
    assert_eq!(store.lookup("t1"), None);
    assert_eq!(store.lookup("t2"), Some(&row("t2", 1, "alice", 2_000)));
    assert_eq!(store.lookup("t3"), None);
    let next = store.redeem_at("t2", 1_500, "t3".to_string(), 1_500).unwrap();
    assert_eq!(next.user, alice());
    assert_eq!(next.refresh_token, "t3");
    assert_eq!(store.lookup("t2"), None);
    assert_eq!(store.lookup("t3"), Some(&row("t3", 1, "alice", 3_000)));
    assert_eq!(store.redeem_at("t2", 1_500, "t4".to_string(), 1), Err(RedeemError::NotFound));
}

#[test]
fn rotation_leaves_other_tokens_alone() {
    let mut store = RefreshTokenStore::new(RotationPolicy::Rotating);
    store.persist(row("a", 1, "alice", 1_000)).unwrap();
    store.persist(row("b", 1, "alice", 1_000)).unwrap();
    store.persist(row("c", 2, "bob", 1_000)).unwrap();
    store.redeem_at("b", 10, "b2".to_string(), 1_990).unwrap();
    assert_eq!(store.lookup("a"), Some(&row("a", 1, "alice", 1_000)));
    assert_eq!(store.lookup("b"), None);
    assert_eq!(store.lookup("b2"), Some(&row("b2", 1, "alice", 2_000)));
    assert_eq!(store.lookup("c"), Some(&row("c", 2, "bob", 1_000)));
}

#[test]
fn rotation_onto_a_token_of_the_store_is_a_conflict() {
    let mut store = RefreshTokenStore::new(RotationPolicy::Rotating);
    store.persist(row("t1", 1, "alice", 1_000)).unwrap();
    store.persist(row("t2", 2, "bob", 1_000)).unwrap();
    assert_eq!(store.redeem_at("t1", 10, "t2".to_string(), 2_000), Err(RedeemError::Conflict));
    assert_eq!(store.redeem_at("t1", 10, "t1".to_string(), 2_000), Err(RedeemError::Conflict));
    assert_eq!(store.lookup("t1"), Some(&row("t1", 1, "alice", 1_000)));
    assert_eq!(store.lookup("t2"), Some(&row("t2", 2, "bob", 1_000)));
    // Under the static policy the successor is not used, so nothing conflicts.
    let mut store = RefreshTokenStore::new(RotationPolicy::Static);
    store.persist(row("t1", 1, "alice", 1_000)).unwrap();
    store.persist(row("t2", 2, "bob", 1_000)).unwrap();
    assert!(store.redeem_at("t1", 10, "t2".to_string(), 2_000).is_ok());
}

#[test]
fn clone_row_copies_every_field() {
    let stored = row("t1", 1, "alice", 1_000);
    assert_eq!(stored.clone_row(), stored);
}

#[test]
fn rotation_with_a_lifetime_that_gives_no_expiry_is_refused() {
    let mut store = RefreshTokenStore::new(RotationPolicy::Rotating);
    store.persist(row("t1", 1, "alice", 1_000)).unwrap();
    assert_eq!(store.redeem_at("t1", 10, "t2".to_string(), 0), Err(RedeemError::InvalidLifetime));
    assert_eq!(
        store.redeem_at("t1", 10, "t2".to_string(), u64::MAX),
        Err(RedeemError::InvalidLifetime)
    );
    assert_eq!(store.lookup("t1"), Some(&row("t1", 1, "alice", 1_000)));
    assert_eq!(store.lookup("t2"), None);
    let stored = row("t1", 1, "alice", 1_000);
    assert_eq!(
        plan_redeem(Some(&stored), 10, RotationPolicy::Rotating, "t2".to_string(), 0),
        Err(RedeemError::InvalidLifetime)
    );
    // The static policy makes no successor and so asks nothing of the lifetime.
    assert!(plan_redeem(Some(&stored), 10, RotationPolicy::Static, "t2".to_string(), 0).is_ok());
    // Refusals of the row come first.
    assert_eq!(
        plan_redeem(Some(&stored), 1_000, RotationPolicy::Rotating, "t2".to_string(), 0),
        Err(RedeemError::Expired)
    );
}

#[test]
fn session_expiry_after_adds_the_lifetime() {
    assert_eq!(session_expiry_after(1_000, 604_800), Some(605_800));
    assert_eq!(session_expiry_after(-10, 5), Some(-5));
    assert_eq!(session_expiry_after(1_000, 0), None);
    assert_eq!(session_expiry_after(i64::MAX, 1), None);
    assert_eq!(session_expiry_after(i64::MAX - 1, 1), Some(i64::MAX));
    assert_eq!(session_expiry_after(0, u64::MAX), None);
}
