use annil_serverless::credential::Credential;
use annil_serverless::renewal::{next_delay, Action, Event, Phase, RenewalLoop, RENEWAL_FLOOR};
use annil_serverless::store::CredentialStore;

fn cred(token: &str, expiry: u64) -> Credential {
    Credential::new(token.to_string(), expiry, String::new())
}

#[test]
fn delay_is_time_left_with_a_floor() {
    assert_eq!(next_delay(4600, 1000), 3600);
    assert_eq!(next_delay(1010, 1000), 10);
    assert_eq!(next_delay(1005, 1000), 5);
    assert_eq!(next_delay(1001, 1000), 1);
    assert_eq!(next_delay(1000, 1000), RENEWAL_FLOOR);
    assert_eq!(next_delay(10, 5000), RENEWAL_FLOOR);
    assert_eq!(next_delay(u64::MAX, 0), u64::MAX);
}

#[test]
fn boot_then_expiry_renews_once_and_saves_once() {
    let start: u64 = 1_000_000;
    let mut store = CredentialStore::new();
    let mut l = RenewalLoop::new(cred("r1", start + 3600));
    assert_eq!(l.first_delay(start), 3600);

    let mut renew_calls = 0;
    let mut save_calls = 0;
    let mut now = start + 3600;
    let mut action = l.step(Event::Timer { now });
    let mut next_sleep = None;
    for _ in 0..4 {
        match action {
            Action::Renew { refresh_token } => {
                assert_eq!(refresh_token, "r1");
                renew_calls += 1;
                now += 1;
                let renewed = Credential::new("r2".to_string(), now + 3600, "r1".to_string());
                action = l.step(Event::Renewed { credential: renewed, now });
            }
            Action::Persist { credential, delay } => {
                save_calls += 1;
                store.save(&credential).unwrap();
                next_sleep = Some(delay);
                break;
            }
            Action::Sleep { .. } => panic!("the expired token was not renewed"),
        }
    }
    assert_eq!(renew_calls, 1);
    assert_eq!(save_calls, 1);
    assert_eq!(next_sleep, Some(3600));
    assert_eq!(l.phase(), Phase::Waiting);
    assert_eq!(l.credential().access_token_expiry, start + 3601 + 3600);
    assert_eq!(store.load().unwrap().refresh_token, "r2");

    match l.step(Event::Timer { now: now + 3590 }) {
        Action::Sleep { delay } => assert_eq!(delay, 10),
        other => panic!("unexpected {:?}", other),
    }
    match l.step(Event::Timer { now: now + 3597 }) {
        Action::Sleep { delay } => assert_eq!(delay, 3),
        other => panic!("unexpected {:?}", other),
    }
}

#[test]
fn renewed_token_expiring_soon_is_checked_at_its_expiry() {
    let mut l = RenewalLoop::new(cred("a", 100));
    assert!(matches!(l.step(Event::Timer { now: 100 }), Action::Renew { .. }));
    match l.step(Event::Renewed { credential: cred("b", 104), now: 101 }) {
        Action::Persist { delay, .. } => assert_eq!(delay, 3),
        other => panic!("unexpected {:?}", other),
    }
    assert!(matches!(l.step(Event::Timer { now: 104 }), Action::Renew { .. }));
}

#[test]
fn check_before_expiry_only_sleeps() {
    let mut l = RenewalLoop::new(cred("r", 500));
    match l.step(Event::Timer { now: 100 }) {
        Action::Sleep { delay } => assert_eq!(delay, 400),
        other => panic!("unexpected {:?}", other),
    }
    assert_eq!(l.phase(), Phase::Waiting);
}

#[test]
fn repeated_failures_keep_scheduling_attempts() {
    let mut l = RenewalLoop::new(cred("good", 100));
    let n = 5;
    let mut attempts = 0;
    let mut now = 100;
    for _ in 0..n {
        match l.step(Event::Timer { now }) {
            Action::Renew { refresh_token } => {
                assert_eq!(refresh_token, "good");
                attempts += 1;
            }
            other => panic!("unexpected {:?}", other),
        }
        match l.step(Event::RenewalFailed { now: now + 1 }) {
            Action::Sleep { delay } => {
                assert!(delay >= RENEWAL_FLOOR);
                now += 1 + delay;
            }
            other => panic!("unexpected {:?}", other),
        }
        assert_eq!(l.credential().refresh_token, "good");
        assert_eq!(l.phase(), Phase::Waiting);
    }
    assert_eq!(attempts, n);
    assert_eq!(l.failures(), 5);
}

#[test]
fn invalid_renewal_result_counts_as_failure() {
    let mut l = RenewalLoop::new(cred("good", 100));
    assert!(matches!(l.step(Event::Timer { now: 100 }), Action::Renew { .. }));
    match l.step(Event::Renewed { credential: cred("", 9999), now: 101 }) {
        Action::Sleep { delay } => assert_eq!(delay, RENEWAL_FLOOR),
        other => panic!("unexpected {:?}", other),
    }
    assert_eq!(l.credential().refresh_token, "good");
    assert_eq!(l.failures(), 1);
}

#[test]
fn success_resets_failures() {
    let mut l = RenewalLoop::new(cred("a", 100));
    assert!(matches!(l.step(Event::Timer { now: 100 }), Action::Renew { .. }));
    l.step(Event::RenewalFailed { now: 100 });
    assert!(matches!(l.step(Event::Timer { now: 110 }), Action::Renew { .. }));
    match l.step(Event::Renewed { credential: cred("b", 1000), now: 120 }) {
        Action::Persist { credential, delay } => {
            assert_eq!(credential.refresh_token, "b");
            assert_eq!(delay, 880);
        }
        other => panic!("unexpected {:?}", other),
    }
    assert_eq!(l.failures(), 0);
}

#[test]
fn timer_while_renewing_reissues_the_renewal() {
    let mut l = RenewalLoop::new(cred("a", 0));
    assert!(matches!(l.step(Event::Timer { now: 0 }), Action::Renew { .. }));
    assert!(matches!(l.step(Event::Timer { now: 30 }), Action::Renew { .. }));
    assert_eq!(l.phase(), Phase::Renewing);
}

#[test]
fn stale_outcome_while_waiting_is_ignored() {
    let mut l = RenewalLoop::new(cred("a", 1000));
    match l.step(Event::Renewed { credential: cred("b", 5000), now: 0 }) {
        Action::Sleep { delay } => assert_eq!(delay, 1000),
        other => panic!("unexpected {:?}", other),
    }
    assert_eq!(l.credential().refresh_token, "a");
    match l.step(Event::RenewalFailed { now: 0 }) {
        Action::Sleep { delay } => assert_eq!(delay, 1000),
        other => panic!("unexpected {:?}", other),
    }
    assert_eq!(l.failures(), 0);
}

#[test]
fn adopted_credential_supersedes_renewal_in_flight() {
    let mut l = RenewalLoop::new(cred("old", 0));
    assert!(matches!(l.step(Event::Timer { now: 0 }), Action::Renew { .. }));
    l.adopt(cred("rotated", 7200));
    match l.step(Event::Renewed { credential: cred("old-renewed", 3600), now: 5 }) {
        Action::Sleep { delay } => assert_eq!(delay, 7195),
        other => panic!("unexpected {:?}", other),
    }
    assert_eq!(l.credential().refresh_token, "rotated");
    assert_eq!(l.phase(), Phase::Waiting);
    assert!(matches!(l.step(Event::Timer { now: 7200 }), Action::Renew { .. }));
}

#[test]
fn adopt_while_waiting() {
    let mut l = RenewalLoop::new(cred("old", 10));
    l.adopt(cred("new", 500));
    assert_eq!(l.credential().refresh_token, "new");
    match l.step(Event::Timer { now: 100 }) {
        Action::Sleep { delay } => assert_eq!(delay, 400),
        other => panic!("unexpected {:?}", other),
    }
}
