use dynomite_retry::Policy;
use futures_backoff::Strategy;
use std::time::Duration;

#[test]
fn policy_has_default() {
    assert_eq!(
        Policy::default(),
        Policy::Exponential(5, Duration::from_millis(100))
    );
}

#[test]
fn policy_impl_into_for_strategy() {
    // no great way to assert partialeq on strategy
    // just just test that we can
    let _: Strategy = Policy::default().into();
}

fn described(policy: Policy) -> String {
    let strategy: Strategy = policy.into();
    format!("{:?}", strategy)
}

#[test]
fn default_policy_turns_into_jittered_exponential_strategy() {
    assert_eq!(
        described(Policy::default()),
        "Strategy { factor: Exponential, delay: 100ms, max_delay: None, max_retries: 5, jitter: true }"
    );
}

#[test]
fn limit_policy_keeps_default_delay() {
    assert_eq!(
        described(Policy::Limit(3)),
        "Strategy { factor: Exponential, delay: 1s, max_delay: None, max_retries: 3, jitter: true }"
    );
}

#[test]
fn pause_policy_turns_into_fixed_strategy() {
    assert_eq!(
        described(Policy::Pause(7, Duration::from_millis(250))),
        "Strategy { factor: Fixed, delay: 250ms, max_delay: None, max_retries: 7, jitter: true }"
    );
}

#[test]
fn exponential_policy_with_no_retries() {
    assert_eq!(
        described(Policy::Exponential(0, Duration::from_secs(2))),
        "Strategy { factor: Exponential, delay: 2s, max_delay: None, max_retries: 0, jitter: true }"
    );
}

#[test]
fn policy_clones_equal() {
    let policy = Policy::Pause(2, Duration::from_millis(10));
    assert_eq!(policy.clone(), policy);
    assert_ne!(policy, Policy::Exponential(2, Duration::from_millis(10)));
}
