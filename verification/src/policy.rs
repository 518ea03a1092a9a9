//! Preconfigured retry policies for failable operations.
use crate::backoff::{
    BackoffFactor, BackoffSettings, backoff_settings, duration_from_millis, duration_of_millis,
    strategy_default, strategy_exponential, strategy_fixed, strategy_with_jitter,
    strategy_with_max_retries,
};
use futures_backoff::Strategy;
use std::time::Duration;
use vstd::prelude::*;

verus! {

/// `Duration` is `Copy`: its `clone` hands back an equal value.
pub assume_specification[ <Duration as Clone>::clone ](d: &Duration) -> (r: Duration)
    ensures
        r == *d,
;

/// Preconfigured retry policies for failable operations
///
/// A `Default` impl of retrying 5 times with an exponential back-off of 100 milliseconds
#[derive(Clone, PartialEq, Debug)]
pub enum Policy {
    /// Limited number of times to retry
    Limit(usize),
    /// Limited number of times to retry with fixed pause between retries
    Pause(usize, Duration),
    /// Limited number of times to retry with an exponential pause between retries
    Exponential(usize, Duration),
}

impl Default for Policy {
    fn default() -> (policy: Self)
        ensures
            policy == Policy::Exponential(5, duration_of_millis(100)),
    {
        Policy::Exponential(5, duration_from_millis(100))
    }
}

/// The settings of the strategy that a policy turns into: the policy's number of retries,
/// jitter turned on, and the policy's delay (the default strategy for `Limit`).
pub open spec fn policy_settings(policy: Policy) -> BackoffSettings {
    match policy {
        Policy::Limit(times) => BackoffSettings {
            factor: BackoffFactor::Exponential,
            delay: duration_of_millis(1000),
            max_delay: None,
            max_retries: times,
            jitter: true,
        },
        Policy::Pause(times, duration) => BackoffSettings {
            factor: BackoffFactor::Fixed,
            delay: duration,
            max_delay: None,
            max_retries: times,
            jitter: true,
        },
        Policy::Exponential(times, duration) => BackoffSettings {
            factor: BackoffFactor::Exponential,
            delay: duration,
            max_delay: None,
            max_retries: times,
            jitter: true,
        },
    }
}

/// The number of times a policy retries.
pub open spec fn retry_limit(policy: Policy) -> usize {
    match policy {
        Policy::Limit(times) => times,
        Policy::Pause(times, _) => times,
        Policy::Exponential(times, _) => times,
    }
}

/// Whatever the policy, its strategy retries as many times as the policy says, with
/// jitter on and no maximum delay.
pub proof fn lemma_strategy_keeps_retry_limit(policy: Policy)
    ensures
        policy_settings(policy).max_retries == retry_limit(policy),
        policy_settings(policy).jitter,
        policy_settings(policy).max_delay is None,
{
}

/// A `Limit` policy backs off as `Strategy::default` does: exponentially from one second
/// (`Duration::from_millis(1000)`), whatever the number of retries.
pub proof fn lemma_limit_backs_off_like_the_default(times: usize)
    ensures
        policy_settings(Policy::Limit(times)).factor == BackoffFactor::Exponential,
        policy_settings(Policy::Limit(times)).delay == duration_of_millis(1000),
        policy_settings(Policy::Limit(times)).max_retries == times,
{
}

/// A `Pause` policy waits the same given pause between every two attempts, whatever the
/// number of retries.
pub proof fn lemma_pause_waits_a_fixed_delay(times: usize, pause: Duration)
    ensures
        policy_settings(Policy::Pause(times, pause)).factor == BackoffFactor::Fixed,
        policy_settings(Policy::Pause(times, pause)).delay == pause,
        policy_settings(Policy::Pause(times, pause)).max_retries == times,
{
}

/// An `Exponential` policy backs off exponentially from exactly the given delay, whatever
/// the number of retries.
pub proof fn lemma_exponential_starts_from_its_delay(times: usize, delay: Duration)
    ensures
        policy_settings(Policy::Exponential(times, delay)).factor == BackoffFactor::Exponential,
        policy_settings(Policy::Exponential(times, delay)).delay == delay,
        policy_settings(Policy::Exponential(times, delay)).max_retries == times,
{
}

/// `Pause` and `Exponential` with the same retries and delay configure the same strategy
/// but for how the delay grows: fixed for the one, exponential for the other.
pub proof fn lemma_pause_and_exponential_differ_only_in_growth(times: usize, delay: Duration)
    ensures
        policy_settings(Policy::Pause(times, delay)) == (BackoffSettings {
            factor: BackoffFactor::Fixed,
            ..policy_settings(Policy::Exponential(times, delay))
        }),
        policy_settings(Policy::Pause(times, delay)).factor != policy_settings(
            Policy::Exponential(times, delay),
        ).factor,
{
}

/// A policy's strategy is described by `policy_settings`, over the strategy's settings:
/// the strategy itself has no value in specifications.
impl vstd::std_specs::convert::IntoSpecImpl<Strategy> for Policy {
    open spec fn obeys_into_spec() -> bool {
        false
    }

    open spec fn into_spec(self) -> Strategy {
        arbitrary()
    }
}

impl Into<Strategy> for Policy {
    fn into(self) -> (strategy: Strategy)
        ensures
            backoff_settings(strategy) == policy_settings(self),
    {
        match self {
            Policy::Limit(times) => strategy_with_jitter(
                strategy_with_max_retries(strategy_default(), times),
                true,
            ),
            Policy::Pause(times, duration) => strategy_with_jitter(
                strategy_with_max_retries(strategy_fixed(duration), times),
                true,
            ),
            Policy::Exponential(times, duration) => strategy_with_jitter(
                strategy_with_max_retries(strategy_exponential(duration), times),
                true,
            ),
        }
    }
}

} // verus!
