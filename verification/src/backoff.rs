//! The retry strategies of `futures_backoff`, as this library sees them.
use futures_backoff::Strategy;
use std::time::Duration;
use vstd::prelude::*;

verus! {

/// `futures_backoff::Strategy`, a retry strategy whose fields are private: Verus sees
/// none of them, and `backoff_settings` names what they hold.
#[verifier::external_type_specification]
#[verifier::external_body]
pub struct ExStrategy(Strategy);

/// How the delay between two attempts grows.
#[derive(Clone, Copy, PartialEq, Eq, Debug, Structural)]
pub enum BackoffFactor {
    /// The delay is multiplied by `2^n` after `n` failed attempts.
    Exponential,
    /// The delay is multiplied by `fib(n)` after `n` failed attempts.
    Fibonacci,
    /// The delay stays the same.
    Fixed,
}

/// What a `Strategy` was configured with.
pub struct BackoffSettings {
    pub factor: BackoffFactor,
    pub delay: Duration,
    pub max_delay: Option<Duration>,
    pub max_retries: usize,
    pub jitter: bool,
}

/// The settings a `Strategy` holds in its private fields.
pub uninterp spec fn backoff_settings(strategy: Strategy) -> BackoffSettings;

/// The `Duration` that `Duration::from_millis` returns for a number of milliseconds.
pub uninterp spec fn duration_of_millis(millis: u64) -> Duration;

/// Calls `std::time::Duration::from_millis`; its result is named `duration_of_millis`.
#[verifier::external_body]
pub(crate) fn duration_from_millis(millis: u64) -> (d: Duration)
    ensures
        d == duration_of_millis(millis),
{
    Duration::from_millis(millis)
}

/// Calls `Strategy::default`, which the crate's source builds as an exponential back-off
/// from `Duration::from_millis(1000)`, no maximum delay, 5 retries and no jitter.
#[verifier::external_body]
pub(crate) fn strategy_default() -> (strategy: Strategy)
    ensures
        backoff_settings(strategy) == (BackoffSettings {
            factor: BackoffFactor::Exponential,
            delay: duration_of_millis(1000),
            max_delay: None,
            max_retries: 5,
            jitter: false,
        }),
{
    Strategy::default()
}

/// Calls `Strategy::fixed`, which builds a fixed-delay strategy with the given delay,
/// no maximum delay, 5 retries and no jitter.
#[verifier::external_body]
pub(crate) fn strategy_fixed(delay: Duration) -> (strategy: Strategy)
    ensures
        backoff_settings(strategy) == (BackoffSettings {
            factor: BackoffFactor::Fixed,
            delay: delay,
            max_delay: None,
            max_retries: 5,
            jitter: false,
        }),
{
    Strategy::fixed(delay)
}

/// Calls `Strategy::exponential`, which builds an exponential back-off with the given
/// delay, no maximum delay, 5 retries and no jitter.
#[verifier::external_body]
pub(crate) fn strategy_exponential(delay: Duration) -> (strategy: Strategy)
    ensures
        backoff_settings(strategy) == (BackoffSettings {
            factor: BackoffFactor::Exponential,
            delay: delay,
            max_delay: None,
            max_retries: 5,
            jitter: false,
        }),
{
    Strategy::exponential(delay)
}

/// Calls `Strategy::with_max_retries`, which sets the number of retries and keeps
/// every other setting.
#[verifier::external_body]
pub(crate) fn strategy_with_max_retries(strategy: Strategy, retries: usize) -> (result: Strategy)
    ensures
        backoff_settings(result) == (BackoffSettings {
            max_retries: retries,
            ..backoff_settings(strategy)
        }),
{
    strategy.with_max_retries(retries)
}

/// Calls `Strategy::with_jitter`, which turns jitter on or off and keeps every other
/// setting.
#[verifier::external_body]
pub(crate) fn strategy_with_jitter(strategy: Strategy, jitter: bool) -> (result: Strategy)
    ensures
        backoff_settings(result) == (BackoffSettings { jitter: jitter, ..backoff_settings(strategy) }),
{
    strategy.with_jitter(jitter)
}

} // verus!
