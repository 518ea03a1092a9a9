# dynomite_retry

Retry policies for DynamoDB clients, with the decisions behind them verified by Verus.

- `src/policy.rs`: `Policy` (limited retries, fixed pause, exponential back-off), its
  default, and its conversion into a `futures_backoff::Strategy`, specified over the
  strategy's settings.
- `src/retry.rs`: which service errors of which DynamoDB operation are retried, and the
  counter that decides, attempt by attempt, whether a failed request is retried.
- `src/backoff.rs`: the calls into `futures_backoff` and `std::time::Duration`, each with
  the contract its source shows.
- `app/lib.rs`: the retrying `DynamoDb` client built on `rusoto`, which turns rusoto errors
  into the library's `Failure` values and runs requests under the policy's strategy.
