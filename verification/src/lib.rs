//! Retry policies and retry decisions for DynamoDB operations.
pub mod backoff;
pub mod policy;
pub mod retry;

pub use policy::Policy;
