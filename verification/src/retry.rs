//! Which failed DynamoDB requests are worth another attempt.
//!
//! The rules honor DynamoDB's documented retryable errors: an internal server error is
//! retried for every operation, an exceeded provisioned throughput for the operations that
//! read or write items, and an exceeded limit for the operations that the account's limits
//! restrict. Every other error is final.
use vstd::prelude::*;

verus! {

/// The DynamoDB operations whose errors are classified for retries.
#[derive(Clone, Copy, PartialEq, Eq, Debug, Structural)]
pub enum Operation {
    BatchGetItem,
    BatchWriteItem,
    CreateBackup,
    CreateGlobalTable,
    CreateTable,
    DeleteBackup,
    DeleteItem,
    DeleteTable,
    DescribeBackup,
    DescribeContinuousBackups,
    DescribeGlobalTable,
    DescribeGlobalTableSettings,
    DescribeLimits,
    DescribeTable,
    DescribeTimeToLive,
    GetItem,
    ListBackups,
    ListGlobalTables,
    ListTables,
    ListTagsOfResource,
    PutItem,
    Query,
    RestoreTableFromBackup,
    RestoreTableToPointInTime,
    Scan,
    TagResource,
    TransactGetItems,
    TransactWriteItems,
    UntagResource,
    UpdateContinuousBackups,
    UpdateGlobalTable,
    UpdateGlobalTableSettings,
    UpdateItem,
    UpdateTable,
    UpdateTimeToLive,
}

/// The kind of a service error that DynamoDB answers an operation with.
#[derive(Clone, Copy, PartialEq, Eq, Debug, Structural)]
pub enum Fault {
    BackupInUse,
    BackupNotFound,
    ConditionalCheckFailed,
    ContinuousBackupsUnavailable,
    GlobalTableAlreadyExists,
    GlobalTableNotFound,
    IdempotentParameterMismatch,
    IndexNotFound,
    InternalServerError,
    InvalidRestoreTime,
    ItemCollectionSizeLimitExceeded,
    LimitExceeded,
    PointInTimeRecoveryUnavailable,
    ProvisionedThroughputExceeded,
    ReplicaAlreadyExists,
    ReplicaNotFound,
    RequestLimitExceeded,
    ResourceInUse,
    ResourceNotFound,
    TableAlreadyExists,
    TableInUse,
    TableNotFound,
    TransactionCanceled,
    TransactionConflict,
    TransactionInProgress,
}

/// Why a request failed.
#[derive(Clone, Copy, PartialEq, Eq, Debug, Structural)]
pub enum Failure {
    /// DynamoDB answered the operation with a service error of the given kind.
    Service(Operation, Fault),
    /// The HTTP request could not be dispatched.
    HttpDispatch,
    /// The AWS credentials were missing or wrong.
    Credentials,
    /// The request did not validate.
    Validation,
    /// The response could not be parsed.
    ParseError,
    /// The response was not understood.
    Unknown,
}

/// Operations that read or write items, which DynamoDB throttles by provisioned throughput.
pub open spec fn reads_or_writes_items(operation: Operation) -> bool {
    ||| operation == Operation::BatchGetItem
    ||| operation == Operation::BatchWriteItem
    ||| operation == Operation::DeleteItem
    ||| operation == Operation::GetItem
    ||| operation == Operation::PutItem
    ||| operation == Operation::Query
    ||| operation == Operation::Scan
    ||| operation == Operation::TransactGetItems
    ||| operation == Operation::TransactWriteItems
    ||| operation == Operation::UpdateItem
}

/// Operations that the account's limits restrict.
pub open spec fn limited_by_account(operation: Operation) -> bool {
    ||| operation == Operation::CreateBackup
    ||| operation == Operation::CreateGlobalTable
    ||| operation == Operation::CreateTable
    ||| operation == Operation::DeleteBackup
    ||| operation == Operation::DeleteTable
    ||| operation == Operation::TagResource
    ||| operation == Operation::UntagResource
    ||| operation == Operation::UpdateTable
    ||| operation == Operation::UpdateTimeToLive
}

/// Whether DynamoDB documents a fault as retryable for an operation.
pub open spec fn retryable_fault(operation: Operation, fault: Fault) -> bool {
    match fault {
        Fault::InternalServerError => true,
        Fault::ProvisionedThroughputExceeded => reads_or_writes_items(operation),
        Fault::LimitExceeded => limited_by_account(operation),
        _ => false,
    }
}

/// Whether a failure is worth another attempt: only retryable service errors are.
pub open spec fn retryable_failure(failure: Failure) -> bool {
    match failure {
        Failure::Service(operation, fault) => retryable_fault(operation, fault),
        _ => false,
    }
}

/// Returns whether DynamoDB documents `fault` as retryable for `operation`.
pub fn retryable(operation: Operation, fault: Fault) -> (retry: bool)
    ensures
        retry == retryable_fault(operation, fault),
{
    match operation {
        Operation::BatchGetItem => matches!(fault, Fault::InternalServerError | Fault::ProvisionedThroughputExceeded),
        Operation::BatchWriteItem => matches!(fault, Fault::InternalServerError | Fault::ProvisionedThroughputExceeded),
        Operation::CreateBackup => matches!(fault, Fault::InternalServerError | Fault::LimitExceeded),
        Operation::CreateGlobalTable => matches!(fault, Fault::InternalServerError | Fault::LimitExceeded),
        Operation::CreateTable => matches!(fault, Fault::InternalServerError | Fault::LimitExceeded),
        Operation::DeleteBackup => matches!(fault, Fault::InternalServerError | Fault::LimitExceeded),
        Operation::DeleteItem => matches!(fault, Fault::InternalServerError | Fault::ProvisionedThroughputExceeded),
        Operation::DeleteTable => matches!(fault, Fault::InternalServerError | Fault::LimitExceeded),
        Operation::DescribeBackup => matches!(fault, Fault::InternalServerError),
        Operation::DescribeContinuousBackups => matches!(fault, Fault::InternalServerError),
        Operation::DescribeGlobalTable => matches!(fault, Fault::InternalServerError),
        Operation::DescribeGlobalTableSettings => matches!(fault, Fault::InternalServerError),
        Operation::DescribeLimits => matches!(fault, Fault::InternalServerError),
        Operation::DescribeTable => matches!(fault, Fault::InternalServerError),
        Operation::DescribeTimeToLive => matches!(fault, Fault::InternalServerError),
        Operation::GetItem => matches!(fault, Fault::InternalServerError | Fault::ProvisionedThroughputExceeded),
        Operation::ListBackups => matches!(fault, Fault::InternalServerError),
        Operation::ListGlobalTables => matches!(fault, Fault::InternalServerError),
        Operation::ListTables => matches!(fault, Fault::InternalServerError),
        Operation::ListTagsOfResource => matches!(fault, Fault::InternalServerError),
        Operation::PutItem => matches!(fault, Fault::InternalServerError | Fault::ProvisionedThroughputExceeded),
        Operation::Query => matches!(fault, Fault::InternalServerError | Fault::ProvisionedThroughputExceeded),
        Operation::RestoreTableFromBackup => matches!(fault, Fault::InternalServerError),
        Operation::RestoreTableToPointInTime => matches!(fault, Fault::InternalServerError),
        Operation::Scan => matches!(fault, Fault::InternalServerError | Fault::ProvisionedThroughputExceeded),
        Operation::TagResource => matches!(fault, Fault::InternalServerError | Fault::LimitExceeded),
        Operation::TransactGetItems => matches!(fault, Fault::InternalServerError | Fault::ProvisionedThroughputExceeded),
        Operation::TransactWriteItems => matches!(fault, Fault::InternalServerError | Fault::ProvisionedThroughputExceeded),
        Operation::UntagResource => matches!(fault, Fault::InternalServerError | Fault::LimitExceeded),
        Operation::UpdateContinuousBackups => matches!(fault, Fault::InternalServerError),
        Operation::UpdateGlobalTable => matches!(fault, Fault::InternalServerError),
        Operation::UpdateGlobalTableSettings => matches!(fault, Fault::InternalServerError),
        Operation::UpdateItem => matches!(fault, Fault::InternalServerError | Fault::ProvisionedThroughputExceeded),
        Operation::UpdateTable => matches!(fault, Fault::InternalServerError | Fault::LimitExceeded),
        Operation::UpdateTimeToLive => matches!(fault, Fault::InternalServerError | Fault::LimitExceeded),
    }
}

/// Counts the retry decisions taken for one request.
///
/// The count saturates at `u16::MAX` rather than overflow.
#[derive(Clone, Copy, PartialEq, Eq, Debug, Structural)]
pub struct Counter(pub u16);

/// The count after one more decision: one more, unless the count is already `u16::MAX`.
pub open spec fn next_count(count: u16) -> u16 {
    if count < u16::MAX {
        (count + 1) as u16
    } else {
        count
    }
}

impl Counter {
    /// Counts one more attempt and decides whether the failed request is retried.
    pub fn should_retry(&mut self, failure: &Failure) -> (retry: bool)
        ensures
            final(self).0 == next_count(old(self).0),
            retry == retryable_failure(*failure),
    {
        if let Some(value) = self.0.checked_add(1) {
            self.0 = value;
        }
        match failure {
            Failure::Service(operation, fault) => retryable(*operation, *fault),
            _ => false,
        }
    }
}

/// The count after `decisions` more decisions, starting from `count`.
pub open spec fn count_after(count: u16, decisions: nat) -> u16
    decreases decisions,
{
    if decisions == 0 {
        count
    } else {
        next_count(count_after(count, (decisions - 1) as nat))
    }
}

/// An internal server error is retried whatever the operation.
pub proof fn lemma_internal_server_error_is_retried(operation: Operation)
    ensures
        retryable_fault(operation, Fault::InternalServerError),
        retryable_failure(Failure::Service(operation, Fault::InternalServerError)),
{
}

/// A counted service failure is retried exactly when DynamoDB documents its fault as
/// retryable for its operation.
pub proof fn lemma_service_failure_follows_the_fault(operation: Operation, fault: Fault)
    ensures
        retryable_failure(Failure::Service(operation, fault)) == retryable_fault(operation, fault),
{
}

/// An exceeded provisioned throughput is retried for exactly the operations that read or
/// write items: batch get and write, get, put, update and delete of an item, query, scan,
/// and transactional get and write.
pub proof fn lemma_throughput_is_retried_for_item_operations(operation: Operation)
    ensures
        retryable_fault(operation, Fault::ProvisionedThroughputExceeded) <==> {
            ||| operation == Operation::BatchGetItem
            ||| operation == Operation::BatchWriteItem
            ||| operation == Operation::DeleteItem
            ||| operation == Operation::GetItem
            ||| operation == Operation::PutItem
            ||| operation == Operation::Query
            ||| operation == Operation::Scan
            ||| operation == Operation::TransactGetItems
            ||| operation == Operation::TransactWriteItems
            ||| operation == Operation::UpdateItem
        },
        retryable_failure(Failure::Service(operation, Fault::ProvisionedThroughputExceeded))
            <==> {
            ||| operation == Operation::BatchGetItem
            ||| operation == Operation::BatchWriteItem
            ||| operation == Operation::DeleteItem
            ||| operation == Operation::GetItem
            ||| operation == Operation::PutItem
            ||| operation == Operation::Query
            ||| operation == Operation::Scan
            ||| operation == Operation::TransactGetItems
            ||| operation == Operation::TransactWriteItems
            ||| operation == Operation::UpdateItem
        },
{
}

/// An exceeded limit is retried for exactly the operations that the account's limits
/// restrict: creating and deleting backups and tables, creating global tables, tagging and
/// untagging resources, and updating tables and their time to live.
pub proof fn lemma_limit_is_retried_for_limited_operations(operation: Operation)
    ensures
        retryable_fault(operation, Fault::LimitExceeded) <==> {
            ||| operation == Operation::CreateBackup
            ||| operation == Operation::CreateGlobalTable
            ||| operation == Operation::CreateTable
            ||| operation == Operation::DeleteBackup
            ||| operation == Operation::DeleteTable
            ||| operation == Operation::TagResource
            ||| operation == Operation::UntagResource
            ||| operation == Operation::UpdateTable
            ||| operation == Operation::UpdateTimeToLive
        },
        retryable_failure(Failure::Service(operation, Fault::LimitExceeded)) <==> {
            ||| operation == Operation::CreateBackup
            ||| operation == Operation::CreateGlobalTable
            ||| operation == Operation::CreateTable
            ||| operation == Operation::DeleteBackup
            ||| operation == Operation::DeleteTable
            ||| operation == Operation::TagResource
            ||| operation == Operation::UntagResource
            ||| operation == Operation::UpdateTable
            ||| operation == Operation::UpdateTimeToLive
        },
{
}

/// Every other fault (not found, in use, conditional check failed, request limit, ...) is
/// final, whatever the operation.
pub proof fn lemma_other_faults_are_final(operation: Operation, fault: Fault)
    requires
        fault != Fault::InternalServerError,
        fault != Fault::ProvisionedThroughputExceeded,
        fault != Fault::LimitExceeded,
    ensures
        !retryable_fault(operation, fault),
        !retryable_failure(Failure::Service(operation, fault)),
{
}

/// Only an internal server error, an exceeded provisioned throughput or an exceeded limit
/// is ever retried.
pub proof fn lemma_only_documented_faults_are_retried(operation: Operation, fault: Fault)
    requires
        retryable_fault(operation, fault),
    ensures
        fault == Fault::InternalServerError || fault == Fault::ProvisionedThroughputExceeded
            || fault == Fault::LimitExceeded,
{
}

/// A failure that is not a service error (dispatch, credentials, validation, parsing or an
/// unknown response) is never retried.
pub proof fn lemma_only_service_failures_are_retried(failure: Failure)
    requires
        retryable_failure(failure),
    ensures
        failure is Service,
{
}

/// Each decision counts one attempt, and the count stops at `u16::MAX`: after `decisions`
/// decisions from `count` it is the smaller of `count + decisions` and `u16::MAX`.
pub proof fn lemma_count_saturates(count: u16, decisions: nat)
    ensures
        count_after(count, decisions) == if count + decisions < u16::MAX {
            count + decisions
        } else {
            u16::MAX as int
        },
    decreases decisions,
{
    if decisions > 0 {
        lemma_count_saturates(count, (decisions - 1) as nat);
    }
}

} // verus!
