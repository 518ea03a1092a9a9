use dynomite_retry::retry::{retryable, Counter, Failure, Fault, Operation};

const OPERATIONS: [Operation; 35] = [
    Operation::BatchGetItem,
    Operation::BatchWriteItem,
    Operation::CreateBackup,
    Operation::CreateGlobalTable,
    Operation::CreateTable,
    Operation::DeleteBackup,
    Operation::DeleteItem,
    Operation::DeleteTable,
    Operation::DescribeBackup,
    Operation::DescribeContinuousBackups,
    Operation::DescribeGlobalTable,
    Operation::DescribeGlobalTableSettings,
    Operation::DescribeLimits,
    Operation::DescribeTable,
    Operation::DescribeTimeToLive,
    Operation::GetItem,
    Operation::ListBackups,
    Operation::ListGlobalTables,
    Operation::ListTables,
    Operation::ListTagsOfResource,
    Operation::PutItem,
    Operation::Query,
    Operation::RestoreTableFromBackup,
    Operation::RestoreTableToPointInTime,
    Operation::Scan,
    Operation::TagResource,
    Operation::TransactGetItems,
    Operation::TransactWriteItems,
    Operation::UntagResource,
    Operation::UpdateContinuousBackups,
    Operation::UpdateGlobalTable,
    Operation::UpdateGlobalTableSettings,
    Operation::UpdateItem,
    Operation::UpdateTable,
    Operation::UpdateTimeToLive,
];

#[test]
fn internal_server_error_is_retried_for_every_operation() {
    for operation in OPERATIONS.iter() {
        assert!(retryable(*operation, Fault::InternalServerError));
    }
}

#[test]
fn throughput_is_retried_for_item_operations_only() {
    let item_operations = [
        Operation::BatchGetItem,
        Operation::BatchWriteItem,
        Operation::DeleteItem,
        Operation::GetItem,
        Operation::PutItem,
        Operation::Query,
        Operation::Scan,
        Operation::TransactGetItems,
        Operation::TransactWriteItems,
        Operation::UpdateItem,
    ];
    for operation in OPERATIONS.iter() {
        assert_eq!(
            retryable(*operation, Fault::ProvisionedThroughputExceeded),
            item_operations.contains(operation)
        );
    }
}

#[test]
fn limit_is_retried_for_limited_operations_only() {
    let limited = [
        Operation::CreateBackup,
        Operation::CreateGlobalTable,
        Operation::CreateTable,
        Operation::DeleteBackup,
        Operation::DeleteTable,
        Operation::TagResource,
        Operation::UntagResource,
        Operation::UpdateTable,
        Operation::UpdateTimeToLive,
    ];
    for operation in OPERATIONS.iter() {
        assert_eq!(retryable(*operation, Fault::LimitExceeded), limited.contains(operation));
    }
}

#[test]
fn other_faults_are_final() {
    assert!(!retryable(Operation::GetItem, Fault::RequestLimitExceeded));
    assert!(!retryable(Operation::PutItem, Fault::ConditionalCheckFailed));
    assert!(!retryable(Operation::Query, Fault::ResourceNotFound));
    assert!(!retryable(Operation::CreateTable, Fault::ResourceInUse));
    assert!(!retryable(Operation::RestoreTableToPointInTime, Fault::LimitExceeded));
    assert!(!retryable(Operation::TransactWriteItems, Fault::TransactionCanceled));
    assert!(!retryable(Operation::BatchWriteItem, Fault::ItemCollectionSizeLimitExceeded));
}

#[test]
fn service_failures_follow_the_fault() {
    let mut counter = Counter(0);
    assert!(counter.should_retry(&Failure::Service(Operation::GetItem, Fault::ProvisionedThroughputExceeded)));
    assert!(!counter.should_retry(&Failure::Service(Operation::GetItem, Fault::ResourceNotFound)));
    assert!(counter.should_retry(&Failure::Service(Operation::DescribeLimits, Fault::InternalServerError)));
    assert_eq!(counter, Counter(3));
}

#[test]
fn other_failures_are_never_retried() {
    let mut counter = Counter(0);
    for failure in [
        Failure::HttpDispatch,
        Failure::Credentials,
        Failure::Validation,
        Failure::ParseError,
        Failure::Unknown,
    ]
    .iter()
    {
        assert!(!counter.should_retry(failure));
    }
    assert_eq!(counter.0, 5);
}

#[test]
fn counter_saturates() {
    let mut counter = Counter(u16::MAX - 1);
    let failure = Failure::Service(Operation::Scan, Fault::InternalServerError);
    assert!(counter.should_retry(&failure));
    assert_eq!(counter.0, u16::MAX);
    assert!(counter.should_retry(&failure));
    assert_eq!(counter.0, u16::MAX);
}
