use scheduler_backing::dynamodb::{
    self, endpoint_for_region, setup_for_region, DynamoFailure, DynamoServiceError, SdkFailureKind,
};
use scheduler_backing::redis::{self as redis_store, RedisErrorKind, RedisFailure};
use scheduler_backing::sqlite::{self, IoErrorKind, SqliteFailure, SqlxErrorKind};

fn redis_failure(kind: RedisErrorKind, timeout: bool, dropped: bool) -> RedisFailure {
    RedisFailure { kind, is_timeout: timeout, is_connection_dropped: dropped, message: String::new() }
}

#[test]
fn redis_busy_and_try_again_are_retryable() {
    assert!(redis_store::is_retryable(&redis_failure(RedisErrorKind::BusyLoadingError, false, false)));
    assert!(redis_store::is_retryable(&redis_failure(RedisErrorKind::TryAgain, false, false)));
}

#[test]
fn redis_io_errors_retryable_only_on_timeout_or_drop() {
    assert!(redis_store::is_retryable(&redis_failure(RedisErrorKind::IoError, true, false)));
    assert!(redis_store::is_retryable(&redis_failure(RedisErrorKind::IoError, false, true)));
    assert!(!redis_store::is_retryable(&redis_failure(RedisErrorKind::IoError, false, false)));
}

#[test]
fn redis_other_kinds_are_not_retryable() {
    assert!(!redis_store::is_retryable(&redis_failure(RedisErrorKind::ResponseError, true, true)));
    assert!(!redis_store::is_retryable(&redis_failure(RedisErrorKind::TypeError, false, false)));
    assert!(!redis_store::is_retryable(&redis_failure(RedisErrorKind::ClusterDown, false, false)));
}

fn sqlite_failure(kind: SqlxErrorKind) -> SqliteFailure {
    SqliteFailure { kind, message: String::new() }
}

fn database(code: Option<&str>) -> SqliteFailure {
    sqlite_failure(SqlxErrorKind::Database { code: code.map(|c| c.to_string()) })
}

#[test]
fn sqlite_busy_and_io_codes_are_retryable() {
    for code in ["5", "10", "261", "773", "513", "769", "3338", "2314", "266", "778"] {
        assert!(sqlite::is_retryable(&database(Some(code))), "code {}", code);
    }
}

#[test]
fn sqlite_other_codes_are_not_retryable() {
    for code in ["1", "6", "19", "2067", "50", "05", ""] {
        assert!(!sqlite::is_retryable(&database(Some(code))), "code {}", code);
    }
    assert!(!sqlite::is_retryable(&database(None)));
}

#[test]
fn sqlite_pool_timeout_is_retryable() {
    assert!(sqlite::is_retryable(&sqlite_failure(SqlxErrorKind::PoolTimedOut)));
    assert!(!sqlite::is_retryable(&sqlite_failure(SqlxErrorKind::PoolClosed)));
    assert!(!sqlite::is_retryable(&sqlite_failure(SqlxErrorKind::RowNotFound)));
}

#[test]
fn sqlite_io_kinds() {
    let retryable = [
        IoErrorKind::ConnectionReset,
        IoErrorKind::ConnectionAborted,
        IoErrorKind::NotConnected,
        IoErrorKind::WouldBlock,
        IoErrorKind::TimedOut,
        IoErrorKind::WriteZero,
        IoErrorKind::Interrupted,
        IoErrorKind::UnexpectedEof,
    ];
    for kind in retryable {
        assert!(sqlite::is_retryable(&sqlite_failure(SqlxErrorKind::Io { kind })));
    }
    for kind in [IoErrorKind::NotFound, IoErrorKind::PermissionDenied, IoErrorKind::BrokenPipe, IoErrorKind::Other] {
        assert!(!sqlite::is_retryable(&sqlite_failure(SqlxErrorKind::Io { kind })));
    }
}

fn dynamo(kind: SdkFailureKind) -> DynamoFailure {
    DynamoFailure { kind, message: String::new() }
}

#[test]
fn dynamo_throttling_is_retryable_for_requests() {
    let throttled = dynamo(SdkFailureKind::ServiceError(DynamoServiceError::ProvisionedThroughputExceeded));
    let limited = dynamo(SdkFailureKind::ServiceError(DynamoServiceError::RequestLimitExceeded));
    assert!(dynamodb::is_retryable_request(&throttled));
    assert!(dynamodb::is_retryable_request(&limited));
    assert!(!dynamodb::is_retryable(&throttled));
}

#[test]
fn dynamo_other_service_errors_are_not_retryable() {
    for s in [
        DynamoServiceError::ConditionalCheckFailed,
        DynamoServiceError::InternalServerError,
        DynamoServiceError::ResourceNotFound,
        DynamoServiceError::TransactionConflict,
        DynamoServiceError::Unhandled,
    ] {
        assert!(!dynamodb::is_retryable_request(&dynamo(SdkFailureKind::ServiceError(s))));
    }
}

#[test]
fn dynamo_sdk_failures() {
    assert!(dynamodb::is_retryable_request(&dynamo(SdkFailureKind::TimeoutError)));
    assert!(dynamodb::is_retryable_request(&dynamo(SdkFailureKind::ResponseError)));
    assert!(dynamodb::is_retryable(&dynamo(SdkFailureKind::DispatchFailure { is_timeout: true, is_io: false })));
    assert!(dynamodb::is_retryable(&dynamo(SdkFailureKind::DispatchFailure { is_timeout: false, is_io: true })));
    assert!(!dynamodb::is_retryable(&dynamo(SdkFailureKind::DispatchFailure { is_timeout: false, is_io: false })));
    assert!(!dynamodb::is_retryable_request(&dynamo(SdkFailureKind::ConstructionFailure)));
}

#[test]
fn local_region_selects_local_endpoint() {
    assert_eq!(endpoint_for_region(&"localhost".to_string()), Some("http://localhost:8000"));
    assert_eq!(endpoint_for_region(&"us-east-1".to_string()), None);
    assert_eq!(endpoint_for_region(&"Localhost".to_string()), None);
}

#[test]
fn only_the_local_store_recreates_its_table() {
    let local = setup_for_region(&"localhost".to_string());
    assert_eq!(local.endpoint, Some("http://localhost:8000"));
    assert!(local.recreate_table);
    let remote = setup_for_region(&"eu-west-1".to_string());
    assert_eq!(remote.endpoint, None);
    assert!(!remote.recreate_table);
}
