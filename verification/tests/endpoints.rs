use bench_api::handle_user_lookup;
use bench_api::health;
use bench_api::sum_of_squares;
use bench_api::user_response_for;
use bench_api::LookupOutcome;
use bench_api::PoolCounters;
use bench_api::Timestamp;
use bench_api::UserError;
use bench_api::UserRecord;
use bench_api::STATUS_OK;

fn sample_timestamp() -> Timestamp {
    Timestamp { year: 2016, month: 11, day: 15, hour: 7, minute: 39, second: 24 }
}

#[test]
fn calculate_three_four() {
    let sum = sum_of_squares(3, 4);
    assert_eq!(sum, 25);
    assert_eq!((sum as f64).sqrt(), 5.0);
}

#[test]
fn calculate_zero_zero() {
    let sum = sum_of_squares(0, 0);
    assert_eq!(sum, 0);
    assert_eq!((sum as f64).sqrt(), 0.0);
}

#[test]
fn calculate_negative_three_four() {
    let sum = sum_of_squares(-3, 4);
    assert_eq!(sum, 25);
    assert_eq!((sum as f64).sqrt(), 5.0);
}

#[test]
fn calculate_extreme_inputs() {
    assert_eq!(sum_of_squares(i32::MIN, i32::MIN), 9223372036854775808u64);
    assert_eq!(sum_of_squares(i32::MAX, i32::MAX), 9223372028264841218u64);
    assert_eq!(sum_of_squares(i32::MIN, 0), 4611686018427387904u64);
}

#[test]
fn user_found_returns_all_four_fields() {
    let record = UserRecord {
        id: 42,
        name: "Ada Lovelace".to_string(),
        email: "ada@example.com".to_string(),
        created_at: sample_timestamp(),
    };
    let response = user_response_for(LookupOutcome::Found(record)).unwrap();
    assert_eq!(response.id, 42);
    assert_eq!(response.name, "Ada Lovelace");
    assert_eq!(response.email, "ada@example.com");
    assert_eq!(response.created_at, "2016-11-15 07:39:24");
}

#[test]
fn user_missing_returns_not_found() {
    let error = user_response_for(LookupOutcome::NotFound).unwrap_err();
    assert_eq!(error, UserError::NotFound);
    assert_eq!(error.status_code(), 404);
    assert_eq!(error.message(), "User not found");
}

#[test]
fn database_fault_is_not_leaked() {
    let detail = "connection closed unexpectedly by peer 10.0.0.7";
    let error = user_response_for(LookupOutcome::Fault(detail.to_string())).unwrap_err();
    assert_eq!(error, UserError::Database);
    assert_eq!(error.status_code(), 500);
    assert_eq!(error.message(), "Database error");
    assert!(!error.message().contains("10.0.0.7"));
}

#[test]
fn health_is_constant_ok() {
    assert_eq!(health().status, "ok");
    assert_eq!(STATUS_OK, 200);
}

#[test]
fn lookup_returns_its_connection_on_success_and_failure() {
    let mut pool = PoolCounters::new(10, 20);

    let ok = handle_user_lookup(&mut pool, LookupOutcome::NotFound);
    assert_eq!(ok.unwrap_err(), UserError::NotFound);
    assert_eq!(pool.borrowed, 0);

    let faulted = handle_user_lookup(&mut pool, LookupOutcome::Fault("pool drained".to_string()));
    assert_eq!(faulted.unwrap_err(), UserError::Database);
    assert_eq!(pool.borrowed, 0);
}

#[test]
fn lookup_against_exhausted_pool_is_a_database_error() {
    let mut pool = PoolCounters::new(1, 2);
    assert!(pool.acquire());
    assert!(pool.acquire());
    let refused = handle_user_lookup(&mut pool, LookupOutcome::NotFound);
    assert_eq!(refused.unwrap_err(), UserError::Database);
    assert_eq!(pool.borrowed, 2);
}
