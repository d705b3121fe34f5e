use blindpass_store::error::StoreError;
use blindpass_store::limits::{parse_request_status, positive_milliseconds, to_i64};
use blindpass_store::records::SecretRequestStatus;

#[test]
fn seconds_become_milliseconds() {
    assert_eq!(positive_milliseconds(3, "request TTL"), Ok(3_000));
    assert_eq!(
        positive_milliseconds(0, "request TTL"),
        Err(StoreError::InvalidInput("request TTL"))
    );
    assert_eq!(positive_milliseconds(9_223_372_036_854_775, "x"), Ok(9_223_372_036_854_775_000));
    assert_eq!(
        positive_milliseconds(9_223_372_036_854_776, "x"),
        Err(StoreError::InvalidInput("x"))
    );
    assert_eq!(positive_milliseconds(u64::MAX, "x"), Err(StoreError::InvalidInput("x")));
}

#[test]
fn numbers_that_do_not_fit_a_column_are_refused() {
    assert_eq!(to_i64(7, "grant expiry"), Ok(7));
    assert_eq!(to_i64(u64::MAX, "grant expiry"), Err(StoreError::InvalidInput("grant expiry")));
}

#[test]
fn stored_statuses_are_read() {
    assert_eq!(parse_request_status("pending".to_owned()), Ok(SecretRequestStatus::Pending));
    assert_eq!(parse_request_status("submitted".to_owned()), Ok(SecretRequestStatus::Submitted));
    assert_eq!(
        parse_request_status("other".to_owned()),
        Err(StoreError::MissingState("secret request status"))
    );
}
