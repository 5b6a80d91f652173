use napi::sys::{NAPI_GENERIC_FAILURE, NAPI_OK, NAPI_PENDING_EXCEPTION, NAPI_STRING_EXPECTED};
use napi::translation::{Query, Translation};
use napi::{ErrorKind, RawValue, Status};

#[test]
fn success_is_settled_at_once() {
    let translation = Translation::begin(Status { code: NAPI_OK });
    assert_eq!(translation.query(), None);
    assert!(matches!(translation.outcome(), Some(Ok(()))));
}

#[test]
fn failure_asks_message_then_pending_then_exception() {
    let translation = Translation::begin(Status { code: NAPI_STRING_EXPECTED });
    assert_eq!(translation.query(), Some(Query::LastErrorInfo));
    let translation = translation.last_error_info(Some("not a string".to_string()));
    assert_eq!(translation.query(), Some(Query::IsExceptionPending));
    let translation = translation.exception_pending(true);
    assert_eq!(translation.query(), Some(Query::GetAndClearLastException));
    let translation = translation.last_exception(RawValue { addr: 64 });
    assert_eq!(translation.query(), None);
    let error = translation.outcome().unwrap().unwrap_err();
    assert_eq!(error.kind, ErrorKind::StringExpected);
    assert_eq!(error.message, Some("not a string".to_string()));
    assert_eq!(error.exception, Some(RawValue { addr: 64 }));
}

#[test]
fn failure_without_pending_exception_settles_after_two_answers() {
    let translation = Translation::begin(Status { code: NAPI_GENERIC_FAILURE });
    let translation = translation.last_error_info(None).exception_pending(false);
    assert_eq!(translation.query(), None);
    let error = translation.outcome().unwrap().unwrap_err();
    assert_eq!(error.kind, ErrorKind::GenericFailure);
    assert_eq!(error.message, None);
    assert_eq!(error.exception, None);
}

#[test]
fn pending_exception_status_goes_straight_to_the_exception() {
    let translation = Translation::begin(Status { code: NAPI_PENDING_EXCEPTION });
    assert_eq!(translation.query(), Some(Query::LastErrorInfo));
    let translation = translation.last_error_info(None);
    assert_eq!(translation.query(), Some(Query::GetAndClearLastException));
    let translation = translation.last_exception(RawValue { addr: 5 });
    let error = translation.outcome().unwrap().unwrap_err();
    assert_eq!(error.kind, ErrorKind::PendingException);
    assert_eq!(error.exception, Some(RawValue { addr: 5 }));
}

#[test]
fn null_handle_settles_without_exception() {
    let translation = Translation::begin(Status { code: NAPI_PENDING_EXCEPTION })
        .last_error_info(Some("thrown".to_string()))
        .last_exception(RawValue::null());
    let error = translation.outcome().unwrap().unwrap_err();
    assert_eq!(error.message, Some("thrown".to_string()));
    assert_eq!(error.exception, None);
}

#[test]
fn outcome_is_withheld_while_a_query_is_open() {
    let translation = Translation::begin(Status { code: NAPI_GENERIC_FAILURE });
    assert!(translation.outcome().is_none());
    let translation = Translation::begin(Status { code: NAPI_GENERIC_FAILURE }).last_error_info(None);
    assert!(translation.outcome().is_none());
    let translation = Translation::begin(Status { code: NAPI_GENERIC_FAILURE })
        .last_error_info(None)
        .exception_pending(true);
    assert!(translation.outcome().is_none());
}

#[test]
fn answers_that_were_not_asked_for_change_nothing() {
    let translation = Translation::begin(Status { code: NAPI_GENERIC_FAILURE })
        .exception_pending(false)
        .last_exception(RawValue { addr: 3 });
    assert_eq!(translation.query(), Some(Query::LastErrorInfo));
    let translation = translation
        .last_error_info(Some("first".to_string()))
        .last_error_info(Some("second".to_string()))
        .last_exception(RawValue { addr: 3 });
    assert_eq!(translation.query(), Some(Query::IsExceptionPending));
    let translation = translation.exception_pending(false).exception_pending(true);
    let error = translation.outcome().unwrap().unwrap_err();
    assert_eq!(error.message, Some("first".to_string()));
    assert_eq!(error.exception, None);
}

#[test]
fn settled_success_ignores_every_answer() {
    let translation = Translation::begin(Status { code: NAPI_OK })
        .last_error_info(Some("late".to_string()))
        .exception_pending(true)
        .last_exception(RawValue { addr: 1 });
    assert_eq!(translation.query(), None);
    assert!(matches!(translation.outcome(), Some(Ok(()))));
}
