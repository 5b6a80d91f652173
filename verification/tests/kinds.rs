use napi::sys::{
    NAPI_ARRAY_EXPECTED, NAPI_BOOLEAN_EXPECTED, NAPI_CANCELLED, NAPI_ESCAPE_CALLED_TWICE,
    NAPI_FUNCTION_EXPECTED, NAPI_GENERIC_FAILURE, NAPI_INVALID_ARG, NAPI_NAME_EXPECTED,
    NAPI_NUMBER_EXPECTED, NAPI_OBJECT_EXPECTED, NAPI_OK, NAPI_PENDING_EXCEPTION,
    NAPI_STRING_EXPECTED,
};
use napi::{ErrorKind, RawValue, Status};

fn kind(code: i32) -> ErrorKind {
    ErrorKind::from_napi_status(Status { code })
}

#[test]
fn every_named_failure_has_its_own_kind() {
    assert_eq!(kind(NAPI_INVALID_ARG), ErrorKind::InvalidArg);
    assert_eq!(kind(NAPI_OBJECT_EXPECTED), ErrorKind::ObjectExpected);
    assert_eq!(kind(NAPI_STRING_EXPECTED), ErrorKind::StringExpected);
    assert_eq!(kind(NAPI_NAME_EXPECTED), ErrorKind::NameExpected);
    assert_eq!(kind(NAPI_FUNCTION_EXPECTED), ErrorKind::FunctionExpected);
    assert_eq!(kind(NAPI_NUMBER_EXPECTED), ErrorKind::NumberExpected);
    assert_eq!(kind(NAPI_BOOLEAN_EXPECTED), ErrorKind::BooleanExpected);
    assert_eq!(kind(NAPI_ARRAY_EXPECTED), ErrorKind::ArrayExpected);
    assert_eq!(kind(NAPI_GENERIC_FAILURE), ErrorKind::GenericFailure);
    assert_eq!(kind(NAPI_PENDING_EXCEPTION), ErrorKind::PendingException);
    assert_eq!(kind(NAPI_CANCELLED), ErrorKind::Cancelled);
    assert_eq!(kind(NAPI_ESCAPE_CALLED_TWICE), ErrorKind::EscapeCalledTwice);
}

#[test]
fn status_codes_have_the_runtimes_values() {
    assert_eq!(NAPI_OK, 0);
    assert_eq!(NAPI_INVALID_ARG, 1);
    assert_eq!(NAPI_GENERIC_FAILURE, 9);
    assert_eq!(NAPI_PENDING_EXCEPTION, 10);
    assert_eq!(NAPI_ESCAPE_CALLED_TWICE, 12);
}

#[test]
fn codes_without_a_name_are_unknown() {
    assert_eq!(kind(13), ErrorKind::Unknown);
    assert_eq!(kind(-1), ErrorKind::Unknown);
    assert_eq!(kind(i32::MAX), ErrorKind::Unknown);
    assert_eq!(kind(i32::MIN), ErrorKind::Unknown);
    assert_eq!(kind(NAPI_OK), ErrorKind::Unknown);
}

#[test]
fn named_kinds_are_pairwise_distinct() {
    let mut kinds = Vec::new();
    for code in 1..=12 {
        let k = kind(code);
        assert_ne!(k, ErrorKind::Unknown);
        assert!(!kinds.contains(&k));
        kinds.push(k);
    }
    assert_eq!(kinds.len(), 12);
}

#[test]
fn status_knows_its_two_sentinels() {
    assert!(Status { code: NAPI_OK }.is_ok());
    assert!(!Status { code: NAPI_GENERIC_FAILURE }.is_ok());
    assert!(!Status { code: NAPI_PENDING_EXCEPTION }.is_ok());
    assert!(Status { code: NAPI_PENDING_EXCEPTION }.is_pending_exception());
    assert!(!Status { code: NAPI_OK }.is_pending_exception());
    assert!(!Status { code: NAPI_GENERIC_FAILURE }.is_pending_exception());
}

#[test]
fn null_value_is_address_zero() {
    assert_eq!(RawValue::null(), RawValue { addr: 0 });
    assert!(RawValue::null().is_null());
    assert!(RawValue { addr: 0 }.is_null());
    assert!(!RawValue { addr: 8 }.is_null());
}
