use zenoh_ffi::boundary::{
    plan_open_config, validate_handle_arg, validate_handle_key_args, validate_handle_payload_args,
    validate_put_args, validate_reply_args, ConfigPlan,
};
use zenoh_ffi::status::{operation_result_status, put_result_status, ZenohError};

#[test]
fn absent_or_empty_config_uses_the_default() {
    assert_eq!(plan_open_config(None), ConfigPlan::UseDefault);
    assert_eq!(plan_open_config(Some(b"")), ConfigPlan::UseDefault);
}

#[test]
fn config_text_is_parsed_or_rejected() {
    assert_eq!(plan_open_config(Some(b"{mode: 'peer'}")), ConfigPlan::ParseText);
    assert_eq!(plan_open_config(Some(&[0xc0, 0xaf])), ConfigPlan::RejectUtf8);
}

#[test]
fn declare_rejects_missing_arguments() {
    assert_eq!(
        validate_handle_key_args(false, Some(b"demo/test")),
        Err(ZenohError::NullPointer)
    );
    assert_eq!(validate_handle_key_args(true, None), Err(ZenohError::NullPointer));
    assert_eq!(
        validate_handle_key_args(true, Some(&[0xff])),
        Err(ZenohError::InvalidKeyExpr)
    );
    assert_eq!(validate_handle_key_args(true, Some(b"demo/test")), Ok(()));
}

#[test]
fn publisher_put_accepts_an_empty_payload() {
    assert_eq!(validate_handle_payload_args(true, true, 5), Ok(()));
    assert_eq!(validate_handle_payload_args(true, false, 0), Ok(()));
    assert_eq!(
        validate_handle_payload_args(true, false, 5),
        Err(ZenohError::NullPointer)
    );
    assert_eq!(
        validate_handle_payload_args(false, true, 5),
        Err(ZenohError::NullPointer)
    );
}

#[test]
fn put_examines_arguments_in_order() {
    assert_eq!(validate_put_args(true, Some(b"k"), true, 3), Ok(()));
    assert_eq!(validate_put_args(true, Some(b"k"), false, 0), Ok(()));
    assert_eq!(
        validate_put_args(false, Some(b"k"), true, 3),
        Err(ZenohError::NullPointer)
    );
    assert_eq!(validate_put_args(true, None, true, 3), Err(ZenohError::NullPointer));
    assert_eq!(
        validate_put_args(true, Some(b"k"), false, 3),
        Err(ZenohError::NullPointer)
    );
    // a missing payload outranks a bad key: the payload is examined first
    assert_eq!(
        validate_put_args(true, Some(&[0xff]), false, 3),
        Err(ZenohError::NullPointer)
    );
    assert_eq!(
        validate_put_args(true, Some(&[0xff]), true, 3),
        Err(ZenohError::InvalidKeyExpr)
    );
}

#[test]
fn reply_requires_query_key_and_payload() {
    assert_eq!(validate_reply_args(true, Some(b"k"), true), Ok(()));
    assert_eq!(
        validate_reply_args(false, Some(b"k"), true),
        Err(ZenohError::NullPointer)
    );
    assert_eq!(validate_reply_args(true, None, true), Err(ZenohError::NullPointer));
    // unlike put, a reply's payload pointer is required even when empty
    assert_eq!(
        validate_reply_args(true, Some(b"k"), false),
        Err(ZenohError::NullPointer)
    );
    assert_eq!(
        validate_reply_args(true, Some(&[0xff]), true),
        Err(ZenohError::InvalidKeyExpr)
    );
}

#[test]
fn lone_handle_validation() {
    assert_eq!(validate_handle_arg(true), Ok(()));
    assert_eq!(validate_handle_arg(false), Err(ZenohError::NullPointer));
}

#[test]
fn status_codes_are_the_documented_closed_set() {
    assert_eq!(ZenohError::Okay.code(), 0);
    assert_eq!(ZenohError::InvalidConfig.code(), 1);
    assert_eq!(ZenohError::SessionClosed.code(), 2);
    assert_eq!(ZenohError::InvalidKeyExpr.code(), 3);
    assert_eq!(ZenohError::PutFailed.code(), 4);
    assert_eq!(ZenohError::NullPointer.code(), 5);
    assert_eq!(ZenohError::Panic.code(), 254);
    assert_eq!(ZenohError::Unknown.code(), 255);
}

#[test]
fn operation_outcomes_map_to_statuses() {
    assert_eq!(put_result_status(true), ZenohError::Okay);
    assert_eq!(put_result_status(false), ZenohError::PutFailed);
    assert_eq!(operation_result_status(true), ZenohError::Okay);
    assert_eq!(operation_result_status(false), ZenohError::Unknown);
}
