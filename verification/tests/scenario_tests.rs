use zenoh_ffi::boundary::{validate_handle_key_args, validate_handle_payload_args};
use zenoh_ffi::bridge::{borrowing_strategy, detached_strategy, BridgeStrategy};
use zenoh_ffi::encoding::ZenohEncodingId;
use zenoh_ffi::errchan::ErrorSlot;
use zenoh_ffi::registry::{Registry, ResourceKind};
use zenoh_ffi::sample::{make_sample_data, ZenohSampleKind};
use zenoh_ffi::status::{put_result_status, ZenohError};

/// The whole happy path through the verified core: open a session, declare
/// a subscriber and then a publisher on "demo/test", validate and accept a
/// put of b"hello", view the delivered event, and tear everything down.
#[test]
fn publish_subscribe_walkthrough() {
    let mut reg = Registry::new();
    let sid = reg.open_session();

    assert_eq!(validate_handle_key_args(true, Some(b"demo/test")), Ok(()));
    let sub = reg.declare_resource(sid, ResourceKind::Subscriber).unwrap();
    let publisher = reg.declare_resource(sid, ResourceKind::Publisher).unwrap();

    assert_eq!(validate_handle_payload_args(true, true, 5), Ok(()));
    assert_eq!(put_result_status(true), ZenohError::Okay);

    // the event the subscriber's callback sees
    let view = make_sample_data(
        "demo/test".to_string(),
        b"hello".to_vec(),
        ZenohSampleKind::Put,
        "",
        None,
    );
    assert_eq!(view.payload, b"hello".to_vec());
    assert_eq!(view.key_expr, "demo/test");
    assert_eq!(view.kind, ZenohSampleKind::Put);
    assert_eq!(view.encoding_id, ZenohEncodingId::Empty);

    reg.undeclare_resource(publisher);
    reg.undeclare_resource(sub);
    assert!(!reg.resource_live(publisher));
    assert!(!reg.resource_live(sub));
    reg.close_session(sid);
    assert!(!reg.connection_alive(sid));
}

#[test]
fn put_of_zero_bytes_is_accepted() {
    assert_eq!(validate_handle_payload_args(true, true, 0), Ok(()));
    assert_eq!(validate_handle_payload_args(true, false, 0), Ok(()));
}

#[test]
fn reentrant_calls_never_block_the_runtime_on_itself() {
    // a callback issuing a new boundary call is already inside the runtime
    assert_eq!(detached_strategy(true), BridgeStrategy::SpawnWorker);
    assert_eq!(borrowing_strategy(true), BridgeStrategy::ScopedWorker);
    // an ordinary foreign thread blocks directly
    assert_eq!(detached_strategy(false), BridgeStrategy::BlockDirect);
    assert_eq!(borrowing_strategy(false), BridgeStrategy::BlockDirect);
}

#[test]
fn error_slot_holds_the_most_recent_message_only() {
    let mut slot = ErrorSlot::new();
    assert!(slot.last_error().is_none());
    slot.set_error("first failure".to_string());
    assert_eq!(slot.last_error().as_deref(), Some("first failure"));
    slot.set_error("second failure".to_string());
    assert_eq!(slot.last_error().as_deref(), Some("second failure"));
    slot.clear_error();
    assert!(slot.last_error().is_none());
    slot.clear_error();
    assert!(slot.last_error().is_none());
}
