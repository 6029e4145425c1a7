use zenoh_ffi::registry::{Registry, ResourceKind};

#[test]
fn declare_then_undeclare_leaves_no_dangling_registration() {
    let mut reg = Registry::new();
    let sid = reg.open_session();
    let p = reg.declare_resource(sid, ResourceKind::Publisher).unwrap();
    assert!(reg.resource_live(p));
    reg.undeclare_resource(p);
    assert!(!reg.resource_live(p));
    assert!(reg.connection_alive(sid));
    reg.close_session(sid);
    assert!(!reg.connection_alive(sid));
}

#[test]
fn dependent_keeps_connection_alive_after_session_close() {
    let mut reg = Registry::new();
    let sid = reg.open_session();
    let p = reg.declare_resource(sid, ResourceKind::Publisher).unwrap();
    // destroy the session handle first, as a careless caller would
    reg.close_session(sid);
    assert!(!reg.session_handle_live(sid));
    // the publisher's own reference still keeps the connection alive
    assert!(reg.resource_live(p));
    assert!(reg.connection_alive(sid));
    // destroying the publisher releases the last reference
    reg.undeclare_resource(p);
    assert!(!reg.connection_alive(sid));
}

#[test]
fn destroy_operations_are_idempotent() {
    let mut reg = Registry::new();
    let sid = reg.open_session();
    let p = reg.declare_resource(sid, ResourceKind::Subscriber).unwrap();

    reg.undeclare_resource(p);
    reg.undeclare_resource(p); // second destroy: a no-op, returns normally
    assert!(!reg.resource_live(p));

    reg.close_session(sid);
    reg.close_session(sid); // second destroy: a no-op, returns normally
    assert!(!reg.session_handle_live(sid));
}

#[test]
fn destroying_a_handle_never_issued_is_a_no_op() {
    let mut reg = Registry::new();
    let sid = reg.open_session();
    reg.undeclare_resource(17);
    reg.close_session(99);
    assert!(reg.session_handle_live(sid));
    assert!(!reg.resolve_query(4));
}

#[test]
fn declaring_against_a_closed_session_is_refused() {
    let mut reg = Registry::new();
    let sid = reg.open_session();
    reg.close_session(sid);
    assert!(reg.declare_resource(sid, ResourceKind::Queryable).is_none());
    assert!(reg.declare_resource(sid + 1, ResourceKind::Queryable).is_none());
}

#[test]
fn each_resource_kind_gets_its_own_handle() {
    let mut reg = Registry::new();
    let sid = reg.open_session();
    let kinds = [
        ResourceKind::Publisher,
        ResourceKind::Subscriber,
        ResourceKind::Queryable,
        ResourceKind::Querier,
        ResourceKind::LivelinessToken,
        ResourceKind::LivelinessSubscriber,
    ];
    let mut handles = Vec::new();
    for kind in kinds {
        handles.push(reg.declare_resource(sid, kind).unwrap());
    }
    for (i, h) in handles.iter().enumerate() {
        assert_eq!(*h, i);
        assert!(reg.resource_live(*h));
    }
    for h in &handles {
        reg.undeclare_resource(*h);
    }
    assert!(reg.connection_alive(sid));
    reg.close_session(sid);
    assert!(!reg.connection_alive(sid));
}

#[test]
fn queries_are_resolved_exactly_once() {
    let mut reg = Registry::new();
    let q = reg.register_query();
    assert!(reg.query_live(q));
    assert!(reg.resolve_query(q)); // the reply consumes the query
    assert!(!reg.query_live(q));
    assert!(!reg.resolve_query(q)); // a second resolution reports nothing
    assert!(!reg.resolve_query(q));
}

#[test]
fn repeated_query_drop_cycles_do_not_leak() {
    let mut reg = Registry::new();
    assert_eq!(reg.live_query_count(), 0);
    for _ in 0..100 {
        let q = reg.register_query();
        assert!(reg.resolve_query(q)); // dropped without reply
    }
    assert_eq!(reg.live_query_count(), 0);
    let held = reg.register_query();
    assert_eq!(reg.live_query_count(), 1);
    assert!(reg.resolve_query(held));
    assert_eq!(reg.live_query_count(), 0);
}
