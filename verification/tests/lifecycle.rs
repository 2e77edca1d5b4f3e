use sysrepo::ConnectionFlags;
use sysrepo::Connection;
use sysrepo::Datastore;
use sysrepo::Engine;
use sysrepo::FetchOutcome;
use sysrepo::GetOptions;
use sysrepo::Session;
use sysrepo::Subscription;
use sysrepo::SubscriptionOptions;
use sysrepo::TimeSpan;
use sysrepo::TreeHandle;
use sysrepo::SR_ERR_INTERNAL;
use sysrepo::SR_ERR_INVAL_ARG;
use sysrepo::SR_ERR_LOCKED;
use sysrepo::SR_ERR_NOT_FOUND;
use sysrepo::SR_ERR_NO_MEMORY;
use sysrepo::SR_ERR_OK;
use sysrepo::SR_ERR_OPERATION_FAILED;
use sysrepo::SR_ERR_TIME_OUT;

fn open_connection(engine: &mut Engine) -> Connection {
    Connection::new(engine, ConnectionFlags::empty(), SR_ERR_OK).unwrap()
}

fn start_session(engine: &mut Engine, conn: &Connection) -> Session {
    conn.start_session(engine, Datastore::Running, SR_ERR_OK).unwrap()
}

#[test]
fn connection_open_and_failure() {
    let mut engine = Engine::new();
    let err = Connection::new(&mut engine, ConnectionFlags::empty(), SR_ERR_NO_MEMORY)
        .unwrap_err();
    assert_eq!(err.errcode(), SR_ERR_NO_MEMORY);
    assert_eq!(engine.live.connections, 0);

    let conn = open_connection(&mut engine);
    assert_eq!(engine.live.connections, 1);
    let flags = ConnectionFlags {
        cache_running: true,
        set_priv_parsed: false,
    };
    let conn2 = Connection::new(&mut engine, flags, SR_ERR_OK).unwrap();
    assert_eq!(engine.wire.connect_options, 1);
    assert_ne!(conn.conn_id, conn2.conn_id);
}

#[test]
fn disconnect_retries_until_success() {
    let mut engine = Engine::new();
    let conn = open_connection(&mut engine);
    let statuses = vec![SR_ERR_OPERATION_FAILED, SR_ERR_TIME_OUT, SR_ERR_OK, SR_ERR_OK];
    let attempts = conn.disconnect(&mut engine, &statuses);
    assert_eq!(attempts, 3);
    assert_eq!(engine.teardown.disconnect_attempts, 3);
    assert_eq!(engine.live.connections, 0);
}

#[test]
fn context_acquire_release_balance() {
    let mut engine = Engine::new();
    let conn = open_connection(&mut engine);
    let ctx = conn.get_context(&mut engine).unwrap();
    assert_eq!(engine.ctx.read_locks, 1);
    assert_eq!(engine.ctx.acquires, 1);
    ctx.release(&mut engine);
    assert_eq!(engine.ctx.read_locks, 0);
    assert_eq!(engine.ctx.acquires, 1);
    assert_eq!(engine.ctx.releases, 1);
}

#[test]
fn context_refused_while_write_locked() {
    let mut engine = Engine::new();
    let conn = open_connection(&mut engine);
    engine.ctx.write_locked = true;
    assert!(conn.get_context(&mut engine).is_none());
    assert_eq!(engine.ctx.acquires, 0);
    assert_eq!(engine.ctx.read_locks, 0);
}

#[test]
fn session_lifecycle_and_datastore() {
    let mut engine = Engine::new();
    let conn = open_connection(&mut engine);
    let mut sess = start_session(&mut engine, &conn);
    assert_eq!(engine.live.sessions, 1);
    assert_eq!(sess.datastore(), Datastore::Running);

    let err = sess
        .switch_datastore(Datastore::Candidate, SR_ERR_LOCKED)
        .unwrap_err();
    assert_eq!(err.errcode(), SR_ERR_LOCKED);
    assert_eq!(sess.datastore(), Datastore::Running);
    sess.switch_datastore(Datastore::Startup, SR_ERR_OK).unwrap();
    assert_eq!(sess.datastore(), Datastore::Startup);

    let statuses = vec![SR_ERR_TIME_OUT, SR_ERR_OK];
    let attempts = sess.stop(&mut engine, &statuses);
    assert_eq!(attempts, 2);
    assert_eq!(engine.teardown.stop_attempts, 2);
    assert_eq!(engine.live.sessions, 0);
}

#[test]
fn get_data_happy_path() {
    let mut engine = Engine::new();
    let conn = open_connection(&mut engine);
    let sess = start_session(&mut engine, &conn);
    let outcome = FetchOutcome {
        status: SR_ERR_OK,
        tree: Some(TreeHandle {
            tree_id: 55,
            conn_id: conn.conn_id,
        }),
    };
    let options = GetOptions {
        no_state: true,
        ..GetOptions::empty()
    };
    let data = sess
        .get_data(
            &mut engine,
            "/mod:root",
            Some(2),
            TimeSpan::from_millis(1500),
            options,
            outcome,
        )
        .unwrap();
    assert_eq!(data.tree_id, 55);
    assert_eq!(engine.wire.timeout_ms, 1500);
    assert_eq!(engine.wire.max_depth, 2);
    assert_eq!(engine.wire.get_options, 1);
    // Wrapping the result peeked at the context: acquired and released once.
    assert_eq!(engine.ctx.acquires, 1);
    assert_eq!(engine.ctx.releases, 1);
    assert_eq!(engine.ctx.read_locks, 0);

    assert_eq!(data.tree().tree_id, 55);
    data.release(&mut engine);
    assert_eq!(engine.frees.data_releases, 1);
}

#[test]
fn get_data_engine_failure_and_not_found() {
    let mut engine = Engine::new();
    let conn = open_connection(&mut engine);
    let sess = start_session(&mut engine, &conn);

    let outcome = FetchOutcome {
        status: SR_ERR_TIME_OUT,
        tree: None,
    };
    let err = sess
        .get_data(
            &mut engine,
            "/mod:root",
            None,
            TimeSpan::zero(),
            GetOptions::empty(),
            outcome,
        )
        .unwrap_err();
    assert_eq!(err.errcode(), SR_ERR_TIME_OUT);
    assert_eq!(engine.wire.max_depth, 0);
    assert_eq!(engine.wire.timeout_ms, 0);

    let outcome = FetchOutcome {
        status: SR_ERR_OK,
        tree: None,
    };
    let err = sess
        .get_data(
            &mut engine,
            "/mod:root",
            None,
            TimeSpan::zero(),
            GetOptions::empty(),
            outcome,
        )
        .unwrap_err();
    assert_eq!(err.errcode(), SR_ERR_NOT_FOUND);
    assert_eq!(engine.frees.data_releases, 0);
}

#[test]
fn get_data_rejects_interior_nul_before_the_engine() {
    let mut engine = Engine::new();
    let conn = open_connection(&mut engine);
    let sess = start_session(&mut engine, &conn);
    let before = engine;
    let err = sess
        .get_data(
            &mut engine,
            "/mod:\0root",
            None,
            TimeSpan::zero(),
            GetOptions::empty(),
            FetchOutcome {
                status: SR_ERR_OK,
                tree: None,
            },
        )
        .unwrap_err();
    assert_eq!(err.errcode(), SR_ERR_INVAL_ARG);
    assert_eq!(engine, before);
}

#[test]
fn foreign_tree_fails_internal_and_is_released_once() {
    let mut engine = Engine::new();
    let conn = open_connection(&mut engine);
    let sess = start_session(&mut engine, &conn);
    let outcome = FetchOutcome {
        status: SR_ERR_OK,
        tree: Some(TreeHandle {
            tree_id: 9,
            conn_id: conn.conn_id + 1,
        }),
    };
    let err = sess
        .get_data(
            &mut engine,
            "/mod:root",
            None,
            TimeSpan::zero(),
            GetOptions::empty(),
            outcome,
        )
        .unwrap_err();
    assert_eq!(err.errcode(), SR_ERR_INTERNAL);
    // The mismatched tree was still released, exactly once.
    assert_eq!(engine.frees.data_releases, 1);
}

#[test]
fn subscription_registers_and_tears_down_after_transient_failures() {
    let mut engine = Engine::new();
    let conn = open_connection(&mut engine);
    let sess = start_session(&mut engine, &conn);

    let sub = sess
        .new_module_change_subscription(
            &mut engine,
            "examples",
            None,
            0,
            SubscriptionOptions::empty(),
            SR_ERR_OK,
        )
        .unwrap();
    assert_eq!(engine.live.registrations, 1);
    assert_eq!(engine.live.closures, 1);
    assert_eq!(sub.registrations, 1);

    // Transient failures, then success: one attempt per answer, and the
    // boxed closure survives every failed attempt.
    let mut sub = sub;
    for status in [SR_ERR_TIME_OUT, SR_ERR_OPERATION_FAILED] {
        let done = sub.unsubscribe_attempt(&mut engine, status);
        assert!(!done);
        assert_eq!(engine.live.closures, 1);
        assert_eq!(engine.live.registrations, 1);
    }
    let done = sub.unsubscribe_attempt(&mut engine, SR_ERR_OK);
    assert!(done);
    assert_eq!(engine.teardown.unsubscribe_attempts, 3);
    assert_eq!(engine.live.closures, 0);
    assert_eq!(engine.live.registrations, 0);
}

#[test]
fn grouped_subscriptions_share_one_teardown() {
    let mut engine = Engine::new();
    let conn = open_connection(&mut engine);
    let sess = start_session(&mut engine, &conn);

    let mut sub = Subscription::new(&conn);
    sess.add_module_change_subscription(
        &mut engine,
        &mut sub,
        "examples",
        Some("/examples:hello"),
        0,
        SubscriptionOptions::empty(),
        SR_ERR_OK,
    )
    .unwrap();
    sess.add_rpc_subscription(
        &mut engine,
        &mut sub,
        "/examples:cast",
        1,
        SubscriptionOptions::empty(),
        SR_ERR_OK,
    )
    .unwrap();
    sess.add_operational_get_subscription(
        &mut engine,
        &mut sub,
        "examples",
        "/examples:state",
        SubscriptionOptions::empty(),
        SR_ERR_OK,
    )
    .unwrap();
    sess.add_notification_subscription(
        &mut engine,
        &mut sub,
        "examples",
        None,
        None,
        Some(TimeSpan::from_millis(5000)),
        SubscriptionOptions::empty(),
        SR_ERR_OK,
    )
    .unwrap();
    assert_eq!(sub.registrations, 4);
    assert_eq!(engine.live.registrations, 4);
    assert_eq!(engine.live.closures, 4);

    let statuses = vec![SR_ERR_TIME_OUT, SR_ERR_OK];
    let attempts = sub.unsubscribe(&mut engine, &statuses);
    assert_eq!(attempts, 2);
    assert_eq!(engine.live.registrations, 0);
    assert_eq!(engine.live.closures, 0);
}

#[test]
fn failed_registration_keeps_nothing() {
    let mut engine = Engine::new();
    let conn = open_connection(&mut engine);
    let sess = start_session(&mut engine, &conn);
    let err = sess
        .new_rpc_subscription(
            &mut engine,
            "/examples:cast",
            0,
            SubscriptionOptions::empty(),
            SR_ERR_INTERNAL,
        )
        .unwrap_err();
    assert_eq!(err.errcode(), SR_ERR_INTERNAL);
    assert_eq!(engine.live.registrations, 0);
    assert_eq!(engine.live.closures, 0);
}

#[test]
fn subscription_rejects_interior_nul() {
    let mut engine = Engine::new();
    let conn = open_connection(&mut engine);
    let sess = start_session(&mut engine, &conn);
    let err = sess
        .new_operational_get_subscription(
            &mut engine,
            "exam\0ples",
            "/examples:state",
            SubscriptionOptions::empty(),
            SR_ERR_OK,
        )
        .unwrap_err();
    assert_eq!(err.errcode(), SR_ERR_INVAL_ARG);
    assert_eq!(engine.live.registrations, 0);
}
