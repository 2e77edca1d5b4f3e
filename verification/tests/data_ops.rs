use sysrepo::callback_enter;
use sysrepo::callback_exit;
use sysrepo::check_c_string;
use sysrepo::expect_event;
use sysrepo::expect_notification_type;
use sysrepo::oper_get_guard;
use sysrepo::result_to_status;
use sysrepo::status_to_result;
use sysrepo::str_eq;
use sysrepo::str_has_nul;
use sysrepo::ConnectionFlags;
use sysrepo::Connection;
use sysrepo::Datastore;
use sysrepo::DataTreeRef;
use sysrepo::EditOptions;
use sysrepo::Engine;
use sysrepo::Error;
use sysrepo::Event;
use sysrepo::FetchOutcome;
use sysrepo::NotificationType;
use sysrepo::Session;
use sysrepo::TimeSpan;
use sysrepo::TreeHandle;
use sysrepo::SR_ERR_INTERNAL;
use sysrepo::SR_ERR_INVAL_ARG;
use sysrepo::SR_ERR_OK;
use sysrepo::SR_ERR_TIME_OUT;
use sysrepo::SR_ERR_VALIDATION_FAILED;

fn setup(engine: &mut Engine) -> (Connection, Session) {
    let conn = Connection::new(engine, ConnectionFlags::empty(), SR_ERR_OK).unwrap();
    let sess = conn
        .start_session(engine, Datastore::Running, SR_ERR_OK)
        .unwrap();
    (conn, sess)
}

#[test]
fn set_item_str_stages_and_surfaces_errors() {
    let mut engine = Engine::new();
    let (_conn, sess) = setup(&mut engine);
    sess.set_item_str(
        &mut engine,
        "/examples:cfg/hostname",
        "host-1",
        None,
        EditOptions::empty(),
        SR_ERR_OK,
    )
    .unwrap();
    assert_eq!(engine.wire.edit_options, 0);

    let options = EditOptions {
        strict: true,
        non_recursive: false,
        isolate: true,
    };
    let err = sess
        .set_item_str(
            &mut engine,
            "/examples:cfg/hostname",
            "host-1",
            Some("learned"),
            options,
            SR_ERR_VALIDATION_FAILED,
        )
        .unwrap_err();
    assert_eq!(err.errcode(), SR_ERR_VALIDATION_FAILED);
    assert_eq!(engine.wire.edit_options, 6);
}

#[test]
fn set_item_str_rejects_nul_in_any_string() {
    let mut engine = Engine::new();
    let (_conn, sess) = setup(&mut engine);
    for (path, value, origin) in [
        ("/a\0b", "v", None),
        ("/a", "v\0", None),
        ("/a", "v", Some("or\0igin")),
    ] {
        let err = sess
            .set_item_str(&mut engine, path, value, origin, EditOptions::empty(), SR_ERR_OK)
            .unwrap_err();
        assert_eq!(err.errcode(), SR_ERR_INVAL_ARG);
    }
}

#[test]
fn apply_changes_hands_over_the_timeout() {
    let mut engine = Engine::new();
    let (_conn, mut sess) = setup(&mut engine);
    sess.apply_changes(&mut engine, TimeSpan::from_millis(1500), SR_ERR_OK)
        .unwrap();
    assert_eq!(engine.wire.timeout_ms, 1500);
    let err = sess
        .apply_changes(&mut engine, TimeSpan::zero(), SR_ERR_TIME_OUT)
        .unwrap_err();
    assert_eq!(err.errcode(), SR_ERR_TIME_OUT);
    assert_eq!(engine.wire.timeout_ms, 0);
}

#[test]
fn notif_send_checks_the_tree_and_the_wait_flag() {
    let mut engine = Engine::new();
    let (_conn, mut sess) = setup(&mut engine);

    let empty = DataTreeRef {
        tree_id: 1,
        empty: true,
    };
    let err = sess
        .notif_send(&mut engine, &empty, None, SR_ERR_OK)
        .unwrap_err();
    assert_eq!(err.errcode(), SR_ERR_INVAL_ARG);

    let tree = DataTreeRef {
        tree_id: 1,
        empty: false,
    };
    sess.notif_send(&mut engine, &tree, None, SR_ERR_OK).unwrap();
    assert_eq!(engine.wire.timeout_ms, 0);
    assert!(!engine.wire.wait_flag);

    sess.notif_send(
        &mut engine,
        &tree,
        Some(TimeSpan::from_millis(1500)),
        SR_ERR_OK,
    )
    .unwrap();
    assert_eq!(engine.wire.timeout_ms, 1500);
    assert!(engine.wire.wait_flag);
}

#[test]
fn rpc_send_returns_the_owned_reply() {
    let mut engine = Engine::new();
    let (conn, mut sess) = setup(&mut engine);
    let input = DataTreeRef {
        tree_id: 20,
        empty: false,
    };
    let outcome = FetchOutcome {
        status: SR_ERR_OK,
        tree: Some(TreeHandle {
            tree_id: 21,
            conn_id: conn.conn_id,
        }),
    };
    let reply = sess
        .rpc_send(&mut engine, input, TimeSpan::from_millis(1500), outcome)
        .unwrap();
    assert_eq!(reply.tree_id, 21);
    assert_eq!(engine.wire.timeout_ms, 1500);
    reply.release(&mut engine);
    assert_eq!(engine.frees.data_releases, 1);

    let input = DataTreeRef {
        tree_id: 22,
        empty: false,
    };
    let err = sess
        .rpc_send(
            &mut engine,
            input,
            TimeSpan::zero(),
            FetchOutcome {
                status: SR_ERR_TIME_OUT,
                tree: None,
            },
        )
        .unwrap_err();
    assert_eq!(err.errcode(), SR_ERR_TIME_OUT);
}

#[test]
fn changes_iterator_open_and_free() {
    let mut engine = Engine::new();
    let (_conn, sess) = setup(&mut engine);
    let changes = sess
        .get_changes_iter(&mut engine, "//.", SR_ERR_OK, 77)
        .unwrap();
    assert_eq!(changes.iter_id, 77);
    assert_eq!(engine.ctx.acquires, 1);
    assert_eq!(engine.ctx.releases, 1);
    changes.free(&mut engine);
    assert_eq!(engine.frees.iter_frees, 1);

    let err = sess
        .get_changes_iter(&mut engine, "//.", SR_ERR_INTERNAL, 0)
        .unwrap_err();
    assert_eq!(err.errcode(), SR_ERR_INTERNAL);
    let err = sess
        .get_changes_iter(&mut engine, "/\0/", SR_ERR_OK, 0)
        .unwrap_err();
    assert_eq!(err.errcode(), SR_ERR_INVAL_ARG);
}

#[test]
fn managed_data_into_raw_hands_ownership_out() {
    let mut engine = Engine::new();
    let (conn, sess) = setup(&mut engine);
    let data = sess
        .get_data(
            &mut engine,
            "/m:x",
            None,
            TimeSpan::zero(),
            sysrepo::GetOptions::empty(),
            FetchOutcome {
                status: SR_ERR_OK,
                tree: Some(TreeHandle {
                    tree_id: 5,
                    conn_id: conn.conn_id,
                }),
            },
        )
        .unwrap();
    let raw = data.into_raw();
    assert_eq!(raw, 5);
    // Ownership left the wrapper: nothing was released.
    assert_eq!(engine.frees.data_releases, 0);
}

#[test]
fn callback_scope_balances_even_on_error() {
    let mut engine = Engine::new();
    let (conn, _sess) = setup(&mut engine);

    let scope = callback_enter(&mut engine, conn.conn_id);
    assert_eq!(engine.ctx.read_locks, 1);
    let status = callback_exit(scope, &mut engine, &Ok(()));
    assert_eq!(status, SR_ERR_OK);
    assert_eq!(engine.ctx.read_locks, 0);

    let scope = callback_enter(&mut engine, conn.conn_id);
    let status = callback_exit(
        scope,
        &mut engine,
        &Err(Error::new(SR_ERR_VALIDATION_FAILED)),
    );
    assert_eq!(status, SR_ERR_VALIDATION_FAILED);
    assert_eq!(engine.ctx.read_locks, 0);
    assert_eq!(engine.ctx.acquires, engine.ctx.releases);
}

#[test]
fn dispatch_guards_and_decodes() {
    assert!(oper_get_guard(true, true).is_ok());
    assert!(matches!(oper_get_guard(false, true), Err(e) if e.errcode == SR_ERR_INTERNAL));
    assert!(matches!(oper_get_guard(true, false), Err(e) if e.errcode == SR_ERR_INTERNAL));
    assert_eq!(expect_event(1), Event::Change);
    assert_eq!(expect_event(5), Event::Rpc);
    assert_eq!(expect_notification_type(0), NotificationType::Realtime);
    assert_eq!(expect_notification_type(7), NotificationType::StopTime);
}

#[test]
fn status_conversions() {
    assert_eq!(status_to_result(SR_ERR_OK), Ok(()));
    assert!(matches!(status_to_result(SR_ERR_TIME_OUT), Err(e) if e.errcode == SR_ERR_TIME_OUT));
    assert_eq!(result_to_status(&Ok(())), SR_ERR_OK);
    assert_eq!(
        result_to_status(&Err(Error::new(SR_ERR_INTERNAL))),
        SR_ERR_INTERNAL
    );
}

#[test]
fn c_string_checks() {
    assert!(!str_has_nul(""));
    assert!(!str_has_nul("/examples:hello"));
    assert!(str_has_nul("\0"));
    assert!(str_has_nul("ab\0cd"));
    assert!(check_c_string("plain").is_ok());
    assert!(matches!(check_c_string("pla\0in"), Err(e) if e.errcode == SR_ERR_INVAL_ARG));
}

#[test]
fn string_equality_by_characters() {
    assert!(str_eq("", ""));
    assert!(str_eq("running", "running"));
    assert!(!str_eq("running", "runnin"));
    assert!(!str_eq("running", "runnixg"));
    assert!(str_eq("héllo", "héllo"));
    assert!(!str_eq("héllo", "hello"));
}
