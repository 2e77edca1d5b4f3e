use sysrepo::ConnectionFlags;
use sysrepo::EditOptions;
use sysrepo::Engine;
use sysrepo::GetOptions;
use sysrepo::SubscriptionOptions;

#[test]
fn connection_flag_bits() {
    assert_eq!(ConnectionFlags::empty().bits(), 0);
    assert_eq!(ConnectionFlags::default(), ConnectionFlags::empty());
    let f = ConnectionFlags {
        cache_running: true,
        set_priv_parsed: true,
    };
    assert_eq!(f.bits(), 3);
}

#[test]
fn get_option_bits() {
    assert_eq!(GetOptions::empty().bits(), 0);
    assert_eq!(GetOptions::default(), GetOptions::empty());
    let f = GetOptions {
        no_state: true,
        no_config: false,
        no_subs: true,
        no_stored: false,
        with_origin: true,
        no_poll_cached: false,
        no_run_cached: false,
        no_filter: false,
    };
    assert_eq!(f.bits(), 1 + 4 + 16);
    let f = GetOptions {
        no_filter: true,
        ..GetOptions::empty()
    };
    assert_eq!(f.bits(), 0x010000);
}

#[test]
fn edit_option_bits() {
    assert_eq!(EditOptions::empty().bits(), 0);
    assert_eq!(EditOptions::default(), EditOptions::empty());
    let f = EditOptions {
        non_recursive: true,
        strict: false,
        isolate: true,
    };
    assert_eq!(f.bits(), 5);
}

#[test]
fn subscription_option_bits() {
    assert_eq!(SubscriptionOptions::empty().bits(), 0);
    assert_eq!(SubscriptionOptions::default(), SubscriptionOptions::empty());
    let f = SubscriptionOptions {
        no_thread: true,
        done_only: true,
        enabled: true,
        change_all_modules: true,
        ..SubscriptionOptions::empty()
    };
    assert_eq!(f.bits(), 1 + 4 + 8 + 512);
}

#[test]
fn fresh_engine_ledger_is_empty() {
    let e = Engine::new();
    assert_eq!(e.next_id, 0);
    assert_eq!(e.ctx.read_locks, 0);
    assert_eq!(e.ctx.acquires, 0);
    assert_eq!(e.ctx.releases, 0);
    assert!(!e.ctx.write_locked);
    assert_eq!(e.frees.data_releases, 0);
    assert_eq!(e.frees.value_frees, 0);
    assert_eq!(e.frees.iter_frees, 0);
    assert_eq!(e.teardown.disconnect_attempts, 0);
    assert_eq!(e.teardown.stop_attempts, 0);
    assert_eq!(e.teardown.unsubscribe_attempts, 0);
    assert_eq!(e.live.connections, 0);
    assert_eq!(e.live.sessions, 0);
    assert_eq!(e.live.registrations, 0);
    assert_eq!(e.live.closures, 0);
}
