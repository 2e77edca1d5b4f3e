use sysrepo::Datastore;
use sysrepo::Event;
use sysrepo::LogLevel;
use sysrepo::NotificationType;

#[test]
fn datastore_codes_round_trip() {
    let all = [
        Datastore::Startup,
        Datastore::Running,
        Datastore::Candidate,
        Datastore::Operational,
        Datastore::FactoryDefault,
    ];
    for ds in all {
        let code = ds.code();
        assert_eq!(Datastore::try_from_code(code), Ok(ds));
    }
}

#[test]
fn datastore_code_values() {
    assert_eq!(Datastore::Startup.code(), 0);
    assert_eq!(Datastore::Running.code(), 1);
    assert_eq!(Datastore::Candidate.code(), 2);
    assert_eq!(Datastore::Operational.code(), 3);
    assert_eq!(Datastore::FactoryDefault.code(), 4);
}

#[test]
fn datastore_invalid_code_is_rejected() {
    assert!(Datastore::try_from_code(5).is_err());
    assert!(Datastore::try_from_code(u32::MAX).is_err());
}

#[test]
fn datastore_names_round_trip() {
    let all = [
        Datastore::Startup,
        Datastore::Running,
        Datastore::Candidate,
        Datastore::Operational,
        Datastore::FactoryDefault,
    ];
    for ds in all {
        let name = sysrepo::datastore_to_str(&ds);
        assert_eq!(sysrepo::str_to_datastore(name), Ok(ds));
    }
    assert_eq!(sysrepo::datastore_to_str(&Datastore::Running), "running");
    assert_eq!(sysrepo::str_to_datastore("startup"), Ok(Datastore::Startup));
    assert_eq!(sysrepo::str_to_datastore("nonesuch"), Err(()));
    assert_eq!(sysrepo::str_to_datastore(""), Err(()));
}

#[test]
fn event_codes_round_trip() {
    let all = [
        Event::Update,
        Event::Change,
        Event::Done,
        Event::Abort,
        Event::Enabled,
        Event::Rpc,
    ];
    for ev in all {
        assert_eq!(Event::try_from_code(ev.code()), Ok(ev));
    }
    assert!(Event::try_from_code(6).is_err());
}

#[test]
fn event_names() {
    assert_eq!(Event::Update.name(), "Update");
    assert_eq!(Event::Change.name(), "Change");
    assert_eq!(Event::Done.name(), "Done");
    assert_eq!(Event::Abort.name(), "Abort");
    assert_eq!(Event::Enabled.name(), "Enabled");
    assert_eq!(Event::Rpc.name(), "RPC");
}

#[test]
fn notification_type_codes_round_trip() {
    let all = [
        NotificationType::Realtime,
        NotificationType::Replay,
        NotificationType::ReplayComplete,
        NotificationType::Terminated,
        NotificationType::Modified,
        NotificationType::Suspended,
        NotificationType::Resumed,
        NotificationType::StopTime,
    ];
    for nt in all {
        assert_eq!(NotificationType::try_from_code(nt.code()), Ok(nt));
    }
    assert!(NotificationType::try_from_code(8).is_err());
}

#[test]
fn log_level_codes() {
    assert_eq!(LogLevel::Off.code(), 0);
    assert_eq!(LogLevel::Error.code(), 1);
    assert_eq!(LogLevel::Warn.code(), 2);
    assert_eq!(LogLevel::Info.code(), 3);
    assert_eq!(LogLevel::Debug.code(), 4);
}

#[test]
fn sigint_decision() {
    assert!(!sysrepo::is_sigint_caught(0));
    assert!(sysrepo::is_sigint_caught(1));
    assert!(sysrepo::is_sigint_caught(17));
}
