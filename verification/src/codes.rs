//! The engine's small enumerations and their native codes.
//!
//! The engine hands every enumeration across the C boundary as an unsigned
//! integer.  Each type here gives the exact two-way mapping: `code` is total,
//! and `try_from_code` accepts exactly the codes the engine defines —
//! anything else is a conversion failure, never silently coerced.

use vstd::prelude::*;

verus! {

/// Logging verbosity understood by the engine.
#[derive(Clone, Copy, Debug, PartialEq, Eq, Structural)]
pub enum LogLevel {
    /// No logging at all (the engine's "none" level).
    Off,
    Error,
    Warn,
    Info,
    Debug,
}

impl LogLevel {
    /// The native code of this level.
    pub fn code(&self) -> (c: u32)
        ensures
            c == match *self {
                LogLevel::Off => 0u32,
                LogLevel::Error => 1u32,
                LogLevel::Warn => 2u32,
                LogLevel::Info => 3u32,
                LogLevel::Debug => 4u32,
            },
    {
        match self {
            LogLevel::Off => 0,
            LogLevel::Error => 1,
            LogLevel::Warn => 2,
            LogLevel::Info => 3,
            LogLevel::Debug => 4,
        }
    }
}

/// One of the engine's named configuration datastores.
#[derive(Clone, Copy, Debug, PartialEq, Eq, Structural)]
pub enum Datastore {
    Startup,
    Running,
    Candidate,
    Operational,
    FactoryDefault,
}

/// The datastore selected by a native code, if the code is one the engine
/// defines.
pub open spec fn spec_datastore_of_code(t: u32) -> Option<Datastore> {
    if t == 0 {
        Some(Datastore::Startup)
    } else if t == 1 {
        Some(Datastore::Running)
    } else if t == 2 {
        Some(Datastore::Candidate)
    } else if t == 3 {
        Some(Datastore::Operational)
    } else if t == 4 {
        Some(Datastore::FactoryDefault)
    } else {
        None
    }
}

impl Datastore {
    /// The native code of this datastore.
    pub fn code(&self) -> (c: u32)
        ensures
            spec_datastore_of_code(c) == Some(*self),
            c == match *self {
                Datastore::Startup => 0u32,
                Datastore::Running => 1u32,
                Datastore::Candidate => 2u32,
                Datastore::Operational => 3u32,
                Datastore::FactoryDefault => 4u32,
            },
    {
        match self {
            Datastore::Startup => 0,
            Datastore::Running => 1,
            Datastore::Candidate => 2,
            Datastore::Operational => 3,
            Datastore::FactoryDefault => 4,
        }
    }

    /// Decodes a native datastore code; fails on every code the engine does
    /// not define.
    pub fn try_from_code(t: u32) -> (r: Result<Datastore, &'static str>)
        ensures
            r is Ok <==> spec_datastore_of_code(t) is Some,
            r is Ok ==> Some(r->Ok_0) == spec_datastore_of_code(t),
    {
        match t {
            0 => Ok(Datastore::Startup),
            1 => Ok(Datastore::Running),
            2 => Ok(Datastore::Candidate),
            3 => Ok(Datastore::Operational),
            4 => Ok(Datastore::FactoryDefault),
            _ => Err("Invalid Datastore"),
        }
    }
}

/// The phase of a change/RPC callback invocation.
#[derive(Clone, Copy, Debug, PartialEq, Eq, Structural)]
pub enum Event {
    Update,
    Change,
    Done,
    Abort,
    Enabled,
    Rpc,
}

/// The event selected by a native code, if the code is one the engine
/// defines.
pub open spec fn spec_event_of_code(t: u32) -> Option<Event> {
    if t == 0 {
        Some(Event::Update)
    } else if t == 1 {
        Some(Event::Change)
    } else if t == 2 {
        Some(Event::Done)
    } else if t == 3 {
        Some(Event::Abort)
    } else if t == 4 {
        Some(Event::Enabled)
    } else if t == 5 {
        Some(Event::Rpc)
    } else {
        None
    }
}

impl Event {
    /// The native code of this event.
    pub fn code(&self) -> (c: u32)
        ensures
            spec_event_of_code(c) == Some(*self),
    {
        match self {
            Event::Update => 0,
            Event::Change => 1,
            Event::Done => 2,
            Event::Abort => 3,
            Event::Enabled => 4,
            Event::Rpc => 5,
        }
    }

    /// Decodes a native event code; fails on every code the engine does not
    /// define.
    pub fn try_from_code(t: u32) -> (r: Result<Event, &'static str>)
        ensures
            r is Ok <==> spec_event_of_code(t) is Some,
            r is Ok ==> Some(r->Ok_0) == spec_event_of_code(t),
    {
        match t {
            0 => Ok(Event::Update),
            1 => Ok(Event::Change),
            2 => Ok(Event::Done),
            3 => Ok(Event::Abort),
            4 => Ok(Event::Enabled),
            5 => Ok(Event::Rpc),
            _ => Err("Invalid Event"),
        }
    }

    /// A human-readable name for the event.
    pub fn name(&self) -> (s: &'static str)
        ensures
            s@ == match *self {
                Event::Update => "Update"@,
                Event::Change => "Change"@,
                Event::Done => "Done"@,
                Event::Abort => "Abort"@,
                Event::Enabled => "Enabled"@,
                Event::Rpc => "RPC"@,
            },
    {
        match self {
            Event::Update => "Update",
            Event::Change => "Change",
            Event::Done => "Done",
            Event::Abort => "Abort",
            Event::Enabled => "Enabled",
            Event::Rpc => "RPC",
        }
    }
}

/// The kind of a delivered notification.
#[derive(Clone, Copy, Debug, PartialEq, Eq, Structural)]
pub enum NotificationType {
    Realtime,
    Replay,
    ReplayComplete,
    Terminated,
    Modified,
    Suspended,
    Resumed,
    StopTime,
}

/// The notification kind selected by a native code, if the code is one the
/// engine defines.
pub open spec fn spec_notification_type_of_code(t: u32) -> Option<NotificationType> {
    if t == 0 {
        Some(NotificationType::Realtime)
    } else if t == 1 {
        Some(NotificationType::Replay)
    } else if t == 2 {
        Some(NotificationType::ReplayComplete)
    } else if t == 3 {
        Some(NotificationType::Terminated)
    } else if t == 4 {
        Some(NotificationType::Modified)
    } else if t == 5 {
        Some(NotificationType::Suspended)
    } else if t == 6 {
        Some(NotificationType::Resumed)
    } else if t == 7 {
        Some(NotificationType::StopTime)
    } else {
        None
    }
}

impl NotificationType {
    /// The native code of this notification kind.
    pub fn code(&self) -> (c: u32)
        ensures
            spec_notification_type_of_code(c) == Some(*self),
    {
        match self {
            NotificationType::Realtime => 0,
            NotificationType::Replay => 1,
            NotificationType::ReplayComplete => 2,
            NotificationType::Terminated => 3,
            NotificationType::Modified => 4,
            NotificationType::Suspended => 5,
            NotificationType::Resumed => 6,
            NotificationType::StopTime => 7,
        }
    }

    /// Decodes a native notification-kind code; fails on every code the
    /// engine does not define.
    pub fn try_from_code(t: u32) -> (r: Result<NotificationType, &'static str>)
        ensures
            r is Ok <==> spec_notification_type_of_code(t) is Some,
            r is Ok ==> Some(r->Ok_0) == spec_notification_type_of_code(t),
    {
        match t {
            0 => Ok(NotificationType::Realtime),
            1 => Ok(NotificationType::Replay),
            2 => Ok(NotificationType::ReplayComplete),
            3 => Ok(NotificationType::Terminated),
            4 => Ok(NotificationType::Modified),
            5 => Ok(NotificationType::Suspended),
            6 => Ok(NotificationType::Resumed),
            7 => Ok(NotificationType::StopTime),
            _ => Err("Invalid NotificationType"),
        }
    }
}

/// The textual name of a datastore, as the command-line surface spells it.
pub open spec fn spec_datastore_name(d: Datastore) -> Seq<char> {
    match d {
        Datastore::Startup => "startup"@,
        Datastore::Running => "running"@,
        Datastore::Candidate => "candidate"@,
        Datastore::Operational => "operational"@,
        Datastore::FactoryDefault => "factory-default"@,
    }
}

/// The datastore a textual name selects, if any.
pub open spec fn spec_datastore_of_name(s: Seq<char>) -> Option<Datastore> {
    if s == "startup"@ {
        Some(Datastore::Startup)
    } else if s == "running"@ {
        Some(Datastore::Running)
    } else if s == "candidate"@ {
        Some(Datastore::Candidate)
    } else if s == "operational"@ {
        Some(Datastore::Operational)
    } else if s == "factory-default"@ {
        Some(Datastore::FactoryDefault)
    } else {
        None
    }
}

/// The textual name of a datastore.
pub fn datastore_to_str(ds: &Datastore) -> (s: &'static str)
    ensures
        s@ == spec_datastore_name(*ds),
{
    match ds {
        Datastore::Startup => "startup",
        Datastore::Running => "running",
        Datastore::Candidate => "candidate",
        Datastore::Operational => "operational",
        Datastore::FactoryDefault => "factory-default",
    }
}

/// Selects a datastore by its textual name; fails on every other string.
pub fn str_to_datastore(s: &str) -> (r: Result<Datastore, ()>)
    ensures
        r is Ok <==> spec_datastore_of_name(s@) is Some,
        r is Ok ==> Some(r->Ok_0) == spec_datastore_of_name(s@),
{
    if crate::strutil::str_eq(s, "startup") {
        Ok(Datastore::Startup)
    } else if crate::strutil::str_eq(s, "running") {
        Ok(Datastore::Running)
    } else if crate::strutil::str_eq(s, "candidate") {
        Ok(Datastore::Candidate)
    } else if crate::strutil::str_eq(s, "operational") {
        Ok(Datastore::Operational)
    } else if crate::strutil::str_eq(s, "factory-default") {
        Ok(Datastore::FactoryDefault)
    } else {
        Err(())
    }
}

/// Naming a datastore and reading the name back yields the same datastore:
/// the textual names are faithful and pairwise distinct.
pub proof fn lemma_datastore_name_round_trip(d: Datastore)
    ensures
        spec_datastore_of_name(spec_datastore_name(d)) == Some(d),
{
    reveal_strlit("startup");
    reveal_strlit("running");
    reveal_strlit("candidate");
    reveal_strlit("operational");
    reveal_strlit("factory-default");
    match d {
        Datastore::Startup => {},
        Datastore::Running => {
            assert("running"@[0] != "startup"@[0]);
        },
        Datastore::Candidate => {
            assert("candidate"@.len() != "startup"@.len());
            assert("candidate"@[0] != "running"@[0]);
        },
        Datastore::Operational => {
            assert("operational"@.len() != "startup"@.len());
            assert("operational"@.len() != "running"@.len());
            assert("operational"@[0] != "candidate"@[0]);
        },
        Datastore::FactoryDefault => {
            assert("factory-default"@.len() != "startup"@.len());
            assert("factory-default"@.len() != "running"@.len());
            assert("factory-default"@.len() != "candidate"@.len());
            assert("factory-default"@.len() != "operational"@.len());
        },
    }
}

/// A round trip through the native encoding reproduces any datastore: the
/// binding's datastore codes are faithful.
pub proof fn lemma_datastore_code_round_trip(d: Datastore, c: u32)
    requires
        spec_datastore_of_code(c) == Some(d),
    ensures
        c == match d {
            Datastore::Startup => 0u32,
            Datastore::Running => 1u32,
            Datastore::Candidate => 2u32,
            Datastore::Operational => 3u32,
            Datastore::FactoryDefault => 4u32,
        },
{
}

} // verus!
