//! An explicit ledger of everything the binding does to the native engine.
//!
//! The native engine lives behind a C boundary and manages its own memory:
//! connections, sessions, subscriptions, fetched data trees, change
//! iterators and a read/write-locked schema context.  The binding's whole
//! obligation is bookkeeping — acquire and release in balanced pairs, free
//! each owned resource exactly once, retry each teardown call until the
//! engine reports success, and hand every option and timeout field over
//! unchanged.
//!
//! [`Engine`] records that bookkeeping as plain counters, playing the role
//! of a release-counting stand-in for the engine: every library operation
//! takes the engine's scripted answer (a status code, a fetched tree) as an
//! argument and states in its contract exactly how the ledger moves.  What
//! holds of the ledger then holds of any engine driven the same way.

use vstd::prelude::*;

verus! {

/// The schema-context lock ledger: the context is a multi-reader /
/// single-writer resource, acquired for reading on demand and released on
/// scope exit.
#[derive(Clone, Copy, Debug, PartialEq, Eq, Structural)]
pub struct ContextLedger {
    /// Whether a writer currently holds the context, blocking read
    /// acquisition.
    pub write_locked: bool,
    /// Read locks currently outstanding.
    pub read_locks: u64,
    /// Successful read acquisitions, in total.
    pub acquires: u64,
    /// Read releases, in total.
    pub releases: u64,
}

/// Counts of each kind of release/free call handed to the engine.
#[derive(Clone, Copy, Debug, PartialEq, Eq, Structural)]
pub struct FreeLedger {
    /// Releases of fetched data results (owned trees).
    pub data_releases: u64,
    /// Frees of scalar value arrays.
    pub value_frees: u64,
    /// Frees of change iterators.
    pub iter_frees: u64,
}

/// Counts of teardown attempts: the engine defines disconnect, session
/// stop and unsubscribe as retried-until-success calls.
#[derive(Clone, Copy, Debug, PartialEq, Eq, Structural)]
pub struct TeardownLedger {
    /// Disconnect calls issued, including failed attempts.
    pub disconnect_attempts: u64,
    /// Session-stop calls issued, including failed attempts.
    pub stop_attempts: u64,
    /// Unsubscribe calls issued, including failed attempts.
    pub unsubscribe_attempts: u64,
}

/// Live foreign resources the binding currently owns.
#[derive(Clone, Copy, Debug, PartialEq, Eq, Structural)]
pub struct LiveLedger {
    /// Open connections.
    pub connections: u64,
    /// Started sessions.
    pub sessions: u64,
    /// Registered callbacks.
    pub registrations: u64,
    /// Boxed callback closures whose memory the engine may still touch.
    pub closures: u64,
}

/// The last values actually communicated to an engine call — what went
/// over the wire, as opposed to what the caller handed the binding.
#[derive(Clone, Copy, Debug, PartialEq, Eq, Structural)]
pub struct WireLedger {
    /// The option field of the last connect.
    pub connect_options: u32,
    /// The option field of the last data fetch.
    pub get_options: u32,
    /// The option field of the last staged edit.
    pub edit_options: u32,
    /// The option field of the last subscription registration.
    pub subscribe_options: u32,
    /// The millisecond timeout field of the last timed call.
    pub timeout_ms: u32,
    /// The wait flag of the last notification send.
    pub wait_flag: bool,
    /// The depth limit of the last data fetch (zero means unlimited).
    pub max_depth: u32,
}

/// The complete ledger.
#[derive(Clone, Copy, Debug, PartialEq, Eq, Structural)]
pub struct Engine {
    /// Source of fresh handle identities.
    pub next_id: u64,
    /// Schema-context locking.
    pub ctx: ContextLedger,
    /// Releases and frees.
    pub frees: FreeLedger,
    /// Teardown retries.
    pub teardown: TeardownLedger,
    /// Live resources.
    pub live: LiveLedger,
    /// Values handed over the wire.
    pub wire: WireLedger,
}

impl Engine {
    /// A fresh ledger: no locks, no live resources, nothing counted.
    pub fn new() -> (e: Engine)
        ensures
            e == Engine::spec_new(),
    {
        Engine {
            next_id: 0,
            ctx: ContextLedger { write_locked: false, read_locks: 0, acquires: 0, releases: 0 },
            frees: FreeLedger { data_releases: 0, value_frees: 0, iter_frees: 0 },
            teardown: TeardownLedger {
                disconnect_attempts: 0,
                stop_attempts: 0,
                unsubscribe_attempts: 0,
            },
            live: LiveLedger { connections: 0, sessions: 0, registrations: 0, closures: 0 },
            wire: WireLedger {
                connect_options: 0,
                get_options: 0,
                edit_options: 0,
                subscribe_options: 0,
                timeout_ms: 0,
                wait_flag: false,
                max_depth: 0,
            },
        }
    }

    /// The fresh ledger, as a value.
    pub open spec fn spec_new() -> Engine {
        Engine {
            next_id: 0,
            ctx: ContextLedger { write_locked: false, read_locks: 0, acquires: 0, releases: 0 },
            frees: FreeLedger { data_releases: 0, value_frees: 0, iter_frees: 0 },
            teardown: TeardownLedger {
                disconnect_attempts: 0,
                stop_attempts: 0,
                unsubscribe_attempts: 0,
            },
            live: LiveLedger { connections: 0, sessions: 0, registrations: 0, closures: 0 },
            wire: WireLedger {
                connect_options: 0,
                get_options: 0,
                edit_options: 0,
                subscribe_options: 0,
                timeout_ms: 0,
                wait_flag: false,
                max_depth: 0,
            },
        }
    }
}

/// One successful read acquisition of the schema context: possible only
/// while no writer holds it, it raises the outstanding read-lock count and
/// the acquisition total by one and moves nothing else.
pub open spec fn ctx_acquire_step(pre: Engine, post: Engine) -> bool {
    &&& !pre.ctx.write_locked
    &&& post.ctx.write_locked == pre.ctx.write_locked
    &&& post.ctx.read_locks == pre.ctx.read_locks + 1
    &&& post.ctx.acquires == pre.ctx.acquires + 1
    &&& post.ctx.releases == pre.ctx.releases
    &&& post.next_id == pre.next_id
    &&& post.frees == pre.frees
    &&& post.teardown == pre.teardown
    &&& post.live == pre.live
    &&& post.wire == pre.wire
}

/// One read release of the schema context: it lowers the outstanding
/// read-lock count by one, raises the release total by one and moves
/// nothing else.
pub open spec fn ctx_release_step(pre: Engine, post: Engine) -> bool {
    &&& pre.ctx.read_locks >= 1
    &&& post.ctx.write_locked == pre.ctx.write_locked
    &&& post.ctx.read_locks == pre.ctx.read_locks - 1
    &&& post.ctx.acquires == pre.ctx.acquires
    &&& post.ctx.releases == pre.ctx.releases + 1
    &&& post.next_id == pre.next_id
    &&& post.frees == pre.frees
    &&& post.teardown == pre.teardown
    &&& post.live == pre.live
    &&& post.wire == pre.wire
}

/// A balanced peek at the schema context: an acquisition immediately
/// followed by its release, as performed when wrapping a fetched result
/// whose own read lock keeps the context pointer valid.  Both totals rise
/// by one; the outstanding count is unchanged.
pub open spec fn ctx_peek_step(pre: ContextLedger, post: ContextLedger) -> bool {
    &&& post.write_locked == pre.write_locked
    &&& post.read_locks == pre.read_locks
    &&& post.acquires == pre.acquires + 1
    &&& post.releases == pre.releases + 1
}

/// Acquire and release pair up one to one: a read acquisition followed by
/// a read release leaves the outstanding lock count exactly where it
/// began, with one more acquisition and one more release on the books —
/// however the scope between them ended.
pub proof fn lemma_context_lock_balanced(e0: Engine, e1: Engine, e2: Engine)
    requires
        ctx_acquire_step(e0, e1),
        ctx_release_step(e1, e2),
    ensures
        e2.ctx.read_locks == e0.ctx.read_locks,
        e2.ctx.acquires == e0.ctx.acquires + 1,
        e2.ctx.releases == e0.ctx.releases + 1,
        e2.frees == e0.frees,
        e2.live == e0.live,
{
}

} // verus!
