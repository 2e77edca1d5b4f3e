//! Connections and the scoped schema-context read lock.
//!
//! A connection owns one process-level handle to the engine.  It is the
//! factory for sessions and for scoped read-locked views of the shared
//! schema context, and its teardown — disconnect — is defined by the
//! engine to be retried until it reports success.

use vstd::prelude::*;

use crate::engine::Engine;
use crate::engine::ctx_acquire_step;
use crate::engine::ctx_release_step;
use crate::error::Error;
use crate::error::SR_ERR_OK;
use crate::flags::ConnectionFlags;

verus! {

/// An owned process handle to the engine.
///
/// Exactly one disconnect belongs to each connection; [`Connection::disconnect`]
/// consumes the value, so a second teardown of the same handle cannot be
/// written.
#[derive(Debug)]
pub struct Connection {
    /// The handle's identity in the ledger.
    pub conn_id: u64,
}

/// A scoped read lock on the shared schema context, tied to the connection
/// it was acquired from.
///
/// The context is a multi-reader / single-writer resource: holding this
/// value holds one read lock, and [`AcquiredContext::release`] — the
/// scope-exit action — consumes the value, so the lock can be returned
/// only once and cannot be forgotten without consuming the value.
#[derive(Debug)]
pub struct AcquiredContext {
    /// The connection whose context is held.
    pub conn_id: u64,
}

impl Connection {
    /// Opens a connection with the given options, handing the engine the
    /// exact native option field; `status` is the engine's answer.
    ///
    /// Succeeds exactly when the engine reports success; any other status
    /// comes back as the error, with no live resource recorded.
    pub fn new(engine: &mut Engine, flags: ConnectionFlags, status: u32) -> (r: Result<
        Connection,
        Error,
    >)
        requires
            old(engine).next_id < u64::MAX,
            old(engine).live.connections < u64::MAX,
        ensures
            final(engine).wire.connect_options == flags.spec_bits(),
            final(engine).wire.get_options == old(engine).wire.get_options,
            final(engine).wire.edit_options == old(engine).wire.edit_options,
            final(engine).wire.subscribe_options == old(engine).wire.subscribe_options,
            final(engine).wire.timeout_ms == old(engine).wire.timeout_ms,
            final(engine).wire.wait_flag == old(engine).wire.wait_flag,
            final(engine).wire.max_depth == old(engine).wire.max_depth,
            final(engine).ctx == old(engine).ctx,
            final(engine).frees == old(engine).frees,
            final(engine).teardown == old(engine).teardown,
            r is Ok <==> status == SR_ERR_OK,
            r matches Ok(c) ==> c.conn_id == old(engine).next_id && final(engine).next_id == old(
                engine,
            ).next_id + 1 && final(engine).live.connections == old(engine).live.connections + 1,
            r matches Err(e) ==> e.errcode == status && final(engine).next_id == old(engine).next_id
                && final(engine).live == old(engine).live,
            final(engine).live.sessions == old(engine).live.sessions,
            final(engine).live.registrations == old(engine).live.registrations,
            final(engine).live.closures == old(engine).live.closures,
    {
        engine.wire.connect_options = flags.bits();
        if status != SR_ERR_OK {
            Err(Error { errcode: status })
        } else {
            let conn_id = engine.next_id;
            engine.next_id = engine.next_id + 1;
            engine.live.connections = engine.live.connections + 1;
            Ok(Connection { conn_id })
        }
    }

    /// Acquires a read lock on the shared schema context, or nothing while
    /// a writer holds it.
    ///
    /// On success the ledger moves by exactly one acquisition
    /// ([`ctx_acquire_step`]); when the context is write-locked, nothing
    /// moves at all.
    pub fn get_context(&self, engine: &mut Engine) -> (r: Option<AcquiredContext>)
        requires
            old(engine).ctx.read_locks < u64::MAX,
            old(engine).ctx.acquires < u64::MAX,
        ensures
            old(engine).ctx.write_locked ==> r is None && *final(engine) == *old(engine),
            !old(engine).ctx.write_locked ==> (r matches Some(c) && c.conn_id == self.conn_id
                && ctx_acquire_step(*old(engine), *final(engine))),
    {
        if engine.ctx.write_locked {
            Option::None
        } else {
            engine.ctx.read_locks = engine.ctx.read_locks + 1;
            engine.ctx.acquires = engine.ctx.acquires + 1;
            Option::Some(AcquiredContext { conn_id: self.conn_id })
        }
    }

    /// Closes the connection, retrying until the engine reports success, as
    /// the engine's teardown contract demands.
    ///
    /// `statuses` scripts the engine's successive answers; the call makes
    /// exactly one attempt per answer up to and including the first
    /// success, and only then gives the live connection back.
    #[verifier::loop_isolation(false)]
    pub fn disconnect(self, engine: &mut Engine, statuses: &Vec<u32>) -> (attempts: usize)
        requires
            exists|k: int| 0 <= k < statuses@.len() && statuses@[k] == SR_ERR_OK,
            old(engine).teardown.disconnect_attempts + statuses@.len() <= u64::MAX,
            old(engine).live.connections >= 1,
        ensures
            1 <= attempts <= statuses@.len(),
            statuses@[attempts - 1] == SR_ERR_OK,
            forall|j: int| 0 <= j < attempts - 1 ==> statuses@[j] != SR_ERR_OK,
            final(engine).teardown.disconnect_attempts == old(engine).teardown.disconnect_attempts
                + attempts,
            final(engine).teardown.stop_attempts == old(engine).teardown.stop_attempts,
            final(engine).teardown.unsubscribe_attempts == old(engine).teardown.unsubscribe_attempts,
            final(engine).live.connections == old(engine).live.connections - 1,
            final(engine).live.sessions == old(engine).live.sessions,
            final(engine).live.registrations == old(engine).live.registrations,
            final(engine).live.closures == old(engine).live.closures,
            final(engine).next_id == old(engine).next_id,
            final(engine).ctx == old(engine).ctx,
            final(engine).frees == old(engine).frees,
            final(engine).wire == old(engine).wire,
    {
        let ghost e0 = *engine;
        let n: usize = statuses.len();
        let mut i: usize = 0;
        loop
            invariant
                n == statuses@.len(),
                0 <= i < n,
                forall|j: int| 0 <= j < i ==> statuses@[j] != SR_ERR_OK,
                exists|k: int| i <= k < statuses@.len() && statuses@[k] == SR_ERR_OK,
                e0.teardown.disconnect_attempts + statuses@.len() <= u64::MAX,
                e0.live.connections >= 1,
                engine.teardown.disconnect_attempts == e0.teardown.disconnect_attempts + i,
                engine.teardown.stop_attempts == e0.teardown.stop_attempts,
                engine.teardown.unsubscribe_attempts == e0.teardown.unsubscribe_attempts,
                engine.live == e0.live,
                engine.next_id == e0.next_id,
                engine.ctx == e0.ctx,
                engine.frees == e0.frees,
                engine.wire == e0.wire,
            decreases statuses@.len() - i,
        {
            let status = statuses[i];
            engine.teardown.disconnect_attempts = engine.teardown.disconnect_attempts + 1;
            if status == SR_ERR_OK {
                engine.live.connections = engine.live.connections - 1;
                return i + 1;
            }
            i = i + 1;
            assert(i < statuses@.len()) by {
                let k = choose|k: int|
                    i - 1 <= k < statuses@.len() && statuses@[k] == SR_ERR_OK;
                assert(statuses@[k] == SR_ERR_OK);
                assert(k >= i);
            }
        }
    }
}

impl AcquiredContext {
    /// Releases the read lock back to the engine — the scope-exit action.
    ///
    /// The ledger moves by exactly one release ([`ctx_release_step`]), so a
    /// writer blocked on this lock can proceed once every outstanding
    /// acquisition has been returned.
    pub fn release(self, engine: &mut Engine)
        requires
            old(engine).ctx.read_locks >= 1,
            old(engine).ctx.releases < u64::MAX,
        ensures
            ctx_release_step(*old(engine), *final(engine)),
    {
        engine.ctx.read_locks = engine.ctx.read_locks - 1;
        engine.ctx.releases = engine.ctx.releases + 1;
    }
}

} // verus!
