//! Sessions: datastore-scoped interaction channels.
//!
//! A session is started on a connection against one chosen datastore and
//! carries every data operation: fetches, staged edits, commits, RPCs and
//! notification sends.  Each operation validates its strings for the C
//! boundary, hands the engine the exact option and timeout fields, and
//! turns the engine's status code into the binding's result convention.
//! Like its connection, a session's teardown is retried until the engine
//! reports success.

use vstd::prelude::*;

use crate::codes::Datastore;
use crate::conn::AcquiredContext;
use crate::conn::Connection;
use crate::data::FetchOutcome;
use crate::data::DataTreeRef;
use crate::data::ManagedData;
use crate::engine::Engine;
use crate::engine::ctx_acquire_step;
use crate::engine::ctx_peek_step;
use crate::error::Error;
use crate::error::SR_ERR_INTERNAL;
use crate::error::SR_ERR_INVAL_ARG;
use crate::error::SR_ERR_NOT_FOUND;
use crate::error::SR_ERR_OK;
use crate::flags::EditOptions;
use crate::flags::GetOptions;
use crate::strutil::spec_has_nul;
use crate::strutil::str_has_nul;
use crate::timeval::TimeSpan;
use crate::timeval::optional_timeout_to_engine;

verus! {

/// A started session, bound to its connection and to one datastore.
///
/// [`Session::stop`] consumes the value, so each session is stopped
/// exactly once.
#[derive(Debug)]
pub struct Session {
    /// The connection this session belongs to.
    pub conn_id: u64,
    /// The datastore the session is currently bound to.
    pub ds: Datastore,
}

impl Connection {
    /// Starts a session on this connection against the chosen datastore;
    /// `status` is the engine's answer.
    ///
    /// Succeeds exactly when the engine reports success; the new session
    /// is bound to this connection and to `ds`.
    pub fn start_session(&self, engine: &mut Engine, ds: Datastore, status: u32) -> (r: Result<
        Session,
        Error,
    >)
        requires
            old(engine).live.sessions < u64::MAX,
        ensures
            final(engine).ctx == old(engine).ctx,
            final(engine).frees == old(engine).frees,
            final(engine).teardown == old(engine).teardown,
            final(engine).wire == old(engine).wire,
            final(engine).next_id == old(engine).next_id,
            final(engine).live.connections == old(engine).live.connections,
            final(engine).live.registrations == old(engine).live.registrations,
            final(engine).live.closures == old(engine).live.closures,
            r is Ok <==> status == SR_ERR_OK,
            r matches Ok(s) ==> s.conn_id == self.conn_id && s.ds == ds && final(engine).live.sessions == old(engine).live.sessions + 1,
            r matches Err(e) ==> e.errcode == status && final(engine).live.sessions == old(engine).live.sessions,
    {
        if status != SR_ERR_OK {
            Err(Error { errcode: status })
        } else {
            engine.live.sessions = engine.live.sessions + 1;
            Ok(Session { conn_id: self.conn_id, ds })
        }
    }
}

impl Session {
    /// The datastore this session is bound to.
    pub fn datastore(&self) -> (d: Datastore)
        ensures
            d == self.ds,
    {
        self.ds
    }

    /// Rebinds the session to another datastore; `status` is the engine's
    /// answer.  The binding changes exactly when the engine agrees.
    pub fn switch_datastore(&mut self, datastore: Datastore, status: u32) -> (r: Result<(), Error>)
        ensures
            r is Ok <==> status == SR_ERR_OK,
            r is Ok ==> final(self).conn_id == old(self).conn_id && final(self).ds == datastore,
            r matches Err(e) ==> e.errcode == status && *final(self) == *old(self),
    {
        if status != SR_ERR_OK {
            Err(Error { errcode: status })
        } else {
            self.ds = datastore;
            Ok(())
        }
    }

    /// Acquires a read lock on the schema context through this session's
    /// connection, or nothing while a writer holds it.
    pub fn get_context(&self, engine: &mut Engine) -> (r: Option<AcquiredContext>)
        requires
            old(engine).ctx.read_locks < u64::MAX,
            old(engine).ctx.acquires < u64::MAX,
        ensures
            old(engine).ctx.write_locked ==> r is None && *final(engine) == *old(engine),
            !old(engine).ctx.write_locked ==> (r matches Some(c) && c.conn_id == self.conn_id
                && ctx_acquire_step(*old(engine), *final(engine))),
    {
        if engine.ctx.write_locked {
            Option::None
        } else {
            engine.ctx.read_locks = engine.ctx.read_locks + 1;
            engine.ctx.acquires = engine.ctx.acquires + 1;
            Option::Some(AcquiredContext { conn_id: self.conn_id })
        }
    }

    /// Fetches the subtree selected by an XPath filter; `outcome` is the
    /// engine's answer.
    ///
    /// The engine receives the depth limit (absent meaning unlimited,
    /// i.e. zero), the timeout in whole milliseconds and the exact option
    /// field.  The call fails with invalid-argument before reaching the
    /// engine when the filter cannot cross the C boundary; with the
    /// engine's own status when it reports failure; with not-found when it
    /// reports success but returns no tree; and with an internal error —
    /// releasing the tree exactly once — when the returned tree belongs to
    /// a different connection than this session's, which correct engine
    /// behaviour never produces.  Otherwise the caller owns the result.
    pub fn get_data(
        &self,
        engine: &mut Engine,
        xpath: &str,
        max_depth: Option<u32>,
        timeout: TimeSpan,
        options: GetOptions,
        outcome: FetchOutcome,
    ) -> (r: Result<ManagedData, Error>)
        requires
            old(engine).ctx.acquires < u64::MAX,
            old(engine).ctx.releases < u64::MAX,
            old(engine).frees.data_releases < u64::MAX,
        ensures
            final(engine).next_id == old(engine).next_id,
            final(engine).teardown == old(engine).teardown,
            final(engine).live == old(engine).live,
            final(engine).frees.value_frees == old(engine).frees.value_frees,
            final(engine).frees.iter_frees == old(engine).frees.iter_frees,
            spec_has_nul(xpath@) ==> (r matches Err(e) && e.errcode == SR_ERR_INVAL_ARG && *final(engine) == *old(engine)),
            !spec_has_nul(xpath@) ==> {
                &&& final(engine).wire.get_options == options.spec_bits()
                &&& final(engine).wire.timeout_ms == timeout.spec_total_millis() % 0x1_0000_0000
                &&& final(engine).wire.max_depth == (match max_depth {
                    Option::None => 0u32,
                    Option::Some(d) => d,
                })
                &&& final(engine).wire.connect_options == old(engine).wire.connect_options
                &&& final(engine).wire.edit_options == old(engine).wire.edit_options
                &&& final(engine).wire.subscribe_options == old(engine).wire.subscribe_options
                &&& final(engine).wire.wait_flag == old(engine).wire.wait_flag
            },
            !spec_has_nul(xpath@) && outcome.status != SR_ERR_OK ==> (r matches Err(e) && e.errcode
                == outcome.status && final(engine).ctx == old(engine).ctx && final(engine).frees.data_releases == old(engine).frees.data_releases),
            !spec_has_nul(xpath@) && outcome.status == SR_ERR_OK && outcome.tree is None ==> (
            r matches Err(e) && e.errcode == SR_ERR_NOT_FOUND && final(engine).ctx == old(engine).ctx && final(engine).frees.data_releases == old(engine).frees.data_releases),
            !spec_has_nul(xpath@) && outcome.status == SR_ERR_OK && outcome.tree is Some ==> ({
                let h = outcome.tree->0;
                &&& ctx_peek_step(old(engine).ctx, final(engine).ctx)
                &&& h.conn_id != self.conn_id ==> (r matches Err(e) && e.errcode
                    == SR_ERR_INTERNAL && final(engine).frees.data_releases == old(
                    engine,
                ).frees.data_releases + 1)
                &&& h.conn_id == self.conn_id ==> (r matches Ok(d) && d.tree_id == h.tree_id
                    && d.conn_id == h.conn_id && final(engine).frees.data_releases == old(
                    engine,
                ).frees.data_releases)
            }),
    {
        if str_has_nul(xpath) {
            return Err(Error { errcode: SR_ERR_INVAL_ARG });
        }
        engine.wire.max_depth = match max_depth {
            Option::None => 0,
            Option::Some(d) => d,
        };
        engine.wire.timeout_ms = timeout.to_engine_millis();
        engine.wire.get_options = options.bits();
        if outcome.status != SR_ERR_OK {
            return Err(Error { errcode: outcome.status });
        }
        match outcome.tree {
            Option::None => Err(Error { errcode: SR_ERR_NOT_FOUND }),
            Option::Some(h) => {
                engine.ctx.acquires = engine.ctx.acquires + 1;
                engine.ctx.releases = engine.ctx.releases + 1;
                if h.conn_id != self.conn_id {
                    engine.frees.data_releases = engine.frees.data_releases + 1;
                    Err(Error { errcode: SR_ERR_INTERNAL })
                } else {
                    Ok(ManagedData { tree_id: h.tree_id, conn_id: h.conn_id })
                }
            },
        }
    }

    /// Stages one scalar edit (it takes effect only on a later commit);
    /// `status` is the engine's answer.
    ///
    /// Fails with invalid-argument before reaching the engine when the
    /// path, the value or a given origin cannot cross the C boundary;
    /// otherwise the engine receives the exact option field and its status
    /// decides.
    pub fn set_item_str(
        &self,
        engine: &mut Engine,
        path: &str,
        value: &str,
        origin: Option<&str>,
        options: EditOptions,
        status: u32,
    ) -> (r: Result<(), Error>)
        ensures
            final(engine).next_id == old(engine).next_id,
            final(engine).ctx == old(engine).ctx,
            final(engine).frees == old(engine).frees,
            final(engine).teardown == old(engine).teardown,
            final(engine).live == old(engine).live,
            (spec_has_nul(path@) || spec_has_nul(value@) || (origin matches Some(o) && spec_has_nul(
                o@,
            ))) ==> (r matches Err(e) && e.errcode == SR_ERR_INVAL_ARG && *final(engine) == *old(engine)),
            !(spec_has_nul(path@) || spec_has_nul(value@) || (origin matches Some(o)
                && spec_has_nul(o@))) ==> {
                &&& final(engine).wire.edit_options == options.spec_bits()
                &&& final(engine).wire.connect_options == old(engine).wire.connect_options
                &&& final(engine).wire.get_options == old(engine).wire.get_options
                &&& final(engine).wire.subscribe_options == old(engine).wire.subscribe_options
                &&& final(engine).wire.timeout_ms == old(engine).wire.timeout_ms
                &&& final(engine).wire.wait_flag == old(engine).wire.wait_flag
                &&& final(engine).wire.max_depth == old(engine).wire.max_depth
                &&& (r is Ok <==> status == SR_ERR_OK)
                &&& (r matches Err(e) ==> e.errcode == status)
            },
    {
        if str_has_nul(path) {
            return Err(Error { errcode: SR_ERR_INVAL_ARG });
        }
        if str_has_nul(value) {
            return Err(Error { errcode: SR_ERR_INVAL_ARG });
        }
        match origin {
            Option::Some(orig) => {
                if str_has_nul(orig) {
                    return Err(Error { errcode: SR_ERR_INVAL_ARG });
                }
            },
            Option::None => {},
        }
        engine.wire.edit_options = options.bits();
        if status != SR_ERR_OK {
            Err(Error { errcode: status })
        } else {
            Ok(())
        }
    }

    /// Commits the staged edits; `status` is the engine's answer.  The
    /// engine receives the timeout in whole milliseconds — zero selects
    /// its internal default — and its status decides the result.
    pub fn apply_changes(&mut self, engine: &mut Engine, timeout: TimeSpan, status: u32) -> (r:
        Result<(), Error>)
        ensures
            *final(self) == *old(self),
            final(engine).next_id == old(engine).next_id,
            final(engine).ctx == old(engine).ctx,
            final(engine).frees == old(engine).frees,
            final(engine).teardown == old(engine).teardown,
            final(engine).live == old(engine).live,
            final(engine).wire.timeout_ms == timeout.spec_total_millis() % 0x1_0000_0000,
            final(engine).wire.connect_options == old(engine).wire.connect_options,
            final(engine).wire.get_options == old(engine).wire.get_options,
            final(engine).wire.edit_options == old(engine).wire.edit_options,
            final(engine).wire.subscribe_options == old(engine).wire.subscribe_options,
            final(engine).wire.wait_flag == old(engine).wire.wait_flag,
            final(engine).wire.max_depth == old(engine).wire.max_depth,
            r is Ok <==> status == SR_ERR_OK,
            r matches Err(e) ==> e.errcode == status,
    {
        engine.wire.timeout_ms = timeout.to_engine_millis();
        if status != SR_ERR_OK {
            Err(Error { errcode: status })
        } else {
            Ok(())
        }
    }

    /// Emits a notification tree; `status` is the engine's answer.
    ///
    /// Fails with invalid-argument before reaching the engine when the
    /// tree has no root node.  Otherwise the engine receives the timeout
    /// in whole milliseconds together with the wait flag — an absent
    /// timeout means "do not wait for the delivery acknowledgement", and
    /// communicates zero — and its status decides.
    pub fn notif_send(
        &mut self,
        engine: &mut Engine,
        notif: &DataTreeRef,
        timeout: Option<TimeSpan>,
        status: u32,
    ) -> (r: Result<(), Error>)
        ensures
            *final(self) == *old(self),
            final(engine).next_id == old(engine).next_id,
            final(engine).ctx == old(engine).ctx,
            final(engine).frees == old(engine).frees,
            final(engine).teardown == old(engine).teardown,
            final(engine).live == old(engine).live,
            notif.empty ==> (r matches Err(e) && e.errcode == SR_ERR_INVAL_ARG && *final(engine)
                == *old(engine)),
            !notif.empty ==> {
                &&& (timeout is None ==> final(engine).wire.timeout_ms == 0 && final(engine).wire.wait_flag == false)
                &&& (timeout matches Some(t) ==> final(engine).wire.timeout_ms
                    == t.spec_total_millis() % 0x1_0000_0000 && final(engine).wire.wait_flag
                    == true)
                &&& final(engine).wire.connect_options == old(engine).wire.connect_options
                &&& final(engine).wire.get_options == old(engine).wire.get_options
                &&& final(engine).wire.edit_options == old(engine).wire.edit_options
                &&& final(engine).wire.subscribe_options == old(engine).wire.subscribe_options
                &&& final(engine).wire.max_depth == old(engine).wire.max_depth
                &&& (r is Ok <==> status == SR_ERR_OK)
                &&& (r matches Err(e) ==> e.errcode == status)
            },
    {
        if notif.empty {
            return Err(Error { errcode: SR_ERR_INVAL_ARG });
        }
        let (ms, wait) = optional_timeout_to_engine(&timeout);
        engine.wire.timeout_ms = ms;
        engine.wire.wait_flag = wait;
        if status != SR_ERR_OK {
            Err(Error { errcode: status })
        } else {
            Ok(())
        }
    }

    /// Sends a fully built request tree and takes the engine's reply;
    /// `outcome` is the engine's answer.  The input tree's ownership
    /// passes to the engine with the call.
    ///
    /// The engine receives the timeout in whole milliseconds; on success —
    /// and the engine's contract is that success carries a reply tree —
    /// the caller owns the reply.
    pub fn rpc_send(
        &mut self,
        engine: &mut Engine,
        input: DataTreeRef,
        timeout: TimeSpan,
        outcome: FetchOutcome,
    ) -> (r: Result<ManagedData, Error>)
        requires
            old(engine).ctx.acquires < u64::MAX,
            old(engine).ctx.releases < u64::MAX,
            outcome.status == SR_ERR_OK ==> outcome.tree is Some,
        ensures
            *final(self) == *old(self),
            final(engine).next_id == old(engine).next_id,
            final(engine).frees == old(engine).frees,
            final(engine).teardown == old(engine).teardown,
            final(engine).live == old(engine).live,
            final(engine).wire.timeout_ms == timeout.spec_total_millis() % 0x1_0000_0000,
            final(engine).wire.connect_options == old(engine).wire.connect_options,
            final(engine).wire.get_options == old(engine).wire.get_options,
            final(engine).wire.edit_options == old(engine).wire.edit_options,
            final(engine).wire.subscribe_options == old(engine).wire.subscribe_options,
            final(engine).wire.wait_flag == old(engine).wire.wait_flag,
            final(engine).wire.max_depth == old(engine).wire.max_depth,
            r is Ok <==> outcome.status == SR_ERR_OK,
            r matches Err(e) ==> e.errcode == outcome.status && final(engine).ctx == old(engine).ctx,
            r matches Ok(d) ==> d.tree_id == outcome.tree->0.tree_id && d.conn_id
                == outcome.tree->0.conn_id && ctx_peek_step(old(engine).ctx, final(engine).ctx),
    {
        engine.wire.timeout_ms = timeout.to_engine_millis();
        if outcome.status != SR_ERR_OK {
            return Err(Error { errcode: outcome.status });
        }
        match outcome.tree {
            Option::None => {
                proof {
                    assert(false);
                }
                Err(Error { errcode: SR_ERR_INTERNAL })
            },
            Option::Some(h) => {
                engine.ctx.acquires = engine.ctx.acquires + 1;
                engine.ctx.releases = engine.ctx.releases + 1;
                Ok(ManagedData { tree_id: h.tree_id, conn_id: h.conn_id })
            },
        }
    }

    /// Stops the session, retrying until the engine reports success, as
    /// the engine's teardown contract demands.
    ///
    /// `statuses` scripts the engine's successive answers; the call makes
    /// exactly one attempt per answer up to and including the first
    /// success, and only then gives the live session back.
    #[verifier::loop_isolation(false)]
    pub fn stop(self, engine: &mut Engine, statuses: &Vec<u32>) -> (attempts: usize)
        requires
            exists|k: int| 0 <= k < statuses@.len() && statuses@[k] == SR_ERR_OK,
            old(engine).teardown.stop_attempts + statuses@.len() <= u64::MAX,
            old(engine).live.sessions >= 1,
        ensures
            1 <= attempts <= statuses@.len(),
            statuses@[attempts - 1] == SR_ERR_OK,
            forall|j: int| 0 <= j < attempts - 1 ==> statuses@[j] != SR_ERR_OK,
            final(engine).teardown.stop_attempts == old(engine).teardown.stop_attempts + attempts,
            final(engine).teardown.disconnect_attempts == old(engine).teardown.disconnect_attempts,
            final(engine).teardown.unsubscribe_attempts == old(engine).teardown.unsubscribe_attempts,
            final(engine).live.sessions == old(engine).live.sessions - 1,
            final(engine).live.connections == old(engine).live.connections,
            final(engine).live.registrations == old(engine).live.registrations,
            final(engine).live.closures == old(engine).live.closures,
            final(engine).next_id == old(engine).next_id,
            final(engine).ctx == old(engine).ctx,
            final(engine).frees == old(engine).frees,
            final(engine).wire == old(engine).wire,
    {
        let ghost e0 = *engine;
        let n: usize = statuses.len();
        let mut i: usize = 0;
        loop
            invariant
                n == statuses@.len(),
                0 <= i < n,
                forall|j: int| 0 <= j < i ==> statuses@[j] != SR_ERR_OK,
                exists|k: int| i <= k < statuses@.len() && statuses@[k] == SR_ERR_OK,
                engine.teardown.stop_attempts == e0.teardown.stop_attempts + i,
                engine.teardown.disconnect_attempts == e0.teardown.disconnect_attempts,
                engine.teardown.unsubscribe_attempts == e0.teardown.unsubscribe_attempts,
                engine.live == e0.live,
                engine.next_id == e0.next_id,
                engine.ctx == e0.ctx,
                engine.frees == e0.frees,
                engine.wire == e0.wire,
            decreases statuses@.len() - i,
        {
            let status = statuses[i];
            engine.teardown.stop_attempts = engine.teardown.stop_attempts + 1;
            if status == SR_ERR_OK {
                engine.live.sessions = engine.live.sessions - 1;
                return i + 1;
            }
            i = i + 1;
            assert(i < statuses@.len()) by {
                let k = choose|k: int| i - 1 <= k < statuses@.len() && statuses@[k] == SR_ERR_OK;
                assert(statuses@[k] == SR_ERR_OK);
                assert(k >= i);
            }
        }
    }
}

} // verus!
