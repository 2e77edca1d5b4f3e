//! Subscriptions: registered callbacks and their teardown.
//!
//! Registering a callback boxes its closure so the engine can invoke it
//! from its own dispatch threads; the closure's memory must therefore stay
//! valid until the registration is undone.  Several semantically related
//! registrations may be grouped under one [`Subscription`], which then
//! manages one unsubscribe lifecycle for all of them.  Unsubscribing is
//! defined by the engine to be retried until it reports success — and not
//! before that success may any boxed closure be freed.

use vstd::prelude::*;

use crate::conn::Connection;
use crate::engine::Engine;
use crate::error::Error;
use crate::error::SR_ERR_OK;
use crate::error::SR_ERR_INVAL_ARG;
use crate::flags::SubscriptionOptions;
use crate::session::Session;
use crate::strutil::spec_has_nul;
use crate::strutil::str_has_nul;
use crate::timeval::TimeSpan;

verus! {

/// A group of callback registrations with one unsubscribe lifecycle, tied
/// to the connection its sessions belong to.
///
/// [`Subscription::unsubscribe`] consumes the value, so the group is torn
/// down exactly once.
#[derive(Debug)]
pub struct Subscription {
    /// The connection the registrations belong to.
    pub conn_id: u64,
    /// Callbacks currently registered under this group; one boxed closure
    /// is alive for each.
    pub registrations: u64,
}

/// One successful callback registration: one more registration and one
/// more live boxed closure, nothing else moved.
pub open spec fn subscribe_ok_step(pre: Engine, post: Engine) -> bool {
    &&& post.live.registrations == pre.live.registrations + 1
    &&& post.live.closures == pre.live.closures + 1
    &&& post.live.connections == pre.live.connections
    &&& post.live.sessions == pre.live.sessions
    &&& post.next_id == pre.next_id
    &&& post.ctx == pre.ctx
    &&& post.frees == pre.frees
    &&& post.teardown == pre.teardown
}

/// One failed unsubscribe attempt: the attempt is counted, and nothing
/// else moves — in particular every registration and every boxed closure
/// stays exactly as it was.
pub open spec fn unsubscribe_fail_step(pre: Engine, post: Engine) -> bool {
    &&& post.teardown.unsubscribe_attempts == pre.teardown.unsubscribe_attempts + 1
    &&& post.teardown.disconnect_attempts == pre.teardown.disconnect_attempts
    &&& post.teardown.stop_attempts == pre.teardown.stop_attempts
    &&& post.live == pre.live
    &&& post.next_id == pre.next_id
    &&& post.ctx == pre.ctx
    &&& post.frees == pre.frees
    &&& post.wire == pre.wire
}

/// One successful unsubscribe of a group holding `registrations`
/// callbacks: the attempt is counted, the registrations end, and only now
/// are their boxed closures freed.
pub open spec fn unsubscribe_ok_step(pre: Engine, post: Engine, registrations: u64) -> bool {
    &&& pre.live.registrations >= registrations
    &&& pre.live.closures >= registrations
    &&& post.teardown.unsubscribe_attempts == pre.teardown.unsubscribe_attempts + 1
    &&& post.teardown.disconnect_attempts == pre.teardown.disconnect_attempts
    &&& post.teardown.stop_attempts == pre.teardown.stop_attempts
    &&& post.live.registrations == pre.live.registrations - registrations
    &&& post.live.closures == pre.live.closures - registrations
    &&& post.live.connections == pre.live.connections
    &&& post.live.sessions == pre.live.sessions
    &&& post.next_id == pre.next_id
    &&& post.ctx == pre.ctx
    &&& post.frees == pre.frees
    &&& post.wire == pre.wire
}

impl Subscription {
    /// An empty registration group on the given connection.
    pub fn new(conn: &Connection) -> (s: Subscription)
        ensures
            s.conn_id == conn.conn_id,
            s.registrations == 0,
    {
        Subscription { conn_id: conn.conn_id, registrations: 0 }
    }

    /// Makes one unsubscribe attempt on the whole group; `status` is the
    /// engine's answer.
    ///
    /// While the engine keeps failing, every registration and every boxed
    /// closure stays untouched ([`unsubscribe_fail_step`]); only the
    /// attempt that observes success ends the registrations and frees
    /// their closures ([`unsubscribe_ok_step`]).
    pub fn unsubscribe_attempt(&mut self, engine: &mut Engine, status: u32) -> (done: bool)
        requires
            old(engine).teardown.unsubscribe_attempts < u64::MAX,
            old(engine).live.registrations >= old(self).registrations,
            old(engine).live.closures >= old(self).registrations,
        ensures
            done <==> status == SR_ERR_OK,
            !done ==> *final(self) == *old(self) && unsubscribe_fail_step(
                *old(engine),
                *final(engine),
            ),
            done ==> unsubscribe_ok_step(*old(engine), *final(engine), old(self).registrations)
                && final(self).registrations == 0 && final(self).conn_id == old(self).conn_id,
    {
        engine.teardown.unsubscribe_attempts = engine.teardown.unsubscribe_attempts + 1;
        if status != SR_ERR_OK {
            false
        } else {
            engine.live.registrations = engine.live.registrations - self.registrations;
            engine.live.closures = engine.live.closures - self.registrations;
            self.registrations = 0;
            true
        }
    }

    /// Tears the group down, retrying until the engine reports success, as
    /// the engine's teardown contract demands.
    ///
    /// `statuses` scripts the engine's successive answers; the call makes
    /// exactly one attempt per answer up to and including the first
    /// success, keeps every boxed closure alive through all the failed
    /// attempts, and frees them only with the succeeding one.
    #[verifier::loop_isolation(false)]
    pub fn unsubscribe(self, engine: &mut Engine, statuses: &Vec<u32>) -> (attempts: usize)
        requires
            exists|k: int| 0 <= k < statuses@.len() && statuses@[k] == SR_ERR_OK,
            old(engine).teardown.unsubscribe_attempts + statuses@.len() <= u64::MAX,
            old(engine).live.registrations >= self.registrations,
            old(engine).live.closures >= self.registrations,
        ensures
            1 <= attempts <= statuses@.len(),
            statuses@[attempts - 1] == SR_ERR_OK,
            forall|j: int| 0 <= j < attempts - 1 ==> statuses@[j] != SR_ERR_OK,
            final(engine).teardown.unsubscribe_attempts == old(engine).teardown.unsubscribe_attempts + attempts,
            final(engine).teardown.disconnect_attempts == old(engine).teardown.disconnect_attempts,
            final(engine).teardown.stop_attempts == old(engine).teardown.stop_attempts,
            final(engine).live.registrations == old(engine).live.registrations
                - self.registrations,
            final(engine).live.closures == old(engine).live.closures - self.registrations,
            final(engine).live.connections == old(engine).live.connections,
            final(engine).live.sessions == old(engine).live.sessions,
            final(engine).next_id == old(engine).next_id,
            final(engine).ctx == old(engine).ctx,
            final(engine).frees == old(engine).frees,
            final(engine).wire == old(engine).wire,
    {
        let ghost e0 = *engine;
        let mut sub = self;
        let ghost regs = sub.registrations;
        let n: usize = statuses.len();
        let mut i: usize = 0;
        loop
            invariant
                n == statuses@.len(),
                0 <= i < n,
                forall|j: int| 0 <= j < i ==> statuses@[j] != SR_ERR_OK,
                exists|k: int| i <= k < statuses@.len() && statuses@[k] == SR_ERR_OK,
                sub.registrations == regs,
                engine.teardown.unsubscribe_attempts == e0.teardown.unsubscribe_attempts + i,
                engine.teardown.disconnect_attempts == e0.teardown.disconnect_attempts,
                engine.teardown.stop_attempts == e0.teardown.stop_attempts,
                engine.live == e0.live,
                engine.next_id == e0.next_id,
                engine.ctx == e0.ctx,
                engine.frees == e0.frees,
                engine.wire == e0.wire,
            decreases statuses@.len() - i,
        {
            let status = statuses[i];
            let done = sub.unsubscribe_attempt(engine, status);
            if done {
                return i + 1;
            }
            i = i + 1;
            assert(i < statuses@.len()) by {
                let k = choose|k: int| i - 1 <= k < statuses@.len() && statuses@[k] == SR_ERR_OK;
                assert(statuses@[k] == SR_ERR_OK);
                assert(k >= i);
            }
        }
    }
}

/// However long the engine keeps failing, a failed unsubscribe attempt
/// frees no closure and ends no registration: the engine may still invoke
/// any of them, and their memory stays valid.
pub proof fn lemma_failed_unsubscribe_keeps_closures(e0: Engine, e1: Engine)
    requires
        unsubscribe_fail_step(e0, e1),
    ensures
        e1.live.closures == e0.live.closures,
        e1.live.registrations == e0.live.registrations,
        e1.teardown.unsubscribe_attempts == e0.teardown.unsubscribe_attempts + 1,
{
}

/// A successful unsubscribe of a group ends exactly the group's own
/// registrations and frees exactly their closures, no more and no fewer.
pub proof fn lemma_unsubscribe_frees_exactly_group(e0: Engine, e1: Engine, registrations: u64)
    requires
        unsubscribe_ok_step(e0, e1, registrations),
    ensures
        e1.live.closures + registrations == e0.live.closures,
        e1.live.registrations + registrations == e0.live.registrations,
{
}

impl Session {
    /// Registers a callback for staged changes of one module; `status` is
    /// the engine's answer.  The callback is invoked when edits affecting
    /// the module are about to apply, have applied, or are aborted.
    ///
    /// Fails with invalid-argument before reaching the engine when the
    /// module name or a given filter cannot cross the C boundary; on the
    /// engine's failure nothing is registered and no closure is kept.
    /// Success adds one registration — and its boxed closure — to the
    /// group.
    pub fn add_module_change_subscription(
        &self,
        engine: &mut Engine,
        subscription: &mut Subscription,
        mod_name: &str,
        xpath: Option<&str>,
        priority: u32,
        options: SubscriptionOptions,
        status: u32,
    ) -> (r: Result<(), Error>)
        requires
            old(subscription).conn_id == self.conn_id,
            old(subscription).registrations < u64::MAX,
            old(engine).live.registrations < u64::MAX,
            old(engine).live.closures < u64::MAX,
        ensures
            final(subscription).conn_id == old(subscription).conn_id,
            (spec_has_nul(mod_name@) || (xpath matches Some(x) && spec_has_nul(x@))) ==> (
            r matches Err(e) && e.errcode == SR_ERR_INVAL_ARG && *final(engine) == *old(engine)
                && *final(subscription) == *old(subscription)),
            !(spec_has_nul(mod_name@) || (xpath matches Some(x) && spec_has_nul(x@))) ==> {
                &&& final(engine).wire.subscribe_options == options.spec_bits()
                &&& final(engine).wire.connect_options == old(engine).wire.connect_options
                &&& final(engine).wire.get_options == old(engine).wire.get_options
                &&& final(engine).wire.edit_options == old(engine).wire.edit_options
                &&& final(engine).wire.timeout_ms == old(engine).wire.timeout_ms
                &&& final(engine).wire.wait_flag == old(engine).wire.wait_flag
                &&& final(engine).wire.max_depth == old(engine).wire.max_depth
                &&& (r is Ok <==> status == SR_ERR_OK)
                &&& (r is Ok ==> subscribe_ok_step(*old(engine), *final(engine)) && final(subscription).registrations == old(subscription).registrations + 1)
                &&& (r matches Err(e) ==> e.errcode == status && final(engine).live == old(engine).live && final(engine).ctx == old(engine).ctx && final(engine).frees == old(engine).frees && final(engine).teardown == old(engine).teardown && final(engine).next_id == old(engine).next_id && *final(subscription) == *old(subscription))
            },
    {
        if str_has_nul(mod_name) {
            return Err(Error { errcode: SR_ERR_INVAL_ARG });
        }
        match xpath {
            Option::Some(x) => {
                if str_has_nul(x) {
                    return Err(Error { errcode: SR_ERR_INVAL_ARG });
                }
            },
            Option::None => {},
        }
        engine.wire.subscribe_options = options.bits();
        if status != SR_ERR_OK {
            Err(Error { errcode: status })
        } else {
            engine.live.registrations = engine.live.registrations + 1;
            engine.live.closures = engine.live.closures + 1;
            subscription.registrations = subscription.registrations + 1;
            Ok(())
        }
    }

    /// Registers a callback for staged changes of one module under a new
    /// group of its own; `status` is the engine's answer.  See
    /// [`Session::add_module_change_subscription`].
    pub fn new_module_change_subscription(
        &self,
        engine: &mut Engine,
        mod_name: &str,
        xpath: Option<&str>,
        priority: u32,
        options: SubscriptionOptions,
        status: u32,
    ) -> (r: Result<Subscription, Error>)
        requires
            old(engine).live.registrations < u64::MAX,
            old(engine).live.closures < u64::MAX,
        ensures
            (spec_has_nul(mod_name@) || (xpath matches Some(x) && spec_has_nul(x@))) ==> (
            r matches Err(e) && e.errcode == SR_ERR_INVAL_ARG && *final(engine) == *old(engine)),
            !(spec_has_nul(mod_name@) || (xpath matches Some(x) && spec_has_nul(x@))) ==> {
                &&& final(engine).wire.subscribe_options == options.spec_bits()
                &&& final(engine).wire.connect_options == old(engine).wire.connect_options
                &&& final(engine).wire.get_options == old(engine).wire.get_options
                &&& final(engine).wire.edit_options == old(engine).wire.edit_options
                &&& final(engine).wire.timeout_ms == old(engine).wire.timeout_ms
                &&& final(engine).wire.wait_flag == old(engine).wire.wait_flag
                &&& final(engine).wire.max_depth == old(engine).wire.max_depth
                &&& (r is Ok <==> status == SR_ERR_OK)
                &&& (r matches Ok(s) ==> subscribe_ok_step(*old(engine), *final(engine))
                    && s.conn_id == self.conn_id && s.registrations == 1)
                &&& (r matches Err(e) ==> e.errcode == status && final(engine).live == old(engine).live && final(engine).ctx == old(engine).ctx && final(engine).frees == old(engine).frees && final(engine).teardown == old(engine).teardown && final(engine).next_id == old(engine).next_id)
            },
    {
        let mut subscription = Subscription { conn_id: self.conn_id, registrations: 0 };
        match self.add_module_change_subscription(
            engine,
            &mut subscription,
            mod_name,
            xpath,
            priority,
            options,
            status,
        ) {
            Ok(()) => Ok(subscription),
            Err(e) => Err(e),
        }
    }

    /// Registers a callback handling the RPC rooted at an XPath; `status` is the engine's answer.
    ///
    /// Fails with invalid-argument before reaching the engine when one of
    /// its strings cannot cross the C boundary; on the engine's failure
    /// nothing is registered and no closure is kept.  Success adds one
    /// registration — and its boxed closure — to the group.
    pub fn add_rpc_subscription(
        &self,
        engine: &mut Engine,
        subscription: &mut Subscription,
        xpath: &str,
        priority: u32,
        options: SubscriptionOptions,
        status: u32,
    ) -> (r: Result<(), Error>)
        requires
            old(subscription).conn_id == self.conn_id,
            old(subscription).registrations < u64::MAX,
            old(engine).live.registrations < u64::MAX,
            old(engine).live.closures < u64::MAX,
        ensures
            final(subscription).conn_id == old(subscription).conn_id,
            (spec_has_nul(xpath@)) ==> (
            r matches Err(e) && e.errcode == SR_ERR_INVAL_ARG && *final(engine) == *old(engine)
                && *final(subscription) == *old(subscription)),
            !(spec_has_nul(xpath@)) ==> {
                &&& final(engine).wire.subscribe_options == options.spec_bits()
                &&& final(engine).wire.connect_options == old(engine).wire.connect_options
                &&& final(engine).wire.get_options == old(engine).wire.get_options
                &&& final(engine).wire.edit_options == old(engine).wire.edit_options
                &&& final(engine).wire.timeout_ms == old(engine).wire.timeout_ms
                &&& final(engine).wire.wait_flag == old(engine).wire.wait_flag
                &&& final(engine).wire.max_depth == old(engine).wire.max_depth
                &&& (r is Ok <==> status == SR_ERR_OK)
                &&& (r is Ok ==> subscribe_ok_step(*old(engine), *final(engine)) && final(subscription).registrations == old(subscription).registrations + 1)
                &&& (r matches Err(e) ==> e.errcode == status && final(engine).live == old(engine).live && final(engine).ctx == old(engine).ctx && final(engine).frees == old(engine).frees && final(engine).teardown == old(engine).teardown && final(engine).next_id == old(engine).next_id && *final(subscription) == *old(subscription))
            },
    {
        if str_has_nul(xpath) {
            return Err(Error { errcode: SR_ERR_INVAL_ARG });
        }
        engine.wire.subscribe_options = options.bits();
        if status != SR_ERR_OK {
            Err(Error { errcode: status })
        } else {
            engine.live.registrations = engine.live.registrations + 1;
            engine.live.closures = engine.live.closures + 1;
            subscription.registrations = subscription.registrations + 1;
            Ok(())
        }
    }

    /// Registers a callback handling the RPC rooted at an XPath; The registration goes under a new group of its own;
    /// `status` is the engine's answer.  See [`Session::add_rpc_subscription`].
    pub fn new_rpc_subscription(
        &self,
        engine: &mut Engine,
        xpath: &str,
        priority: u32,
        options: SubscriptionOptions,
        status: u32,
    ) -> (r: Result<Subscription, Error>)
        requires
            old(engine).live.registrations < u64::MAX,
            old(engine).live.closures < u64::MAX,
        ensures
            (spec_has_nul(xpath@)) ==> (
            r matches Err(e) && e.errcode == SR_ERR_INVAL_ARG && *final(engine) == *old(engine)),
            !(spec_has_nul(xpath@)) ==> {
                &&& final(engine).wire.subscribe_options == options.spec_bits()
                &&& final(engine).wire.connect_options == old(engine).wire.connect_options
                &&& final(engine).wire.get_options == old(engine).wire.get_options
                &&& final(engine).wire.edit_options == old(engine).wire.edit_options
                &&& final(engine).wire.timeout_ms == old(engine).wire.timeout_ms
                &&& final(engine).wire.wait_flag == old(engine).wire.wait_flag
                &&& final(engine).wire.max_depth == old(engine).wire.max_depth
                &&& (r is Ok <==> status == SR_ERR_OK)
                &&& (r matches Ok(s) ==> subscribe_ok_step(*old(engine), *final(engine))
                    && s.conn_id == self.conn_id && s.registrations == 1)
                &&& (r matches Err(e) ==> e.errcode == status && final(engine).live == old(engine).live && final(engine).ctx == old(engine).ctx && final(engine).frees == old(engine).frees && final(engine).teardown == old(engine).teardown && final(engine).next_id == old(engine).next_id)
            },
    {
        let mut subscription = Subscription { conn_id: self.conn_id, registrations: 0 };
        match self.add_rpc_subscription(
            engine,
            &mut subscription,
            xpath,
            priority,
            options,
            status,
        ) {
            Ok(()) => Ok(subscription),
            Err(e) => Err(e),
        }
    }

    /// Registers a callback that synthesizes operational data for one subtree of a module on demand; `status` is the engine's answer.
    ///
    /// Fails with invalid-argument before reaching the engine when one of
    /// its strings cannot cross the C boundary; on the engine's failure
    /// nothing is registered and no closure is kept.  Success adds one
    /// registration — and its boxed closure — to the group.
    pub fn add_operational_get_subscription(
        &self,
        engine: &mut Engine,
        subscription: &mut Subscription,
        mod_name: &str,
        path: &str,
        options: SubscriptionOptions,
        status: u32,
    ) -> (r: Result<(), Error>)
        requires
            old(subscription).conn_id == self.conn_id,
            old(subscription).registrations < u64::MAX,
            old(engine).live.registrations < u64::MAX,
            old(engine).live.closures < u64::MAX,
        ensures
            final(subscription).conn_id == old(subscription).conn_id,
            (spec_has_nul(mod_name@) || spec_has_nul(path@)) ==> (
            r matches Err(e) && e.errcode == SR_ERR_INVAL_ARG && *final(engine) == *old(engine)
                && *final(subscription) == *old(subscription)),
            !(spec_has_nul(mod_name@) || spec_has_nul(path@)) ==> {
                &&& final(engine).wire.subscribe_options == options.spec_bits()
                &&& final(engine).wire.connect_options == old(engine).wire.connect_options
                &&& final(engine).wire.get_options == old(engine).wire.get_options
                &&& final(engine).wire.edit_options == old(engine).wire.edit_options
                &&& final(engine).wire.timeout_ms == old(engine).wire.timeout_ms
                &&& final(engine).wire.wait_flag == old(engine).wire.wait_flag
                &&& final(engine).wire.max_depth == old(engine).wire.max_depth
                &&& (r is Ok <==> status == SR_ERR_OK)
                &&& (r is Ok ==> subscribe_ok_step(*old(engine), *final(engine)) && final(subscription).registrations == old(subscription).registrations + 1)
                &&& (r matches Err(e) ==> e.errcode == status && final(engine).live == old(engine).live && final(engine).ctx == old(engine).ctx && final(engine).frees == old(engine).frees && final(engine).teardown == old(engine).teardown && final(engine).next_id == old(engine).next_id && *final(subscription) == *old(subscription))
            },
    {
        if str_has_nul(mod_name) {
            return Err(Error { errcode: SR_ERR_INVAL_ARG });
        }
        if str_has_nul(path) {
            return Err(Error { errcode: SR_ERR_INVAL_ARG });
        }
        engine.wire.subscribe_options = options.bits();
        if status != SR_ERR_OK {
            Err(Error { errcode: status })
        } else {
            engine.live.registrations = engine.live.registrations + 1;
            engine.live.closures = engine.live.closures + 1;
            subscription.registrations = subscription.registrations + 1;
            Ok(())
        }
    }

    /// Registers a callback that synthesizes operational data for one subtree of a module on demand; The registration goes under a new group of its own;
    /// `status` is the engine's answer.  See [`Session::add_operational_get_subscription`].
    pub fn new_operational_get_subscription(
        &self,
        engine: &mut Engine,
        mod_name: &str,
        path: &str,
        options: SubscriptionOptions,
        status: u32,
    ) -> (r: Result<Subscription, Error>)
        requires
            old(engine).live.registrations < u64::MAX,
            old(engine).live.closures < u64::MAX,
        ensures
            (spec_has_nul(mod_name@) || spec_has_nul(path@)) ==> (
            r matches Err(e) && e.errcode == SR_ERR_INVAL_ARG && *final(engine) == *old(engine)),
            !(spec_has_nul(mod_name@) || spec_has_nul(path@)) ==> {
                &&& final(engine).wire.subscribe_options == options.spec_bits()
                &&& final(engine).wire.connect_options == old(engine).wire.connect_options
                &&& final(engine).wire.get_options == old(engine).wire.get_options
                &&& final(engine).wire.edit_options == old(engine).wire.edit_options
                &&& final(engine).wire.timeout_ms == old(engine).wire.timeout_ms
                &&& final(engine).wire.wait_flag == old(engine).wire.wait_flag
                &&& final(engine).wire.max_depth == old(engine).wire.max_depth
                &&& (r is Ok <==> status == SR_ERR_OK)
                &&& (r matches Ok(s) ==> subscribe_ok_step(*old(engine), *final(engine))
                    && s.conn_id == self.conn_id && s.registrations == 1)
                &&& (r matches Err(e) ==> e.errcode == status && final(engine).live == old(engine).live && final(engine).ctx == old(engine).ctx && final(engine).frees == old(engine).frees && final(engine).teardown == old(engine).teardown && final(engine).next_id == old(engine).next_id)
            },
    {
        let mut subscription = Subscription { conn_id: self.conn_id, registrations: 0 };
        match self.add_operational_get_subscription(
            engine,
            &mut subscription,
            mod_name,
            path,
            options,
            status,
        ) {
            Ok(()) => Ok(subscription),
            Err(e) => Err(e),
        }
    }

    /// Registers a callback for notifications of one module, optionally filtered and optionally replayed over a start/stop window; `status` is the engine's answer.
    ///
    /// Fails with invalid-argument before reaching the engine when one of
    /// its strings cannot cross the C boundary; on the engine's failure
    /// nothing is registered and no closure is kept.  Success adds one
    /// registration — and its boxed closure — to the group.
    pub fn add_notification_subscription(
        &self,
        engine: &mut Engine,
        subscription: &mut Subscription,
        mod_name: &str,
        xpath: Option<&str>,
        start_time: Option<TimeSpan>,
        stop_time: Option<TimeSpan>,
        options: SubscriptionOptions,
        status: u32,
    ) -> (r: Result<(), Error>)
        requires
            old(subscription).conn_id == self.conn_id,
            old(subscription).registrations < u64::MAX,
            old(engine).live.registrations < u64::MAX,
            old(engine).live.closures < u64::MAX,
        ensures
            final(subscription).conn_id == old(subscription).conn_id,
            (spec_has_nul(mod_name@) || (xpath matches Some(x) && spec_has_nul(x@))) ==> (
            r matches Err(e) && e.errcode == SR_ERR_INVAL_ARG && *final(engine) == *old(engine)
                && *final(subscription) == *old(subscription)),
            !(spec_has_nul(mod_name@) || (xpath matches Some(x) && spec_has_nul(x@))) ==> {
                &&& final(engine).wire.subscribe_options == options.spec_bits()
                &&& final(engine).wire.connect_options == old(engine).wire.connect_options
                &&& final(engine).wire.get_options == old(engine).wire.get_options
                &&& final(engine).wire.edit_options == old(engine).wire.edit_options
                &&& final(engine).wire.timeout_ms == old(engine).wire.timeout_ms
                &&& final(engine).wire.wait_flag == old(engine).wire.wait_flag
                &&& final(engine).wire.max_depth == old(engine).wire.max_depth
                &&& (r is Ok <==> status == SR_ERR_OK)
                &&& (r is Ok ==> subscribe_ok_step(*old(engine), *final(engine)) && final(subscription).registrations == old(subscription).registrations + 1)
                &&& (r matches Err(e) ==> e.errcode == status && final(engine).live == old(engine).live && final(engine).ctx == old(engine).ctx && final(engine).frees == old(engine).frees && final(engine).teardown == old(engine).teardown && final(engine).next_id == old(engine).next_id && *final(subscription) == *old(subscription))
            },
    {
        if str_has_nul(mod_name) {
            return Err(Error { errcode: SR_ERR_INVAL_ARG });
        }
        match xpath {
            Option::Some(x) => {
                if str_has_nul(x) {
                    return Err(Error { errcode: SR_ERR_INVAL_ARG });
                }
            },
            Option::None => {},
        }
        engine.wire.subscribe_options = options.bits();
        if status != SR_ERR_OK {
            Err(Error { errcode: status })
        } else {
            engine.live.registrations = engine.live.registrations + 1;
            engine.live.closures = engine.live.closures + 1;
            subscription.registrations = subscription.registrations + 1;
            Ok(())
        }
    }

    /// Registers a callback for notifications of one module, optionally filtered and optionally replayed over a start/stop window; The registration goes under a new group of its own;
    /// `status` is the engine's answer.  See [`Session::add_notification_subscription`].
    pub fn new_notification_subscription(
        &self,
        engine: &mut Engine,
        mod_name: &str,
        xpath: Option<&str>,
        start_time: Option<TimeSpan>,
        stop_time: Option<TimeSpan>,
        options: SubscriptionOptions,
        status: u32,
    ) -> (r: Result<Subscription, Error>)
        requires
            old(engine).live.registrations < u64::MAX,
            old(engine).live.closures < u64::MAX,
        ensures
            (spec_has_nul(mod_name@) || (xpath matches Some(x) && spec_has_nul(x@))) ==> (
            r matches Err(e) && e.errcode == SR_ERR_INVAL_ARG && *final(engine) == *old(engine)),
            !(spec_has_nul(mod_name@) || (xpath matches Some(x) && spec_has_nul(x@))) ==> {
                &&& final(engine).wire.subscribe_options == options.spec_bits()
                &&& final(engine).wire.connect_options == old(engine).wire.connect_options
                &&& final(engine).wire.get_options == old(engine).wire.get_options
                &&& final(engine).wire.edit_options == old(engine).wire.edit_options
                &&& final(engine).wire.timeout_ms == old(engine).wire.timeout_ms
                &&& final(engine).wire.wait_flag == old(engine).wire.wait_flag
                &&& final(engine).wire.max_depth == old(engine).wire.max_depth
                &&& (r is Ok <==> status == SR_ERR_OK)
                &&& (r matches Ok(s) ==> subscribe_ok_step(*old(engine), *final(engine))
                    && s.conn_id == self.conn_id && s.registrations == 1)
                &&& (r matches Err(e) ==> e.errcode == status && final(engine).live == old(engine).live && final(engine).ctx == old(engine).ctx && final(engine).frees == old(engine).frees && final(engine).teardown == old(engine).teardown && final(engine).next_id == old(engine).next_id)
            },
    {
        let mut subscription = Subscription { conn_id: self.conn_id, registrations: 0 };
        match self.add_notification_subscription(
            engine,
            &mut subscription,
            mod_name,
            xpath,
            start_time,
            stop_time,
            options,
            status,
        ) {
            Ok(()) => Ok(subscription),
            Err(e) => Err(e),
        }
    }
}

} // verus!
