//! The re-entry path: what a callback trampoline decides.
//!
//! The engine invokes registered callbacks on its own dispatch threads,
//! handing raw arguments back across the C boundary.  The trampoline
//! around each callback re-acquires the schema context (already held
//! readable by the engine for the duration of the delivery), reconstructs
//! typed non-owning values, decodes the foreign discriminants, invokes
//! the closure, releases the context again — on every path, error or not
//! — and translates the closure's result into the engine's status-code
//! convention.

use vstd::prelude::*;

use crate::codes::Event;
use crate::codes::NotificationType;
use crate::codes::spec_event_of_code;
use crate::codes::spec_notification_type_of_code;
use crate::engine::Engine;
use crate::engine::ctx_acquire_step;
use crate::engine::ctx_release_step;
use crate::error::Error;
use crate::error::SR_ERR_INTERNAL;
use crate::error::SR_ERR_OK;
use crate::error::result_to_status;

verus! {

/// The context scope a trampoline holds across one callback invocation.
///
/// [`CallbackScope::exit`] consumes the value, so the re-acquired read
/// lock is returned exactly once per invocation, on every path.
#[derive(Debug)]
pub struct CallbackScope {
    /// The connection whose context is held.
    pub conn_id: u64,
}

/// Enters a callback: re-acquires the schema context around the delivered
/// arguments.
///
/// The engine holds the context readable for as long as the delivery
/// runs, so no writer can hold it here and the acquisition cannot fail;
/// the ledger moves by exactly one acquisition.
pub fn callback_enter(engine: &mut Engine, conn_id: u64) -> (scope: CallbackScope)
    requires
        !old(engine).ctx.write_locked,
        old(engine).ctx.read_locks < u64::MAX,
        old(engine).ctx.acquires < u64::MAX,
    ensures
        scope.conn_id == conn_id,
        ctx_acquire_step(*old(engine), *final(engine)),
{
    engine.ctx.read_locks = engine.ctx.read_locks + 1;
    engine.ctx.acquires = engine.ctx.acquires + 1;
    CallbackScope { conn_id }
}

/// Leaves a callback: releases the re-acquired context and translates the
/// closure's result into the engine's status convention — success to the
/// success code, an error to its own code.
///
/// The release happens whatever the closure returned: the error path
/// returns the lock exactly like the success path.
pub fn callback_exit(scope: CallbackScope, engine: &mut Engine, cb_result: &Result<(), Error>)
    -> (status: u32)
    requires
        old(engine).ctx.read_locks >= 1,
        old(engine).ctx.releases < u64::MAX,
    ensures
        ctx_release_step(*old(engine), *final(engine)),
        cb_result is Ok ==> status == SR_ERR_OK,
        cb_result matches Err(e) ==> status == e.errcode,
{
    engine.ctx.read_locks = engine.ctx.read_locks - 1;
    engine.ctx.releases = engine.ctx.releases + 1;
    result_to_status(cb_result)
}

/// The guard at the head of an operational-data delivery: the engine must
/// have handed over the callback's own context and a place for the
/// produced tree; a delivery missing either is answered with an internal
/// error before anything else happens.
pub fn oper_get_guard(has_private_data: bool, has_parent: bool) -> (r: Result<(), Error>)
    ensures
        r is Ok <==> has_private_data && has_parent,
        r matches Err(e) ==> e.errcode == SR_ERR_INTERNAL,
{
    if has_private_data && has_parent {
        Ok(())
    } else {
        Err(Error { errcode: SR_ERR_INTERNAL })
    }
}

/// The event discriminant of a delivered change or RPC callback.
///
/// A code outside the engine's definition would mean the engine broke its
/// own contract with the binding; such inputs are outside this function's
/// domain — the caller decodes with [`Event::try_from_code`] first where
/// it cannot assume the contract.
pub fn expect_event(event_code: u32) -> (e: Event)
    requires
        spec_event_of_code(event_code) is Some,
    ensures
        Some(e) == spec_event_of_code(event_code),
{
    match Event::try_from_code(event_code) {
        Ok(e) => e,
        Err(_) => {
            proof {
                assert(false);
            }
            Event::Change
        },
    }
}

/// The notification-kind discriminant of a delivered notification, under
/// the same engine contract as [`expect_event`].
pub fn expect_notification_type(code: u32) -> (t: NotificationType)
    requires
        spec_notification_type_of_code(code) is Some,
    ensures
        Some(t) == spec_notification_type_of_code(code),
{
    match NotificationType::try_from_code(code) {
        Ok(t) => t,
        Err(_) => {
            proof {
                assert(false);
            }
            NotificationType::Realtime
        },
    }
}

} // verus!
