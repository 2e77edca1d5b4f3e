//! Enumeration of the edits pending in a session.
//!
//! Inside a module-change callback, a change iterator walks the engine's
//! diff in the engine's own order.  Each step hands back an operation
//! code together with up to three payloads — a previous value, a previous
//! list key, a previous-default flag — and one code is overloaded across
//! several payload shapes: the presence of a previous value or key is the
//! only thing separating a plain creation or move from its
//! user-ordered-list forms.  That decoding is mirrored here exactly.  An
//! operation code the engine does not define is an error, never silently
//! coerced.

use vstd::prelude::*;

use crate::data::ManagedDataTree;
use crate::engine::Engine;
use crate::engine::ctx_peek_step;
use crate::error::Error;
use crate::error::SR_ERR_INTERNAL;
use crate::error::SR_ERR_INVAL_ARG;
use crate::error::SR_ERR_NOT_FOUND;
use crate::error::SR_ERR_OK;
use crate::session::Session;
use crate::strutil::spec_has_nul;
use crate::strutil::str_has_nul;

verus! {

/// The engine's change-operation code for a created node.
pub const SR_OP_CREATED: u32 = 0;
/// The engine's change-operation code for a modified node.
pub const SR_OP_MODIFIED: u32 = 1;
/// The engine's change-operation code for a deleted node.
pub const SR_OP_DELETED: u32 = 2;
/// The engine's change-operation code for a moved node.
pub const SR_OP_MOVED: u32 = 3;

/// One decoded pending edit.
///
/// The engine overloads one operation code across payload shapes; the
/// user-ordered-list forms carry the value or key of the preceding
/// sibling, and a modification carries the previous value and whether it
/// was a default.
#[derive(Clone, Debug, PartialEq, Eq)]
pub enum ChangeOperation {
    /// A node was created.
    Created,
    /// A user-ordered leaf-list entry was created after the entry holding
    /// the given value.
    CreatedLeafListUserOrdered {
        /// The preceding entry's value.
        previous_value: String,
    },
    /// A user-ordered list instance was created after the instance with
    /// the given key predicate.
    CreatedListUserOrdered {
        /// The preceding instance's key predicate.
        previous_key: String,
    },
    /// A node's value was modified.
    Modified {
        /// The value before the modification.
        previous_value: String,
        /// Whether the previous value was the schema default.
        previous_default: bool,
    },
    /// A node was deleted.
    Deleted,
    /// A user-ordered leaf-list entry was moved after the entry holding
    /// the given value.
    MovedLeafListUserOrdered {
        /// The preceding entry's value.
        previous_value: String,
    },
    /// A user-ordered list instance was moved after the instance with the
    /// given key predicate.
    MovedListUserOrdered {
        /// The preceding instance's key predicate.
        previous_key: String,
    },
}

/// Whether `op` is the one decoding of the engine's
/// (operation code, previous value, previous key, previous default)
/// tuple.  The presence of a previous value, then of a previous key, is
/// the tie-break between the plain and user-ordered-list forms of
/// creation and move, exactly as the engine overloads the codes; no code
/// above the defined four decodes to anything.
pub open spec fn spec_change_operation(
    oper: u32,
    prev_value: Option<Seq<char>>,
    prev_list_keys: Option<Seq<char>>,
    prev_default: bool,
    op: ChangeOperation,
) -> bool {
    if oper == SR_OP_CREATED {
        if prev_value is Some {
            op matches ChangeOperation::CreatedLeafListUserOrdered { previous_value }
                && previous_value@ == prev_value->0
        } else if prev_list_keys is Some {
            op matches ChangeOperation::CreatedListUserOrdered { previous_key } && previous_key@
                == prev_list_keys->0
        } else {
            op is Created
        }
    } else if oper == SR_OP_MODIFIED {
        op matches ChangeOperation::Modified { previous_value, previous_default } && prev_value
            is Some && previous_value@ == prev_value->0 && previous_default == prev_default
    } else if oper == SR_OP_DELETED {
        op is Deleted
    } else if oper == SR_OP_MOVED {
        if prev_value is Some {
            op matches ChangeOperation::MovedLeafListUserOrdered { previous_value }
                && previous_value@ == prev_value->0
        } else {
            op matches ChangeOperation::MovedListUserOrdered { previous_key } && prev_list_keys
                is Some && previous_key@ == prev_list_keys->0
        }
    } else {
        false
    }
}

/// Decodes one engine change tuple into a [`ChangeOperation`].
///
/// A modification always carries its previous value, and a move always
/// carries a previous value or a previous key — the engine guarantees
/// both, so inputs without them are outside this function's domain.  A
/// code the engine does not define is rejected as an internal error:
/// never silently coerced onto some defined operation.
pub fn decode_change_operation(
    oper: u32,
    prev_value: Option<String>,
    prev_list_keys: Option<String>,
    prev_default: bool,
) -> (r: Result<ChangeOperation, Error>)
    requires
        oper == SR_OP_MODIFIED ==> prev_value is Some,
        oper == SR_OP_MOVED ==> prev_value is Some || prev_list_keys is Some,
    ensures
        r is Ok <==> oper == SR_OP_CREATED || oper == SR_OP_MODIFIED || oper == SR_OP_DELETED
            || oper == SR_OP_MOVED,
        r matches Ok(op) ==> spec_change_operation(
            oper,
            prev_value.deep_view(),
            prev_list_keys.deep_view(),
            prev_default,
            op,
        ),
        r matches Err(e) ==> e.errcode == SR_ERR_INTERNAL,
{
    if oper == SR_OP_CREATED {
        match prev_value {
            Option::Some(v) => Ok(ChangeOperation::CreatedLeafListUserOrdered {
                previous_value: v,
            }),
            Option::None => match prev_list_keys {
                Option::Some(k) => Ok(ChangeOperation::CreatedListUserOrdered {
                    previous_key: k,
                }),
                Option::None => Ok(ChangeOperation::Created),
            },
        }
    } else if oper == SR_OP_MODIFIED {
        match prev_value {
            Option::Some(v) => Ok(ChangeOperation::Modified {
                previous_value: v,
                previous_default: prev_default,
            }),
            Option::None => {
                proof {
                    assert(false);
                }
                Err(Error { errcode: SR_ERR_INTERNAL })
            },
        }
    } else if oper == SR_OP_DELETED {
        Ok(ChangeOperation::Deleted)
    } else if oper == SR_OP_MOVED {
        match prev_value {
            Option::Some(v) => Ok(ChangeOperation::MovedLeafListUserOrdered {
                previous_value: v,
            }),
            Option::None => match prev_list_keys {
                Option::Some(k) => Ok(ChangeOperation::MovedListUserOrdered { previous_key: k }),
                Option::None => {
                    proof {
                        assert(false);
                    }
                    Err(Error { errcode: SR_ERR_INTERNAL })
                },
            },
        }
    } else {
        Err(Error { errcode: SR_ERR_INTERNAL })
    }
}

/// What the engine hands back for one step of a change iterator: a status
/// code and, on success, the changed node with the operation tuple.
#[derive(Debug)]
pub struct ChangeNext {
    /// The engine's status code: success carries a change, not-found ends
    /// the enumeration, anything else is an error.
    pub status: u32,
    /// The changed node's identity.
    pub node_id: u64,
    /// The operation code.
    pub oper: u32,
    /// The previous value, where the operation carries one.
    pub prev_value: Option<String>,
    /// The previous list-key predicate, where the operation carries one.
    pub prev_list_keys: Option<String>,
    /// Whether the previous value was the schema default.
    pub prev_default: bool,
}

/// An iterator over the edits pending in a session, owned by the caller
/// and borrowing the session's read lock.
///
/// Valid only while inside a module-change callback; using it outside
/// that scope is an engine-contract violation the caller must avoid.
/// [`Changes::free`] consumes the value, so the engine's iterator is freed
/// exactly once.
#[derive(Debug)]
pub struct Changes {
    /// The engine iterator's identity.
    pub iter_id: u64,
    /// The connection whose session is being iterated.
    pub conn_id: u64,
}

impl Session {
    /// Opens an iterator over the pending edits selected by an XPath
    /// filter; `status` is the engine's answer and `iter_id` the identity
    /// of the iterator it produced.
    ///
    /// Fails with invalid-argument before reaching the engine when the
    /// filter cannot cross the C boundary; otherwise the engine's status
    /// decides.  Wrapping the new iterator peeks at the schema context —
    /// one acquisition immediately returned.
    pub fn get_changes_iter(&self, engine: &mut Engine, xpath: &str, status: u32, iter_id: u64)
        -> (r: Result<Changes, Error>)
        requires
            old(engine).ctx.acquires < u64::MAX,
            old(engine).ctx.releases < u64::MAX,
        ensures
            final(engine).next_id == old(engine).next_id,
            final(engine).frees == old(engine).frees,
            final(engine).teardown == old(engine).teardown,
            final(engine).live == old(engine).live,
            final(engine).wire == old(engine).wire,
            spec_has_nul(xpath@) ==> (r matches Err(e) && e.errcode == SR_ERR_INVAL_ARG && *final(engine) == *old(engine)),
            !spec_has_nul(xpath@) ==> {
                &&& (r is Ok <==> status == SR_ERR_OK)
                &&& (r matches Ok(c) ==> c.iter_id == iter_id && c.conn_id == self.conn_id
                    && ctx_peek_step(old(engine).ctx, final(engine).ctx))
                &&& (r matches Err(e) ==> e.errcode == status && final(engine).ctx == old(engine).ctx)
            },
    {
        if str_has_nul(xpath) {
            return Err(Error { errcode: SR_ERR_INVAL_ARG });
        }
        if status != SR_ERR_OK {
            Err(Error { errcode: status })
        } else {
            engine.ctx.acquires = engine.ctx.acquires + 1;
            engine.ctx.releases = engine.ctx.releases + 1;
            Ok(Changes { iter_id, conn_id: self.conn_id })
        }
    }
}

impl Changes {
    /// Takes one step of the enumeration; `step` is the engine's answer.
    ///
    /// Success yields the changed node (a non-owning view) with its
    /// decoded operation; a not-found status ends the enumeration in the
    /// engine's convention and yields nothing; any other status is
    /// surfaced as the error.  The traversal order is the engine's own
    /// diff order, taken as it comes.
    pub fn next(&self, step: ChangeNext) -> (r: Result<
        Option<(ManagedDataTree, ChangeOperation)>,
        Error,
    >)
        requires
            step.status == SR_ERR_OK && step.oper == SR_OP_MODIFIED ==> step.prev_value is Some,
            step.status == SR_ERR_OK && step.oper == SR_OP_MOVED ==> step.prev_value is Some
                || step.prev_list_keys is Some,
        ensures
            step.status == SR_ERR_NOT_FOUND ==> (r matches Ok(o) && o is None),
            step.status == SR_ERR_OK ==> {
                &&& (r is Ok <==> (step.oper == SR_OP_CREATED || step.oper == SR_OP_MODIFIED
                    || step.oper == SR_OP_DELETED || step.oper == SR_OP_MOVED))
                &&& (r matches Ok(o) ==> o matches Some(entry) && entry.0.tree_id == step.node_id
                    && spec_change_operation(
                    step.oper,
                    step.prev_value.deep_view(),
                    step.prev_list_keys.deep_view(),
                    step.prev_default,
                    entry.1,
                ))
                &&& (r matches Err(e) ==> e.errcode == SR_ERR_INTERNAL)
            },
            step.status != SR_ERR_OK && step.status != SR_ERR_NOT_FOUND ==> (r matches Err(e)
                && e.errcode == step.status),
    {
        if step.status == SR_ERR_NOT_FOUND {
            return Ok(Option::None);
        }
        if step.status != SR_ERR_OK {
            return Err(Error { errcode: step.status });
        }
        let node = ManagedDataTree { tree_id: step.node_id };
        match decode_change_operation(
            step.oper,
            step.prev_value,
            step.prev_list_keys,
            step.prev_default,
        ) {
            Ok(op) => Ok(Option::Some((node, op))),
            Err(e) => Err(e),
        }
    }

    /// Frees the engine's iterator — exactly once, which consuming `self`
    /// makes the only possibility.
    pub fn free(self, engine: &mut Engine)
        requires
            old(engine).frees.iter_frees < u64::MAX,
        ensures
            final(engine).frees.iter_frees == old(engine).frees.iter_frees + 1,
            final(engine).frees.data_releases == old(engine).frees.data_releases,
            final(engine).frees.value_frees == old(engine).frees.value_frees,
            final(engine).next_id == old(engine).next_id,
            final(engine).ctx == old(engine).ctx,
            final(engine).teardown == old(engine).teardown,
            final(engine).live == old(engine).live,
            final(engine).wire == old(engine).wire,
    {
        engine.frees.iter_frees = engine.frees.iter_frees + 1;
    }
}

} // verus!
