//! Fetched data results and tree references.
//!
//! A fetch or an RPC returns a data result the caller owns exclusively:
//! its tree must be released back to the engine exactly once, when the
//! owner is done with it.  Trees merely borrowed — the view handed out by
//! [`ManagedData::tree`], or the trees a callback receives — are
//! non-owning and never trigger a release.

use vstd::prelude::*;

use crate::engine::Engine;

verus! {

/// What the engine hands back for one fetched data result: its tree's
/// identity and the connection the tree reports as its owner.
#[derive(Clone, Copy, Debug, PartialEq, Eq, Structural)]
pub struct TreeHandle {
    /// The tree's identity.
    pub tree_id: u64,
    /// The connection that owns the tree, as the tree itself reports it.
    pub conn_id: u64,
}

/// The engine's complete answer to a fetch or an RPC: a status code, and
/// the returned tree when there is one.
#[derive(Clone, Copy, Debug, PartialEq, Eq, Structural)]
pub struct FetchOutcome {
    /// The engine's status code.
    pub status: u32,
    /// The returned tree, when the engine produced one.
    pub tree: Option<TreeHandle>,
}

/// A reference to a schema-library data tree the host built or borrowed —
/// never owned by this library, never released by it.
#[derive(Clone, Copy, Debug, PartialEq, Eq, Structural)]
pub struct DataTreeRef {
    /// The tree's identity.
    pub tree_id: u64,
    /// Whether the tree has no root node at all.
    pub empty: bool,
}

/// An owned data result: the caller must give the tree back to the engine
/// exactly once.
///
/// [`ManagedData::release`] consumes the value, so a second release of the
/// same result cannot be written, and [`ManagedData::tree`] hands out only
/// a non-owning view.
#[derive(Debug)]
pub struct ManagedData {
    /// The owned tree's identity.
    pub tree_id: u64,
    /// The connection the tree belongs to.
    pub conn_id: u64,
}

/// A non-owning view of the tree inside a [`ManagedData`]: dropping it
/// releases nothing.
#[derive(Debug)]
pub struct ManagedDataTree {
    /// The viewed tree's identity.
    pub tree_id: u64,
}

/// One release of an owned data result: the engine's release call runs
/// exactly once, and nothing else in the ledger moves.
pub open spec fn data_release_step(pre: Engine, post: Engine) -> bool {
    &&& post.frees.data_releases == pre.frees.data_releases + 1
    &&& post.frees.value_frees == pre.frees.value_frees
    &&& post.frees.iter_frees == pre.frees.iter_frees
    &&& post.next_id == pre.next_id
    &&& post.ctx == pre.ctx
    &&& post.teardown == pre.teardown
    &&& post.live == pre.live
    &&& post.wire == pre.wire
}

impl ManagedData {
    /// A non-owning view of the owned tree.  No ledger movement: looking
    /// at the tree releases nothing.
    pub fn tree(&self) -> (t: ManagedDataTree)
        ensures
            t.tree_id == self.tree_id,
    {
        ManagedDataTree { tree_id: self.tree_id }
    }

    /// Gives up ownership of the result without releasing it: the caller
    /// takes over the engine's release obligation.  No ledger movement.
    pub fn into_raw(self) -> (id: u64)
        ensures
            id == self.tree_id,
    {
        self.tree_id
    }

    /// Releases the owned tree back to the engine — exactly once, which
    /// consuming `self` makes the only possibility.
    pub fn release(self, engine: &mut Engine)
        requires
            old(engine).frees.data_releases < u64::MAX,
        ensures
            data_release_step(*old(engine), *final(engine)),
    {
        engine.frees.data_releases = engine.frees.data_releases + 1;
    }
}

impl ManagedDataTree {
    /// The viewed tree, as a non-owning schema-library reference with a
    /// root (an owned result's tree always has one).
    pub fn as_ref(&self) -> (r: DataTreeRef)
        ensures
            r.tree_id == self.tree_id,
            !r.empty,
    {
        DataTreeRef { tree_id: self.tree_id, empty: false }
    }
}

/// An owned data result is released exactly once: the one permitted
/// release moves the engine's release count by exactly one, and releases
/// nothing else.  (A non-owning [`ManagedDataTree`] has no release path at
/// all, so a borrowed tree can never reach the engine's release call.)
pub proof fn lemma_data_released_exactly_once(e0: Engine, e1: Engine)
    requires
        data_release_step(e0, e1),
    ensures
        e1.frees.data_releases == e0.frees.data_releases + 1,
        e1.frees.value_frees == e0.frees.value_frees,
        e1.frees.iter_frees == e0.frees.iter_frees,
        e1.ctx == e0.ctx,
        e1.live == e0.live,
{
}

} // verus!
