//! Option sets for connections, reads, edits and subscriptions.
//!
//! The engine takes each option set as one 32-bit field of single-bit
//! flags.  Here every set is a struct of booleans, and `bits` computes the
//! exact native field; since every flag occupies its own bit, the sum of
//! the selected values equals the engine's bitwise union.

use vstd::prelude::*;

verus! {

/// Options for opening a connection.
#[derive(Clone, Copy, Debug, PartialEq, Eq, Structural)]
pub struct ConnectionFlags {
    /// Maintain a cache of the running datastore in the connection.
    pub cache_running: bool,
    /// Keep parsed-only schema nodes in the connection's context.
    pub set_priv_parsed: bool,
}

impl ConnectionFlags {
    /// The native option field these options select, as a value: the sum
    /// of the selected flags' single-bit values.
    pub open spec fn spec_bits(&self) -> int {
        (if self.cache_running {
            1int
        } else {
            0int
        }) + (if self.set_priv_parsed {
            2int
        } else {
            0int
        })
    }

    /// No options selected.
    pub fn empty() -> (f: ConnectionFlags)
        ensures
            f == (ConnectionFlags { cache_running: false, set_priv_parsed: false }),
    {
        ConnectionFlags { cache_running: false, set_priv_parsed: false }
    }

    /// The native option field these options select.
    pub fn bits(&self) -> (c: u32)
        ensures
            c == self.spec_bits(),
    {
        (if self.cache_running {
            1u32
        } else {
            0u32
        }) + (if self.set_priv_parsed {
            2u32
        } else {
            0u32
        })
    }
}

impl Default for ConnectionFlags {
    /// The default connection options: none selected.
    fn default() -> (f: Self)
        ensures
            f == (ConnectionFlags { cache_running: false, set_priv_parsed: false }),
    {
        ConnectionFlags::empty()
    }
}

/// Options for fetching data.
#[derive(Clone, Copy, Debug, PartialEq, Eq, Structural)]
pub struct GetOptions {
    /// Exclude state data.
    pub no_state: bool,
    /// Exclude configuration data.
    pub no_config: bool,
    /// Bypass operational-data subscriber callbacks.
    pub no_subs: bool,
    /// Exclude stored operational data.
    pub no_stored: bool,
    /// Annotate returned nodes with their origin.
    pub with_origin: bool,
    /// Bypass the operational poll cache.
    pub no_poll_cached: bool,
    /// Bypass the running-datastore cache.
    pub no_run_cached: bool,
    /// Return the whole selected trees instead of filtering them.
    pub no_filter: bool,
}

impl GetOptions {
    /// The native option field these options select, as a value: the sum
    /// of the selected flags' single-bit values.
    pub open spec fn spec_bits(&self) -> int {
        (if self.no_state {
            1int
        } else {
            0int
        }) + (if self.no_config {
            2int
        } else {
            0int
        }) + (if self.no_subs {
            4int
        } else {
            0int
        }) + (if self.no_stored {
            8int
        } else {
            0int
        }) + (if self.with_origin {
            16int
        } else {
            0int
        }) + (if self.no_poll_cached {
            32int
        } else {
            0int
        }) + (if self.no_run_cached {
            64int
        } else {
            0int
        }) + (if self.no_filter {
            65536int
        } else {
            0int
        })
    }

    /// No options selected.
    pub fn empty() -> (f: GetOptions)
        ensures
            f == (GetOptions {
                no_state: false,
                no_config: false,
                no_subs: false,
                no_stored: false,
                with_origin: false,
                no_poll_cached: false,
                no_run_cached: false,
                no_filter: false,
            }),
    {
        GetOptions {
            no_state: false,
            no_config: false,
            no_subs: false,
            no_stored: false,
            with_origin: false,
            no_poll_cached: false,
            no_run_cached: false,
            no_filter: false,
        }
    }

    /// The native option field these options select.
    pub fn bits(&self) -> (c: u32)
        ensures
            c == self.spec_bits(),
    {
        (if self.no_state {
            1u32
        } else {
            0u32
        }) + (if self.no_config {
            2u32
        } else {
            0u32
        }) + (if self.no_subs {
            4u32
        } else {
            0u32
        }) + (if self.no_stored {
            8u32
        } else {
            0u32
        }) + (if self.with_origin {
            16u32
        } else {
            0u32
        }) + (if self.no_poll_cached {
            32u32
        } else {
            0u32
        }) + (if self.no_run_cached {
            64u32
        } else {
            0u32
        }) + (if self.no_filter {
            65536u32
        } else {
            0u32
        })
    }
}

impl Default for GetOptions {
    /// The default fetch options: none selected.
    fn default() -> (f: Self)
        ensures
            f == (GetOptions {
                no_state: false,
                no_config: false,
                no_subs: false,
                no_stored: false,
                with_origin: false,
                no_poll_cached: false,
                no_run_cached: false,
                no_filter: false,
            }),
    {
        GetOptions::empty()
    }
}

/// Options for staging an edit.
#[derive(Clone, Copy, Debug, PartialEq, Eq, Structural)]
pub struct EditOptions {
    /// Fail rather than create missing parent nodes.
    pub non_recursive: bool,
    /// Fail on an edit that changes nothing.
    pub strict: bool,
    /// Keep this edit separate from previously staged ones.
    pub isolate: bool,
}

impl EditOptions {
    /// The native option field these options select, as a value: the sum
    /// of the selected flags' single-bit values.
    pub open spec fn spec_bits(&self) -> int {
        (if self.non_recursive {
            1int
        } else {
            0int
        }) + (if self.strict {
            2int
        } else {
            0int
        }) + (if self.isolate {
            4int
        } else {
            0int
        })
    }

    /// No options selected.
    pub fn empty() -> (f: EditOptions)
        ensures
            f == (EditOptions { non_recursive: false, strict: false, isolate: false }),
    {
        EditOptions { non_recursive: false, strict: false, isolate: false }
    }

    /// The native option field these options select.
    pub fn bits(&self) -> (c: u32)
        ensures
            c == self.spec_bits(),
    {
        (if self.non_recursive {
            1u32
        } else {
            0u32
        }) + (if self.strict {
            2u32
        } else {
            0u32
        }) + (if self.isolate {
            4u32
        } else {
            0u32
        })
    }
}

impl Default for EditOptions {
    /// The default edit options: none selected.
    fn default() -> (f: Self)
        ensures
            f == (EditOptions { non_recursive: false, strict: false, isolate: false }),
    {
        EditOptions::empty()
    }
}

/// Options for registering a subscription.
#[derive(Clone, Copy, Debug, PartialEq, Eq, Structural)]
pub struct SubscriptionOptions {
    /// Do not start a handler thread; the caller will drive processing.
    pub no_thread: bool,
    /// Register passively: do not claim the subtree as provided.
    pub passive: bool,
    /// Deliver only the "done" phase, skipping the "change" phase.
    pub done_only: bool,
    /// Replay the current configuration as a first "enabled" event.
    pub enabled: bool,
    /// Register an "update" callback that may amend the changes.
    pub update: bool,
    /// Merge provided operational data with other providers' data.
    pub oper_merge: bool,
    /// Create the subscription with its handler thread suspended.
    pub thread_suspend: bool,
    /// Poll operational data for differences.
    pub oper_poll_diff: bool,
    /// Filter delivered changes to their originator.
    pub filter_orig: bool,
    /// Subscribe to changes of all modules at once.
    pub change_all_modules: bool,
}

impl SubscriptionOptions {
    /// The native option field these options select, as a value: the sum
    /// of the selected flags' single-bit values.
    pub open spec fn spec_bits(&self) -> int {
        (if self.no_thread {
            1int
        } else {
            0int
        }) + (if self.passive {
            2int
        } else {
            0int
        }) + (if self.done_only {
            4int
        } else {
            0int
        }) + (if self.enabled {
            8int
        } else {
            0int
        }) + (if self.update {
            16int
        } else {
            0int
        }) + (if self.oper_merge {
            32int
        } else {
            0int
        }) + (if self.thread_suspend {
            64int
        } else {
            0int
        }) + (if self.oper_poll_diff {
            128int
        } else {
            0int
        }) + (if self.filter_orig {
            256int
        } else {
            0int
        }) + (if self.change_all_modules {
            512int
        } else {
            0int
        })
    }

    /// No options selected.
    pub fn empty() -> (f: SubscriptionOptions)
        ensures
            f == (SubscriptionOptions {
                no_thread: false,
                passive: false,
                done_only: false,
                enabled: false,
                update: false,
                oper_merge: false,
                thread_suspend: false,
                oper_poll_diff: false,
                filter_orig: false,
                change_all_modules: false,
            }),
    {
        SubscriptionOptions {
            no_thread: false,
            passive: false,
            done_only: false,
            enabled: false,
            update: false,
            oper_merge: false,
            thread_suspend: false,
            oper_poll_diff: false,
            filter_orig: false,
            change_all_modules: false,
        }
    }

    /// The native option field these options select.
    #[verifier::rlimit(30)]
    pub fn bits(&self) -> (c: u32)
        ensures
            c == self.spec_bits(),
    {
        (if self.no_thread {
            1u32
        } else {
            0u32
        }) + (if self.passive {
            2u32
        } else {
            0u32
        }) + (if self.done_only {
            4u32
        } else {
            0u32
        }) + (if self.enabled {
            8u32
        } else {
            0u32
        }) + (if self.update {
            16u32
        } else {
            0u32
        }) + (if self.oper_merge {
            32u32
        } else {
            0u32
        }) + (if self.thread_suspend {
            64u32
        } else {
            0u32
        }) + (if self.oper_poll_diff {
            128u32
        } else {
            0u32
        }) + (if self.filter_orig {
            256u32
        } else {
            0u32
        }) + (if self.change_all_modules {
            512u32
        } else {
            0u32
        })
    }
}

impl Default for SubscriptionOptions {
    /// The default subscription options: none selected.
    fn default() -> (f: Self)
        ensures
            f == (SubscriptionOptions {
                no_thread: false,
                passive: false,
                done_only: false,
                enabled: false,
                update: false,
                oper_merge: false,
                thread_suspend: false,
                oper_poll_diff: false,
                filter_orig: false,
                change_all_modules: false,
            }),
    {
        SubscriptionOptions::empty()
    }
}

} // verus!
