//! The shared context handed to every handler invocation.
//!
//! One [`RpcContext`] is built at process startup and a duplicate of it is
//! passed into each inbound request. The heavy node-wide resources behind it
//! (the persistence layer, the sync-status tracker) are shared, not copied:
//! the fields here are cheap handles, so duplicating a context copies only
//! handle words, never the resources themselves.

use vstd::prelude::*;

verus! {

/// The network a node serves. Fixed for the life of the process.
#[derive(Clone, Copy, Debug, PartialEq, Eq, Structural)]
pub enum Chain {
    Mainnet,
    Testnet,
    Integration,
}

/// A handle to the node's persistence layer.
///
/// The storage engine itself is a collaborator outside this crate; the
/// handle identifies one shared instance of it. Duplicating the handle
/// shares the instance, it does not copy any stored data.
#[derive(Clone, Copy, Debug, PartialEq, Eq, Structural)]
pub struct Storage {
    pub handle: u64,
}

/// The node's sync status, readable by every handler.
///
/// Other parts of the node update it; handlers and the dispatch code in
/// this crate only read it. The shared handle is modeled here as a plain
/// value: a context duplicate carries the status as of the moment the
/// duplicate was made, and an update made elsewhere reaches only
/// duplicates made after it, not copies already handed out.
#[derive(Clone, Copy, Debug, PartialEq, Eq, Structural)]
pub struct SyncState {
    pub syncing: bool,
}

impl Default for SyncState {
    /// A fresh node is not syncing.
    fn default() -> (s: Self)
        ensures
            s == (SyncState { syncing: false }),
    {
        SyncState { syncing: false }
    }
}

/// A snapshot of not-yet-finalized chain state.
#[derive(Clone, Copy, Debug, PartialEq, Eq, Structural)]
pub struct PendingData {
    pub block_number: u64,
    pub timestamp: u64,
}

/// The bundle of node-wide dependencies passed to every handler.
///
/// Constructed once at startup with no pending data. When the node begins
/// tracking pending state, [`RpcContext::with_pending_data`] derives the
/// replacement context: `pending_data` only ever goes from absent to
/// present, never back (no operation of this type clears it), and `chain`
/// never changes after construction.
#[derive(Clone, Copy, Debug)]
pub struct RpcContext {
    pub storage: Storage,
    pub pending_data: Option<PendingData>,
    pub sync_status: SyncState,
    pub chain: Chain,
}

impl RpcContext {
    /// A fresh context: the given dependencies, and no pending data yet.
    pub fn new(storage: Storage, sync_status: SyncState, chain: Chain) -> (ctx: Self)
        ensures
            ctx == (RpcContext { storage, pending_data: None, sync_status, chain }),
    {
        Self { storage, sync_status, chain, pending_data: None }
    }

    /// A context wired to throwaway dependencies, for exercising handlers.
    pub fn for_tests() -> (ctx: Self)
        ensures
            ctx == (RpcContext {
                storage: Storage { handle: 0 },
                pending_data: None,
                sync_status: SyncState { syncing: false },
                chain: Chain::Testnet,
            }),
    {
        let storage = Storage { handle: 0 };
        let sync_state = SyncState::default();
        Self::new(storage, sync_state, Chain::Testnet)
    }

    /// The same context with pending data now present; every other field
    /// is kept.
    pub fn with_pending_data(self, pending_data: PendingData) -> (ctx: Self)
        ensures
            ctx == (RpcContext { pending_data: Some(pending_data), ..self }),
    {
        Self {
            storage: self.storage,
            pending_data: Some(pending_data),
            sync_status: self.sync_status,
            chain: self.chain,
        }
    }

    /// A throwaway context that already carries pending data.
    pub fn for_tests_with_pending() -> (ctx: Self)
        ensures
            ctx == (RpcContext {
                storage: Storage { handle: 0 },
                pending_data: Some(PendingData { block_number: 1, timestamp: 1 }),
                sync_status: SyncState { syncing: false },
                chain: Chain::Testnet,
            }),
    {
        let context = Self::for_tests();
        let pending_data = PendingData { block_number: 1, timestamp: 1 };
        context.with_pending_data(pending_data)
    }
}

} // verus!
