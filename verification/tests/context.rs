use rpc_dispatch::context::Chain;
use rpc_dispatch::context::PendingData;
use rpc_dispatch::context::RpcContext;
use rpc_dispatch::context::Storage;
use rpc_dispatch::context::SyncState;

#[test]
fn new_context_has_no_pending_data() {
    let ctx = RpcContext::new(
        Storage { handle: 7 },
        SyncState { syncing: true },
        Chain::Mainnet,
    );
    assert_eq!(ctx.storage, Storage { handle: 7 });
    assert_eq!(ctx.sync_status, SyncState { syncing: true });
    assert_eq!(ctx.chain, Chain::Mainnet);
    assert!(ctx.pending_data.is_none());
}

#[test]
fn test_context_is_a_fresh_testnet_node() {
    let ctx = RpcContext::for_tests();
    assert_eq!(ctx.chain, Chain::Testnet);
    assert_eq!(ctx.sync_status, SyncState { syncing: false });
    assert!(ctx.pending_data.is_none());
}

#[test]
fn with_pending_data_keeps_every_other_field() {
    let ctx = RpcContext::new(
        Storage { handle: 3 },
        SyncState { syncing: false },
        Chain::Integration,
    );
    let pending = PendingData { block_number: 11, timestamp: 1000 };
    let updated = ctx.with_pending_data(pending);
    assert_eq!(updated.pending_data, Some(pending));
    assert_eq!(updated.storage, ctx.storage);
    assert_eq!(updated.sync_status, ctx.sync_status);
    assert_eq!(updated.chain, ctx.chain);
}

#[test]
fn pending_data_stays_present_once_set() {
    let ctx = RpcContext::for_tests();
    let first = ctx.with_pending_data(PendingData { block_number: 1, timestamp: 10 });
    let second = first.with_pending_data(PendingData { block_number: 2, timestamp: 20 });
    assert_eq!(second.pending_data, Some(PendingData { block_number: 2, timestamp: 20 }));
}

#[test]
fn test_context_with_pending_carries_pending_data() {
    let ctx = RpcContext::for_tests_with_pending();
    assert!(ctx.pending_data.is_some());
    assert_eq!(ctx.chain, Chain::Testnet);
}

#[test]
fn duplicating_a_context_copies_the_handles() {
    let ctx = RpcContext::for_tests();
    let dup = ctx.clone();
    assert_eq!(dup.storage, ctx.storage);
    assert_eq!(dup.chain, ctx.chain);
    assert_eq!(dup.sync_status, ctx.sync_status);
    assert_eq!(dup.pending_data, ctx.pending_data);
}
