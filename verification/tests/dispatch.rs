use rpc_dispatch::context::Chain;
use rpc_dispatch::context::RpcContext;
use rpc_dispatch::context::SyncState;
use rpc_dispatch::context::Storage;
use rpc_dispatch::dispatch::MethodTable;
use rpc_dispatch::dispatch::RegistrationError;
use rpc_dispatch::dispatch::invoke_method;
use rpc_dispatch::dispatch::register_method;
use rpc_dispatch::dispatch::register_method_with_no_input;
use rpc_dispatch::error::INVALID_PARAMS_CODE;
use rpc_dispatch::error::METHOD_NOT_FOUND_CODE;
use rpc_dispatch::testing::CountingHandler;
use rpc_dispatch::testing::SyncingMethod;

fn counting() -> CountingHandler {
    CountingHandler { invocations: 0, last_chain: None }
}

#[test]
fn registered_method_echoes_its_decoded_input() {
    let mut table = MethodTable::new();
    register_method(&mut table, "echo".to_owned(), counting()).unwrap();
    let ctx = RpcContext::for_tests();
    let r = table.dispatch(&"echo".to_owned(), &ctx, b"42");
    assert_eq!(r, Ok(42));
    assert_eq!(table.entries[0].handler.invocations, 1);
    assert_eq!(table.entries[0].calls, 1);
}

#[test]
fn invalid_blob_yields_decode_error_and_never_reaches_the_handler() {
    let mut table = MethodTable::new();
    register_method(&mut table, "echo".to_owned(), counting()).unwrap();
    let ctx = RpcContext::for_tests();
    for blob in [&b"abc"[..], &b""[..], &b"12a"[..], &b"18446744073709551616"[..]] {
        let r = table.dispatch(&"echo".to_owned(), &ctx, blob);
        let err = r.expect_err("an undecodable blob must be refused");
        assert_eq!(err.code, INVALID_PARAMS_CODE);
        assert_eq!(err.message, "Invalid params");
        assert_eq!(err.data, None);
    }
    assert_eq!(table.entries[0].handler.invocations, 0);
    assert_eq!(table.entries[0].calls, 4);
}

#[test]
fn unknown_method_name_is_reported_as_method_not_found() {
    let mut table = MethodTable::new();
    register_method(&mut table, "echo".to_owned(), counting()).unwrap();
    let ctx = RpcContext::for_tests();
    let r = table.dispatch(&"missing".to_owned(), &ctx, b"1");
    let err = r.expect_err("an unbound name must be refused");
    assert_eq!(err.code, METHOD_NOT_FOUND_CODE);
    assert_eq!(err.message, "Method not found");
    assert_eq!(table.entries[0].handler.invocations, 0);
    assert_eq!(table.entries[0].calls, 0);
}

#[test]
fn duplicate_registration_fails_and_leaves_the_first_binding_callable() {
    let mut table = MethodTable::new();
    register_method(&mut table, "echo".to_owned(), counting()).unwrap();
    let second = register_method(&mut table, "echo".to_owned(), counting());
    assert_eq!(second, Err(RegistrationError::DuplicateMethodName));
    assert_eq!(table.len(), 1);
    let ctx = RpcContext::for_tests();
    let r = table.dispatch(&"echo".to_owned(), &ctx, b"7");
    assert_eq!(r, Ok(7));
    assert_eq!(table.entries[0].handler.invocations, 1);
}

#[test]
fn no_input_method_ignores_the_parameter_blob() {
    let mut table = MethodTable::new();
    register_method_with_no_input(&mut table, "syncing".to_owned(), SyncingMethod {}).unwrap();
    let idle = RpcContext::for_tests();
    assert_eq!(table.dispatch(&"syncing".to_owned(), &idle, b"not even decimal"), Ok(false));
    let busy = RpcContext::new(
        Storage { handle: 0 },
        SyncState { syncing: true },
        Chain::Testnet,
    );
    assert_eq!(table.dispatch(&"syncing".to_owned(), &busy, b""), Ok(true));
    assert_eq!(table.entries[0].calls, 2);
}

#[test]
fn the_method_adapter_alone_decodes_invokes_and_maps() {
    let mut handler = counting();
    let ctx = RpcContext::for_tests();
    assert_eq!(invoke_method(&mut handler, &ctx, b"9"), Ok(9));
    assert_eq!(handler.invocations, 1);
    let err = invoke_method(&mut handler, &ctx, b"ninety").expect_err("not a decimal blob");
    assert_eq!(err.code, INVALID_PARAMS_CODE);
    assert_eq!(handler.invocations, 1);
    assert_eq!(handler.last_chain, Some(Chain::Testnet));
}

#[test]
fn hundred_requests_across_ten_methods_do_not_interfere() {
    let mut table = MethodTable::new();
    let mut names = Vec::new();
    for m in 0..10 {
        let name = format!("method_{m}");
        register_method(&mut table, name.clone(), counting()).unwrap();
        names.push(name);
    }
    let ctx = RpcContext::for_tests();
    for round in 0..10u64 {
        for name in &names {
            let blob = format!("{round}");
            let r = table.dispatch(name, &ctx, blob.as_bytes());
            assert_eq!(r, Ok(round));
        }
    }
    let mut total = 0;
    for entry in &table.entries {
        assert_eq!(entry.handler.invocations, 10);
        assert_eq!(entry.calls, 10);
        assert_eq!(entry.handler.last_chain, Some(Chain::Testnet));
        total += entry.handler.invocations;
    }
    assert_eq!(total, 100);
}
