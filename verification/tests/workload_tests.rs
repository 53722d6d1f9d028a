use params_estimator::text::{u64_to_dec, u64_to_dec3};
use params_estimator::workload::{
    add_key_transaction, deploy_contract_transaction, many_method_names, method_name,
    transaction_for, transaction_from_actions, transaction_from_function_call,
    AccessKeyPermission, AccountPool, ActionKind, HostFnMethod, WorkloadKind,
};

#[test]
fn decimal_rendering() {
    assert_eq!(u64_to_dec(0), "0");
    assert_eq!(u64_to_dec(7), "7");
    assert_eq!(u64_to_dec(42), "42");
    assert_eq!(u64_to_dec(1000), "1000");
    assert_eq!(u64_to_dec3(0), "000");
    assert_eq!(u64_to_dec3(42), "042");
    assert_eq!(u64_to_dec3(999), "999");
}

#[test]
fn account_pool_is_reproducible() {
    let mut pool = AccountPool::new(5);
    assert_eq!(pool.next_account(), 0);
    assert_eq!(pool.next_account(), 1);
    let (s, r) = pool.account_pair();
    assert_eq!((s, r), (2, 3));
    assert_ne!(s, r);
    // The pair at the pool's edge wraps to keep the two distinct.
    let mut edge = AccountPool::new(2);
    let _ = edge.next_account();
    let (s, r) = edge.account_pair();
    assert_eq!((s, r), (1, 0));
}

#[test]
fn unused_accounts_never_repeat() {
    let mut pool = AccountPool::new(4);
    assert_eq!(pool.unused_account(), 0);
    assert_eq!(pool.unused_account(), 1);
    assert_eq!(pool.unused_account(), 2);
}

#[test]
fn fresh_accounts_are_outside_the_pool() {
    let mut pool = AccountPool::new(10);
    assert_eq!(pool.fresh_account_id(), 10);
    assert_eq!(pool.fresh_account_id(), 11);
}

#[test]
fn thousand_method_names_of_ten_bytes() {
    let names = many_method_names();
    assert_eq!(names.len(), 1000);
    assert_eq!(names[0], "a123456000");
    assert_eq!(names[42], "a123456042");
    assert_eq!(names[999], "a123456999");
    for n in &names {
        assert_eq!(n.len(), 10);
    }
}

#[test]
fn host_method_names() {
    assert_eq!(method_name(HostFnMethod::Noop), "noop");
    assert_eq!(method_name(HostFnMethod::Base1M), "base_1M");
    assert_eq!(method_name(HostFnMethod::DataReceipt10b1000), "data_receipt_10b_1000");
    assert_eq!(method_name(HostFnMethod::ReadMemory1Mib10k), "read_memory_1Mib_10k");
}

#[test]
fn transaction_builders_keep_their_shape() {
    let t = transaction_from_actions(3, 8, vec![ActionKind::Transfer { deposit: 1 }]);
    assert_eq!(t.sender, 3);
    assert_eq!(t.receiver, 8);
    assert_eq!(t.actions.len(), 1);

    let call = transaction_from_function_call(5, HostFnMethod::Noop, 4);
    assert_eq!(call.sender, 5);
    assert_eq!(call.receiver, 5);
    match &call.actions[0] {
        ActionKind::FunctionCall { method, args } => {
            assert_eq!(method, "noop");
            assert_eq!(args, &vec![0u8; 4]);
        },
        other => panic!("expected a function call action, got {:?}", other),
    }

    let add = add_key_transaction(9, AccessKeyPermission::FullAccess);
    assert_eq!(add.sender, 9);
    assert_eq!(add.receiver, 9);
    assert!(matches!(add.actions[0], ActionKind::AddKey { .. }));
}

#[test]
fn workloads_draw_from_the_pool_as_specified() {
    let mut pool = AccountPool::new(100);

    let transfer = transaction_for(&WorkloadKind::Transfer, &mut pool);
    assert_eq!((transfer.sender, transfer.receiver), (0, 1));
    assert!(matches!(transfer.actions[..], [ActionKind::Transfer { deposit: 1 }]));

    let create = transaction_for(&WorkloadKind::CreateAccount, &mut pool);
    assert_eq!(create.sender, 1);
    // The created account lies beyond the pool: it does not exist yet.
    assert_eq!(create.receiver, 100);
    assert_eq!(create.actions.len(), 2);

    // State-changing workloads draw accounts that are never reused.
    let delete = transaction_for(&WorkloadKind::DeleteAccount, &mut pool);
    assert_eq!((delete.sender, delete.receiver), (0, 0));
    assert!(matches!(delete.actions[..], [ActionKind::DeleteAccount { beneficiary_id: 1 }]));

    let add_key = transaction_for(&WorkloadKind::AddFunctionAccessKeyBase, &mut pool);
    assert_eq!(add_key.sender, 2);
    match &add_key.actions[0] {
        ActionKind::AddKey {
            permission: AccessKeyPermission::FunctionCall { allowance, receiver_id, method_names },
        } => {
            assert_eq!(*allowance, Some(100));
            assert_eq!(*receiver_id, 0);
            assert_eq!(method_names, &vec!["method1".to_string()]);
        },
        other => panic!("expected a function-call key, got {:?}", other),
    }

    let deploy = deploy_contract_transaction(&mut pool, vec![1, 2, 3]);
    assert_eq!((deploy.sender, deploy.receiver), (3, 3));
    match &deploy.actions[0] {
        ActionKind::DeployContract { code } => assert_eq!(code, &vec![1, 2, 3]),
        other => panic!("expected a deploy action, got {:?}", other),
    }
}

#[test]
fn workload_construction_is_deterministic() {
    // Two pools in the same state build byte-identical workloads, so
    // warmup and measurement runs are cost-equivalent.
    let mut a = AccountPool::new(50);
    let mut b = AccountPool::new(50);
    let ta = transaction_for(&WorkloadKind::FunctionCall { method: HostFnMethod::Noop, arg_len: 8 }, &mut a);
    let tb = transaction_for(&WorkloadKind::FunctionCall { method: HostFnMethod::Noop, arg_len: 8 }, &mut b);
    assert_eq!(ta.sender, tb.sender);
    assert_eq!(ta.receiver, tb.receiver);
    match (&ta.actions[0], &tb.actions[0]) {
        (
            ActionKind::FunctionCall { method: ma, args: aa },
            ActionKind::FunctionCall { method: mb, args: ab },
        ) => {
            assert_eq!(ma, mb);
            assert_eq!(aa, ab);
        },
        _ => panic!("expected function calls"),
    }
}
