use solana_rpc_minimal::rpc::{
    burn_reply, lock_call_reply, say_hello_reply, MiddlewareAction, RpcMethod, RpcRequestMiddleware,
    TransactionInfo, TransactionSlot, CORS_MAX_AGE, HEALTH_STATUS, INITIAL_SENDER_VALUE,
    MAX_REQUEST_BODY_SIZE, RPC_NICENESS_ADJ, RPC_PORT, RPC_THREADS, SENT_TRANSACTION_VALUE,
};

#[test]
fn service_settings() {
    assert_eq!(RPC_THREADS, 5);
    assert_eq!(RPC_NICENESS_ADJ, 0);
    assert_eq!(MAX_REQUEST_BODY_SIZE, 51200);
    assert_eq!(RPC_PORT, 21212);
    assert_eq!(CORS_MAX_AGE, 86400);
    assert_eq!(HEALTH_STATUS, 200);
}

#[test]
fn transaction_slot_starts_at_initial_value() {
    let slot = TransactionSlot::new();
    assert_eq!(slot.value, 100);
    assert_eq!(INITIAL_SENDER_VALUE, 100);
    let _info = TransactionInfo {};
}

#[test]
fn sending_stores_42_and_returns_previous() {
    let mut slot = TransactionSlot::new();
    assert_eq!(slot.record_send(), 100);
    assert_eq!(slot.value, 42);
    assert_eq!(slot.record_send(), 42);
    assert_eq!(slot.value, SENT_TRANSACTION_VALUE);
}

#[test]
fn replace_returns_old_value() {
    let mut slot = TransactionSlot::new();
    assert_eq!(slot.replace(7), 100);
    assert_eq!(slot.replace(9), 7);
    assert_eq!(slot.value, 9);
}

#[test]
fn method_names() {
    assert_eq!(RpcMethod::SayHello.name(), "say_hello");
    assert_eq!(RpcMethod::CallWithStdLock.name(), "call_with_stdlock");
    assert_eq!(RpcMethod::CallWithTokioLock.name(), "call_with_tokiolock");
    assert_eq!(RpcMethod::BurnSomeCpuCycles.name(), "burn_some_cpu_cycles");
}

#[test]
fn method_found_again_by_name() {
    for m in [
        RpcMethod::SayHello,
        RpcMethod::CallWithStdLock,
        RpcMethod::CallWithTokioLock,
        RpcMethod::BurnSomeCpuCycles,
    ] {
        assert_eq!(RpcMethod::from_name(m.name()), Some(m));
    }
}

#[test]
fn unknown_method_names() {
    assert_eq!(RpcMethod::from_name("call_with_lock"), None);
    assert_eq!(RpcMethod::from_name(""), None);
    assert_eq!(RpcMethod::from_name("say_hello "), None);
    assert_eq!(RpcMethod::from_name("Say_Hello"), None);
}

#[test]
fn say_hello_answers_the_count_including_the_call() {
    assert_eq!(say_hello_reply(0), 1);
    assert_eq!(say_hello_reply(41), 42);
    assert_eq!(say_hello_reply(-1), 0);
    assert_eq!(say_hello_reply(i64::MAX - 1), i64::MAX);
}

#[test]
fn fixed_replies() {
    assert_eq!(lock_call_reply(), "locked for x ms");
    assert_eq!(burn_reply(), "ashes");
}

#[test]
fn root_proceeds_unlogged() {
    let m = RpcRequestMiddleware::new();
    assert_eq!(m.on_request("/"), MiddlewareAction::Proceed);
}

#[test]
fn health_is_answered_directly() {
    let m = RpcRequestMiddleware::new();
    assert_eq!(
        m.on_request("/health"),
        MiddlewareAction::Respond { status: 200, body: "health_check_notimplemented".to_string() }
    );
}

#[test]
fn other_paths_are_logged() {
    let m = RpcRequestMiddleware::new();
    assert_eq!(m.on_request("/foo"), MiddlewareAction::ProceedAndLog);
    assert_eq!(m.on_request(""), MiddlewareAction::ProceedAndLog);
    assert_eq!(m.on_request("/health/"), MiddlewareAction::ProceedAndLog);
    assert_eq!(m.on_request("//"), MiddlewareAction::ProceedAndLog);
    assert_eq!(m.on_request("/HEALTH"), MiddlewareAction::ProceedAndLog);
}
