use solana_rpc_minimal::bench::{CounterSpan, LockMode};
use solana_rpc_minimal::rpc::RpcMethod;

#[test]
fn lock_modes_call_their_methods() {
    assert_eq!(LockMode::STD_MUTEX.method(), RpcMethod::CallWithStdLock);
    assert_eq!(LockMode::TOKIO_MUTEX.method(), RpcMethod::CallWithTokioLock);
    assert_eq!(LockMode::STD_MUTEX.method().name(), "call_with_stdlock");
    assert_eq!(LockMode::TOKIO_MUTEX.method().name(), "call_with_tokiolock");
}

#[test]
fn fresh_span_holds_the_extremes() {
    let span = CounterSpan::new();
    assert_eq!(span.start_counter(), u64::MAX);
    assert_eq!(span.highest_counter(), u64::MIN);
}

#[test]
fn span_tracks_lowest_and_highest() {
    let mut span = CounterSpan::new();
    for c in [5u64, 3, 9, 4] {
        span.observe(c);
    }
    assert_eq!(span.start_counter(), 3);
    assert_eq!(span.highest_counter(), 9);
    assert_eq!(span.counter_diff(), 6);
}

#[test]
fn single_observation_has_no_span() {
    let mut span = CounterSpan::new();
    span.observe(2268);
    assert_eq!(span.counter_diff(), 0);
    assert_eq!(span.start_counter(), 2268);
    assert_eq!(span.highest_counter(), 2268);
}

#[test]
fn span_over_increasing_counters() {
    let mut span = CounterSpan::new();
    for c in 100u64..=6039 {
        span.observe(c);
    }
    assert_eq!(span.counter_diff(), 5939);
}

#[test]
fn span_with_extreme_values() {
    let mut span = CounterSpan::new();
    span.observe(u64::MAX);
    span.observe(0);
    assert_eq!(span.counter_diff(), u64::MAX);
}
