use std::task::Context;
use std::task::Waker;
use std::time::Duration;
use std::time::Instant;

use agnostik::AgnostikExecutor;
use agnostik::AsyncStdExecutor;
use agnostik::Backend;
use agnostik::BastionExecutor;
use agnostik::Executor;
use agnostik::JoinError;
use agnostik::JoinHandle;
use agnostik::Polled;
use agnostik::TokioExecutor;

async fn async_double(x: u64) -> u64 {
    x * 2
}

async fn async_identity(s: &'static str) -> &'static str {
    s
}

fn spin_for(ms: u64) -> u64 {
    let start = Instant::now();
    while start.elapsed() < Duration::from_millis(ms) {
        std::hint::spin_loop();
    }
    ms
}

fn poll_until_done<T>(h: &mut JoinHandle<T>) -> Result<T, JoinError> {
    let mut cx = Context::from_waker(Waker::noop());
    let start = Instant::now();
    loop {
        if let Some(outcome) = h.poll_join(&mut cx) {
            return outcome;
        }
        assert!(start.elapsed() < Duration::from_secs(10));
        std::hint::spin_loop();
    }
}

fn smoke<E: AgnostikExecutor>(e: &E) {
    let h = e.spawn_blocking(|| 2 + 2);
    assert_eq!(e.block_on(h), Ok(4));
    let h = e.spawn(async_double(21));
    assert_eq!(e.block_on(h), Ok(42));
    assert_eq!(e.block_on(async_identity("ok")), "ok");
    let h = e.spawn_blocking(|| 2 + 2);
    assert_eq!(e.join(h), Ok(4));
}

#[test]
fn async_std_smoke() {
    smoke(&AsyncStdExecutor::new());
}

#[test]
fn tokio_smoke() {
    smoke(&TokioExecutor::new().unwrap());
}

#[test]
fn bastion_smoke() {
    smoke(&BastionExecutor::new());
}

#[test]
fn facade_smoke_on_each_backend() {
    for b in [Backend::AsyncStd, Backend::Tokio, Backend::Bastion] {
        let e = Executor::new(b).unwrap();
        assert_eq!(e.backend(), b);
        smoke(&e);
    }
}

#[test]
fn handles_carry_their_backend() {
    for b in [Backend::AsyncStd, Backend::Tokio, Backend::Bastion] {
        let e = Executor::new(b).unwrap();
        let h = e.spawn(async_double(1));
        assert_eq!(h.backend(), b);
        assert!(!h.is_joined());
        assert_eq!(e.block_on(h), Ok(2));
    }
}

#[test]
fn block_on_spawn_matches_direct_evaluation() {
    for b in [Backend::AsyncStd, Backend::Tokio, Backend::Bastion] {
        let e = Executor::new(b).unwrap();
        let direct = (1..=10u64).map(|x| x * x).sum::<u64>();
        let h = e.spawn(async { (1..=10u64).map(|x| x * x).sum::<u64>() });
        assert_eq!(e.block_on(h), Ok(direct));
        assert_eq!(direct, 385);
    }
}

#[test]
fn spawn_blocking_yields_the_value() {
    for b in [Backend::AsyncStd, Backend::Tokio, Backend::Bastion] {
        let e = Executor::new(b).unwrap();
        let v = String::from("value");
        let h = e.spawn_blocking(move || v);
        assert_eq!(e.block_on(h), Ok(String::from("value")));
    }
}

#[test]
fn second_poll_reports_already_joined() {
    for b in [Backend::AsyncStd, Backend::Tokio, Backend::Bastion] {
        let e = Executor::new(b).unwrap();
        let mut h = e.spawn_blocking(|| 7u32);
        assert_eq!(poll_until_done(&mut h), Ok(7));
        assert!(h.is_joined());
        assert_eq!(poll_until_done(&mut h), Err(JoinError::AlreadyJoined));
        assert_eq!(poll_until_done(&mut h), Err(JoinError::AlreadyJoined));
        assert_eq!(h.backend(), b);
    }
}

#[test]
fn settle_hands_out_one_outcome() {
    let e = AsyncStdExecutor::new();
    let mut h = e.spawn(std::future::pending::<u32>());
    assert_eq!(h.settle(Polled::Pending), None);
    assert!(!h.is_joined());
    assert_eq!(h.settle(Polled::Ready(9)), Some(Ok(9)));
    assert!(h.is_joined());
    assert_eq!(h.settle(Polled::Ready(3)), Some(Err(JoinError::AlreadyJoined)));
    assert_eq!(h.settle(Polled::Pending), Some(Err(JoinError::AlreadyJoined)));
}

#[test]
fn settle_reports_each_failure() {
    let e = BastionExecutor::new();
    let mut h = e.spawn(std::future::pending::<u32>());
    assert_eq!(h.settle(Polled::Cancelled), Some(Err(JoinError::Cancelled)));
    let mut h = e.spawn(std::future::pending::<u32>());
    assert_eq!(h.settle(Polled::Panicked), Some(Err(JoinError::Panicked)));
    let mut h = e.spawn(std::future::pending::<u32>());
    assert_eq!(h.settle(Polled::Aborted), Some(Err(JoinError::Panicked)));
}

#[test]
fn settle_after_cancel_reads_abort_as_cancelled() {
    let e = BastionExecutor::new();
    let mut h = e.spawn(std::future::pending::<u32>());
    assert!(h.cancel());
    assert_eq!(h.settle(Polled::Aborted), Some(Err(JoinError::Cancelled)));
}

#[test]
fn tokio_cancel_is_reported() {
    let e = TokioExecutor::new().unwrap();
    let mut h = e.spawn(std::future::pending::<u32>());
    assert!(h.cancel());
    assert_eq!(e.block_on(h), Err(JoinError::Cancelled));
}

#[test]
fn bastion_cancel_is_reported() {
    let e = BastionExecutor::new();
    let mut h = e.spawn(std::future::pending::<u32>());
    assert!(h.cancel());
    assert_eq!(e.block_on(h), Err(JoinError::Cancelled));
}

#[test]
fn async_std_cancel_is_not_requested() {
    let e = AsyncStdExecutor::new();
    let mut h = e.spawn(async_double(5));
    assert!(!h.cancel());
    assert_eq!(e.block_on(h), Ok(10));
}

#[test]
fn cancel_after_join_asks_nothing() {
    let e = TokioExecutor::new().unwrap();
    let mut h = e.spawn_blocking(|| 1u8);
    assert_eq!(poll_until_done(&mut h), Ok(1));
    assert!(!h.cancel());
}

#[test]
fn tokio_panic_is_reported() {
    let e = TokioExecutor::new().unwrap();
    let h = e.spawn_blocking(|| -> u32 { panic!("task failure") });
    assert_eq!(e.block_on(h), Err(JoinError::Panicked));
}

#[test]
fn bastion_panic_is_reported() {
    let e = BastionExecutor::new();
    let h = e.spawn(async { panic!("task failure") });
    let r: Result<u32, JoinError> = e.block_on(h);
    assert_eq!(r, Err(JoinError::Panicked));
}

#[test]
fn tokio_runtime_with_few_workers_runs_more_tasks() {
    let runtime = tokio::runtime::Builder::new_multi_thread()
        .worker_threads(2)
        .build()
        .unwrap();
    let e = Executor::with_tokio_runtime(runtime);
    assert_eq!(e.backend(), Backend::Tokio);
    let handles: Vec<JoinHandle<u64>> =
        (0..3u64).map(|i| e.spawn(async move { spin_for(50) + i })).collect();
    for (i, h) in handles.into_iter().enumerate() {
        assert_eq!(e.block_on(h), Ok(50 + i as u64));
    }
}

#[test]
fn tokio_with_runtime_keeps_runtime() {
    let runtime = tokio::runtime::Builder::new_multi_thread()
        .worker_threads(1)
        .build()
        .unwrap();
    let e = TokioExecutor::with_runtime(runtime);
    let h = e.spawn(async_double(8));
    assert_eq!(e.block_on(h), Ok(16));
}

#[test]
fn many_handles_each_get_their_own_result() {
    for b in [Backend::AsyncStd, Backend::Tokio, Backend::Bastion] {
        let e = Executor::new(b).unwrap();
        let handles: Vec<JoinHandle<u64>> =
            (0..100u64).map(|i| e.spawn(async move { i * 3 })).collect();
        let blocking: Vec<JoinHandle<u64>> =
            (0..20u64).map(|i| e.spawn_blocking(move || i + 1000)).collect();
        for (i, h) in handles.into_iter().enumerate().rev() {
            assert_eq!(e.block_on(h), Ok(i as u64 * 3));
        }
        for (i, h) in blocking.into_iter().enumerate() {
            assert_eq!(e.block_on(h), Ok(i as u64 + 1000));
        }
    }
}

#[test]
fn spawns_from_many_threads_keep_results_apart() {
    for b in [Backend::AsyncStd, Backend::Tokio, Backend::Bastion] {
        let e = std::sync::Arc::new(Executor::new(b).unwrap());
        let spawners: Vec<JoinHandle<Vec<JoinHandle<u64>>>> = (0..8u64)
            .map(|k| {
                let inner = std::sync::Arc::clone(&e);
                e.spawn_blocking(move || {
                    (0..10u64).map(|j| inner.spawn(async move { k * 100 + j })).collect()
                })
            })
            .collect();
        for (k, s) in spawners.into_iter().enumerate() {
            let handles = e.block_on(s).unwrap();
            assert_eq!(handles.len(), 10);
            for (j, h) in handles.into_iter().enumerate() {
                assert_eq!(e.block_on(h), Ok(k as u64 * 100 + j as u64));
            }
        }
    }
}

#[test]
fn join_yields_the_task_value_on_each_backend() {
    for b in [Backend::AsyncStd, Backend::Tokio, Backend::Bastion] {
        let e = Executor::new(b).unwrap();
        let h = e.spawn_blocking(|| 2 + 2);
        assert_eq!(e.join(h), Ok(4));
        let h = e.spawn(async_double(21));
        assert_eq!(e.join(h), Ok(42));
        let v = String::from("value");
        let h = e.spawn_blocking(move || v);
        assert_eq!(e.join(h), Ok(String::from("value")));
    }
}

#[test]
fn join_after_poll_reports_already_joined() {
    for b in [Backend::AsyncStd, Backend::Tokio, Backend::Bastion] {
        let e = Executor::new(b).unwrap();
        let mut h = e.spawn_blocking(|| 11u32);
        assert_eq!(poll_until_done(&mut h), Ok(11));
        assert_eq!(e.join(h), Err(JoinError::AlreadyJoined));
    }
}

#[test]
fn join_reports_cancellation() {
    let e = TokioExecutor::new().unwrap();
    let mut h = e.spawn(std::future::pending::<u32>());
    assert!(h.cancel());
    assert_eq!(e.join(h), Err(JoinError::Cancelled));
    let e = BastionExecutor::new();
    let mut h = e.spawn(std::future::pending::<u32>());
    assert!(h.cancel());
    assert_eq!(e.join(h), Err(JoinError::Cancelled));
}

#[test]
fn join_reports_panics() {
    let e = TokioExecutor::new().unwrap();
    let h = e.spawn_blocking(|| -> u32 { panic!("task failure") });
    assert_eq!(e.join(h), Err(JoinError::Panicked));
    let e = BastionExecutor::new();
    let h = e.spawn(async { panic!("task failure") });
    let r: Result<u32, JoinError> = e.join(h);
    assert_eq!(r, Err(JoinError::Panicked));
}

#[test]
fn join_waits_on_a_handle_of_another_runtime() {
    let tokio = TokioExecutor::new().unwrap();
    let async_std = AsyncStdExecutor::new();
    let bastion = BastionExecutor::new();
    let h = tokio.spawn(async_double(4));
    assert_eq!(async_std.join(h), Ok(8));
    let h = bastion.spawn_blocking(|| 3u8);
    assert_eq!(tokio.join(h), Ok(3));
    let h = async_std.spawn(async_identity("ok"));
    assert_eq!(bastion.join(h), Ok("ok"));
}
