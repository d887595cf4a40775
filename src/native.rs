//! The runtimes' own types and calls, each behind a declaration or a small
//! wrapper whose contract the rest of the library relies on.
use vstd::prelude::*;
use vstd::future::FutureAdditionalSpecFns;
use std::future::Future;
use std::pin::Pin;
use std::task::Context;
use std::task::Poll;
use async_std::task::JoinHandle as AsyncStdTask;
use tokio::task::JoinHandle as TokioTask;
use tokio::task::JoinError as TokioJoinError;
use tokio::runtime::Runtime as TokioRuntime;
use lightproc::recoverable_handle::RecoverableHandle;
use lightproc::proc_stack::ProcStack;
use crate::join_handle::JoinHandle;
use crate::join_handle::Polled;

verus! {

#[verifier::external_type_specification]
#[verifier::external_body]
#[verifier::reject_recursive_types(P)]
pub struct ExPin<P>(Pin<P>);

#[verifier::external_type_specification]
#[verifier::reject_recursive_types(T)]
pub struct ExPoll<T>(Poll<T>);

#[verifier::external_type_specification]
#[verifier::external_body]
pub struct ExContext<'a>(Context<'a>);

#[verifier::external_type_specification]
#[verifier::external_body]
#[verifier::reject_recursive_types(T)]
pub struct ExAsyncStdTask<T>(AsyncStdTask<T>);

#[verifier::external_type_specification]
#[verifier::external_body]
#[verifier::reject_recursive_types(T)]
pub struct ExTokioTask<T>(TokioTask<T>);

/// The error in the output of tokio's task handle, declared so that the
/// handle's `Future` output can be named.
#[verifier::external_type_specification]
#[verifier::external_body]
pub struct ExTokioJoinError(TokioJoinError);

#[verifier::external_type_specification]
#[verifier::external_body]
pub struct ExTokioRuntime(TokioRuntime);

#[verifier::external_type_specification]
#[verifier::external_body]
pub struct ExIoError(std::io::Error);

#[verifier::external_type_specification]
#[verifier::external_body]
#[verifier::reject_recursive_types(R)]
pub struct ExRecoverableHandle<R>(RecoverableHandle<R>);

/// Relies on `Pin::into_inner`: a [`JoinHandle`] is `Unpin`, so a pinned
/// reference to it is given back as the plain reference it wraps.
#[verifier::external_body]
pub(crate) fn unpin_handle<'a, T>(p: Pin<&'a mut JoinHandle<T>>) -> &'a mut JoinHandle<T> {
    Pin::into_inner(p)
}

/// Relies on `async_std::task::spawn`: the future starts running on the
/// global async-std executor.
#[verifier::external_body]
pub(crate) fn async_std_spawn<F, T>(future: F) -> (r: AsyncStdTask<T>)
    where
        F: Future<Output = T> + Send + 'static,
        T: Send + 'static,
    ensures
        r@ == future@,
{
    async_std::task::spawn(future)
}

/// Relies on `async_std::task::spawn_blocking`: the closure runs once on
/// async-std's blocking thread pool.
#[verifier::external_body]
pub(crate) fn async_std_spawn_blocking<F, T>(task: F) -> (r: AsyncStdTask<T>)
    where
        F: FnOnce() -> T + Send + 'static,
        T: Send + 'static,
    requires
        task.requires(()),
    ensures
        task.ensures((), r@),
{
    async_std::task::spawn_blocking(task)
}

/// Relies on `async_std::task::block_on`: it drives the future on the
/// calling thread and returns what the future yields.
#[verifier::external_body]
pub(crate) fn async_std_block_on<F, T>(future: F) -> (r: T)
    where
        F: Future<Output = T>,
    ensures
        r == future@,
{
    async_std::task::block_on(future)
}

/// Relies on async-std's `JoinHandle::poll`: pending until the task is done,
/// then its output. async-std has no call that reports a task's panic as a
/// value: polling the handle of a task that panicked panics in the poller,
/// and this wrapper does the same.
#[verifier::external_body]
pub(crate) fn async_std_poll<T>(task: &mut AsyncStdTask<T>, cx: &mut Context<'_>) -> (r: Polled<T>)
    ensures
        r matches Polled::Ready(v) ==> (*old(task))@ == v,
        r is Pending ==> (*final(task))@ == (*old(task))@,
        r is Pending || r is Ready,
{
    match Pin::new(task).poll(cx) {
        Poll::Ready(v) => Polled::Ready(v),
        Poll::Pending => Polled::Pending,
    }
}

/// Relies on `tokio::runtime::Runtime::new`: a multi-threaded runtime with
/// default settings, or the I/O error that kept it from being built.
#[verifier::external_body]
pub(crate) fn tokio_runtime_new() -> (r: Result<TokioRuntime, std::io::Error>) {
    TokioRuntime::new()
}

/// Relies on `tokio::runtime::Runtime::spawn`: the future starts running on
/// the runtime's worker threads.
#[verifier::external_body]
pub(crate) fn tokio_spawn<F, T>(runtime: &TokioRuntime, future: F) -> (r: TokioTask<T>)
    where
        F: Future<Output = T> + Send + 'static,
        T: Send + 'static,
    ensures
        r@ matches Ok(v) ==> v == future@,
{
    runtime.spawn(future)
}

/// Relies on `tokio::runtime::Runtime::spawn_blocking`: the closure runs once
/// on the runtime's blocking thread pool.
#[verifier::external_body]
pub(crate) fn tokio_spawn_blocking<F, T>(runtime: &TokioRuntime, task: F) -> (r: TokioTask<T>)
    where
        F: FnOnce() -> T + Send + 'static,
        T: Send + 'static,
    requires
        task.requires(()),
    ensures
        r@ matches Ok(v) ==> task.ensures((), v),
{
    runtime.spawn_blocking(task)
}

/// Relies on `tokio::runtime::Runtime::block_on`: it drives the future on
/// the calling thread and returns what the future yields.
#[verifier::external_body]
pub(crate) fn tokio_block_on<F, T>(runtime: &TokioRuntime, future: F) -> (r: T)
    where
        F: Future<Output = T>,
    ensures
        r == future@,
{
    runtime.block_on(future)
}

/// Relies on tokio's `JoinHandle::poll`: `None` while the task runs, then
/// its output, which is the task's value or the error that ended it.
#[verifier::external_body]
pub(crate) fn tokio_poll<T>(task: &mut TokioTask<T>, cx: &mut Context<'_>) -> (r: Option<Result<T, TokioJoinError>>)
    ensures
        r matches Some(out) ==> (*old(task))@ == out,
        r is None ==> (*final(task))@ == (*old(task))@,
{
    match Pin::new(task).poll(cx) {
        Poll::Ready(out) => Some(out),
        Poll::Pending => None,
    }
}

/// Relies on tokio's `JoinError::is_cancelled`: whether the task was
/// cancelled rather than panicked.
#[verifier::external_body]
pub(crate) fn tokio_is_cancelled(e: &TokioJoinError) -> (r: bool) {
    e.is_cancelled()
}

/// Relies on tokio's `JoinHandle::abort`: asks the runtime to cancel the task.
#[verifier::external_body]
pub(crate) fn tokio_abort<T>(task: &TokioTask<T>) {
    task.abort()
}

/// Relies on `bastion_executor::pool::spawn`: the future starts running on
/// bastion's global pool, with a default process stack.
#[verifier::external_body]
pub(crate) fn bastion_spawn<F, T>(future: F) -> (r: RecoverableHandle<T>)
    where
        F: Future<Output = T> + Send + 'static,
        T: Send + 'static,
    ensures
        r@ matches Some(v) ==> v == future@,
{
    bastion_executor::pool::spawn(future, ProcStack::default())
}

/// Calls the closure held in `slot`, leaving the slot empty. This is the
/// body of the future through which bastion's blocking pool runs a closure.
pub(crate) fn call_once<F, T>(slot: &mut Option<F>) -> (r: T)
    where
        F: FnOnce() -> T,
    requires
        old(slot).is_some(),
        old(slot).unwrap().requires(()),
    ensures
        final(slot).is_none(),
        old(slot).unwrap().ensures((), r),
{
    let task = slot.take().unwrap();
    task()
}

/// Relies on `bastion_executor::blocking::spawn_blocking`, which only takes
/// a future: the closure is handed over inside a `std::future::poll_fn`
/// future whose first poll calls it, and runs once on bastion's blocking pool.
#[verifier::external_body]
pub(crate) fn bastion_spawn_blocking<F, T>(task: F) -> (r: RecoverableHandle<T>)
    where
        F: FnOnce() -> T + Send + 'static,
        T: Send + 'static,
    requires
        task.requires(()),
    ensures
        r@ matches Some(v) ==> task.ensures((), v),
{
    let mut slot = Some(task);
    let future = std::future::poll_fn(move |_| Poll::Ready(call_once(&mut slot)));
    bastion_executor::blocking::spawn_blocking(future, ProcStack::default())
}

/// Relies on `bastion_executor::run::run`: it drives the future on the
/// calling thread and returns what the future yields.
#[verifier::external_body]
pub(crate) fn bastion_run<F, T>(future: F) -> (r: T)
    where
        F: Future<Output = T>,
    ensures
        r == future@,
{
    bastion_executor::run::run(future, ProcStack::default())
}

/// Relies on lightproc's `RecoverableHandle::poll`: pending until the task
/// is done, then its output, or nothing where it panicked or was cancelled.
#[verifier::external_body]
pub(crate) fn bastion_poll<T>(task: &mut RecoverableHandle<T>, cx: &mut Context<'_>) -> (r: Polled<T>)
    ensures
        r matches Polled::Ready(v) ==> (*old(task))@ == Some(v),
        r is Aborted ==> (*old(task))@ is None,
        r is Pending ==> (*final(task))@ == (*old(task))@,
        r is Pending || r is Ready || r is Aborted,
{
    match Pin::new(task).poll(cx) {
        Poll::Ready(Some(v)) => Polled::Ready(v),
        Poll::Ready(None) => Polled::Aborted,
        Poll::Pending => Polled::Pending,
    }
}

/// Relies on lightproc's `RecoverableHandle::cancel`: asks for the process
/// to be cancelled; no effect where it has already completed.
#[verifier::external_body]
pub(crate) fn bastion_cancel<T>(task: &RecoverableHandle<T>) {
    task.cancel()
}

} // verus!
