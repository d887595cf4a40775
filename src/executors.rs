//! The executor contract and one adapter per runtime.
use vstd::prelude::*;
use vstd::future::FutureAdditionalSpecFns;
use std::future::Future;
use tokio::runtime::Runtime as TokioRuntime;
use crate::backend::Backend;
use crate::join_handle::InnerJoinHandle;
use crate::join_handle::JoinError;
use crate::join_handle::JoinHandle;
use crate::native::async_std_block_on;
use crate::native::async_std_spawn;
use crate::native::async_std_spawn_blocking;
use crate::native::bastion_run;
use crate::native::bastion_spawn;
use crate::native::bastion_spawn_blocking;
use crate::native::tokio_block_on;
use crate::native::tokio_is_cancelled;
use crate::native::tokio_runtime_new;
use crate::native::tokio_spawn;
use crate::native::tokio_spawn_blocking;

verus! {

/// What every executor offers, whatever runtime stands behind it.
pub trait AgnostikExecutor {
    /// The runtime that does this executor's work.
    spec fn kind(&self) -> Backend;

    /// Starts running `future` concurrently with the caller and returns a
    /// fresh handle to it, on this executor's runtime.
    fn spawn<F, T>(&self, future: F) -> (r: JoinHandle<T>)
        where
            F: Future<Output = T> + Send + 'static,
            T: Send + 'static,
        ensures
            r.spec_backend() == self.kind(),
            !r.spec_is_joined(),
            !r.spec_cancel_requested(),
            r.inner matches InnerJoinHandle::AsyncStd(Some(t)) ==> t@ == future@,
            r.inner matches InnerJoinHandle::Tokio(Some(t)) ==> (t@ matches Ok(v) ==> v == future@),
            r.inner matches InnerJoinHandle::Bastion(Some(t)) ==> (t@ matches Some(v) ==> v == future@),
    ;

    /// Runs `task` once on the runtime's pool for blocking work, off the
    /// caller's thread, and returns a fresh handle to it.
    fn spawn_blocking<F, T>(&self, task: F) -> (r: JoinHandle<T>)
        where
            F: FnOnce() -> T + Send + 'static,
            T: Send + 'static,
        requires
            task.requires(()),
        ensures
            r.spec_backend() == self.kind(),
            !r.spec_is_joined(),
            !r.spec_cancel_requested(),
            r.inner matches InnerJoinHandle::AsyncStd(Some(t)) ==> task.ensures((), t@),
            r.inner matches InnerJoinHandle::Tokio(Some(t)) ==> (t@ matches Ok(v) ==> task.ensures((), v)),
            r.inner matches InnerJoinHandle::Bastion(Some(t)) ==> (t@ matches Some(v) ==> task.ensures((), v)),
    ;

    /// Drives `future` to completion on the calling thread and returns what
    /// it yields. It must not be called from inside an async context: tokio
    /// panics when its `block_on` is reached from inside any tokio runtime,
    /// and the other runtimes may deadlock when reached from their own
    /// workers.
    fn block_on<F, T>(&self, future: F) -> (r: T)
        where
            F: Future<Output = T> + Send + 'static,
            T: Send + 'static,
        ensures
            r == future@,
    ;

    /// Awaits `h` on the calling thread, driven by this executor's
    /// `block_on`, and returns the task's value, or why there is none. The
    /// handle's runtime runs the task; this executor only waits for it. The
    /// same limits as for `block_on` hold.
    fn join<T>(&self, h: JoinHandle<T>) -> (r: Result<T, JoinError>)
        where
            T: Send + 'static,
        ensures
            h.spec_is_joined() ==> r == Err::<T, JoinError>(JoinError::AlreadyJoined),
            h.inner matches InnerJoinHandle::AsyncStd(Some(t)) ==> (r is Ok && r->Ok_0 == t@),
            h.inner matches InnerJoinHandle::Tokio(Some(t)) ==> (t@ matches Ok(v) ==> (r is Ok && r->Ok_0 == v)),
            h.inner matches InnerJoinHandle::Tokio(Some(t)) ==> (t@ is Err ==> (r == Err::<T, JoinError>(JoinError::Cancelled) || r == Err::<T, JoinError>(JoinError::Panicked))),
            h.inner matches InnerJoinHandle::Bastion(Some(t)) ==> (t@ matches Some(v) ==> (r is Ok && r->Ok_0 == v)),
            h.inner matches InnerJoinHandle::Bastion(Some(t)) ==> (t@ is None ==> (r is Err && r->Err_0 == (if h.cancel_requested { JoinError::Cancelled } else { JoinError::Panicked }))),
    {
        let cancel_requested = h.cancel_requested;
        match h.inner {
            InnerJoinHandle::AsyncStd(Some(t)) => Ok(self.block_on(t)),
            InnerJoinHandle::Tokio(Some(t)) => match self.block_on(t) {
                Ok(v) => Ok(v),
                Err(e) => Err(
                    if tokio_is_cancelled(&e) {
                        JoinError::Cancelled
                    } else {
                        JoinError::Panicked
                    },
                ),
            },
            InnerJoinHandle::Bastion(Some(t)) => match self.block_on(t) {
                Some(v) => Ok(v),
                None => Err(
                    if cancel_requested {
                        JoinError::Cancelled
                    } else {
                        JoinError::Panicked
                    },
                ),
            },
            _ => Err(JoinError::AlreadyJoined),
        }
    }
}

/// The async-std adapter. async-std's executor is global, so there is
/// nothing to own.
pub struct AsyncStdExecutor;

impl AsyncStdExecutor {
    pub fn new() -> (r: AsyncStdExecutor) {
        AsyncStdExecutor
    }
}

impl AgnostikExecutor for AsyncStdExecutor {
    open spec fn kind(&self) -> Backend {
        Backend::AsyncStd
    }

    fn spawn<F, T>(&self, future: F) -> (r: JoinHandle<T>)
        where
            F: Future<Output = T> + Send + 'static,
            T: Send + 'static,
    {
        JoinHandle::from_async_std(async_std_spawn(future))
    }

    fn spawn_blocking<F, T>(&self, task: F) -> (r: JoinHandle<T>)
        where
            F: FnOnce() -> T + Send + 'static,
            T: Send + 'static,
    {
        JoinHandle::from_async_std(async_std_spawn_blocking(task))
    }

    fn block_on<F, T>(&self, future: F) -> (r: T)
        where
            F: Future<Output = T> + Send + 'static,
            T: Send + 'static,
    {
        async_std_block_on(future)
    }
}

/// The tokio adapter: it owns the runtime that runs its tasks. `spawn`,
/// `spawn_blocking` and `block_on` all borrow the runtime shared, since
/// tokio's runtime takes each of them through a shared reference and is
/// itself safe for concurrent callers. `block_on` must not be called from
/// inside an async context: tokio panics when it is reached from inside any
/// tokio runtime, this one or another.
pub struct TokioExecutor {
    runtime: TokioRuntime,
}

/// Why an executor could not be built.
#[derive(Debug)]
pub enum ExecutorError {
    /// The configuration does not name exactly one runtime.
    Selection(crate::backend::SelectionError),
    /// The runtime could not be created.
    Runtime(std::io::Error),
}

impl TokioExecutor {
    /// An executor over a new tokio runtime with default settings, or the
    /// error that kept the runtime from being built.
    pub fn new() -> (r: Result<TokioExecutor, ExecutorError>)
        ensures
            r is Err ==> r->Err_0 is Runtime,
    {
        match tokio_runtime_new() {
            Ok(runtime) => Ok(TokioExecutor::with_runtime(runtime)),
            Err(e) => Err(ExecutorError::Runtime(e)),
        }
    }

    /// An executor over a runtime that the caller has already configured.
    pub fn with_runtime(runtime: TokioRuntime) -> (r: TokioExecutor)
        ensures
            r.spec_runtime() == runtime,
    {
        TokioExecutor { runtime }
    }

    /// The runtime that this executor owns and hands its work to.
    pub closed spec fn spec_runtime(&self) -> TokioRuntime {
        self.runtime
    }
}

impl AgnostikExecutor for TokioExecutor {
    open spec fn kind(&self) -> Backend {
        Backend::Tokio
    }

    fn spawn<F, T>(&self, future: F) -> (r: JoinHandle<T>)
        where
            F: Future<Output = T> + Send + 'static,
            T: Send + 'static,
    {
        JoinHandle::from_tokio(tokio_spawn(&self.runtime, future))
    }

    fn spawn_blocking<F, T>(&self, task: F) -> (r: JoinHandle<T>)
        where
            F: FnOnce() -> T + Send + 'static,
            T: Send + 'static,
    {
        JoinHandle::from_tokio(tokio_spawn_blocking(&self.runtime, task))
    }

    fn block_on<F, T>(&self, future: F) -> (r: T)
        where
            F: Future<Output = T> + Send + 'static,
            T: Send + 'static,
    {
        tokio_block_on(&self.runtime, future)
    }
}

/// The bastion adapter. Bastion's pools are global, so there is nothing to
/// own.
pub struct BastionExecutor;

impl BastionExecutor {
    pub fn new() -> (r: BastionExecutor) {
        BastionExecutor
    }
}

impl AgnostikExecutor for BastionExecutor {
    open spec fn kind(&self) -> Backend {
        Backend::Bastion
    }

    fn spawn<F, T>(&self, future: F) -> (r: JoinHandle<T>)
        where
            F: Future<Output = T> + Send + 'static,
            T: Send + 'static,
    {
        JoinHandle::from_bastion(bastion_spawn(future))
    }

    fn spawn_blocking<F, T>(&self, task: F) -> (r: JoinHandle<T>)
        where
            F: FnOnce() -> T + Send + 'static,
            T: Send + 'static,
    {
        JoinHandle::from_bastion(bastion_spawn_blocking(task))
    }

    fn block_on<F, T>(&self, future: F) -> (r: T)
        where
            F: Future<Output = T> + Send + 'static,
            T: Send + 'static,
    {
        bastion_run(future)
    }
}

} // verus!
