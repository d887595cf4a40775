//! The single executor that callers hold: exactly one adapter, picked once.
use vstd::prelude::*;
use vstd::future::FutureAdditionalSpecFns;
use std::future::Future;
use tokio::runtime::Runtime as TokioRuntime;
use crate::backend::Backend;
use crate::backend::BackendOptions;
use crate::backend::SelectionError;
use crate::backend::is_selected;
use crate::backend::select_backend;
use crate::backend::selected_count;
use crate::executors::AgnostikExecutor;
use crate::executors::AsyncStdExecutor;
use crate::executors::BastionExecutor;
use crate::executors::ExecutorError;
use crate::executors::TokioExecutor;
use crate::join_handle::JoinHandle;

verus! {

/// An executor bound to one runtime. It holds exactly one adapter, and every
/// call goes to that adapter.
pub enum Executor {
    AsyncStd(AsyncStdExecutor),
    Tokio(TokioExecutor),
    Bastion(BastionExecutor),
}

impl Executor {
    /// An executor over `backend` with default settings. Only tokio owns a
    /// runtime that has to be built, so only tokio can fail.
    pub fn new(backend: Backend) -> (r: Result<Executor, ExecutorError>)
        ensures
            r is Ok ==> r->Ok_0.kind() == backend,
            backend != Backend::Tokio ==> r is Ok,
            r is Err ==> backend == Backend::Tokio && r->Err_0 is Runtime,
    {
        match backend {
            Backend::AsyncStd => Ok(Executor::AsyncStd(AsyncStdExecutor::new())),
            Backend::Tokio => match TokioExecutor::new() {
                Ok(e) => Ok(Executor::Tokio(e)),
                Err(e) => Err(e),
            },
            Backend::Bastion => Ok(Executor::Bastion(BastionExecutor::new())),
        }
    }

    /// An executor over the one runtime that `options` asks for; an error
    /// where it asks for none or for several.
    pub fn from_options(options: BackendOptions) -> (r: Result<Executor, ExecutorError>)
        ensures
            selected_count(options) == 0 <==> r == Err::<Executor, ExecutorError>(
                ExecutorError::Selection(SelectionError::NoBackend),
            ),
            selected_count(options) >= 2 <==> r == Err::<Executor, ExecutorError>(
                ExecutorError::Selection(SelectionError::SeveralBackends),
            ),
            selected_count(options) == 1 && !options.tokio ==> r is Ok,
            r is Ok ==> is_selected(options, r->Ok_0.kind()),
            r is Err && selected_count(options) == 1 ==> options.tokio && r->Err_0 is Runtime,
    {
        match select_backend(options) {
            Ok(backend) => Executor::new(backend),
            Err(e) => Err(ExecutorError::Selection(e)),
        }
    }

    /// A tokio executor over a runtime that the caller has already
    /// configured (thread count, names and the like).
    pub fn with_tokio_runtime(runtime: TokioRuntime) -> (r: Executor)
        ensures
            r.kind() == Backend::Tokio,
            r matches Executor::Tokio(e) && e.spec_runtime() == runtime,
    {
        Executor::Tokio(TokioExecutor::with_runtime(runtime))
    }

    /// The runtime that does this executor's work.
    pub fn backend(&self) -> (r: Backend)
        ensures
            r == self.kind(),
    {
        match self {
            Executor::AsyncStd(_) => Backend::AsyncStd,
            Executor::Tokio(_) => Backend::Tokio,
            Executor::Bastion(_) => Backend::Bastion,
        }
    }
}

impl AgnostikExecutor for Executor {
    open spec fn kind(&self) -> Backend {
        match self {
            Executor::AsyncStd(_) => Backend::AsyncStd,
            Executor::Tokio(_) => Backend::Tokio,
            Executor::Bastion(_) => Backend::Bastion,
        }
    }

    fn spawn<F, T>(&self, future: F) -> (r: JoinHandle<T>)
        where
            F: Future<Output = T> + Send + 'static,
            T: Send + 'static,
    {
        match self {
            Executor::AsyncStd(e) => e.spawn(future),
            Executor::Tokio(e) => e.spawn(future),
            Executor::Bastion(e) => e.spawn(future),
        }
    }

    fn spawn_blocking<F, T>(&self, task: F) -> (r: JoinHandle<T>)
        where
            F: FnOnce() -> T + Send + 'static,
            T: Send + 'static,
    {
        match self {
            Executor::AsyncStd(e) => e.spawn_blocking(task),
            Executor::Tokio(e) => e.spawn_blocking(task),
            Executor::Bastion(e) => e.spawn_blocking(task),
        }
    }

    fn block_on<F, T>(&self, future: F) -> (r: T)
        where
            F: Future<Output = T> + Send + 'static,
            T: Send + 'static,
    {
        match self {
            Executor::AsyncStd(e) => e.block_on(future),
            Executor::Tokio(e) => e.block_on(future),
            Executor::Bastion(e) => e.block_on(future),
        }
    }
}

} // verus!
