//! One task-execution interface over several interchangeable async runtimes:
//! async-std, tokio and bastion.
//!
//! Callers spawn futures, spawn blocking closures onto a pool meant for
//! blocking work, and drive a future to completion from synchronous code,
//! without naming the runtime that does the work. Every spawn hands back the
//! same [`JoinHandle`] type whatever runtime produced it.

pub mod backend;
pub mod executors;
pub mod facade;
pub mod join_handle;
mod native;

pub use backend::Backend;
pub use backend::BackendOptions;
pub use backend::SelectionError;
pub use executors::AgnostikExecutor;
pub use executors::AsyncStdExecutor;
pub use executors::BastionExecutor;
pub use executors::ExecutorError;
pub use executors::TokioExecutor;
pub use facade::Executor;
pub use join_handle::JoinError;
pub use join_handle::JoinHandle;
pub use join_handle::Polled;
