//! The join handle shared by every runtime: one value type, whatever runtime
//! ran the task, that yields the task's outcome exactly once.
use vstd::prelude::*;
use vstd::future::FutureAdditionalSpecFns;
use std::future::Future;
use std::pin::Pin;
use std::task::Context;
use std::task::Poll;
use async_std::task::JoinHandle as AsyncStdTask;
use tokio::task::JoinHandle as TokioTask;
use lightproc::recoverable_handle::RecoverableHandle;
use crate::backend::Backend;
use crate::native::async_std_poll;
use crate::native::bastion_cancel;
use crate::native::bastion_poll;
use crate::native::tokio_abort;
use crate::native::tokio_is_cancelled;
use crate::native::tokio_poll;
use crate::native::unpin_handle;

verus! {

/// Why awaiting a task gave no value.
#[derive(Clone, Copy, Debug, PartialEq, Eq, Structural)]
pub enum JoinError {
    /// The task was cancelled before it finished.
    Cancelled,
    /// The task panicked.
    Panicked,
    /// The outcome was already handed out by an earlier poll of this handle.
    AlreadyJoined,
}

/// What one poll of a runtime's own task handle reported.
#[derive(Debug)]
pub enum Polled<T> {
    /// The task has not finished yet.
    Pending,
    /// The task finished with this value.
    Ready(T),
    /// The runtime reports the task as cancelled.
    Cancelled,
    /// The runtime reports the task as panicked.
    Panicked,
    /// The runtime reports that the task ended without a value, and not why.
    Aborted,
}

/// The runtime's own handle, or nothing once the outcome has been handed out.
/// The variant, which names the runtime, never changes.
#[verifier::reject_recursive_types(T)]
pub enum InnerJoinHandle<T> {
    AsyncStd(Option<AsyncStdTask<T>>),
    Tokio(Option<TokioTask<T>>),
    Bastion(Option<RecoverableHandle<T>>),
}

/// A handle to a spawned task. Awaiting it yields the task's value, or why
/// there is none; it gives the value out once, and reports
/// [`JoinError::AlreadyJoined`] to every later poll. The runtime's own handle
/// is let go as soon as it has reported an outcome, so it is never polled
/// again after that. Dropping a handle lets the task run on, detached.
/// Awaiting it through an executor's `join` is the way whose result the
/// contracts fix.
#[verifier::reject_recursive_types(T)]
pub struct JoinHandle<T> {
    /// The runtime's own handle. Contracts speak of it to say what the task
    /// yields when awaited.
    pub inner: InnerJoinHandle<T>,
    /// Whether cancellation was asked for through this handle.
    pub cancel_requested: bool,
}

/// The outcome that a poll reports, and whether the handle is spent after
/// it, for a handle that is spent or not (`joined`), through which
/// cancellation was or was not asked for (`cancel_requested`), when the
/// runtime's own handle reports `polled`.
pub open spec fn join_step<T>(joined: bool, cancel_requested: bool, polled: Polled<T>) -> (bool, Option<Result<T, JoinError>>) {
    if joined {
        (true, Some(Err(JoinError::AlreadyJoined)))
    } else {
        match polled {
            Polled::Pending => (false, None),
            Polled::Ready(v) => (true, Some(Ok(v))),
            Polled::Cancelled => (true, Some(Err(JoinError::Cancelled))),
            Polled::Panicked => (true, Some(Err(JoinError::Panicked))),
            Polled::Aborted => (true, Some(Err(
                if cancel_requested { JoinError::Cancelled } else { JoinError::Panicked },
            ))),
        }
    }
}

/// A handle yields an outcome at most once: after any poll that reported an
/// outcome, every later poll reports [`JoinError::AlreadyJoined`], whatever
/// the runtime says, so it never hands out a second, different value.
pub proof fn lemma_join_at_most_once<T>(cancel_requested: bool, first: Polled<T>, later: Polled<T>)
    requires
        join_step(false, cancel_requested, first).1 is Some,
    ensures
        join_step(false, cancel_requested, first).0,
        join_step(join_step(false, cancel_requested, first).0, cancel_requested, later)
            == (true, Some(Err::<T, JoinError>(JoinError::AlreadyJoined))),
{
}

impl<T> JoinHandle<T> {
    /// The runtime that runs the task.
    pub open spec fn spec_backend(&self) -> Backend {
        match self.inner {
            InnerJoinHandle::AsyncStd(_) => Backend::AsyncStd,
            InnerJoinHandle::Tokio(_) => Backend::Tokio,
            InnerJoinHandle::Bastion(_) => Backend::Bastion,
        }
    }

    /// Whether the outcome has been handed out.
    pub open spec fn spec_is_joined(&self) -> bool {
        match self.inner {
            InnerJoinHandle::AsyncStd(h) => h is None,
            InnerJoinHandle::Tokio(h) => h is None,
            InnerJoinHandle::Bastion(h) => h is None,
        }
    }

    /// Whether cancellation was asked for through this handle.
    pub open spec fn spec_cancel_requested(&self) -> bool {
        self.cancel_requested
    }

    pub(crate) fn from_async_std(task: AsyncStdTask<T>) -> (r: JoinHandle<T>)
        ensures
            r.inner == InnerJoinHandle::AsyncStd(Some(task)),
            r.spec_backend() == Backend::AsyncStd,
            !r.spec_is_joined(),
            !r.spec_cancel_requested(),
    {
        JoinHandle { inner: InnerJoinHandle::AsyncStd(Some(task)), cancel_requested: false }
    }

    pub(crate) fn from_tokio(task: TokioTask<T>) -> (r: JoinHandle<T>)
        ensures
            r.inner == InnerJoinHandle::Tokio(Some(task)),
            r.spec_backend() == Backend::Tokio,
            !r.spec_is_joined(),
            !r.spec_cancel_requested(),
    {
        JoinHandle { inner: InnerJoinHandle::Tokio(Some(task)), cancel_requested: false }
    }

    pub(crate) fn from_bastion(task: RecoverableHandle<T>) -> (r: JoinHandle<T>)
        ensures
            r.inner == InnerJoinHandle::Bastion(Some(task)),
            r.spec_backend() == Backend::Bastion,
            !r.spec_is_joined(),
            !r.spec_cancel_requested(),
    {
        JoinHandle { inner: InnerJoinHandle::Bastion(Some(task)), cancel_requested: false }
    }

    /// The runtime that runs the task.
    #[verifier::when_used_as_spec(spec_backend)]
    pub fn backend(&self) -> (r: Backend)
        ensures
            r == self.spec_backend(),
    {
        match self.inner {
            InnerJoinHandle::AsyncStd(_) => Backend::AsyncStd,
            InnerJoinHandle::Tokio(_) => Backend::Tokio,
            InnerJoinHandle::Bastion(_) => Backend::Bastion,
        }
    }

    /// Whether the outcome has already been handed out.
    #[verifier::when_used_as_spec(spec_is_joined)]
    pub fn is_joined(&self) -> (r: bool)
        ensures
            r == self.spec_is_joined(),
    {
        match &self.inner {
            InnerJoinHandle::AsyncStd(h) => h.is_none(),
            InnerJoinHandle::Tokio(h) => h.is_none(),
            InnerJoinHandle::Bastion(h) => h.is_none(),
        }
    }

    /// Takes what the runtime's own handle reported and returns the outcome
    /// to hand out, if any. Once an outcome has been handed out the runtime's
    /// handle is let go, and every later call reports
    /// [`JoinError::AlreadyJoined`].
    pub fn settle(&mut self, polled: Polled<T>) -> (r: Option<Result<T, JoinError>>)
        ensures
            (final(self).spec_is_joined(), r)
                == join_step(old(self).spec_is_joined(), old(self).spec_cancel_requested(), polled),
            final(self).spec_backend() == old(self).spec_backend(),
            final(self).spec_cancel_requested() == old(self).spec_cancel_requested(),
            r is None ==> *final(self) == *old(self),
    {
        if self.is_joined() {
            return Some(Err(JoinError::AlreadyJoined));
        }
        let outcome = match polled {
            Polled::Pending => {
                return None;
            },
            Polled::Ready(v) => Ok(v),
            Polled::Cancelled => Err(JoinError::Cancelled),
            Polled::Panicked => Err(JoinError::Panicked),
            Polled::Aborted => Err(
                if self.cancel_requested { JoinError::Cancelled } else { JoinError::Panicked },
            ),
        };
        self.release();
        Some(outcome)
    }

    /// Lets go of the runtime's own handle; the runtime stays the same.
    fn release(&mut self)
        ensures
            final(self).spec_is_joined(),
            final(self).spec_backend() == old(self).spec_backend(),
            final(self).spec_cancel_requested() == old(self).spec_cancel_requested(),
    {
        let backend = self.backend();
        self.inner = match backend {
            Backend::AsyncStd => InnerJoinHandle::AsyncStd(None),
            Backend::Tokio => InnerJoinHandle::Tokio(None),
            Backend::Bastion => InnerJoinHandle::Bastion(None),
        };
    }

    /// Polls the task once: `None` while it runs, else its outcome. The first
    /// outcome is handed out once; later polls report
    /// [`JoinError::AlreadyJoined`]. A value handed out is the one that the
    /// runtime's own handle yields when awaited. async-std reports a task's
    /// panic by resuming it in the poller rather than as a value, so on that
    /// runtime a panicked task panics here too.
    pub fn poll_join(&mut self, cx: &mut Context<'_>) -> (r: Option<Result<T, JoinError>>)
        ensures
            exists|p: Polled<T>|
                #![trigger join_step(old(self).spec_is_joined(), old(self).spec_cancel_requested(), p)]
                (final(self).spec_is_joined(), r)
                    == join_step(old(self).spec_is_joined(), old(self).spec_cancel_requested(), p),
            old(self).spec_is_joined() ==> r == Some(Err::<T, JoinError>(JoinError::AlreadyJoined)),
            r is None <==> !final(self).spec_is_joined(),
            final(self).spec_backend() == old(self).spec_backend(),
            final(self).spec_cancel_requested() == old(self).spec_cancel_requested(),
            r matches Some(Ok(v)) ==> match old(self).inner {
                InnerJoinHandle::AsyncStd(Some(t)) => t@ == v,
                InnerJoinHandle::Tokio(Some(t)) => t@ matches Ok(w) && w == v,
                InnerJoinHandle::Bastion(Some(t)) => t@ == Some(v),
                _ => false,
            },
            r is None ==> match (old(self).inner, final(self).inner) {
                (InnerJoinHandle::AsyncStd(Some(a)), InnerJoinHandle::AsyncStd(Some(b))) => a@ == b@,
                (InnerJoinHandle::Tokio(Some(a)), InnerJoinHandle::Tokio(Some(b))) => a@ == b@,
                (InnerJoinHandle::Bastion(Some(a)), InnerJoinHandle::Bastion(Some(b))) => a@ == b@,
                _ => false,
            },
            r == Some(Err::<T, JoinError>(JoinError::Cancelled)) && old(self).spec_backend() == Backend::Bastion
                ==> old(self).spec_cancel_requested(),
    {
        let polled = match &mut self.inner {
            InnerJoinHandle::AsyncStd(Some(task)) => async_std_poll(task, cx),
            InnerJoinHandle::Tokio(Some(task)) => match tokio_poll(task, cx) {
                None => Polled::Pending,
                Some(Ok(v)) => Polled::Ready(v),
                Some(Err(e)) => if tokio_is_cancelled(&e) {
                    Polled::Cancelled
                } else {
                    Polled::Panicked
                },
            },
            InnerJoinHandle::Bastion(Some(task)) => bastion_poll(task, cx),
            _ => Polled::Pending,
        };
        let ghost joined = self.spec_is_joined();
        let ghost cancel_requested = self.spec_cancel_requested();
        let ghost reported = polled;
        assert(joined == old(self).spec_is_joined());
        assert(cancel_requested == old(self).spec_cancel_requested());
        let r = self.settle(polled);
        assert(join_step(joined, cancel_requested, reported) == (self.spec_is_joined(), r));
        r
    }

    /// Asks the runtime to cancel the task, where the runtime can be asked
    /// without awaiting: tokio and bastion can, async-std cannot. Returns
    /// whether the request was made; nothing is asked of a task whose outcome
    /// was already handed out. A cancelled task that had not yet finished
    /// then reports [`JoinError::Cancelled`].
    pub fn cancel(&mut self) -> (r: bool)
        ensures
            r == (!old(self).spec_is_joined() && old(self).spec_backend() != Backend::AsyncStd),
            final(self).spec_cancel_requested() == (old(self).spec_cancel_requested() || r),
            final(self).spec_is_joined() == old(self).spec_is_joined(),
            final(self).spec_backend() == old(self).spec_backend(),
    {
        let asked = match &self.inner {
            InnerJoinHandle::AsyncStd(_) => false,
            InnerJoinHandle::Tokio(Some(task)) => {
                tokio_abort(task);
                true
            },
            InnerJoinHandle::Bastion(Some(task)) => {
                bastion_cancel(task);
                true
            },
            _ => false,
        };
        if asked {
            self.cancel_requested = true;
        }
        asked
    }
}

impl<T> Future for JoinHandle<T> {
    type Output = Result<T, JoinError>;

    fn poll(self: Pin<&mut Self>, cx: &mut Context<'_>) -> Poll<Self::Output> {
        let this = unpin_handle(self);
        match this.poll_join(cx) {
            Some(outcome) => Poll::Ready(outcome),
            None => Poll::Pending,
        }
    }
}

} // verus!
