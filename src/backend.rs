use vstd::prelude::*;

verus! {

/// The runtimes that can stand behind an executor.
#[derive(Clone, Copy, Debug, PartialEq, Eq, Structural)]
pub enum Backend {
    /// async-std: a general-purpose runtime with a separate blocking pool.
    AsyncStd,
    /// tokio: a runtime instance owned by the executor.
    Tokio,
    /// bastion: a globally registered scheduler with no runtime object to own.
    Bastion,
}

/// Which runtimes a configuration asks for. A usable configuration asks for
/// exactly one.
#[derive(Clone, Copy, Debug, PartialEq, Eq, Structural)]
pub struct BackendOptions {
    pub async_std: bool,
    pub tokio: bool,
    pub bastion: bool,
}

/// Why a configuration does not name a single runtime.
#[derive(Clone, Copy, Debug, PartialEq, Eq, Structural)]
pub enum SelectionError {
    /// No runtime was asked for.
    NoBackend,
    /// More than one runtime was asked for.
    SeveralBackends,
}

/// Whether `options` asks for runtime `b`.
pub open spec fn is_selected(options: BackendOptions, b: Backend) -> bool {
    match b {
        Backend::AsyncStd => options.async_std,
        Backend::Tokio => options.tokio,
        Backend::Bastion => options.bastion,
    }
}

/// How many runtimes `options` asks for.
pub open spec fn selected_count(options: BackendOptions) -> nat {
    (if options.async_std { 1nat } else { 0nat })
        + (if options.tokio { 1nat } else { 0nat })
        + (if options.bastion { 1nat } else { 0nat })
}

/// Picks the one runtime that `options` asks for.
pub fn select_backend(options: BackendOptions) -> (r: Result<Backend, SelectionError>)
    ensures
        selected_count(options) == 0 <==> r == Err::<Backend, SelectionError>(SelectionError::NoBackend),
        selected_count(options) >= 2 <==> r == Err::<Backend, SelectionError>(SelectionError::SeveralBackends),
        selected_count(options) == 1 <==> r is Ok,
        r is Ok ==> is_selected(options, r->Ok_0),
{
    let n: u8 = (if options.async_std { 1u8 } else { 0u8 })
        + (if options.tokio { 1u8 } else { 0u8 })
        + (if options.bastion { 1u8 } else { 0u8 });
    if n == 0 {
        Err(SelectionError::NoBackend)
    } else if n > 1 {
        Err(SelectionError::SeveralBackends)
    } else if options.async_std {
        Ok(Backend::AsyncStd)
    } else if options.tokio {
        Ok(Backend::Tokio)
    } else {
        Ok(Backend::Bastion)
    }
}

/// Selection is exhaustive and exclusive: a configuration yields a runtime
/// exactly when it asks for one and only one, and that runtime is the one it
/// asks for, so no second runtime is ever active beside it.
pub proof fn lemma_selection_exclusive(options: BackendOptions, b: Backend, other: Backend)
    requires
        selected_count(options) == 1,
        is_selected(options, b),
        is_selected(options, other),
    ensures
        b == other,
{
}

} // verus!
