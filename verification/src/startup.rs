//! Decisions of the interactive interface's start and end: what a cached
//! generation gives the first frame, and restoring the terminal exactly once.

use vstd::prelude::*;

verus! {

/// What reading the generation cache found.
pub enum CacheResult<G, B, F> {
    /// A cached generation that is up to date.
    Fresh(G),
    /// A cached generation that is out of date, with any retry delay.
    Stale { generation: G, retry_backoff: Option<B> },
    /// A cached generation whose rebuild is deferred by a retry delay.
    RetryDeferred { generation: G, retry_backoff: B },
    /// No cache.
    Missing,
    /// The cache could not be read.
    Failure(F),
}

/// What the first frame starts from: the generation to show at once,
/// whether a background load must start, the retry delay to honour, and the
/// failure to warn about.
pub struct InitialData<G, B, F> {
    pub cached: Option<G>,
    pub needs_background_load: bool,
    pub retry_backoff: Option<B>,
    pub warning: Option<F>,
}

/// The start a cache reading leads to: any cached generation is shown at
/// once; a fresh or deferred one needs no load; a stale, missing or failed
/// cache needs one, and only a failure is warned about.
pub open spec fn initial_data_for<G, B, F>(result: CacheResult<G, B, F>) -> InitialData<G, B, F> {
    match result {
        CacheResult::Fresh(generation) => InitialData {
            cached: Some(generation), needs_background_load: false, retry_backoff: None, warning: None,
        },
        CacheResult::Stale { generation, retry_backoff } => InitialData {
            cached: Some(generation), needs_background_load: true, retry_backoff, warning: None,
        },
        CacheResult::RetryDeferred { generation, retry_backoff } => InitialData {
            cached: Some(generation), needs_background_load: false, retry_backoff: Some(retry_backoff), warning: None,
        },
        CacheResult::Missing => InitialData {
            cached: None, needs_background_load: true, retry_backoff: None, warning: None,
        },
        CacheResult::Failure(failure) => InitialData {
            cached: None, needs_background_load: true, retry_backoff: None, warning: Some(failure),
        },
    }
}

/// Decides the start from a cache reading.
pub fn decide_initial_data<G, B, F>(load_result: CacheResult<G, B, F>) -> (r: InitialData<G, B, F>)
    ensures
        r == initial_data_for(load_result),
{
    match load_result {
        CacheResult::Fresh(generation) => InitialData {
            cached: Some(generation), needs_background_load: false, retry_backoff: None, warning: None,
        },
        CacheResult::Stale { generation, retry_backoff } => InitialData {
            cached: Some(generation), needs_background_load: true, retry_backoff, warning: None,
        },
        CacheResult::RetryDeferred { generation, retry_backoff } => InitialData {
            cached: Some(generation), needs_background_load: false, retry_backoff: Some(retry_backoff), warning: None,
        },
        CacheResult::Missing => InitialData {
            cached: None, needs_background_load: true, retry_backoff: None, warning: None,
        },
        CacheResult::Failure(failure) => InitialData {
            cached: None, needs_background_load: true, retry_backoff: None, warning: Some(failure),
        },
    }
}

/// The first frame always has data or a load on the way: without a cached
/// generation a background load is requested, and only a failed read
/// produces a warning.
pub proof fn law_start_never_idles_without_data<G, B, F>(result: CacheResult<G, B, F>)
    ensures
        initial_data_for(result).cached is None ==> initial_data_for(result).needs_background_load,
        initial_data_for(result).warning is Some <==> result is Failure,
{
}

/// What installing a cached generation led to.
#[derive(Debug, PartialEq, Eq)]
pub enum CachedInstall<E> {
    /// There was no cached generation.
    NoCache,
    /// It was installed; the status says it was loaded from cache.
    Loaded,
    /// The model refused it; the warning names the error and a rebuild from
    /// the source inputs is requested.
    Rejected(E),
}

/// Interprets the model's answer to installing a cached generation (none
/// when there was nothing to install); returns whether a rebuild is needed.
pub fn cached_install_outcome<E>(installed: Option<Result<(), E>>) -> (r: (CachedInstall<E>, bool))
    ensures
        r == match installed {
            None => (CachedInstall::NoCache, false),
            Some(Ok(())) => (CachedInstall::Loaded, false),
            Some(Err(e)) => (CachedInstall::Rejected(e), true),
        },
{
    match installed {
        None => (CachedInstall::NoCache, false),
        Some(Ok(())) => (CachedInstall::Loaded, false),
        Some(Err(e)) => (CachedInstall::Rejected(e), true),
    }
}

/// Whether the terminal still has to be restored.
pub struct TerminalSession {
    active: bool,
}

impl TerminalSession {
    /// Still holds the terminal (raw mode, alternate screen).
    pub closed spec fn is_active(&self) -> bool {
        self.active
    }

    /// A session that has just taken over the terminal.
    pub fn enter() -> (r: Self)
        ensures
            r.is_active(),
    {
        TerminalSession { active: true }
    }

    /// Claims the restoration: true exactly when the terminal still has to
    /// be restored, after which it never has to be again (a shutdown, a
    /// panic hook and a drop may all ask).
    pub fn begin_restore(&mut self) -> (r: bool)
        ensures
            r == old(self).is_active(),
            !final(self).is_active(),
    {
        let r = self.active;
        self.active = false;
        r
    }
}

} // verus!
