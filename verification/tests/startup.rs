use tokenx::startup::{cached_install_outcome, decide_initial_data, CacheResult, CachedInstall, TerminalSession};

type Generation = &'static str;
type Backoff = u64;
type Failure = &'static str;

#[test]
fn fresh_unified_snapshot_renders_all_tabs_without_background_load() {
    let start = decide_initial_data::<Generation, Backoff, Failure>(CacheResult::Fresh("cached"));
    assert_eq!(start.cached, Some("cached"));
    assert!(!start.needs_background_load);
    assert!(start.retry_backoff.is_none());
    assert!(start.warning.is_none());
}

#[test]
fn stale_unified_snapshot_renders_immediately_and_refreshes_in_background() {
    let start = decide_initial_data::<Generation, Backoff, Failure>(CacheResult::Stale {
        generation: "cached-session",
        retry_backoff: None,
    });
    assert_eq!(start.cached.expect("stale cache must remain immediately visible"), "cached-session");
    assert!(start.needs_background_load);
    assert!(start.retry_backoff.is_none());
    assert!(start.warning.is_none());
}

#[test]
fn missing_cache_has_no_snapshot_and_requests_background_load_without_warning() {
    let start = decide_initial_data::<Generation, Backoff, Failure>(CacheResult::Missing);
    assert!(start.cached.is_none());
    assert!(start.needs_background_load);
    assert!(start.retry_backoff.is_none());
    assert!(start.warning.is_none());
}

#[test]
fn failed_cache_has_no_snapshot_and_surfaces_startup_warning() {
    let start = decide_initial_data::<Generation, Backoff, Failure>(CacheResult::Failure("decode failure: cache digest mismatch"));
    assert!(start.cached.is_none());
    assert!(start.needs_background_load);
    assert!(start.retry_backoff.is_none());
    assert_eq!(start.warning, Some("decode failure: cache digest mismatch"));
}

#[test]
fn deferred_retry_keeps_the_cache_and_its_backoff() {
    let start = decide_initial_data::<Generation, Backoff, Failure>(CacheResult::RetryDeferred {
        generation: "cached",
        retry_backoff: 30,
    });
    assert_eq!(start.cached, Some("cached"));
    assert!(!start.needs_background_load);
    assert_eq!(start.retry_backoff, Some(30));
}

#[test]
fn cached_generation_install_error_warns_and_requests_rebuild() {
    let start = decide_initial_data::<Generation, Backoff, Failure>(CacheResult::Fresh("foreign-universe"));
    let mut needs_background_load = start.needs_background_load;
    assert!(!needs_background_load);
    assert!(start.retry_backoff.is_none());
    assert!(start.warning.is_none());

    let (outcome, rebuild) = cached_install_outcome(Some(Err("cached generation does not match the selected clients")));
    needs_background_load |= rebuild;
    assert_eq!(outcome, CachedInstall::Rejected("cached generation does not match the selected clients"));
    assert!(needs_background_load);
}

#[test]
fn installed_or_absent_cache_needs_no_rebuild() {
    assert_eq!(cached_install_outcome::<&str>(Some(Ok(()))), (CachedInstall::Loaded, false));
    assert_eq!(cached_install_outcome::<&str>(None), (CachedInstall::NoCache, false));
}

#[test]
fn shutdown_restores_terminal_before_waiting_for_persistence() {
    let mut session = TerminalSession::enter();
    assert!(session.begin_restore());
    assert!(!session.begin_restore());
    assert!(!session.begin_restore());
}
