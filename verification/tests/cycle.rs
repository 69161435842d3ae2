use mural_client::{
    delay_from, on_apply_result, on_cache_listing, on_digest_response, on_interval_response,
    on_store_result, ApplyRun, CommandOutcome, Config, CycleState, Desktop, DownloadEvent, Error,
    HttpText, Phase,
};

fn response(status: u16, body: &str) -> HttpText {
    HttpText::Response { status, body: body.to_string() }
}

#[test]
fn a_fresh_state_has_no_digest_and_a_short_fallback() {
    let st = CycleState::new();
    assert_eq!(st.last_digest, "");
    assert_eq!(st.last_delay_s, 5);
}

#[test]
fn a_full_cycle_downloads_stores_applies_and_schedules() {
    // The digest endpoint answers "abc123", the wallpaper endpoint a PNG,
    // the interval endpoint "300": the cycle stores abc123.png, applies it,
    // and sleeps to one second past the next 300-second boundary.
    let mut st = CycleState::new();

    let (phase, failure) = on_digest_response(&st, response(200, "abc123"));
    assert_eq!(failure, None);
    assert_eq!(phase, Phase::Fetching { digest: "abc123".to_string() });

    let (phase, failure) = on_cache_listing("abc123".to_string(), Ok(Vec::new()), "/data/wallpapers");
    assert_eq!(failure, None);
    assert_eq!(phase, Phase::Downloading { digest: "abc123".to_string() });

    let event = DownloadEvent::Response { status: 200, content_type: Some("image/png".to_string()) };
    let (phase, failure) = on_wallpaper(phase, event);
    assert_eq!(failure, None);
    assert_eq!(
        phase,
        Phase::Storing { digest: "abc123".to_string(), file_name: "abc123.png".to_string() }
    );

    let (phase, failure) = on_store_result(
        "abc123".to_string(),
        "abc123.png".to_string(),
        Ok(()),
        "/data/wallpapers/abc123.png",
    );
    assert_eq!(failure, None);
    assert_eq!(
        phase,
        Phase::Applying { digest: "abc123".to_string(), file_name: "abc123.png".to_string() }
    );

    let mut run = ApplyRun::new(Desktop::Generic, "/data/wallpapers/abc123.png");
    while let Some(_command) = run.next_command() {
        run.record(CommandOutcome::Exited { code: Some(0) });
    }
    let applied = run.into_result();
    assert_eq!(applied, Ok(()));

    let (phase, failure) = on_apply_result(&mut st, "abc123".to_string(), applied);
    assert_eq!(failure, None);
    assert_eq!(phase, Phase::Scheduling);
    assert_eq!(st.last_digest, "abc123");

    let (phase, failure) = on_interval_response(&mut st, response(200, "300"));
    assert_eq!(failure, None);
    assert!(2 <= st.last_delay_s && st.last_delay_s <= 301);
    assert_eq!(phase, Phase::Sleeping { delay_s: st.last_delay_s });
}

// A thin shim so the scenario above reads like the loop: the Downloading
// phase carries the digest the wallpaper response belongs to.
fn on_wallpaper(phase: Phase, event: DownloadEvent) -> (Phase, Option<Error>) {
    match phase {
        Phase::Downloading { digest } => mural_client::on_wallpaper_response(digest, event),
        other => panic!("expected Downloading, got {:?}", other),
    }
}

#[test]
fn an_unchanged_digest_skips_download_and_apply() {
    // First cycle applies "d1"; the second sees the same digest and goes
    // straight to scheduling.
    let mut st = CycleState::new();
    let (_, _) = on_digest_response(&st, response(200, "d1"));
    let (phase, failure) = on_apply_result(&mut st, "d1".to_string(), Ok(()));
    assert_eq!((phase, failure), (Phase::Scheduling, None));
    assert_eq!(st.last_digest, "d1");

    let (phase, failure) = on_digest_response(&st, response(200, "d1"));
    assert_eq!(failure, None);
    assert_eq!(phase, Phase::Scheduling);
}

#[test]
fn a_cached_digest_is_applied_without_a_download() {
    // The digest changed but its file is already in the cache: apply the
    // cached file, no Downloading phase.
    let st = CycleState::new();
    let (phase, failure) = on_digest_response(&st, response(200, "new1"));
    assert_eq!(failure, None);
    assert_eq!(phase, Phase::Fetching { digest: "new1".to_string() });

    let listing = vec!["old.png".to_string(), "new1.png".to_string()];
    let (phase, failure) = on_cache_listing("new1".to_string(), Ok(listing), "/data/wallpapers");
    assert_eq!(failure, None);
    assert_eq!(
        phase,
        Phase::Applying { digest: "new1".to_string(), file_name: "new1.png".to_string() }
    );
}

#[test]
fn a_refused_digest_fails_the_cycle_and_keeps_the_old_delay() {
    // The digest endpoint answers 500: the cycle logs a protocol failure,
    // the last digest stays, and a failed interval fetch falls back to the
    // previous delay; the loop goes on.
    let mut st = CycleState::new();
    st.last_digest = "keep".to_string();
    st.last_delay_s = 42;

    let (phase, failure) = on_digest_response(&st, response(500, "Internal Server Error"));
    assert_eq!(phase, Phase::Scheduling);
    assert!(matches!(failure, Some(Error::ProtocolFailure(_))));
    assert_eq!(st.last_digest, "keep");

    let (phase, failure) = on_interval_response(&mut st, response(500, "Internal Server Error"));
    assert_eq!(failure, Some(Error::InvalidInterval));
    assert_eq!(st.last_delay_s, 42);
    assert_eq!(phase, Phase::Sleeping { delay_s: 42 });
}

#[test]
fn a_transport_error_fails_the_cycle_as_transport() {
    let st = CycleState::new();
    let (phase, failure) =
        on_digest_response(&st, HttpText::Transport { message: "connection refused".to_string() });
    assert_eq!(phase, Phase::Scheduling);
    assert_eq!(failure, Some(Error::TransportFailure("connection refused".to_string())));
}

#[test]
fn a_failed_apply_keeps_the_old_digest_and_retries_from_the_cache() {
    // The setter exits with code 1: the failure carries that code, the
    // digest does not advance, and the next cycle finds the stored file in
    // the cache — it retries the apply without re-downloading.
    let mut st = CycleState::new();
    st.last_digest = "old".to_string();

    let (phase, _) = on_digest_response(&st, response(200, "fresh"));
    assert_eq!(phase, Phase::Fetching { digest: "fresh".to_string() });

    let mut run = ApplyRun::new(Desktop::Generic, "/data/wallpapers/fresh.png");
    run.next_command().unwrap();
    run.record(CommandOutcome::Exited { code: Some(1) });
    let applied = run.into_result();

    let (phase, failure) = on_apply_result(&mut st, "fresh".to_string(), applied);
    assert_eq!(phase, Phase::Scheduling);
    assert_eq!(failure, Some(Error::ApplyFailure { exit_code: Some(1) }));
    assert_eq!(st.last_digest, "old");

    // Next cycle: same digest again, and the file stored last time is hit.
    let (phase, _) = on_digest_response(&st, response(200, "fresh"));
    assert_eq!(phase, Phase::Fetching { digest: "fresh".to_string() });
    let listing = vec!["fresh.png".to_string()];
    let (phase, failure) = on_cache_listing("fresh".to_string(), Ok(listing), "/data/wallpapers");
    assert_eq!(failure, None);
    assert_eq!(
        phase,
        Phase::Applying { digest: "fresh".to_string(), file_name: "fresh.png".to_string() }
    );
}

#[test]
fn cache_failures_abort_the_cycle_with_their_paths() {
    let (phase, failure) = on_cache_listing(
        "d".to_string(),
        Err("permission denied".to_string()),
        "/data/wallpapers",
    );
    assert_eq!(phase, Phase::Scheduling);
    assert_eq!(
        failure,
        Some(Error::CacheListFailure {
            path: "/data/wallpapers".to_string(),
            message: "permission denied".to_string(),
        })
    );

    let (phase, failure) = on_store_result(
        "d".to_string(),
        "d.png".to_string(),
        Err("disk full".to_string()),
        "/data/wallpapers/d.png",
    );
    assert_eq!(phase, Phase::Scheduling);
    assert_eq!(
        failure,
        Some(Error::CacheWriteFailure {
            path: "/data/wallpapers/d.png".to_string(),
            message: "disk full".to_string(),
        })
    );
}

#[test]
fn a_wallpaper_response_without_a_content_type_fails_the_cycle() {
    let event = DownloadEvent::Response { status: 200, content_type: None };
    let (phase, failure) = mural_client::on_wallpaper_response("d".to_string(), event);
    assert_eq!(phase, Phase::Scheduling);
    assert!(matches!(failure, Some(Error::ProtocolFailure(_))));

    let event = DownloadEvent::Response { status: 503, content_type: Some("image/png".to_string()) };
    let (phase, failure) = mural_client::on_wallpaper_response("d".to_string(), event);
    assert_eq!(phase, Phase::Scheduling);
    assert!(matches!(failure, Some(Error::ProtocolFailure(_))));
}

#[test]
fn a_successful_interval_updates_the_fallback_delay() {
    let mut st = CycleState::new();
    st.last_delay_s = 42;
    let (phase, failure) = on_interval_response(&mut st, response(200, "300"));
    assert_eq!(failure, None);
    assert_ne!(st.last_delay_s, 42);
    assert!(2 <= st.last_delay_s && st.last_delay_s <= 301);
    assert_eq!(phase, Phase::Sleeping { delay_s: st.last_delay_s });

    // The exact value for a fixed clock: at second 1000, interval 300, the
    // sleep is 201 seconds.
    assert_eq!(delay_from(300, 1000), Ok(201));
}

#[test]
fn config_defaults_and_getters() {
    let c = Config::default();
    assert_eq!(c.server_url(), "http://localhost:46666");
    assert_eq!(c.pool_name(), "default");
    let c = Config::new("https://pool.example".to_string(), "office".to_string());
    assert_eq!(c.server_url(), "https://pool.example");
    assert_eq!(c.pool_name(), "office");
}

#[test]
fn only_startup_failures_are_fatal() {
    assert!(Error::StartupFailure("no data directory".to_string()).is_fatal());
    assert!(!Error::InvalidInterval.is_fatal());
    assert!(!Error::TransportFailure("x".to_string()).is_fatal());
    assert!(!Error::ApplyFailure { exit_code: Some(1) }.is_fatal());
}
