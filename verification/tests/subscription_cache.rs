use tokenx::issue::SubscriptionIssueCode;
use tokenx::subscription_cache::{envelope_for, load_envelope, load_error_issue, CacheEnvelope, CacheLoadError, CACHE_SCHEMA, CACHE_VERSION};

#[derive(Debug, Clone, PartialEq)]
struct Output {
    provider: String,
    plan: Option<String>,
}

fn output() -> Output {
    Output { provider: "codex".to_string(), plan: Some("Pro".to_string()) }
}

fn raw_envelope(version: u32, locale: Option<&str>) -> CacheEnvelope<Output> {
    CacheEnvelope {
        schema: CACHE_SCHEMA.to_string(),
        version,
        timestamp: 1_000,
        locale: locale.map(|l| l.to_string()),
        data: vec![Output { provider: "codex".to_string(), plan: None }],
    }
}

#[test]
fn future_cache_timestamp_is_rejected_instead_of_treated_as_fresh() {
    let envelope = envelope_for(vec![output()], 1_001, "en");

    let error = load_envelope(envelope, 1_000, "en").unwrap_err();
    assert_eq!(error, CacheLoadError::FutureTimestamp { timestamp: 1_001, now: 1_000 });
    let issue = load_error_issue(error, "/tmp/subscription-usage-cache.json");
    assert!(issue.message().contains("future timestamp"));
}

#[test]
fn round_trip_records_locale_and_uses_typed_provider_identity() {
    let output = output();
    let envelope = envelope_for(vec![output.clone()], 1_000, "en");
    assert_eq!(envelope.schema, CACHE_SCHEMA);
    assert_eq!(envelope.version, CACHE_VERSION);
    assert_eq!(envelope.locale.as_deref(), Some("en"));
    assert_eq!(envelope.data[0].provider, "codex");

    assert_eq!(load_envelope(envelope_for(vec![output.clone()], 1_000, "en"), 1_300, "en"), Ok(Some(vec![output.clone()])));
    assert_eq!(load_envelope(envelope_for(vec![output], 1_000, "en"), 1_301, "en"), Ok(None));
}

#[test]
fn cache_from_another_locale_is_invalidated_without_returning_data() {
    let envelope = envelope_for(vec![output()], 1_000, "en");
    assert_eq!(load_envelope(envelope, 1_300, "zh-CN"), Ok(None));
}

#[test]
fn legacy_v1_cache_is_rejected_as_unsupported() {
    let error = load_envelope(raw_envelope(1, None), 1_000, "en").unwrap_err();
    assert_eq!(error, CacheLoadError::UnsupportedVersion { version: 1 });
    let issue = load_error_issue(error, "/tmp/subscription-usage-cache.json");
    assert!(issue.message().contains("unsupported version 1"));
}

#[test]
fn current_cache_without_locale_is_rejected() {
    let error = load_envelope(raw_envelope(CACHE_VERSION, None), 1_000, "en").unwrap_err();
    assert_eq!(error, CacheLoadError::MissingLocale);
    let issue = load_error_issue(error, "/tmp/subscription-usage-cache.json");
    assert!(issue.message().contains("missing its locale marker"));
}

#[test]
fn unsupported_cache_version_is_rejected() {
    let unsupported_version = CACHE_VERSION + 1;
    let error = load_envelope(raw_envelope(unsupported_version, Some("en")), 1_000, "en").unwrap_err();
    assert_eq!(error, CacheLoadError::UnsupportedVersion { version: unsupported_version });
    let issue = load_error_issue(error, "/tmp/subscription-usage-cache.json");
    assert!(issue.message().contains(&format!("unsupported version {unsupported_version}")));
}

#[test]
fn foreign_schema_is_rejected_before_anything_else() {
    let mut envelope = raw_envelope(1, None);
    envelope.schema = "other".to_string();
    assert_eq!(
        load_envelope(envelope, 1_000, "en"),
        Err(CacheLoadError::UnsupportedSchema { schema: "other".to_string() })
    );
}

#[test]
fn saved_outputs_load_back_until_they_expire() {
    for now in [1_000u64, 1_150, 1_300] {
        assert_eq!(load_envelope(envelope_for(vec![output()], 1_000, "zh-CN"), now, "zh-CN"), Ok(Some(vec![output()])));
    }
    assert_eq!(load_envelope(envelope_for(vec![output()], 1_000, "zh-CN"), 99_999, "zh-CN"), Ok(None));
}

#[test]
fn refused_loads_are_reported_with_their_fields() {
    let path = "/tmp/cache.json";

    let schema = load_error_issue(CacheLoadError::UnsupportedSchema { schema: "other".to_string() }, path);
    assert_eq!(schema.code(), SubscriptionIssueCode::CacheUnsupportedSchema);
    assert_eq!(schema.message(), "the Subscription cache /tmp/cache.json has the unsupported schema other");
    assert_eq!(schema.field("path"), Some(path));
    assert_eq!(schema.field("schema"), Some("other"));

    let version = load_error_issue(CacheLoadError::UnsupportedVersion { version: 1 }, path);
    assert_eq!(version.code(), SubscriptionIssueCode::CacheUnsupportedVersion);
    assert_eq!(version.message(), "the Subscription cache /tmp/cache.json has the unsupported version 1");
    assert_eq!(version.field("version"), Some("1"));

    let locale = load_error_issue(CacheLoadError::MissingLocale, path);
    assert_eq!(locale.code(), SubscriptionIssueCode::CacheMissingLocale);
    assert_eq!(locale.message(), "the Subscription cache /tmp/cache.json is missing its locale marker");
    assert_eq!(locale.field("path"), Some(path));

    let future = load_error_issue(CacheLoadError::FutureTimestamp { timestamp: 2_000, now: 1_999 }, path);
    assert_eq!(future.code(), SubscriptionIssueCode::CacheFutureTimestamp);
    assert_eq!(
        future.message(),
        "the Subscription cache /tmp/cache.json has a future timestamp 2000 (the current time is 1999)"
    );
    assert_eq!(future.field("path"), Some(path));
    assert_eq!(future.field("timestamp"), Some("2000"));
    assert_eq!(future.field("now"), Some("1999"));
}
