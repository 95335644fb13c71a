use tokenx::issue::{catalog_entry, issue_message, SubscriptionIssue, SubscriptionIssueCode};
use tokenx::message::{CatalogMessage, MessageArg};
use tokenx::helpers::{keychain_lookup_failed_issue, keychain_unavailable_issue};

fn args_text(message: &CatalogMessage) -> Vec<(String, String)> {
    match message {
        CatalogMessage::Localized { args, .. } => args
            .iter()
            .map(|(name, value)| {
                let shown = match value {
                    MessageArg::Text(t) => t.clone(),
                    MessageArg::Key(k) => format!("key:{k}"),
                    MessageArg::Nested(_) => "nested".to_string(),
                };
                (name.to_string(), shown)
            })
            .collect(),
        CatalogMessage::Verbatim(_) => Vec::new(),
    }
}

fn key_of(message: &CatalogMessage) -> &'static str {
    match message {
        CatalogMessage::Localized { key, .. } => key,
        CatalogMessage::Verbatim(_) => "",
    }
}

#[test]
fn structured_issue_localizes_without_parsing_english_text() {
    let issue = SubscriptionIssue::new(
        SubscriptionIssueCode::FetchTimeout,
        "provider fetch exceeded the 30s overall timeout",
    )
    .with_field("secs", &30.to_string());

    let message = issue_message(&issue);
    assert_eq!(key_of(&message), "subscription.error.fetch_timeout");
    assert_eq!(args_text(&message), vec![("secs".to_string(), "30".to_string())]);
    assert_eq!(issue.message(), "provider fetch exceeded the 30s overall timeout");
}

#[test]
fn nested_keychain_issues_localize_at_every_level() {
    let mac_only = SubscriptionIssue::new(
        SubscriptionIssueCode::ClaudeNoHomeOrKeychain,
        "No provider credentials found: the home directory is unavailable and the keychain lookup failed: Keychain lookup is only available on macOS",
    )
    .with_cause(SubscriptionIssue::new(
        SubscriptionIssueCode::KeychainMacOnly,
        "Keychain lookup is only available on macOS",
    ));

    match issue_message(&mac_only) {
        CatalogMessage::Localized { key, args } => {
            assert_eq!(key, "subscription.error.claude_no_home_or_keychain");
            assert_eq!(args.len(), 1);
            assert_eq!(args[0].0, "error");
            match &args[0].1 {
                MessageArg::Nested(inner) => {
                    assert_eq!(key_of(inner), "subscription.error.keychain_macos_only");
                    assert!(args_text(inner).is_empty());
                }
                _ => panic!("the cause must be localized in turn"),
            }
        }
        CatalogMessage::Verbatim(_) => panic!("a coded issue is localized"),
    }

    let lookup_failed = SubscriptionIssue::new(
        SubscriptionIssueCode::ClaudeNoHomeOrKeychain,
        "No provider credentials found: the home directory is unavailable and the keychain lookup failed: Keychain lookup failed for service 'Assistant-credentials'",
    )
    .with_cause(
        SubscriptionIssue::new(
            SubscriptionIssueCode::KeychainLookupFailed,
            "Keychain lookup failed for service 'Assistant-credentials'",
        )
        .with_field("service", "Assistant-credentials"),
    );
    match issue_message(&lookup_failed) {
        CatalogMessage::Localized { args, .. } => match &args[0].1 {
            MessageArg::Nested(inner) => {
                assert_eq!(key_of(inner), "subscription.error.keychain_lookup_failed");
                assert_eq!(
                    args_text(inner),
                    vec![("service".to_string(), "Assistant-credentials".to_string())]
                );
            }
            _ => panic!("the cause must be localized in turn"),
        },
        CatalogMessage::Verbatim(_) => panic!("a coded issue is localized"),
    }
}

#[test]
fn unexpected_issues_show_their_recorded_text() {
    let issue = SubscriptionIssue::unexpected("boom: disk full");
    assert_eq!(issue.code(), SubscriptionIssueCode::Unexpected);
    assert!(matches!(issue_message(&issue), CatalogMessage::Verbatim(text) if text == "boom: disk full"));
}

#[test]
fn missing_fields_interpolate_as_empty() {
    let issue = SubscriptionIssue::new(SubscriptionIssueCode::CacheFutureTimestamp, "future")
        .with_field("timestamp", "1001");
    let message = issue_message(&issue);
    assert_eq!(key_of(&message), "subscription.error.cache_future_timestamp");
    assert_eq!(
        args_text(&message),
        vec![
            ("path".to_string(), String::new()),
            ("timestamp".to_string(), "1001".to_string()),
            ("now".to_string(), String::new()),
        ]
    );
}

#[test]
fn minimax_unknown_error_uses_the_catalog_wording() {
    let unknown = SubscriptionIssue::new(SubscriptionIssueCode::MiniMaxApiError, "api error")
        .with_field("site", "cn")
        .with_field("message", "unknown error");
    assert_eq!(
        args_text(&issue_message(&unknown)),
        vec![
            ("site".to_string(), "cn".to_string()),
            ("message".to_string(), "key:subscription.error.minimax_unknown_error".to_string()),
        ]
    );
    let known = SubscriptionIssue::new(SubscriptionIssueCode::MiniMaxApiError, "api error")
        .with_field("message", "quota exhausted");
    assert_eq!(args_text(&issue_message(&known))[1].1, "quota exhausted");
}

#[test]
fn claude_issue_without_cause_shows_its_error_field() {
    let issue = SubscriptionIssue::new(SubscriptionIssueCode::ClaudeNoHomeOrKeychain, "no creds")
        .with_field("error", "keychain locked");
    assert_eq!(args_text(&issue_message(&issue)), vec![("error".to_string(), "keychain locked".to_string())]);
}

#[test]
fn first_attached_field_wins() {
    let issue = SubscriptionIssue::new(SubscriptionIssueCode::CacheRead, "read")
        .with_field("path", "/a")
        .with_field("path", "/b")
        .with_field("other", "x");
    assert_eq!(issue.field("path"), Some("/a"));
    assert_eq!(issue.field("other"), Some("x"));
    assert_eq!(issue.field("missing"), None);
    assert!(issue.cause().is_none());
}

#[test]
fn catalog_lists_each_codes_fields() {
    assert_eq!(catalog_entry(SubscriptionIssueCode::KimiAuthRejected), ("subscription.error.kimi_auth_rejected", vec!["source", "status"]));
    assert_eq!(catalog_entry(SubscriptionIssueCode::ZaiNoApiKey), ("subscription.error.zai_no_api_key", vec![]));
}

#[test]
fn keychain_diagnostics_record_the_service() {
    let unavailable = keychain_unavailable_issue();
    assert_eq!(unavailable.code(), SubscriptionIssueCode::KeychainMacOnly);
    assert_eq!(unavailable.message(), "Keychain lookup is only available on macOS");
    let failed = keychain_lookup_failed_issue("Assistant-credentials");
    assert_eq!(failed.code(), SubscriptionIssueCode::KeychainLookupFailed);
    assert_eq!(failed.message(), "Keychain lookup failed for service 'Assistant-credentials'");
    assert_eq!(failed.field("service"), Some("Assistant-credentials"));
}

#[test]
fn errors_carrying_an_issue_keep_it_and_others_become_unexpected() {
    let carried = || SubscriptionIssue::new(SubscriptionIssueCode::CacheRead, "cannot read").with_field("path", "/tmp/c.json");
    assert_eq!(SubscriptionIssue::from_anyhow(Some(carried()), "ignored"), carried());
    let other = SubscriptionIssue::from_anyhow(None, "request failed: connection reset");
    assert_eq!(other.code(), SubscriptionIssueCode::Unexpected);
    assert_eq!(other.message(), "request failed: connection reset");
    assert_eq!(other.field("path"), None);
}

#[test]
fn duplicates_keep_fields_and_causes() {
    let issue = SubscriptionIssue::new(SubscriptionIssueCode::ClaudeNoHomeOrKeychain, "no credentials")
        .with_field("error", "first")
        .with_field("error", "second")
        .with_cause(keychain_lookup_failed_issue("Assistant-credentials"));
    let copy = issue.duplicate();
    assert_eq!(copy, issue);
    assert_eq!(copy.field("error"), Some("first"));
    assert_eq!(copy.cause().and_then(|c| c.field("service")), Some("Assistant-credentials"));
}

#[test]
fn missing_locale_marker_is_presented_through_its_catalog_entry() {
    let issue = SubscriptionIssue::new(SubscriptionIssueCode::CacheMissingLocale, "missing its locale marker")
        .with_field("path", "/tmp/cache.json");
    let message = issue_message(&issue);
    assert_eq!(key_of(&message), "subscription.error.cache_missing_locale");
    assert_eq!(args_text(&message), vec![("path".to_string(), "/tmp/cache.json".to_string())]);
}
