//! Locale-neutral Subscription diagnostics.
//!
//! Backend code records a stable semantic code, a canonical English
//! diagnostic and structured interpolation fields; presentation chooses the
//! locale later.

use vstd::prelude::*;
use crate::message::{arg_view, args_view, lemma_args_view_push, message_view, ArgView, CatalogMessage, MessageArg, MessageView};
use crate::strings::{owned, str_eq};

verus! {

/// The stable meaning of a Subscription diagnostic.
#[derive(Debug, Clone, Copy, PartialEq, Eq, Structural)]
pub enum SubscriptionIssueCode {
    Unexpected,
    FetchPanicked,
    FetchTimeout,
    WorkerDisconnected,
    KeychainMacOnly,
    KeychainLookupFailed,
    CacheClockBeforeEpoch,
    CacheSerialize,
    CachePersist,
    CacheRead,
    CacheMalformed,
    CacheUnsupportedSchema,
    CacheUnsupportedVersion,
    CacheFutureTimestamp,
    CacheMissingLocale,
    ClaudeReadCredentials,
    ClaudeParseCredentials,
    ClaudeNoHomeOrKeychain,
    ClaudeNoCredentials,
    ClaudeRejected,
    ClaudeRequestFailed,
    ClaudeNoOauth,
    ClaudeNoAccessToken,
    CodexNoHome,
    CodexReadAuth,
    CodexParseAuth,
    CodexNoCredentials,
    CodexNoUsableToken,
    CodexRejected,
    CodexRequestFailed,
    CodexAuthPage,
    CodexNoTokens,
    CodexNoAccessToken,
    GrokNoHome,
    GrokReadCredentials,
    GrokParseCredentials,
    GrokAuthNotObject,
    GrokAuthEntriesNone,
    GrokAuthEntriesMultiple,
    GrokMissingUserId,
    GrokMissingPrincipalId,
    GrokFieldEmpty,
    GrokRejected,
    GrokBillingError,
    GrokParseBilling,
    GrokNoData,
    KimiNoHome,
    KimiNoCredential,
    KimiRequestFailed,
    KimiAuthRejected,
    KimiNoAccessToken,
    KimiCredentialExpired,
    KimiEnvRequired,
    MiniMaxSessionExpired,
    MiniMaxRequestFailed,
    MiniMaxApiError,
    MiniMaxNoUsage,
    MiniMaxNoEnv,
    ZaiQuotaFailed,
    ZaiSubscriptionFailed,
    ZaiNoApiKey,
}

/// One diagnostic: its code, the canonical English message, named fields
/// for interpolation (in the order they were attached) and an optional
/// underlying issue.
#[derive(Debug, PartialEq, Eq)]
pub struct SubscriptionIssue {
    code: SubscriptionIssueCode,
    message: String,
    fields: Vec<(&'static str, String)>,
    cause: Option<Box<SubscriptionIssue>>,
}

/// The first value recorded under `name`, searching from the oldest field.
pub open spec fn first_field_value(fields: Seq<(Seq<char>, Seq<char>)>, name: Seq<char>) -> Option<Seq<char>>
    decreases fields.len(),
{
    if fields.len() == 0 {
        None
    } else if fields[0].0 == name {
        Some(fields[0].1)
    } else {
        first_field_value(fields.drop_first(), name)
    }
}

/// The characters of an optional borrowed string.
pub open spec fn opt_str_view(o: Option<&str>) -> Option<Seq<char>> {
    match o {
        Some(s) => Some(s@),
        None => None,
    }
}

impl SubscriptionIssue {
    /// The issue's code.
    pub closed spec fn spec_code(&self) -> SubscriptionIssueCode {
        self.code
    }

    /// The canonical English message.
    pub closed spec fn spec_message(&self) -> Seq<char> {
        self.message@
    }

    /// The attached fields, oldest first.
    pub closed spec fn spec_fields(&self) -> Seq<(Seq<char>, Seq<char>)> {
        self.fields@.map_values(|p: (&'static str, String)| (p.0@, p.1@))
    }

    /// The underlying issue, if any.
    pub closed spec fn spec_cause(&self) -> Option<SubscriptionIssue> {
        match self.cause {
            Some(b) => Some(*b),
            None => None,
        }
    }

    /// How many causes are nested below this issue.
    pub closed spec fn spec_depth(&self) -> nat
        decreases self,
    {
        match self.cause {
            Some(b) => 1 + (*b).spec_depth(),
            None => 0,
        }
    }

    /// The value a lookup of `name` finds.
    pub open spec fn spec_field(&self, name: Seq<char>) -> Option<Seq<char>> {
        first_field_value(self.spec_fields(), name)
    }

    /// An issue with no fields and no cause.
    pub fn new(code: SubscriptionIssueCode, message: &str) -> (r: Self)
        ensures
            r.spec_code() == code,
            r.spec_message() == message@,
            r.spec_fields() == Seq::<(Seq<char>, Seq<char>)>::empty(),
            r.spec_cause() is None,
    {
        let r = SubscriptionIssue { code, message: owned(message), fields: Vec::new(), cause: None };
        assert(r.spec_fields() =~= Seq::<(Seq<char>, Seq<char>)>::empty());
        r
    }

    /// An issue for a failure with no dedicated code, keeping its rendered
    /// text.
    pub fn unexpected(error: &str) -> (r: Self)
        ensures
            r.spec_code() == SubscriptionIssueCode::Unexpected,
            r.spec_message() == error@,
            r.spec_fields() == Seq::<(Seq<char>, Seq<char>)>::empty(),
            r.spec_cause() is None,
    {
        Self::new(SubscriptionIssueCode::Unexpected, error)
    }

    /// The issue an error stands for: the issue it carries, when it is one
    /// (`found`, what a downcast of the error gave), else an unexpected issue
    /// keeping the error's rendered text.
    pub fn from_anyhow(found: Option<SubscriptionIssue>, rendered: &str) -> (r: Self)
        ensures
            match found {
                Some(issue) => r == issue,
                None => {
                    &&& r.spec_code() == SubscriptionIssueCode::Unexpected
                    &&& r.spec_message() == rendered@
                    &&& r.spec_fields() == Seq::<(Seq<char>, Seq<char>)>::empty()
                    &&& r.spec_cause() is None
                },
            },
    {
        match found {
            Some(issue) => issue,
            None => Self::unexpected(rendered),
        }
    }

    /// The same issue with one more field, after those already attached.
    pub fn with_field(self, name: &'static str, value: &str) -> (r: Self)
        ensures
            r.spec_code() == self.spec_code(),
            r.spec_message() == self.spec_message(),
            r.spec_fields() == self.spec_fields().push((name@, value@)),
            r.spec_cause() == self.spec_cause(),
    {
        let mut r = self;
        let ghost before = r.fields@;
        r.fields.push((name, owned(value)));
        assert(r.fields@.map_values(|p: (&'static str, String)| (p.0@, p.1@))
            =~= before.map_values(|p: (&'static str, String)| (p.0@, p.1@)).push((name@, value@)));
        r
    }

    /// The same issue with `cause` as its underlying issue.
    pub fn with_cause(self, cause: SubscriptionIssue) -> (r: Self)
        ensures
            r.spec_code() == self.spec_code(),
            r.spec_message() == self.spec_message(),
            r.spec_fields() == self.spec_fields(),
            r.spec_cause() == Some(cause),
    {
        let mut r = self;
        r.cause = Some(Box::new(cause));
        r
    }

    /// The issue's code.
    pub fn code(&self) -> (r: SubscriptionIssueCode)
        ensures
            r == self.spec_code(),
    {
        self.code
    }

    /// The first value attached under `name`, if any.
    pub fn field(&self, name: &str) -> (r: Option<&str>)
        ensures
            opt_str_view(r) == self.spec_field(name@),
    {
        let ghost fs = self.spec_fields();
        let mut i: usize = 0;
        assert(fs.skip(0) =~= fs);
        while i < self.fields.len()
            invariant
                i <= self.fields@.len(),
                fs == self.spec_fields(),
                fs.len() == self.fields@.len(),
                first_field_value(fs, name@) == first_field_value(fs.skip(i as int), name@),
            decreases self.fields@.len() - i,
        {
            let (field_name, value) = &self.fields[i];
            assert(fs[i as int] == (field_name@, value@));
            assert(fs.skip(i as int).drop_first() =~= fs.skip(i as int + 1));
            if str_eq(field_name, name) {
                return Some(value.as_str());
            }
            i = i + 1;
        }
        None
    }

    /// The canonical English message.
    pub fn message(&self) -> (r: &str)
        ensures
            r@ == self.spec_message(),
    {
        self.message.as_str()
    }

    /// An independent copy of the issue: same code, message and fields, and a
    /// copy of its cause.
    pub fn duplicate(&self) -> (r: Self)
        ensures
            same_issue(r, *self),
        decreases self.spec_depth(),
    {
        let mut fields: Vec<(&'static str, String)> = Vec::new();
        let mut i: usize = 0;
        while i < self.fields.len()
            invariant
                i <= self.fields@.len(),
                fields@.len() == i,
                forall|j: int| 0 <= j < i ==> (#[trigger] fields@[j]).0 == self.fields@[j].0 && fields@[j].1@ == self.fields@[j].1@,
            decreases self.fields@.len() - i,
        {
            let (name, value) = &self.fields[i];
            fields.push((*name, owned(value.as_str())));
            i = i + 1;
        }
        let cause = match &self.cause {
            Some(c) => {
                proof {
                    lemma_cause_is_shallower(*self);
                }
                Some(Box::new((&**c).duplicate()))
            },
            None => None,
        };
        let r = SubscriptionIssue { code: self.code, message: owned(self.message.as_str()), fields, cause };
        assert(r.spec_fields() =~= self.spec_fields());
        r
    }

    /// The underlying issue, if any.
    pub fn cause(&self) -> (r: Option<&SubscriptionIssue>)
        ensures
            match r {
                Some(c) => self.spec_cause() == Some(*c),
                None => self.spec_cause() is None,
            },
    {
        match &self.cause {
            Some(c) => Some(&**c),
            None => None,
        }
    }
}

/// `a` and `b` hold the same diagnostic: code, message, fields, and the
/// same cause, if any.
pub open spec fn same_issue(a: SubscriptionIssue, b: SubscriptionIssue) -> bool
    decreases a.spec_depth(),
{
    &&& a.spec_code() == b.spec_code()
    &&& a.spec_message() == b.spec_message()
    &&& a.spec_fields() == b.spec_fields()
    &&& match (a.spec_cause(), b.spec_cause()) {
        (Some(x), Some(y)) => {
            proof {
                lemma_cause_is_shallower(a);
            }
            same_issue(x, y)
        },
        (None, None) => true,
        _ => false,
    }
}

/// A cause is nested less deeply than the issue it belongs to.
pub proof fn lemma_cause_is_shallower(issue: SubscriptionIssue)
    ensures
        issue.spec_cause() matches Some(c) ==> c.spec_depth() < issue.spec_depth(),
{
}

/// The catalog entry of each code and the fields it interpolates, in order.
pub open spec fn catalog(code: SubscriptionIssueCode) -> (&'static str, Seq<&'static str>) {
    match code {
        SubscriptionIssueCode::FetchPanicked => ("subscription.error.fetch_panicked", seq![]),
        SubscriptionIssueCode::FetchTimeout => ("subscription.error.fetch_timeout", seq!["secs"]),
        SubscriptionIssueCode::WorkerDisconnected => ("subscription.error.worker_disconnected", seq![]),
        SubscriptionIssueCode::KeychainMacOnly => ("subscription.error.keychain_macos_only", seq![]),
        SubscriptionIssueCode::KeychainLookupFailed => ("subscription.error.keychain_lookup_failed", seq!["service"]),
        SubscriptionIssueCode::CacheClockBeforeEpoch => ("subscription.error.cache_clock_before_epoch", seq![]),
        SubscriptionIssueCode::CacheSerialize => ("subscription.error.cache_serialize", seq![]),
        SubscriptionIssueCode::CachePersist => ("subscription.error.cache_persist", seq!["path"]),
        SubscriptionIssueCode::CacheRead => ("subscription.error.cache_read", seq!["path"]),
        SubscriptionIssueCode::CacheMalformed => ("subscription.error.cache_malformed", seq!["path"]),
        SubscriptionIssueCode::CacheUnsupportedSchema => ("subscription.error.cache_unsupported_schema", seq!["path", "schema"]),
        SubscriptionIssueCode::CacheUnsupportedVersion => ("subscription.error.cache_unsupported_version", seq!["path", "version"]),
        SubscriptionIssueCode::CacheFutureTimestamp => ("subscription.error.cache_future_timestamp", seq!["path", "timestamp", "now"]),
        SubscriptionIssueCode::CacheMissingLocale => ("subscription.error.cache_missing_locale", seq!["path"]),
        SubscriptionIssueCode::ClaudeReadCredentials => ("subscription.error.claude_read_credentials", seq!["path"]),
        SubscriptionIssueCode::ClaudeParseCredentials => ("subscription.error.claude_parse_credentials", seq!["path"]),
        SubscriptionIssueCode::ClaudeNoHomeOrKeychain => ("subscription.error.claude_no_home_or_keychain", seq!["error"]),
        SubscriptionIssueCode::ClaudeNoCredentials => ("subscription.error.claude_no_credentials", seq![]),
        SubscriptionIssueCode::ClaudeRejected => ("subscription.error.claude_rejected", seq![]),
        SubscriptionIssueCode::ClaudeRequestFailed => ("subscription.error.claude_request_failed", seq!["status"]),
        SubscriptionIssueCode::ClaudeNoOauth => ("subscription.error.claude_no_oauth", seq![]),
        SubscriptionIssueCode::ClaudeNoAccessToken => ("subscription.error.claude_no_access_token", seq![]),
        SubscriptionIssueCode::CodexNoHome => ("subscription.error.codex_no_home", seq![]),
        SubscriptionIssueCode::CodexReadAuth => ("subscription.error.codex_read_auth", seq!["path"]),
        SubscriptionIssueCode::CodexParseAuth => ("subscription.error.codex_parse_auth", seq!["path"]),
        SubscriptionIssueCode::CodexNoCredentials => ("subscription.error.codex_no_credentials", seq!["path"]),
        SubscriptionIssueCode::CodexNoUsableToken => ("subscription.error.codex_no_usable_token", seq!["path"]),
        SubscriptionIssueCode::CodexRejected => ("subscription.error.codex_rejected", seq![]),
        SubscriptionIssueCode::CodexRequestFailed => ("subscription.error.codex_request_failed", seq!["status"]),
        SubscriptionIssueCode::CodexAuthPage => ("subscription.error.codex_auth_page", seq![]),
        SubscriptionIssueCode::CodexNoTokens => ("subscription.error.codex_no_tokens", seq![]),
        SubscriptionIssueCode::CodexNoAccessToken => ("subscription.error.codex_no_access_token", seq![]),
        SubscriptionIssueCode::GrokNoHome => ("subscription.error.grok_no_home", seq![]),
        SubscriptionIssueCode::GrokReadCredentials => ("subscription.error.grok_read_credentials", seq!["path"]),
        SubscriptionIssueCode::GrokParseCredentials => ("subscription.error.grok_parse_credentials", seq!["path"]),
        SubscriptionIssueCode::GrokAuthNotObject => ("subscription.error.grok_auth_not_object", seq![]),
        SubscriptionIssueCode::GrokAuthEntriesNone => ("subscription.error.grok_auth_entries_none", seq![]),
        SubscriptionIssueCode::GrokAuthEntriesMultiple => ("subscription.error.grok_auth_entries_multiple", seq!["count"]),
        SubscriptionIssueCode::GrokMissingUserId => ("subscription.error.grok_missing_user_id", seq![]),
        SubscriptionIssueCode::GrokMissingPrincipalId => ("subscription.error.grok_missing_principal_id", seq![]),
        SubscriptionIssueCode::GrokFieldEmpty => ("subscription.error.grok_field_empty", seq!["field"]),
        SubscriptionIssueCode::GrokRejected => ("subscription.error.grok_rejected", seq![]),
        SubscriptionIssueCode::GrokBillingError => ("subscription.error.grok_billing_error", seq!["detail"]),
        SubscriptionIssueCode::GrokParseBilling => ("subscription.error.grok_parse_billing", seq![]),
        SubscriptionIssueCode::GrokNoData => ("subscription.error.grok_no_data", seq![]),
        SubscriptionIssueCode::KimiNoHome => ("subscription.error.kimi_no_home", seq![]),
        SubscriptionIssueCode::KimiNoCredential => ("subscription.error.kimi_no_credential", seq!["path"]),
        SubscriptionIssueCode::KimiRequestFailed => ("subscription.error.kimi_request_failed", seq!["status"]),
        SubscriptionIssueCode::KimiAuthRejected => ("subscription.error.kimi_auth_rejected", seq!["source", "status"]),
        SubscriptionIssueCode::KimiNoAccessToken => ("subscription.error.kimi_no_access_token", seq![]),
        SubscriptionIssueCode::KimiCredentialExpired => ("subscription.error.kimi_credential_expired", seq![]),
        SubscriptionIssueCode::KimiEnvRequired => ("subscription.error.kimi_env_required", seq!["env", "source"]),
        SubscriptionIssueCode::MiniMaxSessionExpired => ("subscription.error.minimax_session_expired", seq!["site"]),
        SubscriptionIssueCode::MiniMaxRequestFailed => ("subscription.error.minimax_request_failed", seq!["site", "status"]),
        SubscriptionIssueCode::MiniMaxApiError => ("subscription.error.minimax_api_error", seq!["site", "message"]),
        SubscriptionIssueCode::MiniMaxNoUsage => ("subscription.error.minimax_no_usage", seq!["site"]),
        SubscriptionIssueCode::MiniMaxNoEnv => ("subscription.error.minimax_no_env", seq!["env"]),
        SubscriptionIssueCode::ZaiQuotaFailed => ("subscription.error.zai_quota_failed", seq!["status"]),
        SubscriptionIssueCode::ZaiSubscriptionFailed => ("subscription.error.zai_subscription_failed", seq!["status"]),
        SubscriptionIssueCode::ZaiNoApiKey => ("subscription.error.zai_no_api_key", seq![]),
        SubscriptionIssueCode::Unexpected => ("", seq![]),
    }
}

/// The value shown for field `name`: the first one attached, or nothing.
pub open spec fn shown_field(issue: SubscriptionIssue, name: Seq<char>) -> Seq<char> {
    match issue.spec_field(name) {
        Some(v) => v,
        None => Seq::empty(),
    }
}

/// The message presentation shows for `issue`. An unexpected issue shows its
/// recorded English text. A missing-credentials issue shows its cause's own
/// message when it has one (else its `error` field); a MiniMax API error
/// shows the catalog's own wording for the provider's "unknown error"; every
/// other code shows its catalog entry with its fields, missing ones empty.
pub open spec fn presented(issue: SubscriptionIssue) -> MessageView
    decreases issue.spec_depth(),
{
    let (key, names) = catalog(issue.spec_code());
    match issue.spec_code() {
        SubscriptionIssueCode::Unexpected => MessageView::Verbatim(issue.spec_message()),
        SubscriptionIssueCode::ClaudeNoHomeOrKeychain => MessageView::Localized {
            key: key@,
            args: seq![("error"@, match issue.spec_cause() {
                Some(c) => {
                    proof {
                        lemma_cause_is_shallower(issue);
                    }
                    ArgView::Nested(Box::new(presented(c)))
                },
                None => ArgView::Text(shown_field(issue, "error"@)),
            })],
        },
        SubscriptionIssueCode::MiniMaxApiError => MessageView::Localized {
            key: key@,
            args: seq![
                ("site"@, ArgView::Text(shown_field(issue, "site"@))),
                ("message"@, if shown_field(issue, "message"@) == "unknown error"@ {
                    ArgView::Key("subscription.error.minimax_unknown_error"@)
                } else {
                    ArgView::Text(shown_field(issue, "message"@))
                }),
            ],
        },
        _ => MessageView::Localized {
            key: key@,
            args: names.map_values(|n: &'static str| (n@, ArgView::Text(shown_field(issue, n@)))),
        },
    }
}

/// The catalog entry of `code` and the fields it interpolates.
pub fn catalog_entry(code: SubscriptionIssueCode) -> (r: (&'static str, Vec<&'static str>))
    ensures
        r.0 == catalog(code).0,
        r.1@ == catalog(code).1,
{
    match code {
        SubscriptionIssueCode::FetchPanicked => ("subscription.error.fetch_panicked", vec![]),
        SubscriptionIssueCode::FetchTimeout => ("subscription.error.fetch_timeout", vec!["secs"]),
        SubscriptionIssueCode::WorkerDisconnected => ("subscription.error.worker_disconnected", vec![]),
        SubscriptionIssueCode::KeychainMacOnly => ("subscription.error.keychain_macos_only", vec![]),
        SubscriptionIssueCode::KeychainLookupFailed => ("subscription.error.keychain_lookup_failed", vec!["service"]),
        SubscriptionIssueCode::CacheClockBeforeEpoch => ("subscription.error.cache_clock_before_epoch", vec![]),
        SubscriptionIssueCode::CacheSerialize => ("subscription.error.cache_serialize", vec![]),
        SubscriptionIssueCode::CachePersist => ("subscription.error.cache_persist", vec!["path"]),
        SubscriptionIssueCode::CacheRead => ("subscription.error.cache_read", vec!["path"]),
        SubscriptionIssueCode::CacheMalformed => ("subscription.error.cache_malformed", vec!["path"]),
        SubscriptionIssueCode::CacheUnsupportedSchema => ("subscription.error.cache_unsupported_schema", vec!["path", "schema"]),
        SubscriptionIssueCode::CacheUnsupportedVersion => ("subscription.error.cache_unsupported_version", vec!["path", "version"]),
        SubscriptionIssueCode::CacheFutureTimestamp => ("subscription.error.cache_future_timestamp", vec!["path", "timestamp", "now"]),
        SubscriptionIssueCode::CacheMissingLocale => ("subscription.error.cache_missing_locale", vec!["path"]),
        SubscriptionIssueCode::ClaudeReadCredentials => ("subscription.error.claude_read_credentials", vec!["path"]),
        SubscriptionIssueCode::ClaudeParseCredentials => ("subscription.error.claude_parse_credentials", vec!["path"]),
        SubscriptionIssueCode::ClaudeNoHomeOrKeychain => ("subscription.error.claude_no_home_or_keychain", vec!["error"]),
        SubscriptionIssueCode::ClaudeNoCredentials => ("subscription.error.claude_no_credentials", vec![]),
        SubscriptionIssueCode::ClaudeRejected => ("subscription.error.claude_rejected", vec![]),
        SubscriptionIssueCode::ClaudeRequestFailed => ("subscription.error.claude_request_failed", vec!["status"]),
        SubscriptionIssueCode::ClaudeNoOauth => ("subscription.error.claude_no_oauth", vec![]),
        SubscriptionIssueCode::ClaudeNoAccessToken => ("subscription.error.claude_no_access_token", vec![]),
        SubscriptionIssueCode::CodexNoHome => ("subscription.error.codex_no_home", vec![]),
        SubscriptionIssueCode::CodexReadAuth => ("subscription.error.codex_read_auth", vec!["path"]),
        SubscriptionIssueCode::CodexParseAuth => ("subscription.error.codex_parse_auth", vec!["path"]),
        SubscriptionIssueCode::CodexNoCredentials => ("subscription.error.codex_no_credentials", vec!["path"]),
        SubscriptionIssueCode::CodexNoUsableToken => ("subscription.error.codex_no_usable_token", vec!["path"]),
        SubscriptionIssueCode::CodexRejected => ("subscription.error.codex_rejected", vec![]),
        SubscriptionIssueCode::CodexRequestFailed => ("subscription.error.codex_request_failed", vec!["status"]),
        SubscriptionIssueCode::CodexAuthPage => ("subscription.error.codex_auth_page", vec![]),
        SubscriptionIssueCode::CodexNoTokens => ("subscription.error.codex_no_tokens", vec![]),
        SubscriptionIssueCode::CodexNoAccessToken => ("subscription.error.codex_no_access_token", vec![]),
        SubscriptionIssueCode::GrokNoHome => ("subscription.error.grok_no_home", vec![]),
        SubscriptionIssueCode::GrokReadCredentials => ("subscription.error.grok_read_credentials", vec!["path"]),
        SubscriptionIssueCode::GrokParseCredentials => ("subscription.error.grok_parse_credentials", vec!["path"]),
        SubscriptionIssueCode::GrokAuthNotObject => ("subscription.error.grok_auth_not_object", vec![]),
        SubscriptionIssueCode::GrokAuthEntriesNone => ("subscription.error.grok_auth_entries_none", vec![]),
        SubscriptionIssueCode::GrokAuthEntriesMultiple => ("subscription.error.grok_auth_entries_multiple", vec!["count"]),
        SubscriptionIssueCode::GrokMissingUserId => ("subscription.error.grok_missing_user_id", vec![]),
        SubscriptionIssueCode::GrokMissingPrincipalId => ("subscription.error.grok_missing_principal_id", vec![]),
        SubscriptionIssueCode::GrokFieldEmpty => ("subscription.error.grok_field_empty", vec!["field"]),
        SubscriptionIssueCode::GrokRejected => ("subscription.error.grok_rejected", vec![]),
        SubscriptionIssueCode::GrokBillingError => ("subscription.error.grok_billing_error", vec!["detail"]),
        SubscriptionIssueCode::GrokParseBilling => ("subscription.error.grok_parse_billing", vec![]),
        SubscriptionIssueCode::GrokNoData => ("subscription.error.grok_no_data", vec![]),
        SubscriptionIssueCode::KimiNoHome => ("subscription.error.kimi_no_home", vec![]),
        SubscriptionIssueCode::KimiNoCredential => ("subscription.error.kimi_no_credential", vec!["path"]),
        SubscriptionIssueCode::KimiRequestFailed => ("subscription.error.kimi_request_failed", vec!["status"]),
        SubscriptionIssueCode::KimiAuthRejected => ("subscription.error.kimi_auth_rejected", vec!["source", "status"]),
        SubscriptionIssueCode::KimiNoAccessToken => ("subscription.error.kimi_no_access_token", vec![]),
        SubscriptionIssueCode::KimiCredentialExpired => ("subscription.error.kimi_credential_expired", vec![]),
        SubscriptionIssueCode::KimiEnvRequired => ("subscription.error.kimi_env_required", vec!["env", "source"]),
        SubscriptionIssueCode::MiniMaxSessionExpired => ("subscription.error.minimax_session_expired", vec!["site"]),
        SubscriptionIssueCode::MiniMaxRequestFailed => ("subscription.error.minimax_request_failed", vec!["site", "status"]),
        SubscriptionIssueCode::MiniMaxApiError => ("subscription.error.minimax_api_error", vec!["site", "message"]),
        SubscriptionIssueCode::MiniMaxNoUsage => ("subscription.error.minimax_no_usage", vec!["site"]),
        SubscriptionIssueCode::MiniMaxNoEnv => ("subscription.error.minimax_no_env", vec!["env"]),
        SubscriptionIssueCode::ZaiQuotaFailed => ("subscription.error.zai_quota_failed", vec!["status"]),
        SubscriptionIssueCode::ZaiSubscriptionFailed => ("subscription.error.zai_subscription_failed", vec!["status"]),
        SubscriptionIssueCode::ZaiNoApiKey => ("subscription.error.zai_no_api_key", vec![]),
        SubscriptionIssueCode::Unexpected => ("", vec![]),
    }
}

/// Appending one argument appends its abstract form.
/// The shown value of field `name`.
fn shown_field_value(issue: &SubscriptionIssue, name: &str) -> (r: String)
    ensures
        r@ == shown_field(*issue, name@),
{
    match issue.field(name) {
        Some(v) => owned(v),
        None => String::new(),
    }
}

/// The message presentation shows for `issue`, before localization.
pub fn issue_message(issue: &SubscriptionIssue) -> (r: CatalogMessage)
    ensures
        message_view(r) == presented(*issue),
    decreases issue.spec_depth(),
{
    let code = issue.code();
    let (key, names) = catalog_entry(code);
    match code {
        SubscriptionIssueCode::Unexpected => {
            return CatalogMessage::Verbatim(owned(issue.message()));
        },
        SubscriptionIssueCode::ClaudeNoHomeOrKeychain => {
            let error = match issue.cause() {
                Some(c) => {
                    proof {
                        lemma_cause_is_shallower(*issue);
                    }
                    MessageArg::Nested(Box::new(issue_message(c)))
                },
                None => MessageArg::Text(shown_field_value(issue, "error")),
            };
            let args = vec![("error", error)];
            proof {
                reveal_strlit("error");
                lemma_args_view_push(Seq::empty(), args@[0]);
                assert(args@ =~= Seq::<(&'static str, MessageArg)>::empty().push(args@[0]));
                assert(args_view(Seq::<(&'static str, MessageArg)>::empty()) =~= Seq::<(Seq<char>, ArgView)>::empty());
            }
            return CatalogMessage::Localized { key, args };
        },
        SubscriptionIssueCode::MiniMaxApiError => {
            let site = shown_field_value(issue, "site");
            let message = shown_field_value(issue, "message");
            let message_arg = if str_eq(message.as_str(), "unknown error") {
                MessageArg::Key("subscription.error.minimax_unknown_error")
            } else {
                MessageArg::Text(message)
            };
            let args = vec![("site", MessageArg::Text(site)), ("message", message_arg)];
            proof {
                let e = Seq::<(&'static str, MessageArg)>::empty();
                lemma_args_view_push(e, args@[0]);
                lemma_args_view_push(e.push(args@[0]), args@[1]);
                assert(args@ =~= e.push(args@[0]).push(args@[1]));
                assert(args_view(e) =~= Seq::<(Seq<char>, ArgView)>::empty());
                let want = presented(*issue);
                let got = message_view(CatalogMessage::Localized { key, args });
                assert(args_view(args@) =~= seq![
                    ("site"@, ArgView::Text(shown_field(*issue, "site"@))),
                    ("message"@, arg_view(message_arg)),
                ]);
                assert(got == want);
            }
            return CatalogMessage::Localized { key, args };
        },
        _ => {},
    }
    let mut args: Vec<(&'static str, MessageArg)> = Vec::new();
    let mut i: usize = 0;
    let ghost target = names@.map_values(|n: &'static str| (n@, ArgView::Text(shown_field(*issue, n@))));
    assert(args_view(args@) =~= target.take(0));
    while i < names.len()
        invariant
            i <= names@.len(),
            names@ == catalog(code).1,
            target == names@.map_values(|n: &'static str| (n@, ArgView::Text(shown_field(*issue, n@)))),
            args_view(args@) == target.take(i as int),
        decreases names@.len() - i,
    {
        let name = names[i];
        let value = shown_field_value(issue, name);
        let ghost before = args@;
        args.push((name, MessageArg::Text(value)));
        proof {
            lemma_args_view_push(before, (name, MessageArg::Text(value)));
            assert(target.take(i as int + 1) =~= target.take(i as int).push(target[i as int]));
        }
        i = i + 1;
    }
    assert(target.take(names@.len() as int) =~= target);
    CatalogMessage::Localized { key, args }
}

/// Attaching a field never changes what a lookup of another name finds, and
/// a lookup of the attached name finds the new value unless an earlier field
/// already used that name (the first one wins).
pub proof fn law_field_lookup_after_attach(
    fields: Seq<(Seq<char>, Seq<char>)>,
    name: Seq<char>,
    value: Seq<char>,
    other: Seq<char>,
)
    ensures
        first_field_value(fields.push((name, value)), name) == (match first_field_value(fields, name) {
            Some(v) => Some(v),
            None => Some(value),
        }),
        other != name ==> first_field_value(fields.push((name, value)), other) == first_field_value(fields, other),
    decreases fields.len(),
{
    if fields.len() == 0 {
        assert(fields.push((name, value)).drop_first() =~= fields);
    } else {
        law_field_lookup_after_attach(fields.drop_first(), name, value, other);
        assert(fields.push((name, value)).drop_first() =~= fields.drop_first().push((name, value)));
    }
}

/// Issues holding the same diagnostic are presented alike, so a copy made by
/// `duplicate` shows exactly what the original shows.
pub proof fn law_same_issues_present_alike(a: SubscriptionIssue, b: SubscriptionIssue)
    requires
        same_issue(a, b),
    ensures
        presented(a) == presented(b),
    decreases a.spec_depth(),
{
    if let (Some(x), Some(y)) = (a.spec_cause(), b.spec_cause()) {
        lemma_cause_is_shallower(a);
        law_same_issues_present_alike(x, y);
    }
    assert forall|n: Seq<char>| shown_field(a, n) == shown_field(b, n) by {}
    let names = catalog(a.spec_code()).1;
    assert(names.map_values(|n: &'static str| (n@, ArgView::Text(shown_field(a, n@))))
        =~= names.map_values(|n: &'static str| (n@, ArgView::Text(shown_field(b, n@)))));
}

/// Presentation never reads the recorded English text of a coded issue:
/// two issues with the same code (other than `Unexpected`), the same fields
/// and causes presented alike are presented alike, whatever their messages.
pub proof fn law_presentation_ignores_english_text(a: SubscriptionIssue, b: SubscriptionIssue)
    requires
        a.spec_code() == b.spec_code(),
        a.spec_code() != SubscriptionIssueCode::Unexpected,
        a.spec_fields() == b.spec_fields(),
        match (a.spec_cause(), b.spec_cause()) {
            (Some(x), Some(y)) => presented(x) == presented(y),
            (None, None) => true,
            _ => false,
        },
    ensures
        presented(a) == presented(b),
{
    assert forall|n: Seq<char>| shown_field(a, n) == shown_field(b, n) by {}
    let names = catalog(a.spec_code()).1;
    assert(names.map_values(|n: &'static str| (n@, ArgView::Text(shown_field(a, n@))))
        =~= names.map_values(|n: &'static str| (n@, ArgView::Text(shown_field(b, n@)))));
}

} // verus!
