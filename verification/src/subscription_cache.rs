//! The Subscription usage cache envelope: what a save records and when a load
//! accepts it.
//!
//! Reading and writing the file, and JSON encoding, happen at the edge; this
//! module decides, from the decoded envelope, the current time and the active
//! locale, whether the cached outputs are returned, ignored, or rejected.

use vstd::prelude::*;
use crate::date_display::{decimal, decimal_text};
use crate::issue::{SubscriptionIssue, SubscriptionIssueCode};
use crate::strings::{owned, push_all, str_eq};

verus! {

broadcast use vstd::string::group_string_axioms;

/// The schema name every envelope carries.
pub const CACHE_SCHEMA: &'static str = "tokenx.subscription-usage";

/// The only envelope version this build reads.
pub const CACHE_VERSION: u32 = 2;

/// Cached outputs older than this many seconds are ignored.
pub const CACHE_MAX_AGE_SECS: u64 = 300;

/// The decoded cache file.
pub struct CacheEnvelope<T> {
    pub schema: String,
    pub version: u32,
    pub timestamp: u64,
    pub locale: Option<String>,
    pub data: Vec<T>,
}

/// Why a decoded envelope was refused.
#[derive(Debug, PartialEq, Eq)]
pub enum CacheLoadError {
    /// The envelope names another schema.
    UnsupportedSchema { schema: String },
    /// The envelope has another version (such as the legacy version 1).
    UnsupportedVersion { version: u32 },
    /// The envelope does not record the locale it was written under.
    MissingLocale,
    /// The envelope claims to have been written after `now`.
    FutureTimestamp { timestamp: u64, now: u64 },
}

/// The schema name as characters.
pub open spec fn schema_name() -> Seq<char> {
    CACHE_SCHEMA@
}

/// `envelope` is what a save of `data` at `timestamp` under `locale` writes.
pub open spec fn is_envelope_for<T>(envelope: CacheEnvelope<T>, data: Vec<T>, timestamp: u64, locale: Seq<char>) -> bool {
    &&& envelope.schema@ == schema_name()
    &&& envelope.version == CACHE_VERSION
    &&& envelope.timestamp == timestamp
    &&& envelope.locale matches Some(l) && l@ == locale
    &&& envelope.data == data
}

/// The outcome of loading `envelope` at `now` under `locale`: refused for a
/// foreign schema, another version, a missing locale marker or a timestamp in
/// the future (checked in that order); ignored (`None`) when written under
/// another locale or more than `CACHE_MAX_AGE_SECS` ago; else its outputs.
pub open spec fn load_outcome<T>(envelope: CacheEnvelope<T>, now: u64, locale: Seq<char>)
    -> Result<Option<Vec<T>>, CacheLoadError>
{
    if envelope.schema@ != schema_name() {
        Err(CacheLoadError::UnsupportedSchema { schema: envelope.schema })
    } else if envelope.version != CACHE_VERSION {
        Err(CacheLoadError::UnsupportedVersion { version: envelope.version })
    } else if envelope.locale is None {
        Err(CacheLoadError::MissingLocale)
    } else if envelope.locale->0@ != locale {
        Ok(None)
    } else if envelope.timestamp > now {
        Err(CacheLoadError::FutureTimestamp { timestamp: envelope.timestamp, now })
    } else if now - envelope.timestamp > CACHE_MAX_AGE_SECS {
        Ok(None)
    } else {
        Ok(Some(envelope.data))
    }
}

/// The envelope a save writes: current schema and version, the save time and
/// the locale the outputs were rendered for.
pub fn envelope_for<T>(data: Vec<T>, timestamp: u64, locale: &str) -> (r: CacheEnvelope<T>)
    ensures
        is_envelope_for(r, data, timestamp, locale@),
{
    CacheEnvelope {
        schema: owned(CACHE_SCHEMA),
        version: CACHE_VERSION,
        timestamp,
        locale: Some(owned(locale)),
        data,
    }
}

/// Decides what a decoded envelope yields at `now` under `locale`.
pub fn load_envelope<T>(envelope: CacheEnvelope<T>, now: u64, locale: &str) -> (r: Result<Option<Vec<T>>, CacheLoadError>)
    ensures
        r == load_outcome(envelope, now, locale@),
{
    let ghost e = envelope;
    let CacheEnvelope { schema, version, timestamp, locale: cache_locale, data } = envelope;
    if !str_eq(schema.as_str(), CACHE_SCHEMA) {
        return Err(CacheLoadError::UnsupportedSchema { schema });
    }
    if version != CACHE_VERSION {
        return Err(CacheLoadError::UnsupportedVersion { version });
    }
    let cache_locale = match cache_locale {
        Some(l) => l,
        None => {
            return Err(CacheLoadError::MissingLocale);
        },
    };
    if !str_eq(cache_locale.as_str(), locale) {
        return Ok(None);
    }
    if timestamp > now {
        return Err(CacheLoadError::FutureTimestamp { timestamp, now });
    }
    if now - timestamp > CACHE_MAX_AGE_SECS {
        return Ok(None);
    }
    Ok(Some(data))
}

/// What a save writes, a load under the same locale gives back while it is
/// at most `CACHE_MAX_AGE_SECS` old; after that it is ignored, and under any
/// other locale it is ignored at once. A clock that reads earlier than the
/// save is refused rather than trusted.
pub proof fn law_saved_outputs_load_back<T>(
    envelope: CacheEnvelope<T>,
    data: Vec<T>,
    saved_at: u64,
    locale: Seq<char>,
    now: u64,
    other_locale: Seq<char>,
)
    requires
        is_envelope_for(envelope, data, saved_at, locale),
    ensures
        saved_at <= now && now - saved_at <= CACHE_MAX_AGE_SECS ==> load_outcome(envelope, now, locale) == Ok::<Option<Vec<T>>, CacheLoadError>(Some(data)),
        saved_at <= now && now - saved_at > CACHE_MAX_AGE_SECS ==> load_outcome(envelope, now, locale) == Ok::<Option<Vec<T>>, CacheLoadError>(None),
        saved_at > now ==> load_outcome(envelope, now, locale) == Err::<Option<Vec<T>>, CacheLoadError>(CacheLoadError::FutureTimestamp { timestamp: saved_at, now }),
        other_locale != locale ==> load_outcome(envelope, now, other_locale) == Ok::<Option<Vec<T>>, CacheLoadError>(None),
{
}

/// The code of the issue a refused load is reported as.
pub open spec fn load_error_code(error: CacheLoadError) -> SubscriptionIssueCode {
    match error {
        CacheLoadError::UnsupportedSchema { .. } => SubscriptionIssueCode::CacheUnsupportedSchema,
        CacheLoadError::UnsupportedVersion { .. } => SubscriptionIssueCode::CacheUnsupportedVersion,
        CacheLoadError::MissingLocale => SubscriptionIssueCode::CacheMissingLocale,
        CacheLoadError::FutureTimestamp { .. } => SubscriptionIssueCode::CacheFutureTimestamp,
    }
}

/// The English diagnostic of a refused load of the cache at `path`.
pub open spec fn load_error_message(error: CacheLoadError, path: Seq<char>) -> Seq<char> {
    match error {
        CacheLoadError::UnsupportedSchema { schema } => "the Subscription cache "@ + path
            + " has the unsupported schema "@ + schema@,
        CacheLoadError::UnsupportedVersion { version } => "the Subscription cache "@ + path
            + " has the unsupported version "@ + decimal(version as nat),
        CacheLoadError::MissingLocale => "the Subscription cache "@ + path + " is missing its locale marker"@,
        CacheLoadError::FutureTimestamp { timestamp, now } => "the Subscription cache "@ + path
            + " has a future timestamp "@ + decimal(timestamp as nat) + " (the current time is "@
            + decimal(now as nat) + ")"@,
    }
}

/// The fields a refused load of the cache at `path` carries, for the
/// localized message: the path and the offending values.
pub open spec fn load_error_fields(error: CacheLoadError, path: Seq<char>) -> Seq<(Seq<char>, Seq<char>)> {
    match error {
        CacheLoadError::UnsupportedSchema { schema } => seq![("path"@, path), ("schema"@, schema@)],
        CacheLoadError::UnsupportedVersion { version } => seq![("path"@, path), ("version"@, decimal(version as nat))],
        CacheLoadError::MissingLocale => seq![("path"@, path)],
        CacheLoadError::FutureTimestamp { timestamp, now } => seq![
            ("path"@, path),
            ("timestamp"@, decimal(timestamp as nat)),
            ("now"@, decimal(now as nat)),
        ],
    }
}

/// The issue a refused load of the cache at `path` is reported as.
pub fn load_error_issue(error: CacheLoadError, path: &str) -> (r: SubscriptionIssue)
    ensures
        r.spec_code() == load_error_code(error),
        r.spec_message() == load_error_message(error, path@),
        r.spec_fields() == load_error_fields(error, path@),
        r.spec_cause() is None,
{
    let mut message = owned("the Subscription cache ");
    push_all(&mut message, path);
    match error {
        CacheLoadError::UnsupportedSchema { schema } => {
            push_all(&mut message, " has the unsupported schema ");
            push_all(&mut message, schema.as_str());
            let r = SubscriptionIssue::new(SubscriptionIssueCode::CacheUnsupportedSchema, message.as_str())
                .with_field("path", path)
                .with_field("schema", schema.as_str());
            assert(r.spec_fields() =~= load_error_fields(error, path@));
            r
        },
        CacheLoadError::UnsupportedVersion { version } => {
            let shown = decimal_text(version as u64);
            push_all(&mut message, " has the unsupported version ");
            push_all(&mut message, shown.as_str());
            let r = SubscriptionIssue::new(SubscriptionIssueCode::CacheUnsupportedVersion, message.as_str())
                .with_field("path", path)
                .with_field("version", shown.as_str());
            assert(r.spec_fields() =~= load_error_fields(error, path@));
            r
        },
        CacheLoadError::MissingLocale => {
            push_all(&mut message, " is missing its locale marker");
            let r = SubscriptionIssue::new(SubscriptionIssueCode::CacheMissingLocale, message.as_str())
                .with_field("path", path);
            assert(r.spec_fields() =~= load_error_fields(error, path@));
            r
        },
        CacheLoadError::FutureTimestamp { timestamp, now } => {
            let written = decimal_text(timestamp);
            let current = decimal_text(now);
            push_all(&mut message, " has a future timestamp ");
            push_all(&mut message, written.as_str());
            push_all(&mut message, " (the current time is ");
            push_all(&mut message, current.as_str());
            push_all(&mut message, ")");
            let r = SubscriptionIssue::new(SubscriptionIssueCode::CacheFutureTimestamp, message.as_str())
                .with_field("path", path)
                .with_field("timestamp", written.as_str())
                .with_field("now", current.as_str());
            assert(r.spec_fields() =~= load_error_fields(error, path@));
            r
        },
    }
}

} // verus!
