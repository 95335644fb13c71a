//! Presentation decisions for locale-neutral Subscription data: which
//! catalog entry renders a metric label, a remaining label, a reset time or
//! a panel message. Looking the entries up in a locale happens at the edge.

use vstd::prelude::*;
use chrono::{Datelike, Timelike};
use crate::cli::numeral_within;
use crate::date_display::{clock_time_message, format_clock_time, format_month_day, month_day_message, weekday_key, weekday_name};
use crate::dates::{is_calendar_date, weekday_of, CalendarDate};
use crate::helpers::{str_trim, trim_end_spec, trim_start_spec};
use crate::message::{arg_view, lemma_args_view_map, message_view, ArgView, CatalogMessage, MessageArg, MessageView};
use crate::strings::{owned, str_eq, strip_prefix, strip_suffix, without_prefix, without_suffix};

verus! {

/// `str::parse::<i64>`. As std documents for integer parsing, an optional
/// sign and then only ASCII digits are accepted, and the value must fit.
#[verifier::external_body]
fn parse_i64(s: &str) -> (r: Option<i64>)
    ensures
        match numeral_within(s@, true, i64::MIN as int, i64::MAX as int) {
            Some(v) => r == Some(v as i64),
            None => r is None,
        },
{
    s.parse::<i64>().ok()
}

/// `str::parse::<usize>`. As std documents for unsigned integer parsing,
/// an optional `+` and then only ASCII digits are accepted, and the value
/// must fit.
#[verifier::external_body]
fn parse_usize(s: &str) -> (r: Option<usize>)
    ensures
        match numeral_within(s@, false, 0, usize::MAX as int) {
            Some(v) => r == Some(v as usize),
            None => r is None,
        },
{
    s.parse::<usize>().ok()
}

/// How a provider's metric label is shown.
#[derive(Debug, PartialEq, Eq)]
pub enum MetricLabel {
    /// A fixed label, shown as this catalog entry.
    Catalog(&'static str),
    /// "N Hour": an N-hour window.
    HourWindow(String),
    /// "Nm limit".
    MinuteLimit(String),
    /// "Nd limit".
    DayLimit(String),
    /// "Ns limit".
    SecondLimit(String),
    /// "Limit N".
    LimitN(String),
    /// "name-wk": a weekly limit of the named model.
    WeeklySuffix(String),
    /// Anything else, shown as recorded.
    Verbatim(String),
}

/// The catalog entry of a fixed metric label, if `label` is one.
pub open spec fn fixed_metric_key(label: Seq<char>) -> Option<&'static str> {
    if label == "Session"@ {
        Some("subscription.metric.session")
    } else if label == "Weekly"@ {
        Some("subscription.metric.weekly")
    } else if label == "Opus"@ {
        Some("subscription.metric.opus")
    } else if label == "Monthly"@ {
        Some("subscription.metric.monthly")
    } else if label == "Credits"@ {
        Some("subscription.metric.credits")
    } else if label == "On demand"@ {
        Some("subscription.metric.on_demand")
    } else if label == "Web Search"@ {
        Some("subscription.metric.web_search")
    } else if label == "model"@ {
        Some("subscription.metric.model_fallback")
    } else {
        None
    }
}

/// The abstract form of a metric label decision.
pub enum MetricLabelView {
    Catalog(&'static str),
    HourWindow(Seq<char>),
    MinuteLimit(Seq<char>),
    DayLimit(Seq<char>),
    SecondLimit(Seq<char>),
    LimitN(Seq<char>),
    WeeklySuffix(Seq<char>),
    Verbatim(Seq<char>),
}

/// The abstract form of a metric label decision.
pub open spec fn metric_label_view(m: MetricLabel) -> MetricLabelView {
    match m {
        MetricLabel::Catalog(k) => MetricLabelView::Catalog(k),
        MetricLabel::HourWindow(s) => MetricLabelView::HourWindow(s@),
        MetricLabel::MinuteLimit(s) => MetricLabelView::MinuteLimit(s@),
        MetricLabel::DayLimit(s) => MetricLabelView::DayLimit(s@),
        MetricLabel::SecondLimit(s) => MetricLabelView::SecondLimit(s@),
        MetricLabel::LimitN(s) => MetricLabelView::LimitN(s@),
        MetricLabel::WeeklySuffix(s) => MetricLabelView::WeeklySuffix(s@),
        MetricLabel::Verbatim(s) => MetricLabelView::Verbatim(s@),
    }
}

/// `text` stripped of `suffix` when what is left is an `i64` numeral.
pub open spec fn integer_before(text: Seq<char>, suffix: Seq<char>) -> Option<Seq<char>> {
    match without_suffix(text, suffix) {
        Some(n) => if numeral_within(n, true, i64::MIN as int, i64::MAX as int) is Some { Some(n) } else { None },
        None => None,
    }
}

/// How `label` is shown: fixed labels by their entries; then the hour
/// window, minute, day and second limits, numbered limits and weekly model
/// limits, each recognised only with a well-formed number or a non-empty
/// name; anything else as recorded.
pub open spec fn classified_metric_label(label: Seq<char>) -> MetricLabelView {
    if let Some(key) = fixed_metric_key(label) {
        MetricLabelView::Catalog(key)
    } else if let Some(n) = integer_before(label, " Hour"@) {
        MetricLabelView::HourWindow(n)
    } else if let Some(n) = integer_before(label, "m limit"@) {
        MetricLabelView::MinuteLimit(n)
    } else if let Some(n) = integer_before(label, "d limit"@) {
        MetricLabelView::DayLimit(n)
    } else if let Some(n) = integer_before(label, "s limit"@) {
        MetricLabelView::SecondLimit(n)
    } else if without_prefix(label, "Limit "@) is Some && numeral_within(without_prefix(label, "Limit "@)->0, false, 0, usize::MAX as int) is Some {
        MetricLabelView::LimitN(without_prefix(label, "Limit "@)->0)
    } else if without_suffix(label, "-wk"@) is Some && without_suffix(label, "-wk"@)->0.len() > 0 {
        MetricLabelView::WeeklySuffix(without_suffix(label, "-wk"@)->0)
    } else {
        MetricLabelView::Verbatim(label)
    }
}

/// The catalog entry of a fixed metric label.
fn fixed_metric(label: &str) -> (r: Option<&'static str>)
    ensures
        r == fixed_metric_key(label@),
{
    if str_eq(label, "Session") {
        Some("subscription.metric.session")
    } else if str_eq(label, "Weekly") {
        Some("subscription.metric.weekly")
    } else if str_eq(label, "Opus") {
        Some("subscription.metric.opus")
    } else if str_eq(label, "Monthly") {
        Some("subscription.metric.monthly")
    } else if str_eq(label, "Credits") {
        Some("subscription.metric.credits")
    } else if str_eq(label, "On demand") {
        Some("subscription.metric.on_demand")
    } else if str_eq(label, "Web Search") {
        Some("subscription.metric.web_search")
    } else if str_eq(label, "model") {
        Some("subscription.metric.model_fallback")
    } else {
        None
    }
}

/// `label` stripped of `suffix` when what is left parses as an `i64`.
fn number_before(label: &str, suffix: &str) -> (r: Option<String>)
    ensures
        match r {
            Some(n) => integer_before(label@, suffix@) == Some(n@),
            None => integer_before(label@, suffix@) is None,
        },
{
    match strip_suffix(label, suffix) {
        Some(n) => if parse_i64(n.as_str()).is_some() { Some(n) } else { None },
        None => None,
    }
}

/// Decides how a provider's metric label is shown.
pub fn metric_label(label: &str) -> (r: MetricLabel)
    ensures
        metric_label_view(r) == classified_metric_label(label@),
{
    if let Some(key) = fixed_metric(label) {
        return MetricLabel::Catalog(key);
    }
    if let Some(n) = number_before(label, " Hour") {
        return MetricLabel::HourWindow(n);
    }
    if let Some(n) = number_before(label, "m limit") {
        return MetricLabel::MinuteLimit(n);
    }
    if let Some(n) = number_before(label, "d limit") {
        return MetricLabel::DayLimit(n);
    }
    if let Some(n) = number_before(label, "s limit") {
        return MetricLabel::SecondLimit(n);
    }
    if let Some(n) = strip_prefix(label, "Limit ") {
        if parse_usize(n.as_str()).is_some() {
            return MetricLabel::LimitN(n);
        }
    }
    if let Some(n) = strip_suffix(label, "-wk") {
        if !n.as_str().is_empty() {
            return MetricLabel::WeeklySuffix(n);
        }
    }
    MetricLabel::Verbatim(owned(label))
}

/// How a "N left" remaining label is shown.
#[derive(Debug, PartialEq, Eq)]
pub enum RemainingLabel {
    /// The amount left, shown through the "left" catalog entry.
    Left(String),
    /// Shown as recorded.
    Verbatim(String),
}

/// How `label` is shown: "X left" with a non-empty X through the catalog,
/// anything else as recorded.
pub open spec fn remaining_shown(label: Seq<char>) -> (bool, Seq<char>) {
    match without_suffix(label, " left"@) {
        Some(v) => if v.len() > 0 { (true, v) } else { (false, label) },
        None => (false, label),
    }
}

/// Decides how a remaining label is shown.
pub fn remaining_label(label: &str) -> (r: RemainingLabel)
    ensures
        match r {
            RemainingLabel::Left(v) => remaining_shown(label@) == (true, v@),
            RemainingLabel::Verbatim(v) => remaining_shown(label@) == (false, v@),
        },
{
    match strip_suffix(label, " left") {
        Some(v) => if !v.as_str().is_empty() {
            RemainingLabel::Left(v)
        } else {
            RemainingLabel::Verbatim(owned(label))
        },
        None => RemainingLabel::Verbatim(owned(label)),
    }
}

/// How a reset time is shown, from how far away it is.
#[derive(Debug, Clone, Copy, PartialEq, Eq, Structural)]
pub enum ResetDisplay {
    /// The reset is due.
    Now,
    /// In this many minutes.
    InMinutes(i64),
    /// In this many hours and minutes.
    InHoursMinutes { hours: i64, mins: i64 },
    /// In this many whole hours.
    InHours(i64),
    /// Within the week: the weekday and clock time.
    WeekdayAndTime,
    /// Later: the month and day.
    MonthDay,
}

/// How a reset `secs` whole seconds away is shown (`due` when it is not
/// in the future): minutes under an hour, hours and minutes under a day,
/// weekday and time under a week, else month and day.
pub open spec fn reset_shown(due: bool, secs: int) -> ResetDisplay {
    if due {
        ResetDisplay::Now
    } else if secs / 60 < 60 {
        ResetDisplay::InMinutes((secs / 60) as i64)
    } else if secs / 60 < 24 * 60 {
        let hours = secs / 3600;
        let mins = (secs - hours * 3600) / 60;
        if mins > 0 {
            ResetDisplay::InHoursMinutes { hours: hours as i64, mins: mins as i64 }
        } else {
            ResetDisplay::InHours(hours as i64)
        }
    } else if secs / 86400 < 7 {
        ResetDisplay::WeekdayAndTime
    } else {
        ResetDisplay::MonthDay
    }
}

/// Decides how a reset time is shown. `due` says the reset time is not in
/// the future; otherwise `secs` is the whole seconds until it.
pub fn reset_display(due: bool, secs: i64) -> (r: ResetDisplay)
    requires
        !due ==> secs >= 0,
    ensures
        r == reset_shown(due, secs as int),
{
    if due {
        return ResetDisplay::Now;
    }
    let total_mins = secs / 60;
    if total_mins < 60 {
        ResetDisplay::InMinutes(total_mins)
    } else if total_mins < 24 * 60 {
        let hours = secs / 3600;
        let mins = (secs - hours * 3600) / 60;
        if mins > 0 {
            ResetDisplay::InHoursMinutes { hours, mins }
        } else {
            ResetDisplay::InHours(hours)
        }
    } else if secs / 86400 < 7 {
        ResetDisplay::WeekdayAndTime
    } else {
        ResetDisplay::MonthDay
    }
}

/// The hours-and-minutes form never shows sixty or more minutes, and the
/// hours it shows are those of the whole duration.
pub proof fn law_reset_minutes_stay_below_an_hour(secs: nat)
    ensures
        reset_shown(false, secs as int) matches ResetDisplay::InHoursMinutes { hours, mins } ==> {
            &&& 0 < mins < 60
            &&& 1 <= hours < 24
            &&& hours * 3600 + mins * 60 <= secs < hours * 3600 + (mins + 1) * 60
        },
        reset_shown(false, secs as int) matches ResetDisplay::InMinutes(m) ==> 0 <= m < 60 && m * 60 <= secs,
{
}

/// What `DateTime::parse_from_rfc3339` reads from a text, taken to UTC:
/// whole seconds since the Unix epoch, the nanoseconds past that second
/// (beyond a billion within a leap second), and the UTC year, month, day and
/// hour.
pub uninterp spec fn rfc3339_utc(text: Seq<char>) -> Option<(i64, u32, i32, u32, u32, u32)>;

/// `chrono::DateTime::parse_from_rfc3339`, converted to UTC. Its result is
/// named; chrono's source shows that the UTC date of a parsed time is one of
/// its dates and its hour is below 24.
#[verifier::external_body]
fn parse_rfc3339_utc(text: &str) -> (r: Option<(i64, u32, i32, u32, u32, u32)>)
    ensures
        r == rfc3339_utc(text@),
        r matches Some(t) ==> is_calendar_date(t.2, t.3, t.4) && t.5 < 24,
{
    match chrono::DateTime::parse_from_rfc3339(text) {
        Ok(parsed) => {
            let at = parsed.with_timezone(&chrono::Utc);
            Some((at.timestamp(), at.timestamp_subsec_nanos(), at.year(), at.month(), at.day(), at.hour()))
        },
        Err(_) => None,
    }
}

/// How a metric's reset time reads.
pub enum ResetText {
    /// Not an RFC 3339 time: shown as recorded.
    Verbatim(String),
    /// Due now, or in minutes and hours.
    Relative(ResetDisplay),
    /// Within the week: the weekday's catalog entry and the clock time.
    WeekdayAt { weekday: &'static str, time: CatalogMessage },
    /// Later: the month and day.
    On(CatalogMessage),
}

/// The abstract form of `ResetText`.
pub enum ResetTextView {
    Verbatim(Seq<char>),
    Relative(ResetDisplay),
    WeekdayAt { weekday: Seq<char>, time: MessageView },
    On(MessageView),
}

/// The abstract form of a reset text.
pub open spec fn reset_text_view(r: ResetText) -> ResetTextView {
    match r {
        ResetText::Verbatim(s) => ResetTextView::Verbatim(s@),
        ResetText::Relative(d) => ResetTextView::Relative(d),
        ResetText::WeekdayAt { weekday, time } => ResetTextView::WeekdayAt { weekday: weekday@, time: message_view(time) },
        ResetText::On(m) => ResetTextView::On(message_view(m)),
    }
}

/// Nanoseconds from `now` (whole seconds since the epoch and nanoseconds
/// past them) until the instant `at`, read the same way.
pub open spec fn nanos_until(at_secs: i64, at_nanos: u32, now_secs: i64, now_nanos: u32) -> int {
    (at_secs - now_secs) * 1_000_000_000 + (at_nanos - now_nanos)
}

/// How the reset time `resets_at` reads at `now`: as recorded when it is
/// not an RFC 3339 time; else by how far ahead it is (whole seconds, due
/// when not ahead): minutes and hours through `reset_shown`, the UTC weekday
/// and clock time within the week, the UTC month and day beyond.
pub open spec fn reset_text_for(resets_at: Seq<char>, now_secs: i64, now_nanos: u32) -> ResetTextView {
    match rfc3339_utc(resets_at) {
        None => ResetTextView::Verbatim(resets_at),
        Some(t) => {
            let ahead = nanos_until(t.0, t.1, now_secs, now_nanos);
            let due = ahead <= 0;
            let secs = if due { 0 } else { ahead / 1_000_000_000 };
            match reset_shown(due, secs) {
                ResetDisplay::WeekdayAndTime => ResetTextView::WeekdayAt {
                    weekday: weekday_key(weekday_of(t.2, t.3, t.4)),
                    time: clock_time_message(t.5),
                },
                ResetDisplay::MonthDay => ResetTextView::On(month_day_message((t.2, t.3, t.4))),
                shown => ResetTextView::Relative(shown),
            }
        },
    }
}

/// Reads the reset time `resets_at` at the clock reading `now_secs` whole
/// seconds (and `now_nanos` nanoseconds) after the Unix epoch.
pub fn reset_text(resets_at: &str, now_secs: i64, now_nanos: u32) -> (r: ResetText)
    ensures
        reset_text_view(r) == reset_text_for(resets_at@, now_secs, now_nanos),
{
    let (at_secs, at_nanos, year, month, day, hour): (i64, u32, i32, u32, u32, u32) = match parse_rfc3339_utc(resets_at) {
        Some(t) => t,
        None => {
            return ResetText::Verbatim(owned(resets_at));
        },
    };
    let ahead: i128 = (at_secs as i128 - now_secs as i128) * 1_000_000_000 + (at_nanos as i128 - now_nanos as i128);
    let due = ahead <= 0;
    let whole: i128 = if due { 0 } else { ahead / 1_000_000_000 };
    // Beyond a week every distance reads alike, so a distance past what an
    // `i64` holds is read as the largest one.
    let secs: i64 = if whole > 9_223_372_036_854_775_807i128 { i64::MAX } else { whole as i64 };
    assert(reset_shown(due, secs as int) == reset_shown(due, whole as int));
    let display = reset_display(due, secs);
    let date = CalendarDate::from_ymd(year, month, day).unwrap();
    match display {
        ResetDisplay::WeekdayAndTime => {
            let weekday = weekday_name(date.weekday());
            ResetText::WeekdayAt { weekday, time: format_clock_time(hour) }
        },
        ResetDisplay::MonthDay => ResetText::On(format_month_day(&date)),
        shown => ResetText::Relative(shown),
    }
}

/// Each fixed metric label has its own catalog entry, and only that label
/// is shown through it: `Session`, `Weekly`, `Opus`, `Monthly`, `Credits`,
/// `On demand`, `Web Search` and `model` are shown through the session,
/// weekly, opus, monthly, credits, on-demand, web-search and model-fallback
/// entries. No other label is shown through a catalog entry.
pub proof fn law_fixed_metric_labels(label: Seq<char>)
    ensures
        classified_metric_label(label) == MetricLabelView::Catalog("subscription.metric.session") <==> label == "Session"@,
        classified_metric_label(label) == MetricLabelView::Catalog("subscription.metric.weekly") <==> label == "Weekly"@,
        classified_metric_label(label) == MetricLabelView::Catalog("subscription.metric.opus") <==> label == "Opus"@,
        classified_metric_label(label) == MetricLabelView::Catalog("subscription.metric.monthly") <==> label == "Monthly"@,
        classified_metric_label(label) == MetricLabelView::Catalog("subscription.metric.credits") <==> label == "Credits"@,
        classified_metric_label(label) == MetricLabelView::Catalog("subscription.metric.on_demand") <==> label == "On demand"@,
        classified_metric_label(label) == MetricLabelView::Catalog("subscription.metric.web_search") <==> label == "Web Search"@,
        classified_metric_label(label) == MetricLabelView::Catalog("subscription.metric.model_fallback") <==> label == "model"@,
        classified_metric_label(label) is Catalog <==> (label == "Session"@ || label == "Weekly"@ || label == "Opus"@ || label == "Monthly"@ || label == "Credits"@ || label == "On demand"@ || label == "Web Search"@ || label == "model"@),
{
    reveal_strlit("subscription.metric.session");
    reveal_strlit("subscription.metric.weekly");
    reveal_strlit("subscription.metric.opus");
    reveal_strlit("subscription.metric.monthly");
    reveal_strlit("subscription.metric.credits");
    reveal_strlit("subscription.metric.on_demand");
    reveal_strlit("subscription.metric.web_search");
    reveal_strlit("subscription.metric.model_fallback");
    reveal_strlit("Session");
    reveal_strlit("Weekly");
    reveal_strlit("Opus");
    reveal_strlit("Monthly");
    reveal_strlit("Credits");
    reveal_strlit("On demand");
    reveal_strlit("Web Search");
    reveal_strlit("model");
    assert("Session"@[0] != "Monthly"@[0] && "Session"@[0] != "Credits"@[0] && "Monthly"@[0] != "Credits"@[0]);
    assert("subscription.metric.session"@[20] != "subscription.metric.monthly"@[20]);
    assert("subscription.metric.session"@[20] != "subscription.metric.credits"@[20]);
    assert("subscription.metric.monthly"@[20] != "subscription.metric.credits"@[20]);
    if fixed_metric_key(label) is None {
        assert(!(classified_metric_label(label) is Catalog));
    }
}

/// A label shown through a numbered form is that number followed by the
/// form's own suffix (or, for "Limit N", preceded by its prefix): " Hour"
/// for an hour window, "m limit", "d limit" and "s limit" for minute, day
/// and second limits, each with an `i64` numeral; "Limit " with a `usize`
/// numeral; a non-empty model name before "-wk". A label shown as recorded
/// is shown unchanged.
pub proof fn law_metric_label_forms(label: Seq<char>)
    ensures
        classified_metric_label(label) matches MetricLabelView::HourWindow(n)
            ==> label == n + " Hour"@ && numeral_within(n, true, i64::MIN as int, i64::MAX as int) is Some,
        classified_metric_label(label) matches MetricLabelView::MinuteLimit(n)
            ==> label == n + "m limit"@ && numeral_within(n, true, i64::MIN as int, i64::MAX as int) is Some,
        classified_metric_label(label) matches MetricLabelView::DayLimit(n)
            ==> label == n + "d limit"@ && numeral_within(n, true, i64::MIN as int, i64::MAX as int) is Some,
        classified_metric_label(label) matches MetricLabelView::SecondLimit(n)
            ==> label == n + "s limit"@ && numeral_within(n, true, i64::MIN as int, i64::MAX as int) is Some,
        classified_metric_label(label) matches MetricLabelView::LimitN(n)
            ==> label == "Limit "@ + n && numeral_within(n, false, 0, usize::MAX as int) is Some,
        classified_metric_label(label) matches MetricLabelView::WeeklySuffix(n)
            ==> label == n + "-wk"@ && n.len() > 0,
        classified_metric_label(label) matches MetricLabelView::Verbatim(v) ==> v == label,
{
    let c = classified_metric_label(label);
    if c is HourWindow {
        let n = without_suffix(label, " Hour"@)->0;
        assert(label =~= n + " Hour"@);
    } else if c is MinuteLimit {
        let n = without_suffix(label, "m limit"@)->0;
        assert(label =~= n + "m limit"@);
    } else if c is DayLimit {
        let n = without_suffix(label, "d limit"@)->0;
        assert(label =~= n + "d limit"@);
    } else if c is SecondLimit {
        let n = without_suffix(label, "s limit"@)->0;
        assert(label =~= n + "s limit"@);
    } else if c is LimitN {
        let n = without_prefix(label, "Limit "@)->0;
        assert(label =~= "Limit "@ + n);
    } else if c is WeeklySuffix {
        let n = without_suffix(label, "-wk"@)->0;
        assert(label =~= n + "-wk"@);
    }
}

/// The catalog entry of the Subscription tab's idle prompt.
pub fn prompt_message(has_enabled_providers: bool) -> (r: &'static str)
    ensures
        r == if has_enabled_providers { "tui.ui.subscription.prompt_fetch" } else { "tui.ui.subscription.prompt_no_providers" },
{
    if has_enabled_providers {
        "tui.ui.subscription.prompt_fetch"
    } else {
        "tui.ui.subscription.prompt_no_providers"
    }
}

/// The catalog entry of the Subscription tab's empty state.
pub fn empty_message(has_enabled_providers: bool) -> (r: &'static str)
    ensures
        r == if has_enabled_providers { "tui.ui.subscription.empty" } else { "tui.ui.subscription.prompt_no_providers" },
{
    if has_enabled_providers {
        "tui.ui.subscription.empty"
    } else {
        "tui.ui.subscription.prompt_no_providers"
    }
}

/// The notice shown above cached outputs: only when there are outputs but
/// no enabled provider could refresh them.
pub fn cache_display_notice(has_outputs: bool, has_enabled_providers: bool) -> (r: Option<&'static str>)
    ensures
        r == if has_outputs && !has_enabled_providers { Some("tui.ui.subscription.cache_notice") } else { None::<&'static str> },
{
    if !has_outputs || has_enabled_providers {
        None
    } else {
        Some("tui.ui.subscription.cache_notice")
    }
}

/// How the provider of a failed fetch is named.
#[derive(Debug, PartialEq, Eq)]
pub enum ProviderName {
    /// The provider's canonical label.
    Label(String),
    /// A catalog entry: the Subscription cache, or an unknown provider.
    Catalog(&'static str),
    /// The name recorded with the error.
    Verbatim(String),
}

/// Names the provider of a failed fetch: a known provider by its label;
/// otherwise the cache and "unknown" through the catalog, anything else as
/// recorded.
pub fn error_provider(provider_label: Option<&str>, provider: &str) -> (r: ProviderName)
    ensures
        match provider_label {
            Some(label) => r matches ProviderName::Label(v) && v@ == label@,
            None => if provider@ == "Subscription cache"@ {
                r == ProviderName::Catalog("subscription.provider.cache")
            } else if provider@ == "unknown"@ {
                r == ProviderName::Catalog("subscription.provider.unknown")
            } else {
                r matches ProviderName::Verbatim(v) && v@ == provider@
            },
        },
{
    match provider_label {
        Some(label) => ProviderName::Label(owned(label)),
        None => if str_eq(provider, "Subscription cache") {
            ProviderName::Catalog("subscription.provider.cache")
        } else if str_eq(provider, "unknown") {
            ProviderName::Catalog("subscription.provider.unknown")
        } else {
            ProviderName::Verbatim(owned(provider))
        },
    }
}

/// How an output's account is named.
#[derive(Debug, PartialEq, Eq)]
pub enum AccountName {
    /// The account's own label.
    Label(String),
    /// The account's e-mail address, trimmed.
    Email(String),
    /// The account's shortened id, through the "account" catalog entry.
    ShortId(String),
    /// Nothing identifies it: the "unknown" catalog entry.
    Unknown,
}

/// The account name shown: its label, else a non-blank e-mail address
/// (trimmed), else its short id, else unknown.
pub open spec fn account_name_for(label: Option<Seq<char>>, email: Option<Seq<char>>, short_id: Option<Seq<char>>) -> (u8, Seq<char>) {
    if let Some(l) = label {
        (0, l)
    } else if email is Some && trim_end_spec(trim_start_spec(email->0)).len() > 0 {
        (1, trim_end_spec(trim_start_spec(email->0)))
    } else if let Some(id) = short_id {
        (2, id)
    } else {
        (3, Seq::empty())
    }
}

/// The abstract form of an account name.
pub open spec fn account_name_view(a: AccountName) -> (u8, Seq<char>) {
    match a {
        AccountName::Label(s) => (0, s@),
        AccountName::Email(s) => (1, s@),
        AccountName::ShortId(s) => (2, s@),
        AccountName::Unknown => (3, Seq::empty()),
    }
}

/// The characters of an optional string.
pub open spec fn opt_view(o: Option<&str>) -> Option<Seq<char>> {
    match o {
        Some(s) => Some(s@),
        None => None,
    }
}

/// Names an output's account from its label, the output's e-mail address
/// and the account's short id.
pub fn account_name(label: Option<&str>, email: Option<&str>, short_id: Option<&str>) -> (r: AccountName)
    ensures
        account_name_view(r) == account_name_for(opt_view(label), opt_view(email), opt_view(short_id)),
{
    if let Some(l) = label {
        return AccountName::Label(owned(l));
    }
    if let Some(e) = email {
        let t = str_trim(e);
        if !t.is_empty() {
            return AccountName::Email(owned(t));
        }
    }
    if let Some(id) = short_id {
        return AccountName::ShortId(owned(id));
    }
    AccountName::Unknown
}

/// How an account is named inside an output's title.
pub open spec fn account_arg(account: (u8, Seq<char>)) -> ArgView {
    if account.0 == 0 || account.0 == 1 {
        ArgView::Text(account.1)
    } else if account.0 == 2 {
        ArgView::Nested(Box::new(MessageView::Localized {
            key: "subscription.display.account"@,
            args: seq![("id"@, ArgView::Text(account.1))],
        }))
    } else {
        ArgView::Key("subscription.provider.unknown"@)
    }
}

/// The provider and account part of an output's title.
pub open spec fn provider_account(provider: Seq<char>, account: (u8, Seq<char>)) -> MessageView {
    MessageView::Localized {
        key: "subscription.display.provider_account"@,
        args: seq![("provider"@, ArgView::Text(provider)), ("account"@, account_arg(account))],
    }
}

/// An output's title: the provider's label, with the account when the output
/// has one, marked stale when it is.
pub open spec fn output_title(provider: Seq<char>, account: Option<(u8, Seq<char>)>, stale: bool) -> MessageView {
    if stale {
        MessageView::Localized {
            key: "subscription.display.stale"@,
            args: seq![("name"@, match account {
                Some(a) => ArgView::Nested(Box::new(provider_account(provider, a))),
                None => ArgView::Text(provider),
            })],
        }
    } else {
        match account {
            Some(a) => provider_account(provider, a),
            None => MessageView::Verbatim(provider),
        }
    }
}

/// The abstract form of an optional account name.
pub open spec fn opt_account_view(account: Option<AccountName>) -> Option<(u8, Seq<char>)> {
    match account {
        Some(a) => Some(account_name_view(a)),
        None => None,
    }
}

/// The argument naming an account.
fn account_message_arg(account: AccountName) -> (r: MessageArg)
    ensures
        arg_view(r) == account_arg(account_name_view(account)),
{
    match account {
        AccountName::Label(l) => MessageArg::Text(l),
        AccountName::Email(e) => MessageArg::Text(e),
        AccountName::ShortId(id) => {
            let args = vec![("id", MessageArg::Text(id))];
            proof {
                lemma_args_view_map(args@);
            }
            let m = CatalogMessage::Localized { key: "subscription.display.account", args };
            assert(message_view(m)->Localized_args =~= seq![("id"@, ArgView::Text(id@))]);
            MessageArg::Nested(Box::new(m))
        },
        AccountName::Unknown => MessageArg::Key("subscription.provider.unknown"),
    }
}

/// The provider-and-account message.
fn provider_account_message(provider_label: &str, account: AccountName) -> (r: CatalogMessage)
    ensures
        message_view(r) == provider_account(provider_label@, account_name_view(account)),
{
    let ghost view = account_name_view(account);
    let args = vec![("provider", MessageArg::Text(owned(provider_label))), ("account", account_message_arg(account))];
    proof {
        lemma_args_view_map(args@);
    }
    let r = CatalogMessage::Localized { key: "subscription.display.provider_account", args };
    assert(message_view(r)->Localized_args =~= provider_account(provider_label@, view)->Localized_args);
    r
}

/// Titles a fetched output from its provider's label, its account's name
/// (see `account_name`; none when the output has no account) and whether it
/// is stale.
pub fn output_name(provider_label: &str, account: Option<AccountName>, stale: bool) -> (r: CatalogMessage)
    ensures
        message_view(r) == output_title(provider_label@, opt_account_view(account), stale),
{
    let ghost account_view = opt_account_view(account);
    if stale {
        let name = match account {
            Some(a) => MessageArg::Nested(Box::new(provider_account_message(provider_label, a))),
            None => MessageArg::Text(owned(provider_label)),
        };
        let args = vec![("name", name)];
        proof {
            lemma_args_view_map(args@);
        }
        let r = CatalogMessage::Localized { key: "subscription.display.stale", args };
        assert(message_view(r)->Localized_args =~= output_title(provider_label@, account_view, stale)->Localized_args);
        r
    } else {
        match account {
            Some(a) => provider_account_message(provider_label, a),
            None => CatalogMessage::Verbatim(owned(provider_label)),
        }
    }
}

} // verus!
