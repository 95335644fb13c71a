//! Command-line decisions: argument values, the date range a command covers,
//! and when the interactive interface may start.

use vstd::prelude::*;
use chrono::Datelike;
use crate::dates::{date_before, is_calendar_date, min_year, CalendarDate};
use crate::intent::Tab;
use crate::helpers::{str_trim, trim_end_spec, trim_start_spec};
use crate::strings::{chars_of, owned, str_eq};

verus! {

/// An inclusive range of days; a missing bound is open.
#[derive(Debug, Clone, Copy, PartialEq, Eq, Structural)]
pub struct DateRange {
    pub since: Option<CalendarDate>,
    pub until: Option<CalendarDate>,
}

/// Both bounds present and the first after the second.
pub open spec fn is_reversed(since: Option<CalendarDate>, until: Option<CalendarDate>) -> bool {
    since matches Some(s) && until matches Some(u) && date_before(u.ymd(), s.ymd())
}

impl DateRange {
    /// The range with the given bounds, unless they are reversed.
    pub fn bounded(since: Option<CalendarDate>, until: Option<CalendarDate>) -> (r: Option<Self>)
        ensures
            r is Some <==> !is_reversed(since, until),
            r matches Some(range) ==> range.since == since && range.until == until,
    {
        if let (Some(s), Some(u)) = (since, until) {
            if u.is_before(&s) {
                return None;
            }
        }
        Some(DateRange { since, until })
    }

    /// 1 January through 31 December of `year`, when chrono represents it.
    pub fn for_year(year: i32) -> (r: Option<Self>)
        ensures
            r is Some <==> is_calendar_date(year, 1, 1),
            r matches Some(range) ==> {
                &&& range.since matches Some(s) && s.ymd() == (year, 1u32, 1u32)
                &&& range.until matches Some(u) && u.ymd() == (year, 12u32, 31u32)
            },
    {
        match (CalendarDate::from_ymd(year, 1, 1), CalendarDate::from_ymd(year, 12, 31)) {
            (Some(first), Some(last)) => Some(DateRange { since: Some(first), until: Some(last) }),
            _ => None,
        }
    }
}

/// A range stated relative to the current date.
#[derive(Debug, Clone, Copy, PartialEq, Eq, Structural)]
pub enum RelativeDateRange {
    Today,
    LastSevenDays,
    CurrentMonth,
}

/// The range `relative` covers on `current`: the day itself, the seven days
/// ending with it, or its month up to it.
pub open spec fn relative_bounds(relative: RelativeDateRange, current: CalendarDate) -> (Option<(i32, u32, u32)>, (i32, u32, u32)) {
    let (y, m, d) = current.ymd();
    match relative {
        RelativeDateRange::Today => (Some((y, m, d)), (y, m, d)),
        RelativeDateRange::LastSevenDays => (crate::dates::date_days_before(y, m, d, 6), (y, m, d)),
        RelativeDateRange::CurrentMonth => (Some((y, m, 1u32)), (y, m, d)),
    }
}

/// The bounds of a range as date triples.
pub open spec fn range_ymd(range: DateRange) -> (Option<(i32, u32, u32)>, Option<(i32, u32, u32)>) {
    (
        match range.since { Some(s) => Some(s.ymd()), None => None },
        match range.until { Some(u) => Some(u.ymd()), None => None },
    )
}

/// Six days before `current` is a date chrono represents: anything but 1 to
/// 6 January of its first year.
pub open spec fn has_week_before(current: CalendarDate) -> bool {
    !(current.ymd().0 == min_year() && current.ymd().1 == 1 && current.ymd().2 <= 6)
}

impl RelativeDateRange {
    /// The range this covers on `current`. The last seven days are not
    /// resolved on a date without six days before it in chrono's range.
    pub fn resolve(self, current: CalendarDate) -> (r: DateRange)
        requires
            self == RelativeDateRange::LastSevenDays ==> has_week_before(current),
        ensures
            range_ymd(r) == (relative_bounds(self, current).0, Some(relative_bounds(self, current).1)),
            r.since is Some && r.until is Some,
            !is_reversed(r.since, r.until),
    {
        proof {
            use_type_invariant(current);
        }
        match self {
            RelativeDateRange::Today => DateRange { since: Some(current), until: Some(current) },
            RelativeDateRange::LastSevenDays => {
                let since = current.days_before(6);
                let r = DateRange { since, until: Some(current) };
                assert(!is_reversed(r.since, r.until));
                r
            },
            RelativeDateRange::CurrentMonth => {
                let first = current.first_of_month();
                let r = DateRange { since: Some(first), until: Some(current) };
                assert(!is_reversed(r.since, r.until));
                r
            },
        }
    }
}

/// The date flags of a command.
#[derive(Debug, Clone, Copy, PartialEq, Eq, Structural)]
pub struct DateRangeFlags {
    pub today: bool,
    pub week: bool,
    pub month: bool,
    pub since: Option<CalendarDate>,
    pub until: Option<CalendarDate>,
    pub year: Option<i32>,
}

/// How the chosen range is described to the user.
#[derive(Debug, Clone, Copy, PartialEq, Eq, Structural)]
pub enum DateLabel {
    Today,
    LastSevenDays,
    /// The month and year of the date.
    MonthYear(CalendarDate),
    Year(i32),
    /// "from" and "to" parts for the bounds given; at least one is present.
    Custom { since: Option<CalendarDate>, until: Option<CalendarDate> },
}

/// The range a command covers, how to describe it, whether it is relative to
/// the current date, and the date it was resolved on.
#[derive(Debug, Clone, Copy, PartialEq, Eq, Structural)]
pub struct ResolvedDateRange {
    pub range: DateRange,
    pub label: Option<DateLabel>,
    pub relative: Option<RelativeDateRange>,
    pub effective_date: CalendarDate,
}

/// Why the date flags were refused.
#[derive(Debug, Clone, Copy, PartialEq, Eq, Structural)]
pub enum DateRangeError {
    /// `--since` is after `--until`.
    Reversed { since: CalendarDate, until: CalendarDate },
}

/// The relative range the flags select, if any (today, then week, then month).
pub open spec fn selected_relative(date: DateRangeFlags) -> Option<RelativeDateRange> {
    if date.today {
        Some(RelativeDateRange::Today)
    } else if date.week {
        Some(RelativeDateRange::LastSevenDays)
    } else if date.month {
        Some(RelativeDateRange::CurrentMonth)
    } else {
        None
    }
}

/// What resolving the flags on `current` gives, given the range a relative
/// selection resolves to and the range of the year flag.
pub open spec fn resolution_ok(date: DateRangeFlags, current: CalendarDate, r: ResolvedDateRange) -> bool {
    &&& r.effective_date == current
    &&& r.relative == selected_relative(date)
    &&& match selected_relative(date) {
        Some(rel) => {
            &&& range_ymd(r.range) == (relative_bounds(rel, current).0, Some(relative_bounds(rel, current).1))
            &&& r.label == Some(match rel {
                RelativeDateRange::Today => DateLabel::Today,
                RelativeDateRange::LastSevenDays => DateLabel::LastSevenDays,
                RelativeDateRange::CurrentMonth => DateLabel::MonthYear(current),
            })
        },
        None => match date.year {
            Some(y) => {
                &&& r.range.since matches Some(s) && s.ymd() == (y, 1u32, 1u32)
                &&& r.range.until matches Some(u) && u.ymd() == (y, 12u32, 31u32)
                &&& r.label == Some(DateLabel::Year(y))
            },
            None => {
                &&& r.range == DateRange { since: date.since, until: date.until }
                &&& r.label == if date.since is None && date.until is None {
                    None
                } else {
                    Some(DateLabel::Custom { since: date.since, until: date.until })
                }
            },
        },
    }
}

/// Resolves the date flags on `current`. Reversed `--since`/`--until` are
/// refused whatever else is set; otherwise today, the last seven days, the
/// current month, a year, or the custom bounds apply, in that order. The
/// year is one the argument parser accepted, and the last seven days are
/// only selected on a date with six days before it in chrono's range.
pub fn resolve_date_for_date(date: DateRangeFlags, current: CalendarDate) -> (r: Result<ResolvedDateRange, DateRangeError>)
    requires
        selected_relative(date) == Some(RelativeDateRange::LastSevenDays) ==> has_week_before(current),
        date.year matches Some(y) ==> is_calendar_date(y, 1, 1),
    ensures
        is_reversed(date.since, date.until) <==> r is Err,
        r matches Ok(resolved) ==> !is_reversed(resolved.range.since, resolved.range.until),
        r matches Err(DateRangeError::Reversed { since, until }) ==> date.since == Some(since) && date.until == Some(until),
        r matches Ok(resolved) ==> resolution_ok(date, current, resolved),
{
    if let (Some(since), Some(until)) = (date.since, date.until) {
        if until.is_before(&since) {
            return Err(DateRangeError::Reversed { since, until });
        }
    }
    let (range, label, relative) = if date.today {
        (RelativeDateRange::Today.resolve(current), Some(DateLabel::Today), Some(RelativeDateRange::Today))
    } else if date.week {
        (RelativeDateRange::LastSevenDays.resolve(current), Some(DateLabel::LastSevenDays), Some(RelativeDateRange::LastSevenDays))
    } else if date.month {
        (RelativeDateRange::CurrentMonth.resolve(current), Some(DateLabel::MonthYear(current)), Some(RelativeDateRange::CurrentMonth))
    } else if let Some(year) = date.year {
        match DateRange::for_year(year) {
            Some(range) => (range, Some(DateLabel::Year(year)), None),
            None => {
                // The argument parser only accepts years chrono represents.
                (DateRange { since: None, until: None }, None, None)
            },
        }
    } else {
        let label = if date.since.is_none() && date.until.is_none() {
            None
        } else {
            Some(DateLabel::Custom { since: date.since, until: date.until })
        };
        (DateRange { since: date.since, until: date.until }, label, None)
    };
    Ok(ResolvedDateRange { range, label, relative, effective_date: current })
}

/// `s` with every non-overlapping occurrence of the non-empty `from`,
/// scanning left to right, replaced by `to`.
pub open spec fn replaced(s: Seq<char>, from: Seq<char>, to: Seq<char>) -> Seq<char>
    decreases s.len(),
{
    if s.len() == 0 || from.len() == 0 {
        s
    } else if from.len() <= s.len() && s.take(from.len() as int) == from {
        to + replaced(s.skip(from.len() as int), from, to)
    } else {
        seq![s[0]] + replaced(s.drop_first(), from, to)
    }
}

/// `str::replace` with a non-empty pattern: occurrences are found left to
/// right without overlap and each is replaced.
#[verifier::external_body]
fn str_replace(s: &str, from: &str, to: &str) -> (r: String)
    requires
        from@.len() > 0,
    ensures
        r@ == replaced(s@, from@, to@),
{
    s.replace(from, to)
}

/// The English phrases clap writes into help and error output, each with
/// the catalog entry that translates it, in the order they are replaced
/// (longer phrases before the shorter ones they contain).
pub open spec fn clap_phrase_table() -> Seq<(&'static str, &'static str)> {
    seq![
        ("error:", "cli.help.generated_error_prefix"),
        ("Usage:", "cli.help.generated_usage_heading"),
        ("For more information, try", "cli.help.generated_try_help"),
        ("the following required arguments were not provided:", "cli.help.generated_required_arguments"),
        ("one or more of the other specified arguments", "cli.help.generated_other_arguments"),
        ("some similar arguments exist", "cli.help.generated_some_similar_arguments"),
        ("some similar subcommands exist", "cli.help.generated_some_similar_subcommands"),
        ("some similar values exist", "cli.help.generated_some_similar_values"),
        ("a similar argument exists", "cli.help.generated_similar_argument"),
        ("a similar subcommand exists", "cli.help.generated_similar_subcommand"),
        ("a similar value exists", "cli.help.generated_similar_value"),
        ("cannot be used multiple times", "cli.help.generated_cannot_multiple"),
        ("cannot be used with", "cli.help.generated_cannot_with"),
        ("equal sign is needed when assigning values to", "cli.help.generated_equals"),
        ("a value is required for", "cli.help.generated_value_required"),
        ("but none was supplied", "cli.help.generated_none_supplied"),
        ("requires a subcommand but one was not provided", "cli.help.generated_requires_subcommand"),
        ("unrecognized subcommand", "cli.help.generated_unrecognized_subcommand"),
        ("unexpected argument", "cli.help.generated_unexpected_argument"),
        ("unexpected value", "cli.help.generated_unexpected_value"),
        ("invalid value", "cli.help.generated_invalid_value"),
        ("possible values", "cli.help.generated_possible_values"),
        ("no more were expected", "cli.help.generated_no_more"),
        ("values required by", "cli.help.generated_values_required_by"),
        ("values required for", "cli.help.generated_values_required_for"),
        ("the argument", "cli.help.generated_argument"),
        ("the subcommand", "cli.help.generated_subcommand"),
        ("subcommands", "cli.help.generated_subcommands"),
        ("only ", "cli.help.generated_only"),
        ("were provided", "cli.help.generated_were_provided"),
        ("was provided", "cli.help.generated_was_provided"),
        ("tip:", "cli.help.generated_tip"),
        (" for ", "cli.help.generated_for"),
        ("found", "cli.help.generated_found")
    ]
}

/// The phrase table as a vector.
pub fn clap_phrases() -> (r: Vec<(&'static str, &'static str)>)
    ensures
        r@ == clap_phrase_table(),
{
    let r = vec![
        ("error:", "cli.help.generated_error_prefix"),
        ("Usage:", "cli.help.generated_usage_heading"),
        ("For more information, try", "cli.help.generated_try_help"),
        ("the following required arguments were not provided:", "cli.help.generated_required_arguments"),
        ("one or more of the other specified arguments", "cli.help.generated_other_arguments"),
        ("some similar arguments exist", "cli.help.generated_some_similar_arguments"),
        ("some similar subcommands exist", "cli.help.generated_some_similar_subcommands"),
        ("some similar values exist", "cli.help.generated_some_similar_values"),
        ("a similar argument exists", "cli.help.generated_similar_argument"),
        ("a similar subcommand exists", "cli.help.generated_similar_subcommand"),
        ("a similar value exists", "cli.help.generated_similar_value"),
        ("cannot be used multiple times", "cli.help.generated_cannot_multiple"),
        ("cannot be used with", "cli.help.generated_cannot_with"),
        ("equal sign is needed when assigning values to", "cli.help.generated_equals"),
        ("a value is required for", "cli.help.generated_value_required"),
        ("but none was supplied", "cli.help.generated_none_supplied"),
        ("requires a subcommand but one was not provided", "cli.help.generated_requires_subcommand"),
        ("unrecognized subcommand", "cli.help.generated_unrecognized_subcommand"),
        ("unexpected argument", "cli.help.generated_unexpected_argument"),
        ("unexpected value", "cli.help.generated_unexpected_value"),
        ("invalid value", "cli.help.generated_invalid_value"),
        ("possible values", "cli.help.generated_possible_values"),
        ("no more were expected", "cli.help.generated_no_more"),
        ("values required by", "cli.help.generated_values_required_by"),
        ("values required for", "cli.help.generated_values_required_for"),
        ("the argument", "cli.help.generated_argument"),
        ("the subcommand", "cli.help.generated_subcommand"),
        ("subcommands", "cli.help.generated_subcommands"),
        ("only ", "cli.help.generated_only"),
        ("were provided", "cli.help.generated_were_provided"),
        ("was provided", "cli.help.generated_was_provided"),
        ("tip:", "cli.help.generated_tip"),
        (" for ", "cli.help.generated_for"),
        ("found", "cli.help.generated_found")
    ];
    assert(r@ =~= clap_phrase_table());
    r
}

/// `output` after replacing, in table order, each phrase with its
/// translation.
pub open spec fn localized(output: Seq<char>, table: Seq<(&'static str, &'static str)>, targets: Seq<Seq<char>>, n: int) -> Seq<char>
    decreases n,
{
    if n <= 0 {
        output
    } else {
        replaced(localized(output, table, targets, n - 1), table[n - 1].0@, targets[n - 1])
    }
}

/// Translates clap's generated help or error text: each phrase of the table
/// is replaced by the translation at the same position of `targets`.
pub fn localize_clap_output(output: String, targets: &Vec<String>) -> (r: String)
    requires
        targets@.len() == clap_phrase_table().len(),
    ensures
        r@ == localized(output@, clap_phrase_table(), targets@.map_values(|t: String| t@), clap_phrase_table().len() as int),
{
    let table = clap_phrases();
    let ghost tv = targets@.map_values(|t: String| t@);
    let mut out = output;
    let mut i: usize = 0;
    while i < table.len()
        invariant
            table@ == clap_phrase_table(),
            targets@.len() == table@.len(),
            tv == targets@.map_values(|t: String| t@),
            i <= table@.len(),
            out@ == localized(output@, clap_phrase_table(), tv, i as int),
        decreases table@.len() - i,
    {
        let (phrase, _key) = table[i];
        if !phrase.is_empty() {
            out = str_replace(out.as_str(), phrase, targets[i].as_str());
        }
        i = i + 1;
    }
    out
}

/// The number written by the decimal digits `s` (most significant first).
pub open spec fn decimal_value(s: Seq<char>) -> int
    decreases s.len(),
{
    if s.len() == 0 {
        0
    } else {
        decimal_value(s.drop_last()) * 10 + (s.last() as int - '0' as int)
    }
}

/// Every character of `s` is an ASCII digit.
pub open spec fn all_ascii_digits(s: Seq<char>) -> bool {
    forall|i: int| 0 <= i < s.len() ==> '0' <= #[trigger] s[i] && s[i] <= '9'
}

/// The value of `s` when it is a non-empty run of ASCII digits.
pub open spec fn digits_value(s: Seq<char>) -> Option<int> {
    if s.len() > 0 && all_ascii_digits(s) {
        Some(decimal_value(s))
    } else {
        None
    }
}

/// The integer that the decimal numeral `s` writes: an optional `+` (or,
/// where `signed`, `-`) followed by a non-empty run of ASCII digits, with
/// nothing before or after.
pub open spec fn numeral_value(s: Seq<char>, signed: bool) -> Option<int> {
    if s.len() > 0 && s[0] == '+' {
        digits_value(s.skip(1))
    } else if signed && s.len() > 0 && s[0] == '-' {
        match digits_value(s.skip(1)) {
            Some(v) => Some(-v),
            None => None,
        }
    } else {
        digits_value(s)
    }
}

/// The value of the numeral `s` when it lies in `lo..=hi`.
pub open spec fn numeral_within(s: Seq<char>, signed: bool, lo: int, hi: int) -> Option<int> {
    match numeral_value(s, signed) {
        Some(v) => if lo <= v && v <= hi { Some(v) } else { None },
        None => None,
    }
}

/// `str::parse::<i32>`. As std documents for integer parsing, an optional
/// sign and then only ASCII digits are accepted, and the value must fit.
#[verifier::external_body]
fn parse_i32(s: &str) -> (r: Option<i32>)
    ensures
        match numeral_within(s@, true, i32::MIN as int, i32::MAX as int) {
            Some(v) => r == Some(v as i32),
            None => r is None,
        },
{
    s.parse::<i32>().ok()
}

/// `str::parse::<u64>`. As std documents for unsigned integer parsing, an
/// optional `+` and then only ASCII digits are accepted, and the value
/// must fit.
#[verifier::external_body]
fn parse_u64(s: &str) -> (r: Option<u64>)
    ensures
        match numeral_within(s@, false, 0, u64::MAX as int) {
            Some(v) => r == Some(v as u64),
            None => r is None,
        },
{
    s.parse::<u64>().ok()
}

/// Bounds of the value of a string of decimal digits.
proof fn lemma_decimal_value_bounds(s: Seq<char>)
    requires
        all_ascii_digits(s),
    ensures
        0 <= decimal_value(s),
        s.len() <= 1 ==> decimal_value(s) <= 9,
        s.len() <= 2 ==> decimal_value(s) <= 99,
        s.len() <= 3 ==> decimal_value(s) <= 999,
        s.len() <= 4 ==> decimal_value(s) <= 9999,
    decreases s.len(),
{
    if s.len() > 0 {
        let p = s.drop_last();
        assert(all_ascii_digits(p)) by {
            assert forall|i: int| 0 <= i < p.len() implies '0' <= #[trigger] p[i] && p[i] <= '9' by {
                assert(p[i] == s[i]);
            }
        }
        lemma_decimal_value_bounds(p);
        assert('0' <= s[s.len() - 1] <= '9');
    }
}

/// Why a `--year` value was refused.
#[derive(Debug, Clone, Copy, PartialEq, Eq, Structural)]
pub enum YearArgError {
    /// Not exactly four ASCII digits.
    Invalid,
}

/// Reads a `--year` value: exactly four ASCII digits, naming a year chrono
/// represents (every such year is one).
pub fn parse_year_arg(raw: &str) -> (r: Result<i32, YearArgError>)
    ensures
        r is Ok <==> raw@.len() == 4 && all_ascii_digits(raw@),
        r matches Ok(y) ==> y == decimal_value(raw@) && is_calendar_date(y, 1, 1),
{
    let chars = chars_of(raw);
    if chars.len() != 4 {
        return Err(YearArgError::Invalid);
    }
    let mut i: usize = 0;
    while i < 4
        invariant
            chars@ == raw@,
            chars@.len() == 4,
            i <= 4,
            forall|j: int| 0 <= j < i ==> '0' <= #[trigger] chars@[j] && chars@[j] <= '9',
        decreases 4 - i,
    {
        if chars[i] < '0' || chars[i] > '9' {
            return Err(YearArgError::Invalid);
        }
        i = i + 1;
    }
    proof {
        lemma_decimal_value_bounds(raw@);
        assert('0' <= raw@[0] && raw@[0] <= '9');
    }
    let year = match parse_i32(raw) {
        Some(y) => y,
        None => {
            return Err(YearArgError::Invalid);
        },
    };
    if CalendarDate::from_ymd(year, 1, 1).is_none() {
        return Err(YearArgError::Invalid);
    }
    Ok(year)
}

/// Why a `--refresh` value was refused.
#[derive(Debug, Clone, Copy, PartialEq, Eq, Structural)]
pub enum RefreshArgError {
    /// Not an unsigned integer.
    Invalid,
    /// Zero seconds.
    NotPositive,
}

/// Reads a `--refresh` interval: an unsigned integer of seconds, not zero.
pub fn parse_positive_u64(raw: &str) -> (r: Result<u64, RefreshArgError>)
    ensures
        r == match numeral_within(raw@, false, 0, u64::MAX as int) {
            None => Err(RefreshArgError::Invalid),
            Some(v) => if v == 0 { Err(RefreshArgError::NotPositive) } else { Ok(v as u64) },
        },
{
    match parse_u64(raw) {
        None => Err(RefreshArgError::Invalid),
        Some(v) => if v == 0 { Err(RefreshArgError::NotPositive) } else { Ok(v) },
    }
}

/// Where pricing data comes from.
#[derive(Debug, Clone, Copy, PartialEq, Eq, Structural)]
pub enum PricingSource {
    Custom,
    Litellm,
    Openrouter,
    ModelsDev,
}

impl PricingSource {
    /// The source's name as the command line spells it.
    pub fn as_str(self) -> (r: &'static str)
        ensures
            r@ == match self {
                PricingSource::Custom => "custom"@,
                PricingSource::Litellm => "litellm"@,
                PricingSource::Openrouter => "openrouter"@,
                PricingSource::ModelsDev => "models.dev"@,
            },
    {
        match self {
            PricingSource::Custom => "custom",
            PricingSource::Litellm => "litellm",
            PricingSource::Openrouter => "openrouter",
            PricingSource::ModelsDev => "models.dev",
        }
    }
}

/// Whether standard input and output are terminals.
#[derive(Debug, Clone, Copy, PartialEq, Eq, Structural)]
pub struct TerminalState {
    pub stdin: bool,
    pub stdout: bool,
}

impl TerminalState {
    /// Both ends are terminals.
    pub fn interactive(self) -> (r: bool)
        ensures
            r == (self.stdin && self.stdout),
    {
        self.stdin && self.stdout
    }
}

/// Why the interactive interface refused to start.
#[derive(Debug, Clone, Copy, PartialEq, Eq, Structural)]
pub enum TuiRequestError {
    /// Standard input or output is not a terminal.
    NotATerminal,
    /// The requested first tab is the Subscription tab, which is disabled.
    TabDisabled,
}

/// The interface starts only on a terminal.
pub fn check_terminal(terminal: TerminalState) -> (r: Result<(), TuiRequestError>)
    ensures
        r is Ok <==> terminal.stdin && terminal.stdout,
        r is Err ==> r == Err::<(), TuiRequestError>(TuiRequestError::NotATerminal),
{
    if !terminal.interactive() {
        return Err(TuiRequestError::NotATerminal);
    }
    Ok(())
}

/// The Subscription tab may be the first tab only while Subscription is
/// enabled.
pub fn check_initial_tab(initial_tab: Option<Tab>, subscription_enabled: bool) -> (r: Result<(), TuiRequestError>)
    ensures
        r is Err <==> initial_tab == Some(Tab::Subscription) && !subscription_enabled,
        r is Err ==> r == Err::<(), TuiRequestError>(TuiRequestError::TabDisabled),
{
    if initial_tab == Some(Tab::Subscription) && !subscription_enabled {
        return Err(TuiRequestError::TabDisabled);
    }
    Ok(())
}

/// Why a `--home` value was refused before the file system was consulted.
#[derive(Debug, Clone, Copy, PartialEq, Eq, Structural)]
pub enum HomeArgError {
    /// Nothing but white space.
    Empty,
}

/// The path text of a `--home` value: trimmed, and refused when empty.
/// Whether it names a directory is checked at the edge.
pub fn home_arg_text(raw: &str) -> (r: Result<String, HomeArgError>)
    ensures
        r is Err <==> trim_end_spec(trim_start_spec(raw@)).len() == 0,
        r matches Ok(t) ==> t@ == trim_end_spec(trim_start_spec(raw@)),
{
    let t = str_trim(raw);
    if t.is_empty() {
        return Err(HomeArgError::Empty);
    }
    Ok(owned(t))
}

/// What `NaiveDate::parse_from_str(raw, "%Y-%m-%d")` reads, taken apart.
pub uninterp spec fn parsed_iso_date(raw: Seq<char>) -> Option<(i32, u32, u32)>;

/// `NaiveDate::parse_from_str` with the `%Y-%m-%d` format; a result is a
/// date chrono represents.
#[verifier::external_body]
fn chrono_parse_iso_date(raw: &str) -> (r: Option<(i32, u32, u32)>)
    ensures
        r == parsed_iso_date(raw@),
        r matches Some(d) ==> is_calendar_date(d.0, d.1, d.2),
{
    match chrono::NaiveDate::parse_from_str(raw, "%Y-%m-%d") {
        Ok(date) => Some((date.year(), date.month(), date.day())),
        Err(_) => None,
    }
}

/// Why a `--since` or `--until` value was refused.
#[derive(Debug, Clone, Copy, PartialEq, Eq, Structural)]
pub enum DateArgError {
    /// Not a `YYYY-MM-DD` date.
    Invalid,
}

/// Reads a `--since` or `--until` value in `YYYY-MM-DD` form.
pub fn parse_date_arg(raw: &str) -> (r: Result<CalendarDate, DateArgError>)
    ensures
        r is Ok <==> parsed_iso_date(raw@) is Some,
        r matches Ok(d) ==> Some(d.ymd()) == parsed_iso_date(raw@),
{
    match chrono_parse_iso_date(raw) {
        Some((y, m, d)) => match CalendarDate::from_ymd(y, m, d) {
            Some(date) => Ok(date),
            None => Err(DateArgError::Invalid),
        },
        None => Err(DateArgError::Invalid),
    }
}

/// The help texts of one command-line argument, as catalog entries: its
/// heading, and for the built-in arguments their help (and long help).
#[derive(Debug, Clone, Copy, PartialEq, Eq)]
pub struct ArgHelpKeys {
    pub heading: &'static str,
    pub help: Option<&'static str>,
    pub long_help: Option<&'static str>,
}

/// Positional arguments are listed under the arguments heading, the rest
/// under the options heading; `help`, `version` and `subcommand` get the
/// catalog's own help texts, every other argument keeps its own.
pub open spec fn arg_help(id: Seq<char>, positional: bool) -> ArgHelpKeys {
    let heading = if positional { "cli.help.arguments_heading" } else { "cli.help.options_heading" };
    if id == "help"@ {
        ArgHelpKeys { heading, help: Some("cli.help.print_help"), long_help: Some("cli.help.print_help_long") }
    } else if id == "version"@ {
        ArgHelpKeys { heading, help: Some("cli.help.print_version"), long_help: None }
    } else if id == "subcommand"@ {
        ArgHelpKeys { heading, help: Some("cli.help.print_subcommand_help"), long_help: None }
    } else {
        ArgHelpKeys { heading, help: None, long_help: None }
    }
}

/// Decides the help texts of the argument `id`.
pub fn arg_help_keys(id: &str, positional: bool) -> (r: ArgHelpKeys)
    ensures
        r == arg_help(id@, positional),
{
    let heading = if positional { "cli.help.arguments_heading" } else { "cli.help.options_heading" };
    if str_eq(id, "help") {
        ArgHelpKeys { heading, help: Some("cli.help.print_help"), long_help: Some("cli.help.print_help_long") }
    } else if str_eq(id, "version") {
        ArgHelpKeys { heading, help: Some("cli.help.print_version"), long_help: None }
    } else if str_eq(id, "subcommand") {
        ArgHelpKeys { heading, help: Some("cli.help.print_subcommand_help"), long_help: None }
    } else {
        ArgHelpKeys { heading, help: None, long_help: None }
    }
}

} // verus!
