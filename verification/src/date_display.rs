//! Calendar names, date formats and clock formats, as catalog messages with
//! their numbers already written out; the entries are looked up in a locale
//! at the edge.

use vstd::prelude::*;
use crate::dates::CalendarDate;
use crate::message::{arg_view, lemma_args_view_map, message_view, ArgView, CatalogMessage, MessageArg, MessageView};
use crate::strings::{push_char, push_all};

verus! {

/// Days of the week.
#[derive(Debug, Clone, Copy, PartialEq, Eq, Structural)]
pub enum Weekday {
    Mon,
    Tue,
    Wed,
    Thu,
    Fri,
    Sat,
    Sun,
}

/// The month names, short ones last.
pub open spec fn month_table() -> Seq<&'static str> {
    seq![
        "tui.date.month.jan", "tui.date.month.feb", "tui.date.month.mar", "tui.date.month.apr",
        "tui.date.month.may", "tui.date.month.jun", "tui.date.month.jul", "tui.date.month.aug",
        "tui.date.month.sep", "tui.date.month.oct", "tui.date.month.nov", "tui.date.month.dec",
        "tui.date.month_short.jan", "tui.date.month_short.feb", "tui.date.month_short.mar",
        "tui.date.month_short.apr", "tui.date.month_short.may", "tui.date.month_short.jun",
        "tui.date.month_short.jul", "tui.date.month_short.aug", "tui.date.month_short.sep",
        "tui.date.month_short.oct", "tui.date.month_short.nov", "tui.date.month_short.dec",
    ]
}

/// The catalog entry naming `month` (1 to 12), short or full; other months
/// have no name.
pub fn month_name(month: u32, short: bool) -> (r: Option<&'static str>)
    ensures
        1 <= month <= 12 ==> r == Some(month_table()[(month - 1) + if short { 12int } else { 0int }]),
        !(1 <= month <= 12) ==> r is None,
{
    let table = [
        "tui.date.month.jan", "tui.date.month.feb", "tui.date.month.mar", "tui.date.month.apr",
        "tui.date.month.may", "tui.date.month.jun", "tui.date.month.jul", "tui.date.month.aug",
        "tui.date.month.sep", "tui.date.month.oct", "tui.date.month.nov", "tui.date.month.dec",
        "tui.date.month_short.jan", "tui.date.month_short.feb", "tui.date.month_short.mar",
        "tui.date.month_short.apr", "tui.date.month_short.may", "tui.date.month_short.jun",
        "tui.date.month_short.jul", "tui.date.month_short.aug", "tui.date.month_short.sep",
        "tui.date.month_short.oct", "tui.date.month_short.nov", "tui.date.month_short.dec",
    ];
    assert(table@ =~= month_table());
    if month < 1 || month > 12 {
        return None;
    }
    let index = (month - 1) as usize + if short { 12usize } else { 0usize };
    Some(table[index])
}

/// The catalog entry of a weekday's short name.
pub fn weekday_name(weekday: Weekday) -> (r: &'static str)
    ensures
        r == match weekday {
            Weekday::Mon => "tui.date.weekday_short.mon",
            Weekday::Tue => "tui.date.weekday_short.tue",
            Weekday::Wed => "tui.date.weekday_short.wed",
            Weekday::Thu => "tui.date.weekday_short.thu",
            Weekday::Fri => "tui.date.weekday_short.fri",
            Weekday::Sat => "tui.date.weekday_short.sat",
            Weekday::Sun => "tui.date.weekday_short.sun",
        },
{
    match weekday {
        Weekday::Mon => "tui.date.weekday_short.mon",
        Weekday::Tue => "tui.date.weekday_short.tue",
        Weekday::Wed => "tui.date.weekday_short.wed",
        Weekday::Thu => "tui.date.weekday_short.thu",
        Weekday::Fri => "tui.date.weekday_short.fri",
        Weekday::Sat => "tui.date.weekday_short.sat",
        Weekday::Sun => "tui.date.weekday_short.sun",
    }
}

/// Morning or afternoon on a twelve-hour clock.
#[derive(Debug, Clone, Copy, PartialEq, Eq, Structural)]
pub enum Period {
    Am,
    Pm,
}

/// The twelve-hour reading of `hour` (0 to 23): 0 and 12 read as 12.
pub open spec fn twelve_hour(hour: u32) -> (u32, Period) {
    (
        if hour % 12 == 0 { 12 } else { hour % 12 },
        if hour < 12 { Period::Am } else { Period::Pm },
    )
}

/// The hour and period a clock time shows.
pub fn clock_time(hour: u32) -> (r: (u32, Period))
    requires
        hour < 24,
    ensures
        r == twelve_hour(hour),
{
    let h = match hour % 12 {
        0 => 12,
        h => h,
    };
    let period = if hour < 12 { Period::Am } else { Period::Pm };
    (h, period)
}

/// The twelve-hour reading is a bijection on the day's hours: every hour
/// reads as 1 to 12, and the reading with its period gives the hour back.
pub proof fn law_clock_reading_identifies_the_hour(hour: u32)
    requires
        hour < 24,
    ensures
        1 <= twelve_hour(hour).0 <= 12,
        hour == (twelve_hour(hour).0 % 12) + if twelve_hour(hour).1 == Period::Pm { 12u32 } else { 0u32 },
{
}

/// The ASCII digit for `d` (0 to 9).
pub open spec fn digit(d: u32) -> char {
    ((d + 48) as u8) as char
}

/// An hourly bucket's label, "HH:00".
pub fn hour_label(hour: u32) -> (r: String)
    requires
        hour < 24,
    ensures
        r@ == seq![digit(hour / 10), digit(hour % 10), ':', '0', '0'],
{
    let mut s = String::new();
    push_char(&mut s, ((hour / 10 + 48) as u8) as char);
    push_char(&mut s, ((hour % 10 + 48) as u8) as char);
    push_all(&mut s, ":00");
    proof {
        reveal_strlit(":00");
    }
    assert(s@ =~= seq![digit(hour / 10), digit(hour % 10), ':', '0', '0']);
    s
}

/// The decimal digits of `n`, most significant first.
pub open spec fn decimal(n: nat) -> Seq<char>
    decreases n,
{
    if n < 10 {
        seq![digit(n as u32)]
    } else {
        decimal(n / 10).push(digit((n % 10) as u32))
    }
}

/// `i` in decimal, with a minus sign when negative.
pub open spec fn signed_decimal(i: int) -> Seq<char> {
    if i < 0 {
        seq!['-'] + decimal((-i) as nat)
    } else {
        decimal(i as nat)
    }
}

/// `n` (below 100) in two digits, zero-padded.
pub open spec fn two_digits(n: u32) -> Seq<char> {
    seq![digit(n / 10), digit(n % 10)]
}

/// Appends `n` in decimal.
fn push_decimal(s: &mut String, n: u64)
    ensures
        final(s)@ == old(s)@ + decimal(n as nat),
    decreases n,
{
    if n >= 10 {
        push_decimal(s, n / 10);
    }
    push_char(s, ((n % 10 + 48) as u8) as char);
    proof {
        if n < 10 {
            assert(n % 10 == n);
        }
    }
}

/// `n` in decimal (`format!("{}", n)`).
pub(crate) fn decimal_text(n: u64) -> (r: String)
    ensures
        r@ == decimal(n as nat),
{
    let mut s = String::new();
    push_decimal(&mut s, n);
    s
}

/// `i` in decimal (`format!("{}", i)`).
fn signed_decimal_text(i: i32) -> (r: String)
    ensures
        r@ == signed_decimal(i as int),
{
    let mut s = String::new();
    if i < 0 {
        push_char(&mut s, '-');
        let magnitude: u32 = (-(i as i64)) as u32;
        push_decimal(&mut s, magnitude as u64);
    } else {
        push_decimal(&mut s, i as u64);
    }
    s
}

/// `n` in two digits (`format!("{:02}", n)`).
fn two_digit_text(n: u32) -> (r: String)
    requires
        n < 100,
    ensures
        r@ == two_digits(n),
{
    let mut s = String::new();
    push_char(&mut s, ((n / 10 + 48) as u8) as char);
    push_char(&mut s, ((n % 10 + 48) as u8) as char);
    assert(s@ =~= two_digits(n));
    s
}

/// The catalog entry of month `month`'s name.
pub open spec fn month_key(month: u32, short: bool) -> Seq<char> {
    month_table()[(month - 1) + if short { 12int } else { 0int }]@
}

/// The catalog entry of a weekday's short name.
pub open spec fn weekday_key(weekday: Weekday) -> Seq<char> {
    match weekday {
        Weekday::Mon => "tui.date.weekday_short.mon"@,
        Weekday::Tue => "tui.date.weekday_short.tue"@,
        Weekday::Wed => "tui.date.weekday_short.wed"@,
        Weekday::Thu => "tui.date.weekday_short.thu"@,
        Weekday::Fri => "tui.date.weekday_short.fri"@,
        Weekday::Sat => "tui.date.weekday_short.sat"@,
        Weekday::Sun => "tui.date.weekday_short.sun"@,
    }
}

/// "Month day": the short month's name and the day, unpadded.
pub open spec fn month_day_message(d: (i32, u32, u32)) -> MessageView {
    MessageView::Localized {
        key: "tui.date.month_day"@,
        args: seq![("month"@, ArgView::Key(month_key(d.1, true))), ("day"@, ArgView::Text(decimal(d.2 as nat)))],
    }
}

/// The short month and day of `date`.
pub fn format_month_day(date: &CalendarDate) -> (r: CatalogMessage)
    ensures
        message_view(r) == month_day_message(date.ymd()),
{
    let month = month_name(date.month(), true).unwrap();
    let args = vec![("month", MessageArg::Key(month)), ("day", MessageArg::Text(decimal_text(date.day() as u64)))];
    proof {
        lemma_args_view_map(args@);
        assert(args@.map_values(|a: (&'static str, MessageArg)| (a.0@, arg_view(a.1)))
            =~= month_day_message(date.ymd())->Localized_args);
    }
    CatalogMessage::Localized { key: "tui.date.month_day", args }
}

/// Month and day of `date`, both as two digits.
pub fn format_numeric_month_day(date: &CalendarDate) -> (r: CatalogMessage)
    ensures
        message_view(r) == (MessageView::Localized {
            key: "tui.date.month_day_numeric"@,
            args: seq![
                ("month"@, ArgView::Text(two_digits(date.ymd().1))),
                ("day"@, ArgView::Text(two_digits(date.ymd().2))),
            ],
        }),
{
    let args = vec![
        ("month", MessageArg::Text(two_digit_text(date.month()))),
        ("day", MessageArg::Text(two_digit_text(date.day()))),
    ];
    proof {
        lemma_args_view_map(args@);
    }
    let r = CatalogMessage::Localized { key: "tui.date.month_day_numeric", args };
    assert(message_view(r)->Localized_args =~= seq![
        ("month"@, ArgView::Text(two_digits(date.ymd().1))),
        ("day"@, ArgView::Text(two_digits(date.ymd().2))),
    ]);
    r
}

/// The full month name and the year of `date`.
pub fn format_month_year(date: &CalendarDate) -> (r: CatalogMessage)
    ensures
        message_view(r) == (MessageView::Localized {
            key: "tui.date.month_year"@,
            args: seq![
                ("month"@, ArgView::Key(month_key(date.ymd().1, false))),
                ("year"@, ArgView::Text(signed_decimal(date.ymd().0 as int))),
            ],
        }),
{
    let month = month_name(date.month(), false).unwrap();
    let args = vec![("month", MessageArg::Key(month)), ("year", MessageArg::Text(signed_decimal_text(date.year())))];
    proof {
        lemma_args_view_map(args@);
    }
    let r = CatalogMessage::Localized { key: "tui.date.month_year", args };
    assert(message_view(r)->Localized_args =~= seq![
        ("month"@, ArgView::Key(month_key(date.ymd().1, false))),
        ("year"@, ArgView::Text(signed_decimal(date.ymd().0 as int))),
    ]);
    r
}

/// The separator row of a month: its two-digit number and the year.
pub fn format_month_separator(date: &CalendarDate) -> (r: CatalogMessage)
    ensures
        message_view(r) == (MessageView::Localized {
            key: "tui.date.month_separator"@,
            args: seq![
                ("month"@, ArgView::Text(two_digits(date.ymd().1))),
                ("year"@, ArgView::Text(signed_decimal(date.ymd().0 as int))),
            ],
        }),
{
    let args = vec![
        ("month", MessageArg::Text(two_digit_text(date.month()))),
        ("year", MessageArg::Text(signed_decimal_text(date.year()))),
    ];
    proof {
        lemma_args_view_map(args@);
    }
    let r = CatalogMessage::Localized { key: "tui.date.month_separator", args };
    assert(message_view(r)->Localized_args =~= seq![
        ("month"@, ArgView::Text(two_digits(date.ymd().1))),
        ("year"@, ArgView::Text(signed_decimal(date.ymd().0 as int))),
    ]);
    r
}

/// The two-digit day of `date` and its weekday.
pub fn format_day_weekday(date: &CalendarDate) -> (r: CatalogMessage)
    ensures
        message_view(r) == (MessageView::Localized {
            key: "tui.date.day_weekday"@,
            args: seq![
                ("day"@, ArgView::Text(two_digits(date.ymd().2))),
                ("weekday"@, ArgView::Key(weekday_key(crate::dates::weekday_of(date.ymd().0, date.ymd().1, date.ymd().2)))),
            ],
        }),
{
    let args = vec![
        ("day", MessageArg::Text(two_digit_text(date.day()))),
        ("weekday", MessageArg::Key(weekday_name(date.weekday()))),
    ];
    proof {
        lemma_args_view_map(args@);
    }
    let r = CatalogMessage::Localized { key: "tui.date.day_weekday", args };
    assert(message_view(r)->Localized_args =~= seq![
        ("day"@, ArgView::Text(two_digits(date.ymd().2))),
        ("weekday"@, ArgView::Key(weekday_key(crate::dates::weekday_of(date.ymd().0, date.ymd().1, date.ymd().2)))),
    ]);
    r
}

/// The weekday, short month, two-digit day and year of `date`.
pub fn format_full_date(date: &CalendarDate) -> (r: CatalogMessage)
    ensures
        message_view(r) == (MessageView::Localized {
            key: "tui.date.full_date"@,
            args: seq![
                ("weekday"@, ArgView::Key(weekday_key(crate::dates::weekday_of(date.ymd().0, date.ymd().1, date.ymd().2)))),
                ("month"@, ArgView::Key(month_key(date.ymd().1, true))),
                ("day"@, ArgView::Text(two_digits(date.ymd().2))),
                ("year"@, ArgView::Text(signed_decimal(date.ymd().0 as int))),
            ],
        }),
{
    let month = month_name(date.month(), true).unwrap();
    let args = vec![
        ("weekday", MessageArg::Key(weekday_name(date.weekday()))),
        ("month", MessageArg::Key(month)),
        ("day", MessageArg::Text(two_digit_text(date.day()))),
        ("year", MessageArg::Text(signed_decimal_text(date.year()))),
    ];
    proof {
        lemma_args_view_map(args@);
    }
    let r = CatalogMessage::Localized { key: "tui.date.full_date", args };
    assert(message_view(r)->Localized_args =~= seq![
        ("weekday"@, ArgView::Key(weekday_key(crate::dates::weekday_of(date.ymd().0, date.ymd().1, date.ymd().2)))),
        ("month"@, ArgView::Key(month_key(date.ymd().1, true))),
        ("day"@, ArgView::Text(two_digits(date.ymd().2))),
        ("year"@, ArgView::Text(signed_decimal(date.ymd().0 as int))),
    ]);
    r
}

/// The year, two-digit month and two-digit day of `date`.
pub fn format_year_month_day(date: &CalendarDate) -> (r: CatalogMessage)
    ensures
        message_view(r) == (MessageView::Localized {
            key: "tui.date.year_month_day"@,
            args: seq![
                ("year"@, ArgView::Text(signed_decimal(date.ymd().0 as int))),
                ("month"@, ArgView::Text(two_digits(date.ymd().1))),
                ("day"@, ArgView::Text(two_digits(date.ymd().2))),
            ],
        }),
{
    let args = vec![
        ("year", MessageArg::Text(signed_decimal_text(date.year()))),
        ("month", MessageArg::Text(two_digit_text(date.month()))),
        ("day", MessageArg::Text(two_digit_text(date.day()))),
    ];
    proof {
        lemma_args_view_map(args@);
    }
    let r = CatalogMessage::Localized { key: "tui.date.year_month_day", args };
    assert(message_view(r)->Localized_args =~= seq![
        ("year"@, ArgView::Text(signed_decimal(date.ymd().0 as int))),
        ("month"@, ArgView::Text(two_digits(date.ymd().1))),
        ("day"@, ArgView::Text(two_digits(date.ymd().2))),
    ]);
    r
}

/// A timestamp: month, day, hour and minute, each in two digits.
pub fn format_timestamp(date: &CalendarDate, hour: u32, minute: u32) -> (r: CatalogMessage)
    requires
        hour < 24,
        minute < 60,
    ensures
        message_view(r) == (MessageView::Localized {
            key: "tui.date.timestamp"@,
            args: seq![
                ("month"@, ArgView::Text(two_digits(date.ymd().1))),
                ("day"@, ArgView::Text(two_digits(date.ymd().2))),
                ("hour"@, ArgView::Text(two_digits(hour))),
                ("minute"@, ArgView::Text(two_digits(minute))),
            ],
        }),
{
    let args = vec![
        ("month", MessageArg::Text(two_digit_text(date.month()))),
        ("day", MessageArg::Text(two_digit_text(date.day()))),
        ("hour", MessageArg::Text(two_digit_text(hour))),
        ("minute", MessageArg::Text(two_digit_text(minute))),
    ];
    proof {
        lemma_args_view_map(args@);
    }
    let r = CatalogMessage::Localized { key: "tui.date.timestamp", args };
    assert(message_view(r)->Localized_args =~= seq![
        ("month"@, ArgView::Text(two_digits(date.ymd().1))),
        ("day"@, ArgView::Text(two_digits(date.ymd().2))),
        ("hour"@, ArgView::Text(two_digits(hour))),
        ("minute"@, ArgView::Text(two_digits(minute))),
    ]);
    r
}

/// The catalog entry of a period of the day.
pub open spec fn period_key(period: Period) -> Seq<char> {
    match period {
        Period::Am => "tui.date.time.am"@,
        Period::Pm => "tui.date.time.pm"@,
    }
}

/// A clock time as a message: the twelve-hour reading of `hour` and its
/// period.
pub open spec fn clock_time_message(hour: u32) -> MessageView {
    MessageView::Localized {
        key: "tui.date.time.format"@,
        args: seq![
            ("hour"@, ArgView::Text(decimal(twelve_hour(hour).0 as nat))),
            ("period"@, ArgView::Key(period_key(twelve_hour(hour).1))),
        ],
    }
}

/// A clock time: the twelve-hour reading of `hour` and its period.
pub fn format_clock_time(hour: u32) -> (r: CatalogMessage)
    requires
        hour < 24,
    ensures
        message_view(r) == clock_time_message(hour),
{
    let (h, period) = clock_time(hour);
    let period_entry = match period {
        Period::Am => "tui.date.time.am",
        Period::Pm => "tui.date.time.pm",
    };
    let args = vec![("hour", MessageArg::Text(decimal_text(h as u64))), ("period", MessageArg::Key(period_entry))];
    proof {
        lemma_args_view_map(args@);
    }
    let r = CatalogMessage::Localized { key: "tui.date.time.format", args };
    assert(message_view(r)->Localized_args =~= seq![
        ("hour"@, ArgView::Text(decimal(twelve_hour(hour).0 as nat))),
        ("period"@, ArgView::Key(period_key(twelve_hour(hour).1))),
    ]);
    r
}

/// How usage periods are bucketed.
#[derive(Debug, Clone, Copy, PartialEq, Eq, Structural)]
pub enum PeriodKind {
    Monthly,
    Weekly,
}

/// The label of a period from `start` to `end`: a month by its (short or
/// full) name; a week by its two-digit ISO number, with its first and last
/// days unless `short`.
pub open spec fn period_label(kind: PeriodKind, start: (i32, u32, u32), end: (i32, u32, u32), short: bool) -> MessageView {
    let week = two_digits(crate::dates::iso_week_of(start.0, start.1, start.2));
    match kind {
        PeriodKind::Monthly => MessageView::Localized { key: month_key(start.1, short), args: Seq::empty() },
        PeriodKind::Weekly => if short {
            MessageView::Localized { key: "tui.date.week_short"@, args: seq![("week"@, ArgView::Text(week))] }
        } else {
            MessageView::Localized {
                key: "tui.date.week_range"@,
                args: seq![
                    ("week"@, ArgView::Text(week)),
                    ("start"@, ArgView::Nested(Box::new(month_day_message(start)))),
                    ("end"@, ArgView::Nested(Box::new(month_day_message(end)))),
                ],
            }
        },
    }
}

/// Labels a usage period.
pub fn format_period_label(kind: PeriodKind, start: &CalendarDate, end: &CalendarDate, short: bool) -> (r: CatalogMessage)
    ensures
        message_view(r) == period_label(kind, start.ymd(), end.ymd(), short),
{
    match kind {
        PeriodKind::Monthly => {
            let key = month_name(start.month(), short).unwrap();
            let args: Vec<(&'static str, MessageArg)> = Vec::new();
            proof {
                lemma_args_view_map(args@);
            }
            let r = CatalogMessage::Localized { key, args };
            assert(message_view(r)->Localized_args =~= Seq::<(Seq<char>, ArgView)>::empty());
            r
        },
        PeriodKind::Weekly => {
            let week = two_digit_text(start.iso_week());
            if short {
                let args = vec![("week", MessageArg::Text(week))];
                proof {
                    lemma_args_view_map(args@);
                }
                let r = CatalogMessage::Localized { key: "tui.date.week_short", args };
                assert(message_view(r)->Localized_args =~= period_label(kind, start.ymd(), end.ymd(), short)->Localized_args);
                r
            } else {
                let args = vec![
                    ("week", MessageArg::Text(week)),
                    ("start", MessageArg::Nested(Box::new(format_month_day(start)))),
                    ("end", MessageArg::Nested(Box::new(format_month_day(end)))),
                ];
                proof {
                    lemma_args_view_map(args@);
                }
                let r = CatalogMessage::Localized { key: "tui.date.week_range", args };
                assert(message_view(r)->Localized_args =~= period_label(kind, start.ymd(), end.ymd(), short)->Localized_args);
                r
            }
        },
    }
}

} // verus!
