use tokenx::date_display::{
    clock_time, format_clock_time, format_day_weekday, format_full_date, format_month_day, format_month_separator,
    format_month_year, format_numeric_month_day, format_period_label, format_timestamp, format_year_month_day,
    hour_label, month_name, weekday_name, Period, PeriodKind, Weekday,
};
use tokenx::message::{CatalogMessage, MessageArg};
use tokenx::dates::CalendarDate;

fn shown(message: &CatalogMessage) -> String {
    match message {
        CatalogMessage::Verbatim(text) => text.clone(),
        CatalogMessage::Localized { key, args } => {
            let args: Vec<String> = args
                .iter()
                .map(|(name, value)| match value {
                    MessageArg::Text(t) => format!("{name}={t}"),
                    MessageArg::Key(k) => format!("{name}=@{k}"),
                    MessageArg::Nested(inner) => format!("{name}=({})", shown(inner)),
                })
                .collect();
            format!("{key}[{}]", args.join(","))
        }
    }
}

fn date(year: i32, month: u32, day: u32) -> CalendarDate {
    CalendarDate::from_ymd(year, month, day).unwrap()
}

#[test]
fn localized_clock_time_uses_translated_period() {
    assert_eq!(clock_time(9), (9, Period::Am));
}

#[test]
fn twelve_hour_clock_reads_midnight_and_noon_as_twelve() {
    assert_eq!(clock_time(0), (12, Period::Am));
    assert_eq!(clock_time(12), (12, Period::Pm));
    assert_eq!(clock_time(13), (1, Period::Pm));
    assert_eq!(clock_time(23), (11, Period::Pm));
    for hour in 0..24u32 {
        let (h, period) = clock_time(hour);
        assert!((1..=12).contains(&h));
        let back = h % 12 + if period == Period::Pm { 12 } else { 0 };
        assert_eq!(back, hour);
    }
}

#[test]
fn month_names_exist_only_for_real_months() {
    assert_eq!(month_name(1, false), Some("tui.date.month.jan"));
    assert_eq!(month_name(12, true), Some("tui.date.month_short.dec"));
    assert_eq!(month_name(6, true), Some("tui.date.month_short.jun"));
    assert_eq!(month_name(0, false), None);
    assert_eq!(month_name(13, true), None);
}

#[test]
fn weekday_names_are_short_entries() {
    assert_eq!(weekday_name(Weekday::Mon), "tui.date.weekday_short.mon");
    assert_eq!(weekday_name(Weekday::Sun), "tui.date.weekday_short.sun");
}

#[test]
fn hour_labels_are_two_digit_hours() {
    assert_eq!(hour_label(0), "00:00");
    assert_eq!(hour_label(9), "09:00");
    assert_eq!(hour_label(23), "23:00");
}

#[test]
fn calendar_dates_follow_the_gregorian_calendar() {
    assert!(CalendarDate::from_ymd(2024, 2, 29).is_some());
    assert!(CalendarDate::from_ymd(2023, 2, 29).is_none());
    assert!(CalendarDate::from_ymd(1900, 2, 29).is_none());
    assert!(CalendarDate::from_ymd(2000, 2, 29).is_some());
    assert!(CalendarDate::from_ymd(2024, 4, 31).is_none());
    assert!(CalendarDate::from_ymd(2024, 13, 1).is_none());
    assert!(CalendarDate::from_ymd(2024, 1, 0).is_none());
}

#[test]
fn days_before_crosses_month_and_year_boundaries() {
    let date = CalendarDate::from_ymd(2024, 3, 1).unwrap();
    let earlier = date.days_before(1).unwrap();
    assert_eq!((earlier.year(), earlier.month(), earlier.day()), (2024, 2, 29));
    let new_year = CalendarDate::from_ymd(2025, 1, 3).unwrap();
    let earlier = new_year.days_before(6).unwrap();
    assert_eq!((earlier.year(), earlier.month(), earlier.day()), (2024, 12, 28));
    let same = new_year.days_before(0).unwrap();
    assert_eq!(same, new_year);
    assert!(earlier.is_before(&new_year));
    assert!(!new_year.is_before(&earlier));
    assert!(!new_year.is_before(&same));
}

#[test]
fn first_of_month_keeps_year_and_month() {
    let date = CalendarDate::from_ymd(2026, 7, 19).unwrap();
    let first = date.first_of_month();
    assert_eq!((first.year(), first.month(), first.day()), (2026, 7, 1));
}

#[test]
fn chinese_full_date_has_only_one_month_suffix() {
    assert_eq!(
        shown(&format_full_date(&date(2026, 1, 2))),
        "tui.date.full_date[weekday=@tui.date.weekday_short.fri,month=@tui.date.month_short.jan,day=02,year=2026]"
    );
}

#[test]
fn date_formats_write_out_their_numbers() {
    let d = date(2026, 7, 5);
    assert_eq!(shown(&format_month_day(&d)), "tui.date.month_day[month=@tui.date.month_short.jul,day=5]");
    assert_eq!(shown(&format_numeric_month_day(&d)), "tui.date.month_day_numeric[month=07,day=05]");
    assert_eq!(shown(&format_month_year(&d)), "tui.date.month_year[month=@tui.date.month.jul,year=2026]");
    assert_eq!(shown(&format_month_separator(&d)), "tui.date.month_separator[month=07,year=2026]");
    assert_eq!(shown(&format_day_weekday(&d)), "tui.date.day_weekday[day=05,weekday=@tui.date.weekday_short.sun]");
    assert_eq!(shown(&format_year_month_day(&d)), "tui.date.year_month_day[year=2026,month=07,day=05]");
    assert_eq!(shown(&format_timestamp(&d, 9, 3)), "tui.date.timestamp[month=07,day=05,hour=09,minute=03]");
    assert_eq!(shown(&format_month_year(&date(-44, 3, 15))), "tui.date.month_year[month=@tui.date.month.mar,year=-44]");
    assert_eq!(shown(&format_year_month_day(&date(987, 12, 31))), "tui.date.year_month_day[year=987,month=12,day=31]");
}

#[test]
fn clock_time_messages_use_the_twelve_hour_reading() {
    assert_eq!(shown(&format_clock_time(9)), "tui.date.time.format[hour=9,period=@tui.date.time.am]");
    assert_eq!(shown(&format_clock_time(0)), "tui.date.time.format[hour=12,period=@tui.date.time.am]");
    assert_eq!(shown(&format_clock_time(22)), "tui.date.time.format[hour=10,period=@tui.date.time.pm]");
}

#[test]
fn period_labels_name_months_and_iso_weeks() {
    let start = date(2026, 1, 5);
    let end = date(2026, 1, 11);
    assert_eq!(shown(&format_period_label(PeriodKind::Monthly, &start, &end, true)), "tui.date.month_short.jan[]");
    assert_eq!(shown(&format_period_label(PeriodKind::Monthly, &start, &end, false)), "tui.date.month.jan[]");
    assert_eq!(shown(&format_period_label(PeriodKind::Weekly, &start, &end, true)), "tui.date.week_short[week=02]");
    assert_eq!(
        shown(&format_period_label(PeriodKind::Weekly, &start, &end, false)),
        "tui.date.week_range[week=02,start=(tui.date.month_day[month=@tui.date.month_short.jan,day=5]),end=(tui.date.month_day[month=@tui.date.month_short.jan,day=11])]"
    );
    assert_eq!(date(2026, 1, 1).iso_week(), 1);
    assert_eq!(date(2027, 1, 1).iso_week(), 53);
}

#[test]
fn weekdays_follow_the_calendar() {
    assert_eq!(date(2015, 9, 8).weekday(), Weekday::Tue);
    assert_eq!(date(-308, 3, 14).weekday(), Weekday::Fri);
    assert_eq!(date(2026, 7, 26).weekday(), Weekday::Sun);
}

#[test]
fn date_separator_uses_month_slash_day() {
    assert_eq!(shown(&format_numeric_month_day(&date(2026, 3, 2))), "tui.date.month_day_numeric[month=03,day=02]");
}
