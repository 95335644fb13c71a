use tokenx::cli::{
    arg_help_keys, check_initial_tab, check_terminal, clap_phrases, home_arg_text, localize_clap_output, parse_date_arg,
    parse_positive_u64, parse_year_arg, resolve_date_for_date, DateArgError, DateLabel, DateRange, DateRangeError,
    DateRangeFlags, HomeArgError, PricingSource, RefreshArgError, RelativeDateRange, TerminalState, TuiRequestError,
    YearArgError,
};
use tokenx::dates::CalendarDate;
use tokenx::intent::Tab;

fn date(y: i32, m: u32, d: u32) -> CalendarDate {
    CalendarDate::from_ymd(y, m, d).unwrap()
}

fn flags() -> DateRangeFlags {
    DateRangeFlags { today: false, week: false, month: false, since: None, until: None, year: None }
}

fn ymd(d: Option<CalendarDate>) -> Option<(i32, u32, u32)> {
    d.map(|d| (d.year(), d.month(), d.day()))
}

#[test]
fn reversed_custom_range_is_refused_whatever_else_is_set() {
    let mut f = flags();
    f.since = Some(date(2026, 3, 5));
    f.until = Some(date(2026, 3, 1));
    f.today = true;
    assert_eq!(
        resolve_date_for_date(f, date(2026, 7, 26)),
        Err(DateRangeError::Reversed { since: date(2026, 3, 5), until: date(2026, 3, 1) })
    );
}

#[test]
fn relative_flags_resolve_against_the_current_date() {
    let current = date(2026, 3, 3);
    let mut f = flags();
    f.week = true;
    let r = resolve_date_for_date(f, current).unwrap();
    assert_eq!(ymd(r.range.since), Some((2026, 2, 25)));
    assert_eq!(ymd(r.range.until), Some((2026, 3, 3)));
    assert_eq!(r.label, Some(DateLabel::LastSevenDays));
    assert_eq!(r.relative, Some(RelativeDateRange::LastSevenDays));
    assert_eq!(r.effective_date, current);

    let mut f = flags();
    f.month = true;
    let r = resolve_date_for_date(f, current).unwrap();
    assert_eq!(ymd(r.range.since), Some((2026, 3, 1)));
    assert_eq!(r.label, Some(DateLabel::MonthYear(current)));

    let mut f = flags();
    f.today = true;
    f.week = true;
    let r = resolve_date_for_date(f, current).unwrap();
    assert_eq!(r.range, DateRange { since: Some(current), until: Some(current) });
    assert_eq!(r.label, Some(DateLabel::Today));
}

#[test]
fn year_and_custom_ranges() {
    let current = date(2026, 7, 26);
    let mut f = flags();
    f.year = Some(2024);
    let r = resolve_date_for_date(f, current).unwrap();
    assert_eq!(ymd(r.range.since), Some((2024, 1, 1)));
    assert_eq!(ymd(r.range.until), Some((2024, 12, 31)));
    assert_eq!(r.label, Some(DateLabel::Year(2024)));
    assert_eq!(r.relative, None);

    let mut f = flags();
    f.since = Some(date(2026, 1, 1));
    let r = resolve_date_for_date(f, current).unwrap();
    assert_eq!(r.range, DateRange { since: Some(date(2026, 1, 1)), until: None });
    assert_eq!(r.label, Some(DateLabel::Custom { since: Some(date(2026, 1, 1)), until: None }));

    let r = resolve_date_for_date(flags(), current).unwrap();
    assert_eq!(r.range, DateRange { since: None, until: None });
    assert_eq!(r.label, None);
}

#[test]
fn relative_ranges_cross_month_and_year_boundaries() {
    let r = RelativeDateRange::LastSevenDays.resolve(date(2025, 1, 3));
    assert_eq!(ymd(r.since), Some((2024, 12, 28)));
    let r = RelativeDateRange::CurrentMonth.resolve(date(2024, 2, 29));
    assert_eq!(ymd(r.since), Some((2024, 2, 1)));
    assert_eq!(ymd(r.until), Some((2024, 2, 29)));
}

#[test]
fn year_arguments_need_four_digits() {
    assert_eq!(parse_year_arg("2024"), Ok(2024));
    assert_eq!(parse_year_arg("0999"), Ok(999));
    assert_eq!(parse_year_arg("202"), Err(YearArgError::Invalid));
    assert_eq!(parse_year_arg("20245"), Err(YearArgError::Invalid));
    assert_eq!(parse_year_arg("+024"), Err(YearArgError::Invalid));
    assert_eq!(parse_year_arg("２０２４"), Err(YearArgError::Invalid));
}

#[test]
fn refresh_intervals_must_be_positive_integers() {
    assert_eq!(parse_positive_u64("30"), Ok(30));
    assert_eq!(parse_positive_u64("0"), Err(RefreshArgError::NotPositive));
    assert_eq!(parse_positive_u64("-1"), Err(RefreshArgError::Invalid));
    assert_eq!(parse_positive_u64("soon"), Err(RefreshArgError::Invalid));
}

#[test]
fn date_arguments_are_iso_dates() {
    assert_eq!(parse_date_arg("2026-03-02"), Ok(date(2026, 3, 2)));
    assert_eq!(parse_date_arg("2026-02-30"), Err(DateArgError::Invalid));
    assert_eq!(parse_date_arg("03/02/2026"), Err(DateArgError::Invalid));
}

#[test]
fn home_arguments_are_trimmed_and_not_blank() {
    assert_eq!(home_arg_text("  /home/me \n"), Ok("/home/me".to_string()));
    assert_eq!(home_arg_text(" \t "), Err(HomeArgError::Empty));
}

#[test]
fn pricing_sources_keep_their_command_line_spelling() {
    assert_eq!(PricingSource::Custom.as_str(), "custom");
    assert_eq!(PricingSource::Litellm.as_str(), "litellm");
    assert_eq!(PricingSource::Openrouter.as_str(), "openrouter");
    assert_eq!(PricingSource::ModelsDev.as_str(), "models.dev");
}

#[test]
fn interface_needs_a_terminal_and_an_enabled_first_tab() {
    assert!(TerminalState { stdin: true, stdout: true }.interactive());
    assert_eq!(check_terminal(TerminalState { stdin: true, stdout: false }), Err(TuiRequestError::NotATerminal));
    assert_eq!(check_terminal(TerminalState { stdin: true, stdout: true }), Ok(()));
    assert_eq!(check_initial_tab(Some(Tab::Subscription), false), Err(TuiRequestError::TabDisabled));
    assert_eq!(check_initial_tab(Some(Tab::Subscription), true), Ok(()));
    assert_eq!(check_initial_tab(None, false), Ok(()));
}

#[test]
fn clap_output_phrases_are_replaced_in_table_order() {
    let phrases = clap_phrases();
    let mut targets: Vec<String> = phrases.iter().map(|(phrase, _)| phrase.to_string()).collect();
    let error_index = phrases.iter().position(|(p, _)| *p == "error:").unwrap();
    let usage_index = phrases.iter().position(|(p, _)| *p == "Usage:").unwrap();
    targets[error_index] = "错误：".to_string();
    targets[usage_index] = "用法：".to_string();
    let out = localize_clap_output("error: bad\n\nUsage: tokenx".to_string(), &targets);
    assert_eq!(out, "错误： bad\n\n用法： tokenx");
}

#[test]
fn help_headings_and_builtin_help_texts_come_from_the_catalog() {
    let help = arg_help_keys("help", false);
    assert_eq!(help.heading, "cli.help.options_heading");
    assert_eq!(help.help, Some("cli.help.print_help"));
    assert_eq!(help.long_help, Some("cli.help.print_help_long"));
    let version = arg_help_keys("version", false);
    assert_eq!((version.help, version.long_help), (Some("cli.help.print_version"), None));
    let subcommand = arg_help_keys("subcommand", true);
    assert_eq!(subcommand.heading, "cli.help.arguments_heading");
    assert_eq!(subcommand.help, Some("cli.help.print_subcommand_help"));
    let since = arg_help_keys("since", false);
    assert_eq!((since.heading, since.help, since.long_help), ("cli.help.options_heading", None, None));
}

#[test]
fn bounded_ranges_refuse_reversed_bounds() {
    let early = date(2026, 3, 1);
    let late = date(2026, 3, 5);
    assert_eq!(DateRange::bounded(Some(early), Some(late)), Some(DateRange { since: Some(early), until: Some(late) }));
    assert_eq!(DateRange::bounded(Some(late), Some(early)), None);
    assert_eq!(DateRange::bounded(Some(late), Some(late)), Some(DateRange { since: Some(late), until: Some(late) }));
    assert_eq!(DateRange::bounded(None, Some(early)), Some(DateRange { since: None, until: Some(early) }));
}

#[test]
fn refresh_interval_follows_unsigned_numeral_rules() {
    assert_eq!(parse_positive_u64("+30"), Ok(30));
    assert_eq!(parse_positive_u64("007"), Ok(7));
    assert_eq!(parse_positive_u64("18446744073709551615"), Ok(u64::MAX));
    assert_eq!(parse_positive_u64("18446744073709551616"), Err(RefreshArgError::Invalid));
    assert_eq!(parse_positive_u64("+"), Err(RefreshArgError::Invalid));
    assert_eq!(parse_positive_u64(""), Err(RefreshArgError::Invalid));
    assert_eq!(parse_positive_u64(" 5"), Err(RefreshArgError::Invalid));
    assert_eq!(parse_positive_u64("-0"), Err(RefreshArgError::Invalid));
}

#[test]
fn ranges_resolve_near_the_earliest_representable_date() {
    let first = date(-262143, 1, 1);
    let r = RelativeDateRange::Today.resolve(first);
    assert_eq!(ymd(r.since), Some((-262143, 1, 1)));
    let r = RelativeDateRange::CurrentMonth.resolve(date(-262143, 1, 3));
    assert_eq!(ymd(r.since), Some((-262143, 1, 1)));
    let r = RelativeDateRange::LastSevenDays.resolve(date(-262143, 1, 7));
    assert_eq!(ymd(r.since), Some((-262143, 1, 1)));
    let r = RelativeDateRange::LastSevenDays.resolve(date(-262143, 2, 3));
    assert_eq!(ymd(r.since), Some((-262143, 1, 28)));
}
