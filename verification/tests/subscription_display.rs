use tokenx::message::{CatalogMessage, MessageArg};
use tokenx::subscription_display::{
    account_name, output_name, cache_display_notice, empty_message, error_provider, metric_label, prompt_message,
    remaining_label, reset_display, reset_text, ResetText, AccountName, MetricLabel, ProviderName, RemainingLabel,
    ResetDisplay,
};
use tokenx::subscription_panel::{subscription_lines, OutputShape, PanelLine};

fn rendered(message: &CatalogMessage) -> String {
    match message {
        CatalogMessage::Verbatim(text) => text.clone(),
        CatalogMessage::Localized { key, args } => {
            let args: Vec<String> = args
                .iter()
                .map(|(name, value)| match value {
                    MessageArg::Text(t) => format!("{name}={t}"),
                    MessageArg::Key(k) => format!("{name}=@{k}"),
                    MessageArg::Nested(inner) => format!("{name}=({})", rendered(inner)),
                })
                .collect();
            format!("{key}[{}]", args.join(","))
        }
    }
}

#[test]
fn canonical_subscription_data_localizes_only_at_presentation() {
    let account = account_name(None, None, Some("accoun...6789"));
    assert_eq!(
        rendered(&output_name("Codex", Some(account), true)),
        "subscription.display.stale[name=(subscription.display.provider_account[provider=Codex,account=(subscription.display.account[id=accoun...6789])])]"
    );
    assert_eq!(metric_label("5 Hour"), MetricLabel::HourWindow("5".to_string()));
    assert_eq!(remaining_label("80 left"), RemainingLabel::Left("80".to_string()));
    assert_eq!(
        account_name(None, None, Some("accoun...6789")),
        AccountName::ShortId("accoun...6789".to_string())
    );
}

#[test]
fn idle_prompt_reflects_provider_availability() {
    assert_eq!(prompt_message(false), "tui.ui.subscription.prompt_no_providers");
    assert_eq!(prompt_message(true), "tui.ui.subscription.prompt_fetch");
}

#[test]
fn empty_prompt_requires_enabled_provider() {
    assert_eq!(empty_message(false), "tui.ui.subscription.prompt_no_providers");
    assert_eq!(empty_message(true), "tui.ui.subscription.empty");
}

#[test]
fn cached_subscription_notice_only_shows_without_enabled_provider() {
    assert_eq!(cache_display_notice(true, false), Some("tui.ui.subscription.cache_notice"));
    assert_eq!(cache_display_notice(true, true), None);
    assert_eq!(cache_display_notice(false, false), None);
}

#[test]
fn fixed_metric_labels_use_their_catalog_entries() {
    assert_eq!(metric_label("Session"), MetricLabel::Catalog("subscription.metric.session"));
    assert_eq!(metric_label("Weekly"), MetricLabel::Catalog("subscription.metric.weekly"));
    assert_eq!(metric_label("On demand"), MetricLabel::Catalog("subscription.metric.on_demand"));
    assert_eq!(metric_label("model"), MetricLabel::Catalog("subscription.metric.model_fallback"));
}

#[test]
fn numbered_metric_labels_need_well_formed_numbers() {
    assert_eq!(metric_label("15m limit"), MetricLabel::MinuteLimit("15".to_string()));
    assert_eq!(metric_label("7d limit"), MetricLabel::DayLimit("7".to_string()));
    assert_eq!(metric_label("30s limit"), MetricLabel::SecondLimit("30".to_string()));
    assert_eq!(metric_label("-3 Hour"), MetricLabel::HourWindow("-3".to_string()));
    assert_eq!(metric_label("Limit 2"), MetricLabel::LimitN("2".to_string()));
    assert_eq!(metric_label("Limit -2"), MetricLabel::Verbatim("Limit -2".to_string()));
    assert_eq!(metric_label("five Hour"), MetricLabel::Verbatim("five Hour".to_string()));
    assert_eq!(metric_label(" Hour"), MetricLabel::Verbatim(" Hour".to_string()));
}

#[test]
fn weekly_model_limits_need_a_name() {
    assert_eq!(metric_label("sonnet-wk"), MetricLabel::WeeklySuffix("sonnet".to_string()));
    assert_eq!(metric_label("-wk"), MetricLabel::Verbatim("-wk".to_string()));
    assert_eq!(metric_label("Daily"), MetricLabel::Verbatim("Daily".to_string()));
}

#[test]
fn remaining_labels_without_an_amount_stay_verbatim() {
    assert_eq!(remaining_label(" left"), RemainingLabel::Verbatim(" left".to_string()));
    assert_eq!(remaining_label("unlimited"), RemainingLabel::Verbatim("unlimited".to_string()));
    assert_eq!(remaining_label("$4.20 left"), RemainingLabel::Left("$4.20".to_string()));
}

#[test]
fn failed_fetches_name_their_provider() {
    assert_eq!(error_provider(Some("Codex"), "whatever"), ProviderName::Label("Codex".to_string()));
    assert_eq!(
        error_provider(None, "Subscription cache"),
        ProviderName::Catalog("subscription.provider.cache")
    );
    assert_eq!(error_provider(None, "unknown"), ProviderName::Catalog("subscription.provider.unknown"));
    assert_eq!(error_provider(None, "Custom"), ProviderName::Verbatim("Custom".to_string()));
}

#[test]
fn account_names_prefer_label_then_email_then_id() {
    assert_eq!(
        account_name(Some("work"), Some("a@b.c"), Some("id")),
        AccountName::Label("work".to_string())
    );
    assert_eq!(
        account_name(None, Some("  a@b.c \n"), Some("id")),
        AccountName::Email("a@b.c".to_string())
    );
    assert_eq!(account_name(None, Some("   "), Some("id")), AccountName::ShortId("id".to_string()));
    assert_eq!(account_name(None, Some(""), None), AccountName::Unknown);
    assert_eq!(account_name(None, None, None), AccountName::Unknown);
}

#[test]
fn reset_times_are_shown_by_distance() {
    assert_eq!(reset_display(true, 0), ResetDisplay::Now);
    assert_eq!(reset_display(false, 0), ResetDisplay::InMinutes(0));
    assert_eq!(reset_display(false, 59 * 60 + 59), ResetDisplay::InMinutes(59));
    assert_eq!(reset_display(false, 3600), ResetDisplay::InHours(1));
    assert_eq!(
        reset_display(false, 2 * 3600 + 30 * 60 + 10),
        ResetDisplay::InHoursMinutes { hours: 2, mins: 30 }
    );
    assert_eq!(reset_display(false, 24 * 3600 - 1), ResetDisplay::InHoursMinutes { hours: 23, mins: 59 });
    assert_eq!(reset_display(false, 24 * 3600), ResetDisplay::WeekdayAndTime);
    assert_eq!(reset_display(false, 7 * 86400 - 1), ResetDisplay::WeekdayAndTime);
    assert_eq!(reset_display(false, 7 * 86400), ResetDisplay::MonthDay);
}

#[test]
fn reset_minutes_stay_below_an_hour() {
    for secs in (3600..86400).step_by(97) {
        if let ResetDisplay::InHoursMinutes { hours, mins } = reset_display(false, secs) {
            assert!(0 < mins && mins < 60);
            assert!(hours * 3600 + mins * 60 <= secs && secs < hours * 3600 + (mins + 1) * 60);
        }
    }
}

#[test]
fn idle_prompt_does_not_render_a_loading_animation() {
    assert_eq!(prompt_message(false), "tui.ui.subscription.prompt_no_providers");
    assert_eq!(subscription_lines(&Vec::new(), 0, false), Vec::<PanelLine>::new());
}

#[test]
fn subscription_lines_render_provider_errors_without_outputs() {
    assert_eq!(
        subscription_lines(&Vec::new(), 1, false),
        vec![PanelLine::ErrorsTitle, PanelLine::Error(0)]
    );
}

#[test]
fn subscription_lines_render_the_canonical_provider_label() {
    let shape = OutputShape { metrics: 0, has_email: false, has_plan: false };
    assert_eq!(subscription_lines(&vec![shape], 0, false), vec![PanelLine::OutputName(0)]);
    assert_eq!(
        account_name(Some("Work"), None, Some("account-1")),
        AccountName::Label("Work".to_string())
    );
}

#[test]
fn panel_lines_separate_outputs_errors_and_the_notice() {
    let shapes = vec![
        OutputShape { metrics: 2, has_email: true, has_plan: true },
        OutputShape { metrics: 1, has_email: false, has_plan: true },
    ];
    let lines = subscription_lines(&shapes, 2, true);
    assert_eq!(
        lines,
        vec![
            PanelLine::Notice,
            PanelLine::Blank,
            PanelLine::OutputName(0),
            PanelLine::Metric(0, 0),
            PanelLine::Metric(0, 1),
            PanelLine::Email(0),
            PanelLine::Plan(0),
            PanelLine::Blank,
            PanelLine::OutputName(1),
            PanelLine::Metric(1, 0),
            PanelLine::Plan(1),
            PanelLine::Blank,
            PanelLine::ErrorsTitle,
            PanelLine::Error(0),
            PanelLine::Error(1),
        ]
    );
    // 2 for the notice, 5 + 3 block lines, 1 separator, 1 + 1 + 2 for the errors.
    assert_eq!(lines.len(), 2 + 5 + 3 + 1 + 4);
}

#[test]
fn output_titles_name_provider_account_and_staleness() {
    assert_eq!(rendered(&output_name("Codex", None, false)), "Codex");
    assert_eq!(rendered(&output_name("Codex", None, true)), "subscription.display.stale[name=Codex]");
    assert_eq!(
        rendered(&output_name("Z.ai GLM Coding Plan", Some(AccountName::Label("Work".to_string())), false)),
        "subscription.display.provider_account[provider=Z.ai GLM Coding Plan,account=Work]"
    );
    assert_eq!(
        rendered(&output_name("Kimi", Some(AccountName::Unknown), false)),
        "subscription.display.provider_account[provider=Kimi,account=@subscription.provider.unknown]"
    );
}

#[test]
fn metric_label_numbers_follow_integer_numeral_rules() {
    assert_eq!(metric_label("+5 Hour"), MetricLabel::HourWindow("+5".to_string()));
    assert_eq!(metric_label("-5 Hour"), MetricLabel::HourWindow("-5".to_string()));
    assert_eq!(metric_label("- Hour"), MetricLabel::Verbatim("- Hour".to_string()));
    assert_eq!(metric_label("99999999999999999999m limit"), MetricLabel::Verbatim("99999999999999999999m limit".to_string()));
    assert_eq!(metric_label("Limit +3"), MetricLabel::LimitN("+3".to_string()));
    assert_eq!(metric_label("Limit -3"), MetricLabel::Verbatim("Limit -3".to_string()));
}

const RESET_AT: i64 = 1_785_369_600; // 2026-07-30T00:00:00Z, a Thursday

#[test]
fn unparsable_reset_times_are_shown_as_recorded() {
    assert!(matches!(reset_text("soon", RESET_AT, 0), ResetText::Verbatim(text) if text == "soon"));
    assert!(matches!(reset_text("2026-07-30", RESET_AT, 0), ResetText::Verbatim(text) if text == "2026-07-30"));
}

#[test]
fn reset_times_read_by_how_far_ahead_they_are() {
    let at = "2026-07-30T00:00:00Z";
    assert!(matches!(reset_text(at, RESET_AT, 0), ResetText::Relative(ResetDisplay::Now)));
    assert!(matches!(reset_text(at, RESET_AT + 5, 0), ResetText::Relative(ResetDisplay::Now)));
    assert!(matches!(reset_text(at, RESET_AT - 1, 1), ResetText::Relative(ResetDisplay::InMinutes(0))));
    assert!(matches!(reset_text(at, RESET_AT - 30 * 60, 0), ResetText::Relative(ResetDisplay::InMinutes(30))));
    assert!(matches!(
        reset_text(at, RESET_AT - (2 * 3600 + 15 * 60), 0),
        ResetText::Relative(ResetDisplay::InHoursMinutes { hours: 2, mins: 15 })
    ));
    assert!(matches!(reset_text(at, RESET_AT - 3 * 3600, 0), ResetText::Relative(ResetDisplay::InHours(3))));
    assert!(matches!(
        reset_text("2026-07-30T02:00:00+02:00", RESET_AT - 3 * 3600, 0),
        ResetText::Relative(ResetDisplay::InHours(3))
    ));
    match reset_text(at, RESET_AT - 3 * 86400, 0) {
        ResetText::WeekdayAt { weekday, time } => {
            assert_eq!(weekday, "tui.date.weekday_short.thu");
            assert_eq!(rendered(&time), "tui.date.time.format[hour=12,period=@tui.date.time.am]");
        }
        _ => panic!("expected a weekday and time"),
    }
    match reset_text(at, RESET_AT - 10 * 86400, 0) {
        ResetText::On(date) => assert_eq!(rendered(&date), "tui.date.month_day[month=@tui.date.month_short.jul,day=30]"),
        _ => panic!("expected a month and day"),
    }
    assert!(matches!(reset_text(at, i64::MIN, 0), ResetText::On(_)));
}
