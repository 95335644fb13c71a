use tokenx::display_labels::{group_by_label, theme_label, GroupBy, ThemeName};
use tokenx::portraits::{padded_rows, portrait, ModelFamily, PORTRAIT_HEIGHT};
use tokenx::pricing::{normalize_pricing_source, override_order, pricing_source_label, PricingSourceLabel};
use unicode_width::UnicodeWidthStr;

#[test]
fn portrait_lines_have_fixed_height_and_equal_display_width() {
    for family in [
        ModelFamily::Gpt,
        ModelFamily::Claude,
        ModelFamily::Gemini,
        ModelFamily::Xai,
        ModelFamily::Glm,
        ModelFamily::Deepseek,
        ModelFamily::Qwen,
        ModelFamily::Kimi,
        ModelFamily::Minimax,
        ModelFamily::Mimo,
        ModelFamily::Mistral,
        ModelFamily::Unknown,
    ] {
        let art = portrait(family);
        let width = art.iter().map(|row| UnicodeWidthStr::width(*row)).max().unwrap();
        assert!(width <= 16, "portrait too wide for the column: {width}");

        let rows = padded_rows(art);
        assert_eq!(rows.len(), PORTRAIT_HEIGHT);
        assert!(rows.iter().all(|(row, pad)| UnicodeWidthStr::width(*row) + pad == width));
        assert!(rows.iter().zip(art.iter()).all(|((row, _), original)| row == original));
    }
}

#[test]
fn group_by_labels_are_exhaustive() {
    assert_eq!(group_by_label(GroupBy::Model), "tui.model.display.group_by.model");
    assert_eq!(group_by_label(GroupBy::ClientModel), "tui.model.display.group_by.client_model");
    assert_eq!(
        group_by_label(GroupBy::ClientProviderModel),
        "tui.model.display.group_by.client_provider_model"
    );
    assert_eq!(group_by_label(GroupBy::WorkspaceModel), "tui.model.display.group_by.workspace_model");
}

#[test]
fn theme_labels_are_exhaustive() {
    assert_eq!(theme_label(ThemeName::Green), "tui.model.display.theme.green");
    assert_eq!(theme_label(ThemeName::YlGnBu), "tui.model.display.theme.ylgnbu");
    assert_eq!(theme_label(ThemeName::Dusk), "tui.model.display.theme.dusk");
}

#[test]
fn pricing_sources_match_without_regard_to_case() {
    assert_eq!(normalize_pricing_source("LiteLLM"), "litellm");
    assert_eq!(pricing_source_label("LITELLM"), PricingSourceLabel::Named("LiteLLM"));
    assert_eq!(pricing_source_label("openrouter"), PricingSourceLabel::Named("OpenRouter"));
    assert_eq!(pricing_source_label("Models.Dev"), PricingSourceLabel::Named("Models.dev"));
    assert_eq!(pricing_source_label("Custom"), PricingSourceLabel::Custom("commands.pricing.source_custom"));
    assert_eq!(pricing_source_label("Vendor"), PricingSourceLabel::Verbatim("Vendor".to_string()));
}

#[test]
fn pricing_overrides_are_listed_by_model_id() {
    let ids: Vec<String> = ["nova-pro", "atlas-2", "Zeta", "atlas-2", "atlas", "é-model"]
        .iter()
        .map(|s| s.to_string())
        .collect();
    let order = override_order(&ids);
    assert_eq!(order, vec![2, 4, 1, 3, 0, 5]);
    let mut expected = ids.clone();
    expected.sort();
    let listed: Vec<String> = order.iter().map(|i| ids[*i].clone()).collect();
    assert_eq!(listed, expected);
    assert_eq!(override_order(&Vec::new()), Vec::<usize>::new());
}

#[test]
fn pricing_sources_lower_case_ascii_letter_by_letter() {
    assert_eq!(normalize_pricing_source("Models.DEV-2"), "models.dev-2");
    assert_eq!(normalize_pricing_source("already lower"), "already lower");
    assert_eq!(pricing_source_label("OpenRouter"), PricingSourceLabel::Named("OpenRouter"));
}
