use tokenx::catalog::{
    check_catalogs, extract_placeholders, insert_catalog, keys_outside_scope, line_shape, owner_prefixes,
    parse_catalog_text, split_file_stem, split_lines, verify_parity, CatalogIssue, FileNameError, LineShape,
    LocaleCatalog, PlaceholderError,
};

fn strings(items: &[&str]) -> Vec<String> {
    items.iter().map(|s| s.to_string()).collect()
}

fn leaf(key: &str, names: &[&str]) -> (String, Vec<String>) {
    (key.to_string(), strings(names))
}

#[test]
fn placeholders_are_read_left_to_right() {
    let (names, errors) = extract_placeholders("Hello %{name}, you have %{count} new %{name}");
    assert_eq!(names, strings(&["name", "count", "name"]));
    assert!(errors.is_empty());
}

#[test]
fn malformed_placeholders_are_reported() {
    let (names, errors) = extract_placeholders("%{} and %{bad-name} then %{ok_1}");
    assert_eq!(names, strings(&["ok_1"]));
    assert_eq!(errors, vec![PlaceholderError::Invalid(String::new()), PlaceholderError::Invalid("bad-name".to_string())]);
    let (names, errors) = extract_placeholders("%{a} trailing %{open");
    assert_eq!(names, strings(&["a"]));
    assert_eq!(errors, vec![PlaceholderError::Unterminated]);
    let (names, errors) = extract_placeholders("100% {not} %");
    assert!(names.is_empty() && errors.is_empty());
}

#[test]
fn lines_split_like_str_lines() {
    let text = "a\r\nb\n\nc";
    assert_eq!(split_lines(text), text.lines().map(str::to_string).collect::<Vec<_>>());
    assert_eq!(split_lines("x\n"), strings(&["x"]));
    assert_eq!(split_lines(""), Vec::<String>::new());
    assert_eq!(split_lines("y\r"), strings(&["y\r"]));
    assert_eq!(split_lines("\n"), strings(&[""]));
}

#[test]
fn line_shapes_follow_the_catalog_format() {
    assert_eq!(line_shape("   "), LineShape::Skip);
    assert_eq!(line_shape("  # note"), LineShape::Skip);
    assert_eq!(line_shape("\tkey: v"), LineShape::Tab);
    assert_eq!(line_shape(" key: v"), LineShape::Entry { indent: 1, odd: true, key: "key".to_string(), value: " v".to_string() });
    assert_eq!(line_shape("  no colon"), LineShape::NoColon { odd: false });
    assert_eq!(line_shape("bad key: v"), LineShape::BadKey { odd: false, key: "bad key".to_string() });
    assert_eq!(line_shape("cli:"), LineShape::Entry { indent: 0, odd: false, key: "cli".to_string(), value: String::new() });
}

#[test]
fn nested_keys_flatten_with_dots() {
    let text = "# comment\ncli:\n  help:\n    template: \"Usage %{bin}\"\n  error:\n    invalid_year: \"bad %{raw}\"\ntop: plain\n";
    let leaves = parse_catalog_text(text).expect("a well-formed catalog");
    assert_eq!(
        leaves,
        vec![leaf("cli.help.template", &["bin"]), leaf("cli.error.invalid_year", &["raw"]), leaf("top", &[])]
    );
}

#[test]
fn catalog_problems_carry_their_line_numbers() {
    let text = "a:\n\tb: x\n   c: y\nno colon here\nbad key!: z\nd: %{x-y}\nd: again\n";
    let issues = parse_catalog_text(text).expect_err("problems");
    assert_eq!(
        issues,
        vec![
            CatalogIssue::Tab { line: 2 },
            CatalogIssue::OddIndent { line: 3 },
            CatalogIssue::NoColon { line: 4 },
            CatalogIssue::BadKey { line: 5, key: "bad key!".to_string() },
            CatalogIssue::Placeholder { line: 6, error: PlaceholderError::Invalid("x-y".to_string()) },
            CatalogIssue::DuplicateKey { line: 7, key: "d".to_string() },
        ]
    );
    assert_eq!(parse_catalog_text("# only a comment\n"), Err(vec![CatalogIssue::NoLeaves]));
}

#[test]
fn translations_are_checked_against_the_source() {
    let source = vec![leaf("a", &["x"]), leaf("c", &["y"]), leaf("b", &[])];
    let translated = vec![leaf("d", &[]), leaf("c", &["z"]), leaf("a", &["x"])];
    let report = verify_parity(&source, &translated);
    assert_eq!(report.missing, strings(&["b"]));
    assert_eq!(report.extra, strings(&["d"]));
    assert_eq!(report.differing, vec![("c".to_string(), strings(&["y"]), strings(&["z"]))]);
    let same = verify_parity(&source, &source);
    assert!(same.missing.is_empty() && same.extra.is_empty() && same.differing.is_empty());
    let reordered = verify_parity(&vec![leaf("k", &["p", "q"])], &vec![leaf("k", &["q", "p", "q"])]);
    assert!(reordered.differing.is_empty());
}

#[test]
fn scopes_own_their_key_prefixes() {
    assert_eq!(owner_prefixes("cli-surface"), strings(&["cli.", "claude_diagnostics."]));
    assert_eq!(owner_prefixes("tui-ui-chrome"), strings(&["tui.ui.header.", "tui.ui.footer.", "tui.ui.loading."]));
    assert_eq!(owner_prefixes("tui-ui-tui-ui-sessions-list"), strings(&["tui.ui.sessions_list."]));
    assert_eq!(owner_prefixes("tui-model"), strings(&["tui.model."]));
    assert_eq!(owner_prefixes("subscription-usage"), strings(&["subscription_usage."]));
    let leaves = vec![leaf("tui.model.x", &[]), leaf("cli.y", &[]), leaf("tui.modelz", &[])];
    assert_eq!(keys_outside_scope("tui-model", &leaves), strings(&["cli.y", "tui.modelz"]));
}

#[test]
fn file_names_hold_scope_and_locale() {
    assert_eq!(split_file_stem("app-core.en"), Ok(("app-core".to_string(), "en".to_string())));
    assert_eq!(split_file_stem("a.b.zh-CN"), Ok(("a.b".to_string(), "zh-CN".to_string())));
    assert_eq!(split_file_stem("noext"), Err(FileNameError::NoLocale));
    assert_eq!(split_file_stem(".en"), Err(FileNameError::EmptyPart));
    assert_eq!(split_file_stem("cli."), Err(FileNameError::EmptyPart));
}

#[test]
fn catalog_sets_report_each_scope_in_order() {
    let catalog = |scope: &str, locale: &str, leaves: Vec<(String, Vec<String>)>| LocaleCatalog {
        scope: scope.to_string(),
        locale: locale.to_string(),
        leaves,
    };
    let mut cats = Vec::new();
    assert!(!insert_catalog(&mut cats, catalog("tui-model", "zh-CN", vec![leaf("tui.model.a", &["n"])])));
    assert!(!insert_catalog(&mut cats, catalog("cli-surface", "en", vec![leaf("cli.a", &[]), leaf("main.b", &[])])));
    assert!(!insert_catalog(&mut cats, catalog("tui-model", "en", vec![leaf("tui.model.a", &["m"])])));
    assert!(insert_catalog(&mut cats, catalog("tui-model", "en", vec![leaf("tui.model.a", &["n"])])));
    let reports = check_catalogs(&cats);
    assert_eq!(reports.len(), 2);
    assert_eq!(reports[0].scope, "cli-surface");
    assert_eq!(reports[0].missing_locales, strings(&["zh-CN"]));
    assert!(reports[0].has_source);
    assert_eq!(reports[0].source_outside, strings(&["main.b"]));
    assert!(reports[0].translations.is_empty());
    assert_eq!(reports[1].scope, "tui-model");
    assert!(reports[1].missing_locales.is_empty());
    assert_eq!(reports[1].translations.len(), 1);
    assert_eq!(reports[1].translations[0].locale, "zh-CN");
    assert!(reports[1].translations[0].parity.differing.is_empty());
    assert!(reports[1].translations[0].outside.is_empty());
}
