use tokenx::helpers::{capitalize, env_value, keychain_secret};

#[test]
fn capitalize_upper_cases_only_the_first_character() {
    assert_eq!(capitalize("pro"), "Pro");
    assert_eq!(capitalize("max plan"), "Max plan");
    assert_eq!(capitalize("Team"), "Team");
    assert_eq!(capitalize(""), "");
    assert_eq!(capitalize("ßeta"), "SSeta");
    assert_eq!(capitalize("1st"), "1st");
}

#[test]
fn environment_values_are_trimmed_and_blank_ones_absent() {
    assert_eq!(env_value("  sk-test \n"), Some("sk-test".to_string()));
    assert_eq!(env_value("token"), Some("token".to_string()));
    assert_eq!(env_value(" \t\n"), None);
    assert_eq!(env_value(""), None);
}

#[test]
fn keychain_secret_drops_only_trailing_white_space() {
    assert_eq!(keychain_secret("{\"token\":1}\n"), "{\"token\":1}");
    assert_eq!(keychain_secret("  lead\r\n"), "  lead");
    assert_eq!(keychain_secret(""), "");
}
