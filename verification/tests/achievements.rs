use tokenx::achievements::{
    build, cache_tiers, client_tiers, ladder_marks, model_tiers, rank, streak_tiers, tier_text, title_padding,
    token_tiers, CacheRate, TierMark,
};

#[test]
fn rank_picks_the_highest_reached_tier_or_roast() {
    assert_eq!(rank(&streak_tiers(), 0).title, "tui.ui.achievements.streak.roast");
    assert_eq!(rank(&streak_tiers(), 0).current, -1);
    assert_eq!(rank(&streak_tiers(), 7).title, "tui.ui.achievements.streak.tier1");
    assert_eq!(rank(&streak_tiers(), 179).title, "tui.ui.achievements.streak.tier4");
    assert_eq!(rank(&streak_tiers(), 180).title, "tui.ui.achievements.streak.tier5");
    assert_eq!(rank(&token_tiers(), 12_000_000_000).title, "tui.ui.achievements.tokens.tier3");
    assert_eq!(rank(&model_tiers(), 67).title, "tui.ui.achievements.models.tier3");
    assert_eq!(rank(&cache_tiers(), 91).title, "tui.ui.achievements.cache.tier3");
    assert_eq!(rank(&client_tiers(), 15).title, "tui.ui.achievements.clients.tier4");
    assert_eq!(rank(&client_tiers(), 20).title, "tui.ui.achievements.clients.tier5");
}

#[test]
fn build_uses_the_authoritative_current_streak() {
    let achievements = build(30, 0, CacheRate::from_tokens(0, 0), 0, 0);

    assert_eq!(achievements[0].title, "tui.ui.achievements.streak.tier3");
    assert_eq!(achievements[0].current, 2);
}

#[test]
fn cache_tier_uses_the_same_tenth_percent_as_the_display() {
    let rounded_to_fifty = build(0, 0, CacheRate::from_tokens(4_996, 10_000), 0, 0);
    let still_below_fifty = build(0, 0, CacheRate::from_tokens(4_994, 10_000), 0, 0);

    assert_eq!(rounded_to_fifty[2].title, "tui.ui.achievements.cache.tier1");
    assert_eq!(rounded_to_fifty[2].current, 0);
    assert_eq!(still_below_fifty[2].title, "tui.ui.achievements.cache.roast");
    assert_eq!(still_below_fifty[2].current, -1);
}

#[test]
fn every_below_threshold_achievement_keeps_its_roast_title() {
    let achievements = build(0, 0, CacheRate::from_tokens(0, 0), 0, 0);

    assert_eq!(
        achievements.iter().map(|a| (a.title, a.current)).collect::<Vec<_>>(),
        vec![
            ("tui.ui.achievements.streak.roast", -1),
            ("tui.ui.achievements.tokens.roast", -1),
            ("tui.ui.achievements.cache.roast", -1),
            ("tui.ui.achievements.models.roast", -1),
            ("tui.ui.achievements.clients.roast", -1),
        ]
    );
}

#[test]
fn ladders_display_their_thresholds() {
    let a = rank(&token_tiers(), 0);
    assert_eq!(a.ladder, ["0.1B", "1B", "10B", "100B", "1T"]);
    assert_eq!(rank(&cache_tiers(), 0).ladder, ["50%", "80%", "90%", "95%", "99%"]);
}

#[test]
fn larger_counts_never_rank_lower() {
    let mut previous = -1;
    for value in [0u64, 1, 4, 5, 9, 10, 14, 15, 19, 20, 1_000] {
        let current = rank(&client_tiers(), value).current;
        assert!(current >= previous);
        previous = current;
    }
}

#[test]
fn cache_rate_rounds_half_up_to_tenths() {
    assert_eq!(CacheRate::from_tokens(4_995, 10_000).tenths, 500);
    assert_eq!(CacheRate::from_tokens(1, 3).tenths, 333);
    assert_eq!(CacheRate::from_tokens(0, 0).tenths, 0);
    assert!(CacheRate::from_tokens(10, 10).reaches(99));
    assert!(!CacheRate::from_tokens(98, 100).reaches(99));
}

#[test]
fn colors_encode_ladder_progress_without_highlighting_locked_titles() {
    let locked = rank(&streak_tiers(), 0);
    let unlocked = rank(&streak_tiers(), 15);
    assert!(ladder_marks(&locked).iter().all(|mark| *mark == TierMark::Pending));
    assert_eq!(
        ladder_marks(&unlocked),
        [TierMark::Passed, TierMark::Current, TierMark::Pending, TierMark::Pending, TierMark::Pending]
    );
    assert_eq!(tier_text(unlocked.ladder[1], TierMark::Current), "[15]");
    assert_eq!(tier_text(unlocked.ladder[0], TierMark::Passed), "7");
    assert_eq!(tier_text(unlocked.ladder[2], TierMark::Pending), "30");
}

#[test]
fn titles_are_padded_to_a_common_column() {
    assert_eq!(title_padding("Rookie"), 5);
    assert_eq!(title_padding("连续打卡"), 3);
    assert_eq!(title_padding("Extremely long title"), 1);
    assert_eq!(title_padding(""), 11);
}
