use tokenx::text::{pad_left, pad_right, truncate, truncate_with_ellipsis, truncate_with_suffix, width, char_width, width_u16};

#[test]
fn measures_ascii_cjk_and_combining_marks_in_cells() {
    assert_eq!(width("abc"), 3);
    assert_eq!(width("中文"), 4);
    assert_eq!(width("e\u{301}"), 1);
}

#[test]
fn truncation_and_padding_share_the_cell_width_invariant() {
    assert_eq!(truncate("中ab", 3), "中a");
    assert_eq!(truncate_with_ellipsis("中文ab", 4), "中…");
    assert_eq!(width(&truncate_with_ellipsis("中文ab", 4)), 3);
    assert_eq!(truncate_with_suffix("中文ab", 5, "..."), "中...");
    assert_eq!(pad_right("中", 4), "中  ");
    assert_eq!(pad_left("中", 4), "  中");
}

#[test]
fn zero_width_budget_is_empty_even_when_truncating() {
    assert_eq!(truncate("中", 0), "");
    assert_eq!(truncate_with_ellipsis("中", 0), "");
}

#[test]
fn fitting_text_is_returned_unchanged() {
    assert_eq!(truncate("abc", 3), "abc");
    assert_eq!(truncate_with_ellipsis("abc", 10), "abc");
    assert_eq!(truncate_with_suffix("", 0, "..."), "");
}

#[test]
fn truncation_never_splits_a_wide_character() {
    assert_eq!(truncate("中文", 3), "中");
    assert_eq!(truncate("中文", 1), "");
    assert_eq!(width(&truncate("中文字", 5)), 4);
}

#[test]
fn suffix_wider_than_budget_truncates_without_it() {
    assert_eq!(truncate_with_suffix("abcdef", 3, "..."), "abc");
    assert_eq!(truncate_with_suffix("abcdef", 2, "..."), "ab");
    assert_eq!(truncate_with_suffix("abcdef", 4, "..."), "a...");
}

#[test]
fn padding_never_truncates() {
    assert_eq!(pad_right("abcdef", 3), "abcdef");
    assert_eq!(pad_left("abcdef", 3), "abcdef");
    assert_eq!(pad_right("ab", 5), "ab   ");
    assert_eq!(pad_left("", 2), "  ");
}

#[test]
fn character_widths_treat_controls_as_zero() {
    assert_eq!(char_width('a'), 1);
    assert_eq!(char_width('中'), 2);
    assert_eq!(char_width('\u{7}'), 0);
    assert_eq!(char_width('\u{301}'), 0);
}

#[test]
fn width_u16_saturates() {
    assert_eq!(width_u16("abcd"), 4);
    let long = "x".repeat(70_000);
    assert_eq!(width_u16(&long), u16::MAX);
}

#[test]
fn truncation_measures_characters_one_by_one() {
    // A heart with the emoji presentation selector: one cell plus zero cells
    // character by character, two cells as a sequence.
    let text = "\u{2764}\u{FE0F}x";
    let cut = truncate(text, 1);
    assert_eq!(cut, "\u{2764}\u{FE0F}");
    assert_eq!(width(&cut), 2);
}

#[test]
fn padded_text_reaches_the_target_width() {
    let wide = pad_right("中文", 7);
    assert_eq!(wide, "中文   ");
    assert_eq!(width(&wide), 7);
    let left = pad_left("é", 3);
    assert_eq!(left, "  é");
    assert_eq!(width(&left), 3);
    let already = pad_right("abcdef", 4);
    assert_eq!(width(&already), 6);
}
