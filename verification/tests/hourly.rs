use tokenx::date_display::hour_label;
use tokenx::hourly::{hourly_column_header, hourly_column_order, hourly_column_sort_field, hourly_table_columns, hourly_window, sort_indicator, ColumnSpec, ColumnWidth, HourlyColumn, HourlyLine, SortDirection};
use tokenx::intent::SortField;

// Two rows on 05-29 (14:00, 13:00, 12:00) and two on 05-28 (23:00, 22:00),
// newest first, as day numbers.
const NEWER: i32 = 29;
const OLDER: i32 = 28;

fn days() -> Vec<i32> {
    vec![NEWER, NEWER, NEWER, OLDER, OLDER]
}

fn rows(lines: &[HourlyLine]) -> usize {
    lines.iter().filter(|line| matches!(line, HourlyLine::Row(_))).count()
}

#[test]
fn hourly_label_omits_year() {
    assert_eq!(hour_label(18), "18:00");
}

#[test]
fn compact_time_with_day_separators() {
    // A 20-line panel: two border lines and the header leave 17 body lines.
    let lines = hourly_window(&days(), 0, 17);
    assert_eq!(
        lines,
        vec![
            HourlyLine::DateSeparator(0),
            HourlyLine::Row(0),
            HourlyLine::Row(1),
            HourlyLine::Row(2),
            HourlyLine::DateSeparator(3),
            HourlyLine::Row(3),
            HourlyLine::Row(4),
        ]
    );
}

#[test]
fn selected_row_visible_in_single_line_viewport() {
    // A 4-line panel leaves one body line; the selected row at the scroll
    // position must show even though its separator cannot fit.
    let lines = hourly_window(&days(), 3, 1);
    assert_eq!(lines, vec![HourlyLine::Row(3)]);
}

#[test]
fn window_never_overflows_height_and_reports_data_rows() {
    let height = 6usize;
    let visible = height - 3;
    let lines = hourly_window(&days(), 0, visible);
    assert!(lines.len() <= visible);
    assert!(rows(&lines) >= 1);
    assert!(rows(&lines) <= height.saturating_sub(3));
}

#[test]
fn scrolling_past_the_end_shows_nothing() {
    assert!(hourly_window(&days(), 9, 10).is_empty());
    assert!(hourly_window(&days(), 0, 0).is_empty());
    assert!(hourly_window(&[], 0, 5).is_empty());
}

#[test]
fn separator_needs_room_for_its_row() {
    assert_eq!(hourly_window(&days(), 2, 3), vec![HourlyLine::DateSeparator(2), HourlyLine::Row(2), HourlyLine::Row(3)]);
    assert_eq!(hourly_window(&days(), 2, 4), vec![
        HourlyLine::DateSeparator(2),
        HourlyLine::Row(2),
        HourlyLine::DateSeparator(3),
        HourlyLine::Row(3),
    ]);
    assert_eq!(hourly_window(&days(), 2, 5), vec![
        HourlyLine::DateSeparator(2),
        HourlyLine::Row(2),
        HourlyLine::DateSeparator(3),
        HourlyLine::Row(3),
        HourlyLine::Row(4),
    ]);
}

#[test]
fn columns_keep_their_order_headers_and_sorting() {
    assert_eq!(hourly_column_order(HourlyColumn::Hour), 0);
    assert_eq!(hourly_column_order(HourlyColumn::CostPerMillion), 110);
    assert_eq!(hourly_column_header(HourlyColumn::Hour), "tui.ui.hourly.header.hour");
    assert_eq!(hourly_column_sort_field(HourlyColumn::Total), Some(SortField::Tokens));
    assert_eq!(hourly_column_sort_field(HourlyColumn::CostPerMillion), None);
    assert_eq!(sort_indicator(HourlyColumn::Cost, SortField::Cost, SortDirection::Ascending), " ▲");
    assert_eq!(sort_indicator(HourlyColumn::Hour, SortField::Date, SortDirection::Descending), " ▼");
    assert_eq!(sort_indicator(HourlyColumn::Hour, SortField::Cost, SortDirection::Descending), "");
}

#[test]
fn header_labels_translate_to_english_and_chinese() {
    assert_eq!(hourly_column_header(HourlyColumn::Hour), "tui.ui.hourly.header.hour");
    assert_eq!(hourly_column_header(HourlyColumn::CostPerMillion), "tui.ui.hourly.header.cost_per_million");
}

fn fixed(column: HourlyColumn, priority: Option<u16>, order: u16, width: u16) -> ColumnSpec {
    ColumnSpec { column, priority, order, width: ColumnWidth::Fixed(width) }
}

#[test]
fn hourly_columns_offered_to_the_layout() {
    let expected = vec![
        fixed(HourlyColumn::Hour, None, 0, 7),
        fixed(HourlyColumn::Total, None, 90, 9),
        fixed(HourlyColumn::Cost, Some(10), 100, 10),
        fixed(HourlyColumn::Messages, Some(40), 30, 6),
        ColumnSpec {
            column: HourlyColumn::Client,
            priority: Some(20),
            order: 10,
            width: ColumnWidth::Measured { min: 8, content: 23, max: 40 },
        },
        fixed(HourlyColumn::Input, Some(50), 40, 10),
        fixed(HourlyColumn::Output, Some(60), 50, 10),
        fixed(HourlyColumn::CacheRead, Some(70), 60, 10),
        fixed(HourlyColumn::CacheWrite, Some(80), 70, 10),
        fixed(HourlyColumn::CacheRate, Some(90), 80, 8),
        fixed(HourlyColumn::CostPerMillion, Some(100), 110, 10),
    ];
    assert_eq!(hourly_table_columns(false, 23), expected);

    let mut with_turn = expected.clone();
    with_turn.push(fixed(HourlyColumn::Turn, Some(30), 20, 6));
    assert_eq!(hourly_table_columns(true, 23), with_turn);
}
