//! Hourly table: which lines the visible window shows.
//!
//! Rows are grouped by calendar day; a day's first visible row is preceded by
//! a date separator line when there is room for both, and the window never
//! holds more lines than the viewport.

use vstd::prelude::*;
use crate::intent::SortField;

verus! {

/// One line of the hourly table body.
#[derive(Debug, Clone, Copy, PartialEq, Eq, Structural)]
pub enum HourlyLine {
    /// The date separator placed before row `index`.
    DateSeparator(usize),
    /// The data row `index`.
    Row(usize),
}

/// The lines shown from row `index` on, with `room` lines left and `prev`
/// the day of the row shown just before.
pub open spec fn window_from(days: Seq<i32>, index: int, prev: Option<i32>, room: nat) -> Seq<HourlyLine>
    decreases days.len() - index,
{
    if index < 0 || index >= days.len() || room == 0 {
        Seq::empty()
    } else {
        let separate = prev != Some(days[index]) && room > 1;
        let used: nat = if separate { 2 } else { 1 };
        let head = if separate {
            seq![HourlyLine::DateSeparator(index as usize), HourlyLine::Row(index as usize)]
        } else {
            seq![HourlyLine::Row(index as usize)]
        };
        head + window_from(days, index + 1, Some(days[index]), (room - used) as nat)
    }
}

/// The lines of the window that starts at row `scroll` (clamped to the row
/// count) in a viewport of `visible_height` lines.
pub open spec fn window(days: Seq<i32>, scroll: int, visible_height: nat) -> Seq<HourlyLine> {
    let start = if scroll < days.len() { scroll } else { days.len() as int };
    window_from(days, start, None, visible_height)
}

/// The number of data rows among `lines`.
pub open spec fn row_count(lines: Seq<HourlyLine>) -> nat
    decreases lines.len(),
{
    if lines.len() == 0 {
        0
    } else {
        (if lines[0] is Row { 1nat } else { 0nat }) + row_count(lines.drop_first())
    }
}

/// Row counts add up over concatenation.
proof fn lemma_row_count_append(a: Seq<HourlyLine>, b: Seq<HourlyLine>)
    ensures
        row_count(a + b) == row_count(a) + row_count(b),
    decreases a.len(),
{
    if a.len() == 0 {
        assert(a + b =~= b);
    } else {
        lemma_row_count_append(a.drop_first(), b);
        assert((a + b).drop_first() =~= a.drop_first() + b);
    }
}

/// Lays out the visible window of the hourly table. `days` holds each row's
/// calendar day, in display order.
pub fn hourly_window(days: &[i32], scroll: usize, visible_height: usize) -> (r: Vec<HourlyLine>)
    ensures
        r@ == window(days@, scroll as int, visible_height as nat),
{
    let len = days.len();
    let start = if scroll < len { scroll } else { len };
    let mut lines: Vec<HourlyLine> = Vec::new();
    let mut used: usize = 0;
    let mut prev: Option<i32> = None;
    let mut index: usize = start;
    assert(lines@ + window_from(days@, start as int, None, visible_height as nat)
        =~= window_from(days@, start as int, None, visible_height as nat));
    while index < len && used < visible_height
        invariant
            len == days@.len(),
            start <= index <= len,
            used <= visible_height,
            lines@ + window_from(days@, index as int, prev, (visible_height - used) as nat)
                == window(days@, scroll as int, visible_height as nat),
        decreases len - index,
    {
        let day = days[index];
        let ghost before = lines@;
        let ghost room = (visible_height - used) as nat;
        let separate = match prev {
            Some(p) => p != day,
            None => true,
        } && used + 1 < visible_height;
        if separate {
            lines.push(HourlyLine::DateSeparator(index));
            used = used + 1;
        }
        prev = Some(day);
        lines.push(HourlyLine::Row(index));
        used = used + 1;
        index = index + 1;
        proof {
            let head = if separate {
                seq![HourlyLine::DateSeparator((index - 1) as usize), HourlyLine::Row((index - 1) as usize)]
            } else {
                seq![HourlyLine::Row((index - 1) as usize)]
            };
            assert(lines@ =~= before + head);
            assert(before + (head + window_from(days@, index as int, prev, (visible_height - used) as nat))
                =~= lines@ + window_from(days@, index as int, prev, (visible_height - used) as nat));
        }
    }
    assert(lines@ + Seq::<HourlyLine>::empty() =~= lines@);
    lines
}

/// Facts about the window from a given row on: it fits its room, its first
/// line is that row or its separator, and it shows at least one row.
proof fn lemma_window_from(days: Seq<i32>, index: int, prev: Option<i32>, room: nat)
    ensures
        window_from(days, index, prev, room).len() <= room,
        0 <= index < days.len() && room >= 1 ==> {
            &&& window_from(days, index, prev, room).contains(HourlyLine::Row(index as usize))
            &&& row_count(window_from(days, index, prev, room)) >= 1
        },
    decreases days.len() - index,
{
    if index < 0 || index >= days.len() || room == 0 {
    } else {
        let separate = prev != Some(days[index]) && room > 1;
        let used: nat = if separate { 2 } else { 1 };
        let rest = window_from(days, index + 1, Some(days[index]), (room - used) as nat);
        lemma_window_from(days, index + 1, Some(days[index]), (room - used) as nat);
        let head = if separate {
            seq![HourlyLine::DateSeparator(index as usize), HourlyLine::Row(index as usize)]
        } else {
            seq![HourlyLine::Row(index as usize)]
        };
        let w = head + rest;
        assert(w == window_from(days, index, prev, room));
        if separate {
            assert(w[1] == HourlyLine::Row(index as usize));
        } else {
            assert(w[0] == HourlyLine::Row(index as usize));
        }
        assert(w.contains(HourlyLine::Row(index as usize)));
        lemma_row_count_append(head, rest);
        reveal_with_fuel(row_count, 3);
        if separate {
            assert(head.drop_first() =~= seq![HourlyLine::Row(index as usize)]);
            assert(head.drop_first().drop_first() =~= Seq::<HourlyLine>::empty());
        } else {
            assert(head.drop_first() =~= Seq::<HourlyLine>::empty());
        }
    }
}

/// The window never overflows the viewport, and whenever the viewport has a
/// line and the scroll position is within the rows, the row at the scroll
/// position is shown (its separator gives way when both do not fit), so at
/// least one data row is reported.
pub proof fn law_window_fits_and_shows_its_first_row(days: Seq<i32>, scroll: nat, visible_height: nat)
    ensures
        window(days, scroll as int, visible_height).len() <= visible_height,
        scroll < days.len() && visible_height >= 1 ==> {
            &&& window(days, scroll as int, visible_height).contains(HourlyLine::Row(scroll as usize))
            &&& row_count(window(days, scroll as int, visible_height)) >= 1
        },
{
    let start = if scroll < days.len() { scroll as int } else { days.len() as int };
    lemma_window_from(days, start, None, visible_height);
}

/// The columns of the hourly table.
#[derive(Debug, Clone, Copy, PartialEq, Eq, Structural)]
pub enum HourlyColumn {
    Hour,
    Client,
    Turn,
    Messages,
    Input,
    Output,
    CacheRead,
    CacheWrite,
    CacheRate,
    Total,
    Cost,
    CostPerMillion,
}

/// A column's position key: columns are shown in increasing order.
pub open spec fn column_order(column: HourlyColumn) -> u16 {
    match column {
        HourlyColumn::Hour => 0,
        HourlyColumn::Client => 10,
        HourlyColumn::Turn => 20,
        HourlyColumn::Messages => 30,
        HourlyColumn::Input => 40,
        HourlyColumn::Output => 50,
        HourlyColumn::CacheRead => 60,
        HourlyColumn::CacheWrite => 70,
        HourlyColumn::CacheRate => 80,
        HourlyColumn::Total => 90,
        HourlyColumn::Cost => 100,
        HourlyColumn::CostPerMillion => 110,
    }
}

/// A column's position key.
pub fn hourly_column_order(column: HourlyColumn) -> (r: u16)
    ensures
        r == column_order(column),
{
    match column {
        HourlyColumn::Hour => 0,
        HourlyColumn::Client => 10,
        HourlyColumn::Turn => 20,
        HourlyColumn::Messages => 30,
        HourlyColumn::Input => 40,
        HourlyColumn::Output => 50,
        HourlyColumn::CacheRead => 60,
        HourlyColumn::CacheWrite => 70,
        HourlyColumn::CacheRate => 80,
        HourlyColumn::Total => 90,
        HourlyColumn::Cost => 100,
        HourlyColumn::CostPerMillion => 110,
    }
}

/// Distinct columns have distinct positions, so the order is total.
pub proof fn law_column_order_is_injective(a: HourlyColumn, b: HourlyColumn)
    ensures
        column_order(a) == column_order(b) <==> a == b,
{
}

/// The catalog entry of a column's header.
pub fn hourly_column_header(column: HourlyColumn) -> (r: &'static str)
    ensures
        r == match column {
            HourlyColumn::Hour => "tui.ui.hourly.header.hour",
            HourlyColumn::Client => "tui.ui.hourly.header.client",
            HourlyColumn::Turn => "tui.ui.hourly.header.turn",
            HourlyColumn::Messages => "tui.ui.hourly.header.messages",
            HourlyColumn::Input => "tui.ui.hourly.header.input",
            HourlyColumn::Output => "tui.ui.hourly.header.output",
            HourlyColumn::CacheRead => "tui.ui.hourly.header.cache_read",
            HourlyColumn::CacheWrite => "tui.ui.hourly.header.cache_write",
            HourlyColumn::CacheRate => "tui.ui.hourly.header.cache_rate",
            HourlyColumn::Total => "tui.ui.hourly.header.total",
            HourlyColumn::Cost => "tui.ui.hourly.header.cost",
            HourlyColumn::CostPerMillion => "tui.ui.hourly.header.cost_per_million",
        },
{
    match column {
        HourlyColumn::Hour => "tui.ui.hourly.header.hour",
        HourlyColumn::Client => "tui.ui.hourly.header.client",
        HourlyColumn::Turn => "tui.ui.hourly.header.turn",
        HourlyColumn::Messages => "tui.ui.hourly.header.messages",
        HourlyColumn::Input => "tui.ui.hourly.header.input",
        HourlyColumn::Output => "tui.ui.hourly.header.output",
        HourlyColumn::CacheRead => "tui.ui.hourly.header.cache_read",
        HourlyColumn::CacheWrite => "tui.ui.hourly.header.cache_write",
        HourlyColumn::CacheRate => "tui.ui.hourly.header.cache_rate",
        HourlyColumn::Total => "tui.ui.hourly.header.total",
        HourlyColumn::Cost => "tui.ui.hourly.header.cost",
        HourlyColumn::CostPerMillion => "tui.ui.hourly.header.cost_per_million",
    }
}

/// The sort field a column's header toggles: hour by date, total by tokens,
/// cost by cost; other columns sort nothing.
pub fn hourly_column_sort_field(column: HourlyColumn) -> (r: Option<SortField>)
    ensures
        r == hourly_column_sort_field_spec(column),
{
    match column {
        HourlyColumn::Hour => Some(SortField::Date),
        HourlyColumn::Total => Some(SortField::Tokens),
        HourlyColumn::Cost => Some(SortField::Cost),
        _ => None,
    }
}

/// The direction of a sort.
#[derive(Debug, Clone, Copy, PartialEq, Eq, Structural)]
pub enum SortDirection {
    Ascending,
    Descending,
}

/// The marker a header shows: the sort direction on the sorted column,
/// nothing elsewhere.
pub fn sort_indicator(column: HourlyColumn, sort_field: SortField, direction: SortDirection) -> (r: &'static str)
    ensures
        r == if hourly_column_sort_field_spec(column) == Some(sort_field) {
            match direction {
                SortDirection::Ascending => " ▲",
                SortDirection::Descending => " ▼",
            }
        } else {
            ""
        },
{
    if hourly_column_sort_field(column) == Some(sort_field) {
        match direction {
            SortDirection::Ascending => " ▲",
            SortDirection::Descending => " ▼",
        }
    } else {
        ""
    }
}

/// The sort field of a column, as a specification.
pub open spec fn hourly_column_sort_field_spec(column: HourlyColumn) -> Option<SortField> {
    match column {
        HourlyColumn::Hour => Some(SortField::Date),
        HourlyColumn::Total => Some(SortField::Tokens),
        HourlyColumn::Cost => Some(SortField::Cost),
        _ => None,
    }
}

/// How wide a column of the hourly table may be.
#[derive(Debug, Clone, Copy, PartialEq, Eq, Structural)]
pub enum ColumnWidth {
    /// Always this many cells.
    Fixed(u16),
    /// As wide as its content, kept within `min..=max` and never split.
    Measured { min: u16, content: u16, max: u16 },
}

/// A column offered to the responsive layout: a required column is always
/// shown; an optional one has a priority, and the lower the number, the
/// longer it survives when the table is narrow.
#[derive(Debug, Clone, Copy, PartialEq, Eq, Structural)]
pub struct ColumnSpec {
    pub column: HourlyColumn,
    pub priority: Option<u16>,
    pub order: u16,
    pub width: ColumnWidth,
}

/// Width of the hour column.
pub const HOUR_WIDTH: u16 = 7;
/// Narrowest the client column is shown.
pub const CLIENT_MIN_WIDTH: u16 = 8;
/// Widest the client column is shown.
pub const CLIENT_MAX_WIDTH: u16 = 40;
/// Width of the turn column.
pub const TURN_WIDTH: u16 = 6;
/// Width of the message count column.
pub const MSGS_WIDTH: u16 = 6;
/// Width of each token count column.
pub const NUMERIC_WIDTH: u16 = 10;
/// Width of the total column.
pub const TOTAL_WIDTH: u16 = 9;
/// Width of the cache rate column.
pub const CACHE_RATE_WIDTH: u16 = 8;
/// Width of the cost column.
pub const COST_WIDTH: u16 = 10;
/// Width of the cost per million column.
pub const COST_PER_MILLION_WIDTH: u16 = 10;

/// A column that is always shown.
pub open spec fn required_column(column: HourlyColumn, width: u16) -> ColumnSpec {
    ColumnSpec { column, priority: None, order: column_order(column), width: ColumnWidth::Fixed(width) }
}

/// A fixed-width column shown while there is room, by `priority`.
pub open spec fn optional_column(column: HourlyColumn, priority: u16, width: u16) -> ColumnSpec {
    ColumnSpec {
        column,
        priority: Some(priority),
        order: column_order(column),
        width: ColumnWidth::Fixed(width),
    }
}

/// The columns the hourly table offers to the layout: hour and total
/// always; then cost, messages, client (as wide as its content within
/// bounds), the token counts, cache rate and cost per million, each with its
/// priority; and the turn column last, only when turn data exists.
pub open spec fn hourly_columns(has_turn_data: bool, client_content_width: u16) -> Seq<ColumnSpec> {
    let base = seq![
        required_column(HourlyColumn::Hour, 7),
        required_column(HourlyColumn::Total, 9),
        optional_column(HourlyColumn::Cost, 10, 10),
        optional_column(HourlyColumn::Messages, 40, 6),
        ColumnSpec {
            column: HourlyColumn::Client,
            priority: Some(20u16),
            order: column_order(HourlyColumn::Client),
            width: ColumnWidth::Measured { min: 8, content: client_content_width, max: 40 },
        },
        optional_column(HourlyColumn::Input, 50, 10),
        optional_column(HourlyColumn::Output, 60, 10),
        optional_column(HourlyColumn::CacheRead, 70, 10),
        optional_column(HourlyColumn::CacheWrite, 80, 10),
        optional_column(HourlyColumn::CacheRate, 90, 8),
        optional_column(HourlyColumn::CostPerMillion, 100, 10),
    ];
    if has_turn_data {
        base.push(optional_column(HourlyColumn::Turn, 30, 6))
    } else {
        base
    }
}

fn required(column: HourlyColumn, width: u16) -> (r: ColumnSpec)
    ensures
        r == required_column(column, width),
{
    ColumnSpec { column, priority: None, order: hourly_column_order(column), width: ColumnWidth::Fixed(width) }
}

fn optional(column: HourlyColumn, priority: u16, width: u16) -> (r: ColumnSpec)
    ensures
        r == optional_column(column, priority, width),
{
    ColumnSpec {
        column,
        priority: Some(priority),
        order: hourly_column_order(column),
        width: ColumnWidth::Fixed(width),
    }
}

/// The columns offered to the responsive layout of the hourly table, in
/// the order they are offered.
pub fn hourly_table_columns(has_turn_data: bool, client_content_width: u16) -> (r: Vec<ColumnSpec>)
    ensures
        r@ == hourly_columns(has_turn_data, client_content_width),
{
    let mut columns: Vec<ColumnSpec> = Vec::new();
    columns.push(required(HourlyColumn::Hour, HOUR_WIDTH));
    columns.push(required(HourlyColumn::Total, TOTAL_WIDTH));
    columns.push(optional(HourlyColumn::Cost, 10, COST_WIDTH));
    columns.push(optional(HourlyColumn::Messages, 40, MSGS_WIDTH));
    columns.push(
        ColumnSpec {
            column: HourlyColumn::Client,
            priority: Some(20),
            order: hourly_column_order(HourlyColumn::Client),
            width: ColumnWidth::Measured {
                min: CLIENT_MIN_WIDTH,
                content: client_content_width,
                max: CLIENT_MAX_WIDTH,
            },
        },
    );
    columns.push(optional(HourlyColumn::Input, 50, NUMERIC_WIDTH));
    columns.push(optional(HourlyColumn::Output, 60, NUMERIC_WIDTH));
    columns.push(optional(HourlyColumn::CacheRead, 70, NUMERIC_WIDTH));
    columns.push(optional(HourlyColumn::CacheWrite, 80, NUMERIC_WIDTH));
    columns.push(optional(HourlyColumn::CacheRate, 90, CACHE_RATE_WIDTH));
    columns.push(optional(HourlyColumn::CostPerMillion, 100, COST_PER_MILLION_WIDTH));
    if has_turn_data {
        columns.push(optional(HourlyColumn::Turn, 30, TURN_WIDTH));
    }
    assert(columns@ =~= hourly_columns(has_turn_data, client_content_width));
    columns
}

} // verus!
