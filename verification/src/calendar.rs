//! The clock popover's calendar: month navigation, the six-week day grid with
//! its event dots, and the texts for dates and events. Calendar arithmetic
//! (weekdays, adding days, month names) is chrono's.
use vstd::prelude::*;

use chrono::Datelike;
use std::fmt::Write;

use crate::text::{
    chars_of, concat_chars, decimal, decimal2, decimal2_chars, decimal_chars, hex_digit,
    is_hex_digit, join, join_strings, owned, string_of, views,
};

verus! {

/// The earliest year chrono's dates reach.
pub const MIN_YEAR: i32 = -262143;

/// The latest year chrono's dates reach.
pub const MAX_YEAR: i32 = 262142;

/// A day of the proleptic Gregorian calendar.
#[derive(Debug, Clone, Copy, PartialEq, Eq, Structural, Hash)]
pub struct CalendarDate {
    pub year: i32,
    pub month: u32,
    pub day: u32,
}

/// A month of a year.
#[derive(Debug, Clone, Copy, PartialEq, Eq, Structural, Hash)]
pub struct MonthKey {
    pub year: i32,
    pub month: u32,
}

/// Whether `year` has a February 29.
pub open spec fn leap_year(year: int) -> bool {
    year % 4 == 0 && (year % 100 != 0 || year % 400 == 0)
}

/// The number of days of a month.
pub open spec fn month_length(year: int, month: int) -> int {
    if month == 2 {
        if leap_year(year) {
            29
        } else {
            28
        }
    } else if month == 4 || month == 6 || month == 9 || month == 11 {
        30
    } else {
        31
    }
}

/// Whether the triple names a day that chrono can represent.
pub open spec fn valid_ymd(year: int, month: int, day: int) -> bool {
    &&& MIN_YEAR <= year <= MAX_YEAR
    &&& 1 <= month <= 12
    &&& 1 <= day <= month_length(year, month)
}

/// Whether a date names a real day.
pub open spec fn valid_date(d: CalendarDate) -> bool {
    valid_ymd(d.year as int, d.month as int, d.day as int)
}

/// The date for a triple, when it names a real day.
pub open spec fn date_of(year: int, month: int, day: int) -> Option<CalendarDate> {
    if valid_ymd(year, month, day) {
        Some(CalendarDate { year: year as i32, month: month as u32, day: day as u32 })
    } else {
        None
    }
}

/// The day of the week of a date, Monday being 0 and Sunday 6 (chrono's
/// `Weekday::num_days_from_monday`).
pub uninterp spec fn weekday_number(year: int, month: int, day: int) -> int;

/// The date `days` days after a date, if chrono can represent it
/// (`NaiveDate::checked_add_days`).
pub uninterp spec fn days_after(year: int, month: int, day: int, days: int) -> Option<CalendarDate>;

/// The date `days` days before a date, if chrono can represent it
/// (`NaiveDate::checked_sub_days`).
pub uninterp spec fn days_before(year: int, month: int, day: int, days: int) -> Option<CalendarDate>;

/// A date formatted with chrono's pattern `%B %Y`: the month's full name and the year.
pub uninterp spec fn month_year_text(year: int, month: int, day: int) -> Seq<char>;

/// A date formatted with chrono's pattern `%A`: the weekday's full name.
pub uninterp spec fn weekday_text(year: int, month: int, day: int) -> Seq<char>;

/// A date formatted with chrono's pattern `%-d %b, %Y`: the day without
/// padding, the month's abbreviation and the year.
pub uninterp spec fn day_month_year_text(year: int, month: int, day: int) -> Seq<char>;

// ---------------------------------------------------------------------------
// chrono
// ---------------------------------------------------------------------------

/// chrono's `NaiveDate::from_ymd_opt`: the date exists exactly when the month
/// is 1 to 12, the day lies within the month (February 29 in leap years of
/// the proleptic Gregorian calendar) and the year within chrono's range.
#[verifier::external_body]
fn date_from_ymd(year: i32, month: u32, day: u32) -> (out: Option<CalendarDate>)
    ensures
        out == date_of(year as int, month as int, day as int),
{
    match chrono::NaiveDate::from_ymd_opt(year, month, day) {
        Some(d) => Some(CalendarDate { year: d.year(), month: d.month(), day: d.day() }),
        None => None,
    }
}

/// chrono's `NaiveDate::weekday` with `Weekday::num_days_from_monday`: a
/// number from 0 (Monday) to 6 (Sunday).
#[verifier::external_body]
fn weekday_from_monday(date: CalendarDate) -> (out: u32)
    requires
        valid_date(date),
    ensures
        out == weekday_number(date.year as int, date.month as int, date.day as int),
        out < 7,
{
    chrono::NaiveDate::from_ymd_opt(date.year, date.month, date.day).map_or(
        0,
        |d| d.weekday().num_days_from_monday(),
    )
}

/// chrono's `NaiveDate::checked_add_days`; a date it gives is a real day.
#[verifier::external_body]
fn add_days(date: CalendarDate, days: u64) -> (out: Option<CalendarDate>)
    requires
        valid_date(date),
    ensures
        out == days_after(date.year as int, date.month as int, date.day as int, days as int),
        out is Some ==> valid_date(out->0),
{
    match chrono::NaiveDate::from_ymd_opt(date.year, date.month, date.day).and_then(
        |d| d.checked_add_days(chrono::Days::new(days)),
    ) {
        Some(d) => Some(CalendarDate { year: d.year(), month: d.month(), day: d.day() }),
        None => None,
    }
}

/// chrono's `NaiveDate::checked_sub_days`; a date it gives is a real day.
#[verifier::external_body]
fn sub_days(date: CalendarDate, days: u64) -> (out: Option<CalendarDate>)
    requires
        valid_date(date),
    ensures
        out == days_before(date.year as int, date.month as int, date.day as int, days as int),
        out is Some ==> valid_date(out->0),
{
    match chrono::NaiveDate::from_ymd_opt(date.year, date.month, date.day).and_then(
        |d| d.checked_sub_days(chrono::Days::new(days)),
    ) {
        Some(d) => Some(CalendarDate { year: d.year(), month: d.month(), day: d.day() }),
        None => None,
    }
}

/// chrono's `NaiveDate::format` with the pattern `%B %Y`.
#[verifier::external_body]
fn format_month_year(date: CalendarDate) -> (out: String)
    requires
        valid_date(date),
    ensures
        out@ == month_year_text(date.year as int, date.month as int, date.day as int),
{
    chrono::NaiveDate::from_ymd_opt(date.year, date.month, date.day).map(
        |d| d.format("%B %Y").to_string(),
    ).unwrap_or_default()
}

/// chrono's `NaiveDate::format` with the pattern `%A`.
#[verifier::external_body]
fn format_weekday(date: CalendarDate) -> (out: String)
    requires
        valid_date(date),
    ensures
        out@ == weekday_text(date.year as int, date.month as int, date.day as int),
{
    chrono::NaiveDate::from_ymd_opt(date.year, date.month, date.day).map(
        |d| d.format("%A").to_string(),
    ).unwrap_or_default()
}

/// chrono's `NaiveDate::format` with the pattern `%-d %b, %Y`.
#[verifier::external_body]
fn format_day_month_year(date: CalendarDate) -> (out: String)
    requires
        valid_date(date),
    ensures
        out@ == day_month_year_text(date.year as int, date.month as int, date.day as int),
{
    chrono::NaiveDate::from_ymd_opt(date.year, date.month, date.day).map(
        |d| d.format("%-d %b, %Y").to_string(),
    ).unwrap_or_default()
}

// ---------------------------------------------------------------------------
// Months
// ---------------------------------------------------------------------------

impl MonthKey {
    /// The month a date falls in.
    pub fn from_date(date: CalendarDate) -> (out: MonthKey)
        ensures
            out.year == date.year,
            out.month == date.month,
    {
        MonthKey { year: date.year, month: date.month }
    }

    /// The first day of the month, when it is a real day.
    pub fn to_naive_date(&self) -> (out: Option<CalendarDate>)
        ensures
            out == date_of(self.year as int, self.month as int, 1),
    {
        date_from_ymd(self.year, self.month, 1)
    }
}

/// The year and month `delta` months after the month of the year given.
pub open spec fn shifted_month(year: int, month: int, delta: int) -> (int, int) {
    (year + (month - 1 + delta) / 12, (month - 1 + delta) % 12 + 1)
}

/// The first day of the month `delta` months after `date`'s; `date` itself
/// when that day is out of chrono's range.
pub open spec fn shift_month_date(date: CalendarDate, delta: int) -> CalendarDate {
    let (y, m) = shifted_month(date.year as int, date.month as int, delta);
    match date_of(y, m, 1) {
        Some(d) => d,
        None => date,
    }
}

/// The first day of the month `delta` months after `date`'s, or `date` when
/// chrono cannot represent it.
pub fn shift_month(date: CalendarDate, delta: i32) -> (out: CalendarDate)
    requires
        valid_date(date),
        date.month as int + delta <= i32::MAX,
    ensures
        out == shift_month_date(date, delta as int),
        valid_date(out),
{
    let mut year: i32 = date.year;
    let mut month: i32 = date.month as i32 + delta;
    while month < 1
        invariant
            valid_date(date),
            date.month as int + delta <= i32::MAX,
            year as int * 12 + month as int == date.year as int * 12 + date.month as int + delta as int,
            year <= date.year,
            month <= 12 || year == date.year,
        decreases 12 - month,
    {
        year -= 1;
        month += 12;
    }
    while month > 12
        invariant
            valid_date(date),
            date.month as int + delta <= i32::MAX,
            year as int * 12 + month as int == date.year as int * 12 + date.month as int + delta as int,
            1 <= month,
        decreases month,
    {
        year += 1;
        month -= 12;
    }
    proof {
        let t = date.month as int - 1 + delta as int;
        assert(year as int == date.year as int + t / 12 && month as int == t % 12 + 1) by (
        nonlinear_arith)
            requires
                year as int * 12 + month == date.year as int * 12 + date.month as int + delta,
                1 <= month <= 12,
                t == date.month as int - 1 + delta as int,
        ;
    }
    match date_from_ymd(year, month as u32, 1) {
        Some(d) => d,
        None => date,
    }
}

/// The last day number of `month`'s month: the day before the first of the
/// next month, or 31 when chrono cannot tell.
pub open spec fn month_days(month: CalendarDate) -> int {
    let next = shift_month_date(month, 1);
    match days_before(next.year as int, next.month as int, next.day as int, 1) {
        Some(d) => d.day as int,
        None => 31,
    }
}

/// The number of days of `month`'s month.
pub fn days_in_month(month: CalendarDate) -> (out: u32)
    requires
        valid_date(month),
    ensures
        out == month_days(month),
{
    let next = shift_month(month, 1);
    match sub_days(next, 1) {
        Some(d) => d.day,
        None => 31,
    }
}

/// The day `preferred_day` of `month`'s month, or its last day when the
/// month is shorter; `month` itself when that is not a real day.
pub open spec fn clamped_day(month: CalendarDate, preferred_day: int) -> CalendarDate {
    let day = if preferred_day < month_days(month) {
        preferred_day
    } else {
        month_days(month)
    };
    match date_of(month.year as int, month.month as int, day) {
        Some(d) => d,
        None => month,
    }
}

/// The day `preferred_day` of `month`'s month, clamped to the month's length.
pub fn clamp_day(month: CalendarDate, preferred_day: u32) -> (out: CalendarDate)
    requires
        valid_date(month),
    ensures
        out == clamped_day(month, preferred_day as int),
        valid_date(out),
{
    let max_day = days_in_month(month);
    let day = if preferred_day < max_day {
        preferred_day
    } else {
        max_day
    };
    match date_from_ymd(month.year, month.month, day) {
        Some(d) => d,
        None => month,
    }
}

/// The Monday on or before `month` (the first cell of its grid), or `month`
/// itself when chrono cannot represent that day.
pub open spec fn grid_start_date(month: CalendarDate) -> CalendarDate {
    match days_before(
        month.year as int,
        month.month as int,
        month.day as int,
        weekday_number(month.year as int, month.month as int, month.day as int),
    ) {
        Some(d) => d,
        None => month,
    }
}

/// The first cell of the grid for the month starting at `month`.
pub fn grid_start(month: CalendarDate) -> (out: CalendarDate)
    requires
        valid_date(month),
    ensures
        out == grid_start_date(month),
        valid_date(out),
{
    let offset = weekday_from_monday(month);
    match sub_days(month, offset as u64) {
        Some(d) => d,
        None => month,
    }
}

// ---------------------------------------------------------------------------
// The day grid
// ---------------------------------------------------------------------------

/// The number of cells of the grid: six weeks.
pub const GRID_CELLS: u64 = 42;

/// One cell of the day grid.
#[derive(Debug, Clone, PartialEq, Eq)]
pub struct CalendarCell {
    pub date: CalendarDate,
    pub day_label: String,
    pub dots_markup: String,
    /// Whether the day belongs to a neighbouring month.
    pub other_month: bool,
    pub today: bool,
    pub selected: bool,
}

/// Whether a color is safe to put in markup: `#` and six hexadecimal digits.
pub open spec fn safe_hex_color(color: Seq<char>) -> bool {
    &&& color.len() == 7
    &&& color[0] == '#'
    &&& forall|i: int| 1 <= i < 7 ==> is_hex_digit(#[trigger] color[i])
}

/// One event dot, in its color when the color is safe.
pub open spec fn dot(color: Seq<char>) -> Seq<char> {
    if safe_hex_color(color) {
        "<span foreground=\""@ + color + "\">\u{2022}</span>"@
    } else {
        "\u{2022}"@
    }
}

/// The event colors shown for a day: at most three.
pub open spec fn shown_colors(colors: Seq<Seq<char>>) -> Seq<Seq<char>> {
    if colors.len() <= 3 {
        colors
    } else {
        colors.take(3)
    }
}

/// The dots for a day's event colors, separated by spaces; nothing without events.
pub open spec fn dots_text(colors: Option<Seq<Seq<char>>>) -> Seq<char> {
    match colors {
        None => Seq::empty(),
        Some(cs) => join(shown_colors(cs).map_values(|c: Seq<char>| dot(c)), " "@),
    }
}

/// The colors recorded for a day: the last entry for it wins.
pub open spec fn colors_for(dots: Seq<(CalendarDate, Vec<String>)>, date: CalendarDate) -> Option<
    Seq<Seq<char>>,
>
    decreases dots.len(),
{
    if dots.len() == 0 {
        None
    } else if dots.last().0 == date {
        Some(views(dots.last().1@))
    } else {
        colors_for(dots.drop_last(), date)
    }
}

/// The date of cell `offset`: that many days after the grid's start, or the
/// start itself when chrono cannot represent it.
pub open spec fn cell_date(start: CalendarDate, offset: int) -> CalendarDate {
    match days_after(start.year as int, start.month as int, start.day as int, offset) {
        Some(d) => d,
        None => start,
    }
}

/// `cell` is cell `offset` of the grid for the month starting at `month`.
pub open spec fn is_cell(
    cell: CalendarCell,
    offset: int,
    month: CalendarDate,
    selected: CalendarDate,
    today: CalendarDate,
    dots: Seq<(CalendarDate, Vec<String>)>,
) -> bool {
    let date = cell_date(grid_start_date(month), offset);
    &&& cell.date == date
    &&& cell.day_label@ == decimal(date.day as nat)
    &&& cell.dots_markup@ == dots_text(colors_for(dots, date))
    &&& cell.other_month == (date.month != month.month)
    &&& cell.today == (date == today)
    &&& cell.selected == (date == selected)
}

/// Whether a color is `#` and six hexadecimal digits.
pub fn is_safe_hex_color(color: &str) -> (out: bool)
    ensures
        out == safe_hex_color(color@),
{
    let c = chars_of(color);
    if c.len() != 7 || c[0] != '#' {
        return false;
    }
    let mut i: usize = 1;
    while i < 7
        invariant
            1 <= i <= 7,
            c.len() == 7,
            c@ == color@,
            forall|j: int| 1 <= j < i ==> is_hex_digit(#[trigger] c@[j]),
        decreases 7 - i,
    {
        if !hex_digit(c[i]) {
            return false;
        }
        i += 1;
    }
    true
}

/// The dots for a day's event colors.
pub fn dots_markup(colors: Option<&Vec<String>>) -> (out: String)
    ensures
        out@ == dots_text(
            match colors {
                Some(cs) => Some(views(cs@)),
                None => None,
            },
        ),
{
    let colors = match colors {
        Some(cs) => cs,
        None => return String::new(),
    };
    let ghost all = views(colors@);
    let n = if colors.len() <= 3 {
        colors.len()
    } else {
        3
    };
    let mut parts: Vec<String> = Vec::new();
    let mut i: usize = 0;
    while i < n
        invariant
            i <= n,
            n <= colors.len(),
            n == shown_colors(all).len(),
            all == views(colors@),
            views(parts@) == shown_colors(all).take(i as int).map_values(|c: Seq<char>| dot(c)),
        decreases n - i,
    {
        let color = &colors[i];
        let part = if is_safe_hex_color(color.as_str()) {
            let head = concat_chars(&chars_of("<span foreground=\""), &chars_of(color.as_str()));
            string_of(&concat_chars(&head, &chars_of("\">\u{2022}</span>")))
        } else {
            owned("\u{2022}")
        };
        let ghost before = views(parts@);
        proof {
            assert(shown_colors(all)[i as int] == all[i as int]);
            assert(all[i as int] == color@);
            assert(part@ == dot(all[i as int]));
        }
        parts.push(part);
        proof {
            assert(views(parts@) =~= before.push(part@));
            assert(shown_colors(all).take(i + 1).map_values(|c: Seq<char>| dot(c)) =~= shown_colors(
                all,
            ).take(i as int).map_values(|c: Seq<char>| dot(c)).push(dot(shown_colors(all)[i as int])));
        }
        i += 1;
    }
    proof {
        assert(shown_colors(all).take(n as int) =~= shown_colors(all));
    }
    join_strings(&parts, " ")
}

/// The colors recorded for a day.
fn find_colors(dots: &Vec<(CalendarDate, Vec<String>)>, date: CalendarDate) -> (out: Option<
    &Vec<String>,
>)
    ensures
        match out {
            Some(cs) => colors_for(dots@, date) == Some(views(cs@)),
            None => colors_for(dots@, date) is None,
        },
{
    let mut i = dots.len();
    assert(dots@.take(i as int) =~= dots@);
    while i > 0
        invariant
            i <= dots.len(),
            colors_for(dots@, date) == colors_for(dots@.take(i as int), date),
        decreases i,
    {
        assert(dots@.take(i as int).drop_last() =~= dots@.take(i - 1));
        assert(dots@.take(i as int).last() == dots@[i - 1]);
        if dots[i - 1].0 == date {
            return Some(&dots[i - 1].1);
        }
        i -= 1;
    }
    None
}

/// The six-week grid for the month starting at `visible_month`: from the
/// Monday on or before the first, day by day, each cell marked when it falls
/// in another month, is today or is selected, with the dots of its events.
pub fn build_calendar_cells(
    visible_month: CalendarDate,
    selected_date: CalendarDate,
    today: CalendarDate,
    dots_by_day: &Vec<(CalendarDate, Vec<String>)>,
) -> (out: Vec<CalendarCell>)
    requires
        valid_date(visible_month),
    ensures
        out.len() == GRID_CELLS,
        forall|k: int|
            0 <= k < out.len() ==> is_cell(
                #[trigger] out@[k],
                k,
                visible_month,
                selected_date,
                today,
                dots_by_day@,
            ),
{
    let start = grid_start(visible_month);
    let mut out: Vec<CalendarCell> = Vec::new();
    let mut offset: u64 = 0;
    while offset < GRID_CELLS
        invariant
            offset <= GRID_CELLS,
            valid_date(start),
            start == grid_start_date(visible_month),
            out.len() == offset,
            forall|k: int|
                0 <= k < out.len() ==> is_cell(
                    #[trigger] out@[k],
                    k,
                    visible_month,
                    selected_date,
                    today,
                    dots_by_day@,
                ),
        decreases GRID_CELLS - offset,
    {
        let date = match add_days(start, offset) {
            Some(d) => d,
            None => start,
        };
        let cell = CalendarCell {
            date,
            day_label: string_of(&decimal_chars(date.day as u64)),
            dots_markup: dots_markup(find_colors(dots_by_day, date)),
            other_month: date.month != visible_month.month,
            today: date == today,
            selected: date == selected_date,
        };
        out.push(cell);
        offset += 1;
    }
    out
}

/// The style classes of a day button.
pub open spec fn day_classes(cell: CalendarCell) -> Seq<Seq<char>> {
    seq!["flat"@, "calendar-day"@] + (if cell.other_month {
        seq!["other-month"@]
    } else {
        Seq::empty()
    }) + (if cell.today {
        seq!["today"@]
    } else {
        Seq::empty()
    }) + (if cell.selected {
        seq!["selected"@]
    } else {
        Seq::empty()
    })
}

/// The style classes of a day button.
pub fn calendar_day_classes(cell: &CalendarCell) -> (out: Vec<&'static str>)
    ensures
        out@.map_values(|s: &'static str| s@) == day_classes(*cell),
{
    let mut classes: Vec<&'static str> = Vec::new();
    classes.push("flat");
    classes.push("calendar-day");
    if cell.other_month {
        classes.push("other-month");
    }
    if cell.today {
        classes.push("today");
    }
    if cell.selected {
        classes.push("selected");
    }
    proof {
        assert(classes@.map_values(|s: &'static str| s@) =~= day_classes(*cell));
    }
    classes
}

// ---------------------------------------------------------------------------
// Texts
// ---------------------------------------------------------------------------

/// The heading of a month: its name and year; empty when its first day is
/// out of chrono's range.
pub open spec fn month_label_text(month: MonthKey) -> Seq<char> {
    match date_of(month.year as int, month.month as int, 1) {
        Some(d) => month_year_text(d.year as int, d.month as int, d.day as int),
        None => Seq::empty(),
    }
}

/// The heading of a month.
pub fn month_label(month: MonthKey) -> (out: String)
    ensures
        out@ == month_label_text(month),
{
    match month.to_naive_date() {
        Some(date) => format_month_year(date),
        None => String::new(),
    }
}

/// The weekday of the selected date.
pub fn selected_weekday(date: CalendarDate) -> (out: String)
    requires
        valid_date(date),
    ensures
        out@ == weekday_text(date.year as int, date.month as int, date.day as int),
{
    format_weekday(date)
}

/// The selected date, as "day month, year".
pub fn selected_date(date: CalendarDate) -> (out: String)
    requires
        valid_date(date),
    ensures
        out@ == day_month_year_text(date.year as int, date.month as int, date.day as int),
{
    format_day_month_year(date)
}

// ---------------------------------------------------------------------------
// Month navigation
// ---------------------------------------------------------------------------

/// What the calendar reports to the popover.
#[derive(Debug, Clone, Copy, PartialEq, Eq, Structural)]
pub enum CalendarOutput {
    SelectedDate(CalendarDate),
    VisibleMonthChanged(MonthKey),
}

/// The event colors of one day of a month, as the calendar service reports them.
#[derive(Debug, Clone, PartialEq, Eq)]
pub struct DayColors {
    pub year: i32,
    pub month: u32,
    pub day: u32,
    pub colors: Vec<String>,
}

/// The calendar's state: the selected day, the month shown, its heading and
/// the event colors of its days.
#[derive(Debug)]
pub struct CalendarModel {
    pub selected_date: CalendarDate,
    pub visible_month: MonthKey,
    pub month_label: String,
    pub dots_by_day: Vec<(CalendarDate, Vec<String>)>,
}

/// The month `delta` months after `month`'s, and the day to select in it:
/// the selected day number clamped to that month; nothing when chrono cannot
/// represent the months involved.
pub open spec fn month_move(month: MonthKey, selected: CalendarDate, delta: int) -> Option<(MonthKey, CalendarDate)> {
    match date_of(month.year as int, month.month as int, 1) {
        None => None,
        Some(current) => {
            let next = shift_month_date(current, delta);
            let key = MonthKey { year: next.year, month: next.month };
            match date_of(key.year as int, key.month as int, 1) {
                None => None,
                Some(first) => Some((key, clamped_day(first, selected.day as int))),
            }
        },
    }
}

impl CalendarModel {
    /// A calendar showing the month of `selected_date`, without event colors.
    pub fn new(selected_date: CalendarDate) -> (m: Self)
        ensures
            m.selected_date == selected_date,
            m.visible_month == (MonthKey { year: selected_date.year, month: selected_date.month }),
            m.month_label@ == month_label_text(m.visible_month),
            m.dots_by_day@.len() == 0,
    {
        let visible_month = MonthKey::from_date(selected_date);
        CalendarModel {
            selected_date,
            visible_month,
            month_label: month_label(visible_month),
            dots_by_day: Vec::new(),
        }
    }

    /// Shows the month `delta` months away and selects the same day number
    /// there (clamped to the month's length); reports the new month and the
    /// new day. Nothing changes when chrono cannot represent the months.
    pub fn move_month(&mut self, delta: i32) -> (out: Vec<CalendarOutput>)
        requires
            delta <= i32::MAX - 12,
        ensures
            match month_move(old(self).visible_month, old(self).selected_date, delta as int) {
                None => final(self).selected_date == old(self).selected_date
                    && final(self).visible_month == old(self).visible_month
                    && final(self).month_label == old(self).month_label
                    && final(self).dots_by_day@ == old(self).dots_by_day@
                    && out@.len() == 0,
                Some((key, day)) => {
                    &&& final(self).visible_month == key
                    &&& final(self).selected_date == day
                    &&& final(self).month_label@ == month_label_text(key)
                    &&& final(self).dots_by_day@.len() == 0
                    &&& out@ == seq![
                        CalendarOutput::VisibleMonthChanged(key),
                        CalendarOutput::SelectedDate(day),
                    ]
                },
            },
    {
        let current = match self.visible_month.to_naive_date() {
            Some(c) => c,
            None => return Vec::new(),
        };
        let next_month = MonthKey::from_date(shift_month(current, delta));
        let day = self.selected_date.day;
        let next_date = match next_month.to_naive_date() {
            Some(first) => clamp_day(first, day),
            None => return Vec::new(),
        };
        self.visible_month = next_month;
        self.selected_date = next_date;
        self.dots_by_day = Vec::new();
        self.month_label = month_label(next_month);
        let mut out: Vec<CalendarOutput> = Vec::new();
        out.push(CalendarOutput::VisibleMonthChanged(next_month));
        out.push(CalendarOutput::SelectedDate(next_date));
        proof {
            assert(out@ =~= seq![
                CalendarOutput::VisibleMonthChanged(next_month),
                CalendarOutput::SelectedDate(next_date),
            ]);
        }
        out
    }

    /// Selects `date` and shows its month; reports a change of month, and the
    /// date when `emit` is set. Event colors are dropped when the month changes.
    pub fn select_date(&mut self, date: CalendarDate, emit: bool) -> (out: Vec<CalendarOutput>)
        ensures
            final(self).selected_date == date,
            final(self).visible_month == (MonthKey { year: date.year, month: date.month }),
            final(self).month_label@ == month_label_text(final(self).visible_month),
            final(self).visible_month != old(self).visible_month ==> final(self).dots_by_day@.len() == 0,
            final(self).visible_month == old(self).visible_month ==> final(self).dots_by_day@
                == old(self).dots_by_day@,
            out@ == (if final(self).visible_month != old(self).visible_month {
                seq![CalendarOutput::VisibleMonthChanged(final(self).visible_month)]
            } else {
                Seq::empty()
            }) + (if emit {
                seq![CalendarOutput::SelectedDate(date)]
            } else {
                Seq::empty()
            }),
    {
        let next_month = MonthKey::from_date(date);
        let month_changed = next_month != self.visible_month;
        self.selected_date = date;
        self.visible_month = next_month;
        self.month_label = month_label(next_month);
        let mut out: Vec<CalendarOutput> = Vec::new();
        if month_changed {
            self.dots_by_day = Vec::new();
            out.push(CalendarOutput::VisibleMonthChanged(next_month));
        }
        if emit {
            out.push(CalendarOutput::SelectedDate(date));
        }
        proof {
            assert(out@ =~= (if month_changed {
                seq![CalendarOutput::VisibleMonthChanged(next_month)]
            } else {
                Seq::<CalendarOutput>::empty()
            }) + (if emit {
                seq![CalendarOutput::SelectedDate(date)]
            } else {
                Seq::<CalendarOutput>::empty()
            }));
        }
        out
    }

    /// Takes the event colors of the shown month; colors for another month are
    /// ignored, and `None` drops the colors. Days that are not real dates are skipped.
    pub fn set_month(&mut self, month: Option<(MonthKey, Vec<DayColors>)>)
        ensures
            final(self).selected_date == old(self).selected_date,
            final(self).visible_month == old(self).visible_month,
            final(self).month_label == old(self).month_label,
            match month {
                None => final(self).dots_by_day@.len() == 0,
                Some((key, days)) => if key != old(self).visible_month {
                    final(self).dots_by_day@ == old(self).dots_by_day@
                } else {
                    final(self).dots_by_day@ == day_colors_of(days@)
                },
            },
    {
        match month {
            None => {
                self.dots_by_day = Vec::new();
            },
            Some((key, days)) => {
                if key != self.visible_month {
                    return;
                }
                let mut dots: Vec<(CalendarDate, Vec<String>)> = Vec::new();
                let mut days = days;
                let ghost all = days@;
                let ghost mut k: int = 0;
                while days.len() > 0
                    invariant
                        0 <= k <= all.len(),
                        days@ == all.skip(k),
                        dots@ == day_colors_of(all.take(k)),
                    decreases days.len(),
                {
                    let day = days.remove(0);
                    proof {
                        assert(day == all[k]);
                        assert(all.skip(k).subrange(1, all.skip(k).len() as int) =~= all.skip(k + 1));
                        assert(all.take(k + 1).drop_last() =~= all.take(k));
                        k = k + 1;
                    }
                    if let Some(date) = date_from_ymd(day.year, day.month, day.day) {
                        dots.push((date, day.colors));
                    }
                }
                proof {
                    assert(all.take(k) =~= all);
                }
                self.dots_by_day = dots;
            },
        }
    }
}

/// The reported days that are real dates, with their colors, in order.
pub open spec fn day_colors_of(days: Seq<DayColors>) -> Seq<(CalendarDate, Vec<String>)>
    decreases days.len(),
{
    if days.len() == 0 {
        Seq::empty()
    } else {
        let rest = day_colors_of(days.drop_last());
        let d = days.last();
        match date_of(d.year as int, d.month as int, d.day as int) {
            Some(date) => rest.push((date, d.colors)),
            None => rest,
        }
    }
}

/// Moving by `a` months and then by `b` months is moving by `a + b` months.
pub proof fn law_shift_months_compose(year: int, month: int, a: int, b: int)
    requires
        1 <= month <= 12,
    ensures
        ({
            let (y1, m1) = shifted_month(year, month, a);
            shifted_month(y1, m1, b)
        }) == shifted_month(year, month, a + b),
        1 <= shifted_month(year, month, a).1 <= 12,
{
    let t = month - 1 + a;
    let u = t % 12 + b;
    let w = month - 1 + a + b;
    vstd::arithmetic::div_mod::lemma_fundamental_div_mod(t, 12);
    vstd::arithmetic::div_mod::lemma_fundamental_div_mod(u, 12);
    vstd::arithmetic::div_mod::lemma_fundamental_div_mod(w, 12);
    assert(t / 12 + u / 12 == w / 12 && u % 12 == w % 12) by (nonlinear_arith)
        requires
            t == 12 * (t / 12) + t % 12,
            0 <= t % 12 < 12,
            u == t % 12 + b,
            u == 12 * (u / 12) + u % 12,
            0 <= u % 12 < 12,
            w == t + b,
            w == 12 * (w / 12) + w % 12,
            0 <= w % 12 < 12,
    ;
}

// ---------------------------------------------------------------------------
// Events
// ---------------------------------------------------------------------------

/// A calendar event as the calendar service reports it; `start` and `end`
/// are RFC 3339 timestamps.
#[derive(Debug, Clone, PartialEq, Eq)]
pub struct CalendarEvent {
    pub title: String,
    pub start: String,
    pub end: String,
    pub all_day: bool,
}

/// An instant with its local reading: seconds and nanoseconds since the
/// epoch, and the local date, hour and minute it falls on.
#[derive(Debug, Clone, Copy, PartialEq, Eq, Structural)]
pub struct LocalTime {
    pub seconds: i64,
    pub nanos: u32,
    pub date: CalendarDate,
    pub hour: u32,
    pub minute: u32,
}

/// Nanoseconds since the epoch.
pub open spec fn instant(t: LocalTime) -> int {
    t.seconds as int * 1_000_000_000 + t.nanos as int
}

/// Whole minutes in a span of nanoseconds, truncated toward zero (chrono's
/// `TimeDelta::num_minutes`).
pub open spec fn whole_minutes(span: int) -> int {
    if span >= 0 {
        span / 60_000_000_000
    } else {
        -((-span) / 60_000_000_000)
    }
}

/// A length in minutes as the event list shows it: minutes below an hour,
/// else hours and the remaining minutes.
pub open spec fn duration_text(minutes: int) -> Seq<char> {
    if minutes < 60 {
        decimal(minutes as nat) + " min"@
    } else if minutes % 60 == 0 {
        decimal((minutes / 60) as nat) + " h"@
    } else {
        decimal((minutes / 60) as nat) + " h "@ + decimal((minutes % 60) as nat) + " min"@
    }
}

/// An event's length: whole minutes from start to end, at least zero.
pub open spec fn event_minutes(start: LocalTime, end: LocalTime) -> int {
    let m = whole_minutes(instant(end) - instant(start));
    if m < 0 {
        0
    } else {
        m
    }
}

/// A local time as hours and minutes, both two digits.
pub open spec fn clock_text(t: LocalTime) -> Seq<char> {
    decimal2(t.hour as nat) + ":"@ + decimal2(t.minute as nat)
}

/// What the event list shows as an event's time: nothing when its times do
/// not parse; "All day"; on another day than today its start and length;
/// while it runs, when it ends; within the hour before it, how soon it
/// starts; else its start and length.
pub open spec fn event_time_text(
    all_day: bool,
    times: Option<(LocalTime, LocalTime)>,
    selected: CalendarDate,
    now: LocalTime,
) -> Seq<char> {
    match times {
        None => Seq::empty(),
        Some((start, end)) => if all_day {
            "All day"@
        } else {
            let duration = duration_text(event_minutes(start, end));
            let until = whole_minutes(instant(start) - instant(now));
            if selected != now.date {
                clock_text(start) + " \u{b7} "@ + duration
            } else if instant(now) >= instant(start) && instant(now) < instant(end) {
                "now \u{b7} ends "@ + clock_text(end)
            } else if 0 <= until < 60 {
                "in "@ + decimal(until as nat) + " min \u{b7} "@ + duration
            } else {
                clock_text(start) + " \u{b7} "@ + duration
            }
        },
    }
}

/// Nanoseconds between two instants.
fn span_nanos(from: &LocalTime, to: &LocalTime) -> (out: i128)
    ensures
        out == instant(*to) - instant(*from),
{
    (to.seconds as i128 - from.seconds as i128) * 1_000_000_000 + (to.nanos as i128 - from.nanos as i128)
}

/// Whole minutes in a span, truncated toward zero.
fn span_minutes(span: i128) -> (out: i128)
    requires
        span > i128::MIN,
    ensures
        out == whole_minutes(span as int),
{
    if span >= 0 {
        span / 60_000_000_000
    } else {
        let back: i128 = -span;
        -(back / 60_000_000_000)
    }
}

/// A length in minutes as the event list shows it.
pub fn duration_label_minutes(minutes: u64) -> (out: String)
    ensures
        out@ == duration_text(minutes as int),
{
    if minutes < 60 {
        return string_of(&concat_chars(&decimal_chars(minutes), &chars_of(" min")));
    }
    let hours = minutes / 60;
    let rest = minutes % 60;
    if rest == 0 {
        string_of(&concat_chars(&decimal_chars(hours), &chars_of(" h")))
    } else {
        let head = concat_chars(&decimal_chars(hours), &chars_of(" h "));
        let tail = concat_chars(&decimal_chars(rest), &chars_of(" min"));
        string_of(&concat_chars(&head, &tail))
    }
}

/// An event's length, from its start to its end.
pub fn duration_label(start: &LocalTime, end: &LocalTime) -> (out: String)
    ensures
        out@ == duration_text(event_minutes(*start, *end)),
{
    let m = span_minutes(span_nanos(start, end));
    let minutes: u64 = if m < 0 {
        0
    } else {
        m as u64
    };
    duration_label_minutes(minutes)
}

/// A local time as "HH:MM".
fn clock_label(t: &LocalTime) -> (out: Vec<char>)
    ensures
        out@ == clock_text(*t),
{
    let head = concat_chars(&decimal2_chars(t.hour as u64), &chars_of(":"));
    concat_chars(&head, &decimal2_chars(t.minute as u64))
}

/// What the event list shows as an event's time; `times` are the event's
/// start and end read in local time, `None` when they do not parse.
pub fn event_time(
    event: &CalendarEvent,
    times: Option<(LocalTime, LocalTime)>,
    selected_date: CalendarDate,
    now: LocalTime,
) -> (out: String)
    ensures
        out@ == event_time_text(event.all_day, times, selected_date, now),
{
    let (start, end) = match times {
        Some(t) => t,
        None => return String::new(),
    };
    if event.all_day {
        return owned("All day");
    }
    let duration = chars_of(duration_label(&start, &end).as_str());
    let dot = chars_of(" \u{b7} ");
    if selected_date != now.date {
        return string_of(&concat_chars(&concat_chars(&clock_label(&start), &dot), &duration));
    }
    let since_start = span_nanos(&start, &now);
    let to_end = span_nanos(&now, &end);
    if since_start >= 0 && to_end > 0 {
        return string_of(&concat_chars(&chars_of("now \u{b7} ends "), &clock_label(&end)));
    }
    let until = span_minutes(span_nanos(&now, &start));
    if 0 <= until && until < 60 {
        let head = concat_chars(&chars_of("in "), &decimal_chars(until as u64));
        let head = concat_chars(&head, &chars_of(" min \u{b7} "));
        string_of(&concat_chars(&head, &duration))
    } else {
        string_of(&concat_chars(&concat_chars(&clock_label(&start), &dot), &duration))
    }
}

/// The event list's text when a day has no events: loading, none left today,
/// or none.
pub fn empty_events_text(loading: bool, selected_is_today: bool) -> (out: &'static str)
    ensures
        out@ == (if loading {
            "Loading..."@
        } else if selected_is_today {
            "No more events today"@
        } else {
            "No events"@
        }),
{
    if loading {
        "Loading..."
    } else if selected_is_today {
        "No more events today"
    } else {
        "No events"
    }
}

/// Where the `index`-th day cell sits in the seven-column grid: its column
/// and its row.
pub fn grid_position(index: usize) -> (out: (i32, i32))
    requires
        index / 7 <= i32::MAX,
    ensures
        out.0 == index % 7,
        out.1 == index / 7,
{
    ((index % 7) as i32, (index / 7) as i32)
}

// ---------------------------------------------------------------------------
// Clock texts and event instants
// ---------------------------------------------------------------------------

/// An instant with the UTC offset it was read in: seconds and nanoseconds
/// since the epoch, and the offset east of UTC in seconds.
#[derive(Debug, Clone, Copy, PartialEq, Eq, Structural)]
pub struct ZonedInstant {
    pub seconds: i64,
    pub nanos: u32,
    pub offset_seconds: i32,
}

/// The instant an RFC 3339 text names, as (seconds, nanoseconds, offset in
/// seconds), if it parses (chrono's `DateTime::parse_from_rfc3339`).
pub uninterp spec fn rfc3339_instant(text: Seq<char>) -> Option<(int, int, int)>;

/// The text chrono's strftime-style `pattern` gives for the instant at the
/// offset, if chrono can represent the instant and format the pattern
/// (`DateTime::format`).
pub uninterp spec fn zoned_text(pattern: Seq<char>, seconds: int, nanos: int, offset: int) -> Option<Seq<char>>;

/// chrono's `DateTime::parse_from_rfc3339`, read back as an instant and its
/// offset.
#[verifier::external_body]
fn parse_rfc3339(text: &str) -> (out: Option<ZonedInstant>)
    ensures
        match out {
            Some(z) => rfc3339_instant(text@) == Some((z.seconds as int, z.nanos as int, z.offset_seconds as int)),
            None => rfc3339_instant(text@) is None,
        },
{
    let at = chrono::DateTime::parse_from_rfc3339(text).ok()?;
    Some(ZonedInstant {
        seconds: at.timestamp(),
        nanos: at.timestamp_subsec_nanos(),
        offset_seconds: at.offset().local_minus_utc(),
    })
}

/// chrono's `DateTime::format` with `pattern`, of the instant at its offset;
/// `None` when chrono cannot represent the instant or reports an error
/// formatting the pattern.
#[verifier::external_body]
fn format_zoned(pattern: &str, at: ZonedInstant) -> (out: Option<String>)
    ensures
        match out {
            Some(t) => zoned_text(pattern@, at.seconds as int, at.nanos as int, at.offset_seconds as int) == Some(t@),
            None => zoned_text(pattern@, at.seconds as int, at.nanos as int, at.offset_seconds as int) is None,
        },
{
    let offset = chrono::FixedOffset::east_opt(at.offset_seconds)?;
    let utc = chrono::DateTime::from_timestamp(at.seconds, at.nanos)?;
    let mut text = String::new();
    write!(text, "{}", utc.with_timezone(&offset).format(pattern)).ok()?;
    Some(text)
}

/// The clock text for `pattern` at `now`: what chrono formats, or empty when
/// it cannot format the pattern.
pub open spec fn formatted_now(pattern: Seq<char>, now: ZonedInstant) -> Seq<char> {
    match zoned_text(pattern, now.seconds as int, now.nanos as int, now.offset_seconds as int) {
        Some(t) => t,
        None => Seq::empty(),
    }
}

/// The clock applet's label: the current time in the configured format.
pub fn label(format: &str, now: ZonedInstant) -> (out: String)
    ensures
        out@ == formatted_now(format@, now),
{
    match format_zoned(format, now) {
        Some(t) => t,
        None => String::new(),
    }
}

/// The clock applet's tooltip: the current time in the configured format.
pub fn tooltip(format: &str, now: ZonedInstant) -> (out: String)
    ensures
        out@ == formatted_now(format@, now),
{
    match format_zoned(format, now) {
        Some(t) => t,
        None => String::new(),
    }
}

/// An instant as the triple `rfc3339_instant` names.
pub open spec fn instant_triple(z: ZonedInstant) -> (int, int, int) {
    (z.seconds as int, z.nanos as int, z.offset_seconds as int)
}

/// The start and end instants of an event, when both its texts parse as
/// RFC 3339.
pub fn event_instants(event: &CalendarEvent) -> (out: Option<(ZonedInstant, ZonedInstant)>)
    ensures
        match out {
            Some((start, end)) => rfc3339_instant(event.start@) == Some(instant_triple(start))
                && rfc3339_instant(event.end@) == Some(instant_triple(end)),
            None => rfc3339_instant(event.start@) is None || rfc3339_instant(event.end@) is None,
        },
{
    let start = match parse_rfc3339(event.start.as_str()) {
        Some(s) => s,
        None => return None,
    };
    let end = match parse_rfc3339(event.end.as_str()) {
        Some(e) => e,
        None => return None,
    };
    Some((start, end))
}

/// A grid cell is dimmed as another month's day exactly when its date lies
/// in a month other than the visible one, before it or after it.
pub proof fn law_other_month_days_are_dimmed(
    cell: CalendarCell,
    offset: int,
    month: CalendarDate,
    selected: CalendarDate,
    today: CalendarDate,
    dots: Seq<(CalendarDate, Vec<String>)>,
)
    requires
        is_cell(cell, offset, month, selected, today, dots),
    ensures
        cell.date.month != month.month ==> cell.other_month,
        cell.date.month == month.month ==> !cell.other_month,
        cell.date.month < month.month ==> cell.other_month,
        cell.date.month > month.month ==> cell.other_month,
{
}

} // verus!
