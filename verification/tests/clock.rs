use glimpse_shell::calendar::{
    event_instants, label, tooltip, ZonedInstant,
    build_calendar_cells, calendar_day_classes, clamp_day, days_in_month, dots_markup,
    duration_label, empty_events_text, event_time, grid_start, is_safe_hex_color, month_label,
    selected_date, selected_weekday, shift_month, CalendarDate, CalendarEvent, CalendarModel,
    CalendarOutput, LocalTime, MonthKey,
};

fn date(year: i32, month: u32, day: u32) -> CalendarDate {
    CalendarDate { year, month, day }
}

fn local(date: CalendarDate, hour: u32, minute: u32) -> LocalTime {
    // Seconds since an arbitrary epoch in which the date's midnight is
    // `day * 86400`; only differences matter here.
    LocalTime {
        seconds: (date.day as i64) * 86_400 + (hour as i64) * 3_600 + (minute as i64) * 60,
        nanos: 0,
        date,
        hour,
        minute,
    }
}

#[test]
fn dots_markup_renders_fallback_dot_for_events_without_color() {
    assert_eq!(dots_markup(Some(&vec![String::new()])), "\u{2022}");
}

#[test]
fn dots_markup_accepts_safe_hex_colors_only() {
    let markup = dots_markup(Some(&vec!["#aabbcc".into(), "\"bad\"".into()]));

    assert!(markup.contains("foreground=\"#aabbcc\""));
    assert!(!markup.contains("\"bad\""));
}

#[test]
fn dots_markup_shows_at_most_three_dots() {
    let colors: Vec<String> = vec!["#000000".into(), "x".into(), "y".into(), "z".into()];
    assert_eq!(
        dots_markup(Some(&colors)),
        "<span foreground=\"#000000\">\u{2022}</span> \u{2022} \u{2022}"
    );
    assert_eq!(dots_markup(None), "");
    assert!(is_safe_hex_color("#A1b2C3"));
    assert!(!is_safe_hex_color("#A1b2C"));
    assert!(!is_safe_hex_color("A1b2C3D"));
}

#[test]
fn duration_label_uses_hours_for_long_events() {
    let day = date(2026, 4, 30);
    let start = local(day, 10, 0);
    let end = local(day, 11, 30);

    assert_eq!(duration_label(&start, &end), "1 h 30 min");
    assert_eq!(duration_label(&start, &local(day, 12, 0)), "2 h");
    assert_eq!(duration_label(&start, &local(day, 10, 45)), "45 min");
    assert_eq!(duration_label(&end, &start), "0 min");
}

#[test]
fn event_times_describe_the_day_and_the_hour_ahead() {
    let day = date(2026, 4, 30);
    let event = CalendarEvent {
        title: "Standup".into(),
        start: String::new(),
        end: String::new(),
        all_day: false,
    };
    let times = Some((local(day, 10, 0), local(day, 10, 30)));

    assert_eq!(event_time(&event, None, day, local(day, 9, 0)), "");
    assert_eq!(event_time(&event, times, day, local(day, 9, 40)), "in 20 min \u{b7} 30 min");
    assert_eq!(event_time(&event, times, day, local(day, 10, 5)), "now \u{b7} ends 10:30");
    assert_eq!(event_time(&event, times, day, local(day, 7, 0)), "10:00 \u{b7} 30 min");
    assert_eq!(
        event_time(&event, times, date(2026, 5, 1), local(day, 9, 40)),
        "10:00 \u{b7} 30 min"
    );
    let all_day = CalendarEvent { all_day: true, ..event };
    assert_eq!(event_time(&all_day, times, day, local(day, 9, 40)), "All day");
    assert_eq!(empty_events_text(true, true), "Loading...");
    assert_eq!(empty_events_text(false, true), "No more events today");
    assert_eq!(empty_events_text(false, false), "No events");
}

#[test]
fn months_shift_across_years_and_clamp_days() {
    assert_eq!(shift_month(date(2024, 1, 31), -1), date(2023, 12, 1));
    assert_eq!(shift_month(date(2024, 12, 15), 1), date(2025, 1, 1));
    assert_eq!(shift_month(date(2024, 5, 15), 25), date(2026, 6, 1));
    assert_eq!(days_in_month(date(2024, 2, 1)), 29);
    assert_eq!(days_in_month(date(2023, 2, 1)), 28);
    assert_eq!(days_in_month(date(2023, 4, 1)), 30);
    assert_eq!(clamp_day(date(2023, 2, 1), 31), date(2023, 2, 28));
    assert_eq!(clamp_day(date(2023, 3, 1), 15), date(2023, 3, 15));
}

#[test]
fn grid_starts_on_the_monday_before_the_first() {
    // April 1, 2026 is a Wednesday.
    assert_eq!(grid_start(date(2026, 4, 1)), date(2026, 3, 30));
    // June 1, 2026 is a Monday.
    assert_eq!(grid_start(date(2026, 6, 1)), date(2026, 6, 1));

    let dots = vec![(date(2026, 4, 2), vec!["#112233".to_string()])];
    let cells = build_calendar_cells(date(2026, 4, 1), date(2026, 4, 2), date(2026, 4, 3), &dots);
    assert_eq!(cells.len(), 42);
    assert_eq!(cells[0].date, date(2026, 3, 30));
    assert!(cells[0].other_month);
    assert_eq!(cells[3].date, date(2026, 4, 2));
    assert!(cells[3].selected);
    assert!(cells[3].dots_markup.contains("#112233"));
    assert!(cells[4].today);
    assert_eq!(cells[41].date, date(2026, 5, 10));
    assert_eq!(cells[41].day_label, "10");
    assert_eq!(
        calendar_day_classes(&cells[3]),
        vec!["flat", "calendar-day", "selected"]
    );
}

#[test]
fn month_navigation_clamps_the_selected_day() {
    let mut calendar = CalendarModel::new(date(2024, 1, 31));
    assert_eq!(calendar.month_label, "January 2024");

    let out = calendar.move_month(1);
    assert_eq!(calendar.visible_month, MonthKey { year: 2024, month: 2 });
    assert_eq!(calendar.selected_date, date(2024, 2, 29));
    assert_eq!(calendar.month_label, "February 2024");
    assert_eq!(
        out,
        vec![
            CalendarOutput::VisibleMonthChanged(MonthKey { year: 2024, month: 2 }),
            CalendarOutput::SelectedDate(date(2024, 2, 29)),
        ]
    );

    let out = calendar.select_date(date(2024, 2, 3), true);
    assert_eq!(out, vec![CalendarOutput::SelectedDate(date(2024, 2, 3))]);
    let out = calendar.select_date(date(2024, 3, 3), false);
    assert_eq!(
        out,
        vec![CalendarOutput::VisibleMonthChanged(MonthKey { year: 2024, month: 3 })]
    );
    assert_eq!(month_label(MonthKey { year: 2024, month: 13 }), "");
    assert_eq!(selected_weekday(date(2024, 3, 3)), "Sunday");
    assert_eq!(selected_date(date(2024, 3, 3)), "3 Mar, 2024");
}

#[test]
fn clock_text_follows_the_pattern_at_the_offset() {
    let now = ZonedInstant { seconds: 0, nanos: 0, offset_seconds: 3600 };
    assert_eq!(label("%H:%M", now), "01:00");
    assert_eq!(tooltip("%A, %-d %B %Y", now), "Thursday, 1 January 1970");
    assert_eq!(label("", now), "");
}

#[test]
fn unformattable_clock_patterns_give_empty_text() {
    let now = ZonedInstant { seconds: 0, nanos: 0, offset_seconds: 0 };
    assert_eq!(label("%Q", now), "");
}

#[test]
fn event_instants_parse_rfc3339_with_offsets() {
    let event = CalendarEvent {
        title: "Standup".into(),
        start: "2026-04-30T10:00:00+02:00".into(),
        end: "2026-04-30T10:30:00.5Z".into(),
        all_day: false,
    };
    let (start, end) = event_instants(&event).expect("both parse");
    assert_eq!(start, ZonedInstant { seconds: 1_777_536_000, nanos: 0, offset_seconds: 7200 });
    assert_eq!(end, ZonedInstant { seconds: 1_777_545_000, nanos: 500_000_000, offset_seconds: 0 });
    let broken = CalendarEvent { end: "tomorrow".into(), ..event };
    assert_eq!(event_instants(&broken), None);
}
