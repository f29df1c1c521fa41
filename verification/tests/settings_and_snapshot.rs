use pomodorust::app::{App, Mode, TimerState};
use pomodorust::settings::{ColorTheme, Settings, MAX_MINUTES, MINUTE_MS};
use pomodorust::snapshot::Snapshot;
use pomodorust::task::Task;

fn add_task(app: &mut App, name: &str) {
    app.current_input = name.to_string();
    app.submit_task();
}

#[test]
fn default_settings_values() {
    let s = Settings::default();
    assert_eq!(s.pomodoro_duration, 25 * MINUTE_MS);
    assert_eq!(s.short_break_duration, 5 * MINUTE_MS);
    assert_eq!(s.long_break_duration, 15 * MINUTE_MS);
    assert_eq!(s.theme, ColorTheme::Default);
    assert!(s.desktop_notifications);
}

#[test]
fn settings_new_clamps_minutes() {
    // MAX_MINUTES is the largest whole-minute count that fits in u64
    // milliseconds; a larger request is capped there, a zero floored at one.
    let s = Settings::new(0, 5, MAX_MINUTES + 7, ColorTheme::Nord, false);
    assert_eq!(s.pomodoro_duration, MINUTE_MS);
    assert_eq!(s.short_break_duration, 5 * MINUTE_MS);
    assert_eq!(s.long_break_duration, MAX_MINUTES * MINUTE_MS);
    assert_eq!(s.theme, ColorTheme::Nord);
    assert!(!s.desktop_notifications);
}

#[test]
fn modify_setting_saturates_at_machine_bound() {
    let settings = Settings::new(MAX_MINUTES, 5, 15, ColorTheme::Default, true);
    let mut app = App::with_settings(settings);
    assert_eq!(app.settings.pomodoro_duration, MAX_MINUTES * MINUTE_MS);
    // one more minute would not fit in u64 milliseconds: the value stays put
    app.modify_setting(true);
    assert_eq!(app.settings.pomodoro_duration, MAX_MINUTES * MINUTE_MS);
    app.modify_setting(false);
    assert_eq!(app.settings.pomodoro_duration, (MAX_MINUTES - 1) * MINUTE_MS);
}

#[test]
fn mode_duration_looks_up_settings() {
    let s = Settings::new(30, 7, 20, ColorTheme::Default, true);
    assert_eq!(Mode::Pomodoro.duration(&s), 30 * MINUTE_MS);
    assert_eq!(Mode::ShortBreak.duration(&s), 7 * MINUTE_MS);
    assert_eq!(Mode::LongBreak.duration(&s), 20 * MINUTE_MS);
}

#[test]
fn mode_titles() {
    assert_eq!(Mode::Pomodoro.title(), "Pomodoro");
    assert_eq!(Mode::ShortBreak.title(), "Short Break");
    assert_eq!(Mode::LongBreak.title(), "Long Break");
}

#[test]
fn modify_setting_moves_durations_by_a_minute() {
    let mut app = App::default();
    assert_eq!(app.settings_selection, 0);
    app.modify_setting(true);
    assert_eq!(app.settings.pomodoro_duration, 26 * MINUTE_MS);
    // paused: the countdown reloads at once
    assert_eq!(app.time_remaining, 26 * MINUTE_MS);
    app.modify_setting(false);
    assert_eq!(app.settings.pomodoro_duration, 25 * MINUTE_MS);
    assert_eq!(app.time_remaining, 25 * MINUTE_MS);
}

#[test]
fn modify_setting_floors_at_one_minute() {
    let mut app = App::default();
    app.next_setting();
    assert_eq!(app.settings_selection, 1);
    for _ in 0..10 {
        app.modify_setting(false);
    }
    assert_eq!(app.settings.short_break_duration, MINUTE_MS);
    app.modify_setting(false);
    assert_eq!(app.settings.short_break_duration, MINUTE_MS);
}

#[test]
fn modify_setting_does_not_disturb_running_countdown() {
    let mut app = App::default();
    add_task(&mut app, "t");
    app.toggle_timer();
    app.tick(5 * MINUTE_MS);
    let remaining = app.time_remaining;
    app.modify_setting(true);
    assert_eq!(app.settings.pomodoro_duration, 26 * MINUTE_MS);
    assert_eq!(app.time_remaining, remaining);
    assert_eq!(app.state, TimerState::Running);
}

#[test]
fn theme_cycles_through_all_four() {
    let mut app = App::default();
    app.settings_selection = 3;
    let mut seen = vec![app.settings.theme];
    for _ in 0..4 {
        app.modify_setting(true);
        seen.push(app.settings.theme);
    }
    assert_eq!(
        seen,
        vec![
            ColorTheme::Default,
            ColorTheme::Dracula,
            ColorTheme::Solarized,
            ColorTheme::Nord,
            ColorTheme::Default,
        ]
    );
}

#[test]
fn notifications_toggle() {
    let mut app = App::default();
    app.settings_selection = 4;
    assert!(app.settings.desktop_notifications);
    app.modify_setting(true);
    assert!(!app.settings.desktop_notifications);
    app.modify_setting(false);
    assert!(app.settings.desktop_notifications);
}

#[test]
fn settings_selection_wraps_both_ways() {
    let mut app = App::default();
    for expected in [1, 2, 3, 4, 0] {
        app.next_setting();
        assert_eq!(app.settings_selection, expected);
    }
    app.previous_setting();
    assert_eq!(app.settings_selection, 4);
}

#[test]
fn snapshot_round_trip_restores_tasks_and_counts() {
    let mut app = App::default();
    add_task(&mut app, "alpha");
    add_task(&mut app, "beta");
    app.next_task();
    app.complete_active_task();
    app.pomodoros_completed_total = 7;
    app.next_completed_task();
    app.toggle_timer();
    app.tick(3 * MINUTE_MS);

    let snap = app.to_snapshot();
    let resumed = App::from_snapshot(snap, app.settings.clone());

    assert_eq!(resumed.tasks.len(), app.tasks.len());
    for (a, b) in resumed.tasks.iter().zip(app.tasks.iter()) {
        assert_eq!(a.name, b.name);
        assert_eq!(a.completed, b.completed);
        assert_eq!(a.pomodoros, b.pomodoros);
        assert_eq!(a.time_spent, b.time_spent);
        assert_eq!(a.creation_date, b.creation_date);
        assert_eq!(a.completion_date, b.completion_date);
    }
    assert_eq!(resumed.active_task_index, app.active_task_index);
    assert_eq!(
        resumed.completed_task_list_state,
        app.completed_task_list_state
    );
    assert_eq!(resumed.mode, app.mode);
    assert_eq!(
        resumed.pomodoros_completed_total,
        app.pomodoros_completed_total
    );
    // the timer itself restarts paused with a full countdown
    assert_eq!(resumed.state, TimerState::Paused);
    assert_eq!(resumed.time_remaining, 25 * MINUTE_MS);
}

#[test]
fn invalid_snapshot_falls_back_to_fresh_state() {
    let snap = Snapshot {
        mode: Mode::ShortBreak,
        state: TimerState::Running,
        time_remaining: 1,
        pomodoros_completed_total: 9,
        tasks: Vec::new(),
        // points past the empty task list: invalid
        active_task_index: Some(3),
        completed_task_list_state: None,
    };
    let app = App::from_snapshot(snap, Settings::default());
    assert_eq!(app.mode, Mode::Pomodoro);
    assert_eq!(app.pomodoros_completed_total, 0);
    assert_eq!(app.tasks.len(), 0);
    assert_eq!(app.active_task_index, None);
    assert_eq!(app.state, TimerState::Paused);
    assert_eq!(app.time_remaining, 25 * MINUTE_MS);
}

#[test]
fn snapshot_with_blank_task_name_is_rejected() {
    let snap = Snapshot {
        mode: Mode::Pomodoro,
        state: TimerState::Paused,
        time_remaining: 0,
        pomodoros_completed_total: 0,
        tasks: vec![Task {
            name: "   ".to_string(),
            completed: false,
            pomodoros: 0,
            time_spent: 0,
            creation_date: 0,
            completion_date: None,
        }],
        active_task_index: Some(0),
        completed_task_list_state: None,
    };
    let app = App::from_snapshot(snap, Settings::default());
    assert_eq!(app.tasks.len(), 0);
    assert_eq!(app.active_task_index, None);
}
