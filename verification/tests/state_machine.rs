use pomodorust::app::{App, InputMode, Mode, TimerState};
use pomodorust::settings::MINUTE_MS;

fn add_task(app: &mut App, name: &str) {
    app.current_input = name.to_string();
    app.submit_task();
}

#[test]
fn empty_name_adds_nothing() {
    let mut app = App::default();
    add_task(&mut app, "");
    assert_eq!(app.tasks.len(), 0);
    assert_eq!(app.active_task_index, None);
}

#[test]
fn whitespace_name_adds_nothing() {
    let mut app = App::default();
    add_task(&mut app, " \t\r\n ");
    assert_eq!(app.tasks.len(), 0);
    assert_eq!(app.active_task_index, None);
    // non-ASCII whitespace is rejected too
    add_task(&mut app, "\u{00A0}\u{2003}\u{3000}");
    assert_eq!(app.tasks.len(), 0);
    assert_eq!(app.active_task_index, None);
}

#[test]
fn first_task_becomes_active() {
    let mut app = App::default();
    add_task(&mut app, "Write report");
    assert_eq!(app.tasks.len(), 1);
    assert_eq!(app.tasks[0].name, "Write report");
    assert!(!app.tasks[0].completed);
    assert_eq!(app.tasks[0].pomodoros, 0);
    assert_eq!(app.tasks[0].time_spent, 0);
    assert_eq!(app.active_task_index, Some(0));
    assert_eq!(app.current_input, "");
    assert!(matches!(app.input_mode, InputMode::Normal));
}

#[test]
fn second_task_keeps_selection() {
    let mut app = App::default();
    add_task(&mut app, "a");
    add_task(&mut app, "b");
    assert_eq!(app.tasks.len(), 2);
    assert_eq!(app.active_task_index, Some(0));
}

#[test]
fn pomodoro_completion_advances_to_short_break() {
    let mut app = App::default();
    add_task(&mut app, "t");
    assert_eq!(app.time_remaining, 25 * MINUTE_MS);
    app.toggle_timer();
    assert_eq!(app.state, TimerState::Running);
    let finished = app.tick(25 * MINUTE_MS);
    assert_eq!(finished, Some(Mode::Pomodoro));
    assert_eq!(app.time_remaining, 5 * MINUTE_MS);
    assert_eq!(app.mode, Mode::ShortBreak);
    assert_eq!(app.pomodoros_completed_total, 1);
    assert_eq!(app.tasks[0].pomodoros, 1);
    assert_eq!(app.tasks[0].time_spent, 25 * MINUTE_MS);
    assert_eq!(app.state, TimerState::Running);
}

#[test]
fn fourth_session_earns_long_break() {
    let mut app = App::default();
    add_task(&mut app, "t");
    app.pomodoros_completed_total = 3;
    app.toggle_timer();
    let finished = app.tick(30 * MINUTE_MS);
    assert_eq!(finished, Some(Mode::Pomodoro));
    assert_eq!(app.pomodoros_completed_total, 4);
    assert_eq!(app.mode, Mode::LongBreak);
}

#[test]
fn four_cycles_break_pattern() {
    let mut app = App::default();
    add_task(&mut app, "t");
    app.toggle_timer();
    let mut breaks = Vec::new();
    for _ in 0..4 {
        // finish the Pomodoro
        let finished = app.tick(app.time_remaining);
        assert_eq!(finished, Some(Mode::Pomodoro));
        breaks.push(app.mode);
        // ride the break back to a Pomodoro
        let finished = app.tick(app.time_remaining);
        assert_eq!(finished, Some(breaks[breaks.len() - 1]));
        assert_eq!(app.mode, Mode::Pomodoro);
    }
    assert_eq!(
        breaks,
        vec![Mode::ShortBreak, Mode::ShortBreak, Mode::ShortBreak, Mode::LongBreak]
    );
    assert_eq!(app.pomodoros_completed_total, 4);
}

#[test]
fn tick_while_paused_changes_nothing() {
    let mut app = App::default();
    add_task(&mut app, "t");
    let finished = app.tick(10 * MINUTE_MS);
    assert_eq!(finished, None);
    assert_eq!(app.time_remaining, 25 * MINUTE_MS);
    assert_eq!(app.tasks[0].time_spent, 0);
}

#[test]
fn tick_decrements_and_accrues() {
    let mut app = App::default();
    add_task(&mut app, "t");
    app.toggle_timer();
    let finished = app.tick(10 * MINUTE_MS);
    assert_eq!(finished, None);
    assert_eq!(app.time_remaining, 15 * MINUTE_MS);
    assert_eq!(app.tasks[0].time_spent, 10 * MINUTE_MS);
    assert_eq!(app.state, TimerState::Running);
}

#[test]
fn tick_floors_at_zero_and_accrues_full_delta() {
    let mut app = App::default();
    add_task(&mut app, "t");
    app.toggle_timer();
    let finished = app.tick(40 * MINUTE_MS);
    assert_eq!(finished, Some(Mode::Pomodoro));
    // the countdown was reloaded for the break, never negative
    assert_eq!(app.time_remaining, 5 * MINUTE_MS);
    // the full elapsed delta was credited to the task
    assert_eq!(app.tasks[0].time_spent, 40 * MINUTE_MS);
}

#[test]
fn toggle_without_task_is_noop() {
    let mut app = App::default();
    app.toggle_timer();
    assert_eq!(app.state, TimerState::Paused);
}

#[test]
fn reset_is_idempotent() {
    let mut app = App::default();
    add_task(&mut app, "t");
    app.toggle_timer();
    app.tick(10 * MINUTE_MS);
    app.reset_timer();
    let once = app.time_remaining;
    let state_once = app.state;
    app.reset_timer();
    assert_eq!(app.time_remaining, once);
    assert_eq!(app.state, state_once);
    assert_eq!(app.time_remaining, 25 * MINUTE_MS);
}

#[test]
fn set_mode_reloads_countdown() {
    let mut app = App::default();
    app.set_mode(Mode::LongBreak);
    assert_eq!(app.mode, Mode::LongBreak);
    assert_eq!(app.state, TimerState::Paused);
    assert_eq!(app.time_remaining, 15 * MINUTE_MS);
    assert_eq!(app.pomodoros_completed_total, 0);
}

#[test]
fn completing_active_task_pauses_and_moves_selection() {
    let mut app = App::default();
    add_task(&mut app, "a");
    add_task(&mut app, "b");
    app.toggle_timer();
    app.complete_active_task();
    assert!(app.tasks[0].completed);
    assert!(app.tasks[0].completion_date.is_some());
    assert!(!app.tasks[1].completed);
    assert_eq!(app.state, TimerState::Paused);
    assert_eq!(app.time_remaining, 25 * MINUTE_MS);
    assert_eq!(app.active_task_index, Some(1));
}

#[test]
fn completing_last_task_clears_selection() {
    let mut app = App::default();
    add_task(&mut app, "a");
    app.complete_active_task();
    assert!(app.tasks[0].completed);
    assert_eq!(app.active_task_index, None);
}

#[test]
fn next_active_skips_completed_and_wraps() {
    let mut app = App::default();
    add_task(&mut app, "a");
    add_task(&mut app, "b");
    // move to b and complete it; the selection returns to a
    app.next_task();
    assert_eq!(app.active_task_index, Some(1));
    app.complete_active_task();
    assert_eq!(app.active_task_index, Some(0));
    // with a single uncompleted candidate, next wraps back to it
    app.next_task();
    assert_eq!(app.active_task_index, Some(0));
    app.previous_task();
    assert_eq!(app.active_task_index, Some(0));
}

#[test]
fn navigation_with_no_uncompleted_clears_selection() {
    let mut app = App::default();
    add_task(&mut app, "a");
    app.complete_active_task();
    app.next_task();
    assert_eq!(app.active_task_index, None);
    app.previous_task();
    assert_eq!(app.active_task_index, None);
}

#[test]
fn navigation_from_empty_selection_resets_to_first_uncompleted() {
    let mut app = App::default();
    // complete the only task: the selection empties
    add_task(&mut app, "done");
    app.complete_active_task();
    assert_eq!(app.active_task_index, None);
    // later tasks leave the selection empty (the list was not empty)
    add_task(&mut app, "b");
    add_task(&mut app, "c");
    assert_eq!(app.active_task_index, None);
    // the selection is not among the uncompleted tasks (task 0 is completed):
    // both directions restart at the first uncompleted task
    app.previous_task();
    assert_eq!(app.active_task_index, Some(1));
    app.active_task_index = None;
    app.next_task();
    assert_eq!(app.active_task_index, Some(1));
}

#[test]
fn navigation_cycles_in_list_order() {
    let mut app = App::default();
    add_task(&mut app, "a");
    add_task(&mut app, "b");
    add_task(&mut app, "c");
    app.next_task();
    assert_eq!(app.active_task_index, Some(1));
    app.next_task();
    assert_eq!(app.active_task_index, Some(2));
    app.next_task();
    assert_eq!(app.active_task_index, Some(0));
    app.previous_task();
    assert_eq!(app.active_task_index, Some(2));
}

#[test]
fn move_active_task_up_and_down() {
    let mut app = App::default();
    add_task(&mut app, "a");
    add_task(&mut app, "b");
    // at the top: no-op
    app.move_active_task_up();
    assert_eq!(app.tasks[0].name, "a");
    assert_eq!(app.active_task_index, Some(0));
    app.move_active_task_down();
    assert_eq!(app.tasks[0].name, "b");
    assert_eq!(app.tasks[1].name, "a");
    assert_eq!(app.active_task_index, Some(1));
    // at the bottom: no-op
    app.move_active_task_down();
    assert_eq!(app.active_task_index, Some(1));
    app.move_active_task_up();
    assert_eq!(app.tasks[0].name, "a");
    assert_eq!(app.active_task_index, Some(0));
}

#[test]
fn completed_cursor_cycles() {
    let mut app = App::default();
    add_task(&mut app, "a");
    add_task(&mut app, "b");
    // no completed tasks: cursor stays empty
    app.next_completed_task();
    assert_eq!(app.completed_task_list_state, None);
    app.complete_active_task();
    app.complete_active_task();
    // two completed tasks now
    app.next_completed_task();
    assert_eq!(app.completed_task_list_state, Some(0));
    app.next_completed_task();
    assert_eq!(app.completed_task_list_state, Some(1));
    app.next_completed_task();
    assert_eq!(app.completed_task_list_state, Some(0));
    app.previous_completed_task();
    assert_eq!(app.completed_task_list_state, Some(1));
}

#[test]
fn delete_completed_predecessor_shifts_active_down() {
    let mut app = App::default();
    add_task(&mut app, "done first");
    add_task(&mut app, "keep working");
    // complete the first task; the selection moves to the second
    app.complete_active_task();
    assert_eq!(app.active_task_index, Some(1));
    // point the statistics cursor at the sole completed task and delete it
    app.next_completed_task();
    assert_eq!(app.completed_task_list_state, Some(0));
    app.delete_selected_completed_task();
    assert_eq!(app.tasks.len(), 1);
    assert_eq!(app.tasks[0].name, "keep working");
    assert_eq!(app.active_task_index, Some(0));
    assert_eq!(app.completed_task_list_state, None);
}

#[test]
fn delete_without_cursor_is_noop() {
    let mut app = App::default();
    add_task(&mut app, "a");
    app.delete_selected_completed_task();
    assert_eq!(app.tasks.len(), 1);
}

#[test]
fn active_selection_never_points_at_completed() {
    let mut app = App::default();
    add_task(&mut app, "a");
    add_task(&mut app, "b");
    add_task(&mut app, "c");
    for _ in 0..3 {
        if let Some(i) = app.active_task_index {
            assert!(!app.tasks[i].completed);
        }
        app.complete_active_task();
        if let Some(i) = app.active_task_index {
            assert!(!app.tasks[i].completed);
        }
        app.next_task();
        if let Some(i) = app.active_task_index {
            assert!(!app.tasks[i].completed);
        }
    }
    assert_eq!(app.active_task_index, None);
}
