use vstd::prelude::*;
use vstd::view::View as ViewTrait;

use crate::app::{break_for_total, duration_for, App, Mode, TimerState};
use crate::snapshot::{restored_from, snapshot_of, Snapshot};
use crate::task::num_completed;

verus! {

/// The active-task invariant: in a well-formed state the selection is empty
/// or points at an uncompleted task. Every operation requires and preserves
/// well-formedness, so this holds after any sequence of operations.
pub proof fn lemma_active_task_valid(app: App)
    requires
        app.wf(),
        app.active_task_index is Some,
    ensures
        (app.active_task_index->0 as int) < app.tasks@.len(),
        !app.tasks@[app.active_task_index->0 as int].completed,
{
}

/// The cycle law: starting from a session count that is a multiple of four,
/// the first three Pomodoro completions are each followed by a short break
/// and the fourth by a long break. `next_mode` increments the count once per
/// completed Pomodoro (and breaks leave it unchanged), then picks the break
/// `break_for_total` names.
pub proof fn lemma_pomodoro_cycle(total: u32)
    requires
        total % 4 == 0,
        total + 4 <= u32::MAX,
    ensures
        break_for_total((total + 1) as u32) == Mode::ShortBreak,
        break_for_total((total + 2) as u32) == Mode::ShortBreak,
        break_for_total((total + 3) as u32) == Mode::ShortBreak,
        break_for_total((total + 4) as u32) == Mode::LongBreak,
{
}

/// Resetting twice yields the same state as resetting once: the reloaded
/// countdown depends only on the mode and the settings, and a reset changes
/// neither.
pub proof fn lemma_reset_idempotent(app: App)
    ensures
        App::reset_applied(App::reset_applied(app)) == App::reset_applied(app),
{
}

/// The snapshot round trip: resuming from the snapshot of a well-formed state
/// under the same settings restores the task list, the selections, the mode
/// and the session count exactly; only the timer is reloaded (paused, with a
/// full countdown), as resuming promises.
pub proof fn lemma_snapshot_round_trip(app: App, snap: Snapshot, resumed: App)
    requires
        app.wf(),
        snapshot_of(snap, app),
        restored_from(resumed, snap, app.settings),
    ensures
        resumed.tasks@ == app.tasks@,
        resumed.active_task_index == app.active_task_index,
        resumed.completed_task_list_state == app.completed_task_list_state,
        resumed.mode == app.mode,
        resumed.pomodoros_completed_total == app.pomodoros_completed_total,
        resumed.settings == app.settings,
        resumed.state == TimerState::Paused,
        resumed.time_remaining == duration_for(app.mode, app.settings),
{
    assert(snap.valid());
}

} // verus!
