use vstd::prelude::*;
use vstd::view::View as ViewTrait;

use crate::app::{duration_for, App, InputMode, Mode, TimerState, View};
use crate::settings::Settings;
use crate::task::{num_completed, str_is_blank, Task};

verus! {

/// The persisted form of the application state: everything the timer and the
/// task registry own; transient view bookkeeping and the input line are left
/// out.
pub struct Snapshot {
    pub mode: Mode,
    pub state: TimerState,
    pub time_remaining: u64,
    pub pomodoros_completed_total: u32,
    pub tasks: Vec<Task>,
    pub active_task_index: Option<usize>,
    pub completed_task_list_state: Option<usize>,
}

impl Snapshot {
    /// A snapshot is valid when its indices and tasks satisfy the same
    /// constraints the application state maintains: the active index, if any,
    /// points at an uncompleted task, the completed-list cursor is in range,
    /// and every task is well formed.
    pub open spec fn valid(self) -> bool {
        &&& match self.active_task_index {
            Some(i) => i < self.tasks@.len() && !self.tasks@[i as int].completed,
            None => true,
        }
        &&& match self.completed_task_list_state {
            Some(j) => (j as int) < num_completed(self.tasks@),
            None => true,
        }
        &&& forall|k: int| 0 <= k < self.tasks@.len() ==> (#[trigger] self.tasks@[k]).wf()
    }
}

/// `snap` records exactly the persisted fields of `app`.
pub open spec fn snapshot_of(snap: Snapshot, app: App) -> bool {
    &&& snap.mode == app.mode
    &&& snap.state == app.state
    &&& snap.time_remaining == app.time_remaining
    &&& snap.pomodoros_completed_total == app.pomodoros_completed_total
    &&& snap.tasks@ == app.tasks@
    &&& snap.active_task_index == app.active_task_index
    &&& snap.completed_task_list_state == app.completed_task_list_state
}

/// `app` is the state resumed from `snap` under `settings`: a valid snapshot
/// is taken over, an invalid one falls back to a fresh state. Either way the
/// timer restarts paused with the countdown reloaded from the mode's
/// configured duration, and the transient fields hold their defaults.
pub open spec fn restored_from(app: App, snap: Snapshot, settings: Settings) -> bool {
    &&& app.state == TimerState::Paused
    &&& app.time_remaining == duration_for(app.mode, settings)
    &&& app.settings == settings
    &&& app.settings_selection == 0
    &&& !app.should_quit
    &&& app.current_view == View::TaskList
    &&& app.previous_view == View::TaskList
    &&& app.input_mode == InputMode::Normal
    &&& app.current_input@ == Seq::<char>::empty()
    &&& if snap.valid() {
        &&& app.mode == snap.mode
        &&& app.pomodoros_completed_total == snap.pomodoros_completed_total
        &&& app.tasks@ == snap.tasks@
        &&& app.active_task_index == snap.active_task_index
        &&& app.completed_task_list_state == snap.completed_task_list_state
    } else {
        &&& app.mode == Mode::Pomodoro
        &&& app.pomodoros_completed_total == 0
        &&& app.tasks@ == Seq::<Task>::empty()
        &&& app.active_task_index is None
        &&& app.completed_task_list_state is None
    }
}

impl App {
    /// The persisted fields of this state, copied into a snapshot.
    pub fn to_snapshot(&self) -> (snap: Snapshot)
        ensures
            snapshot_of(snap, *self),
    {
        let mut tasks: Vec<Task> = Vec::new();
        let mut k: usize = 0;
        while k < self.tasks.len()
            invariant
                0 <= k <= self.tasks@.len(),
                tasks@.len() == k,
                forall|j: int| 0 <= j < k ==> tasks@[j] == self.tasks@[j],
            decreases self.tasks@.len() - k,
        {
            tasks.push(self.tasks[k].clone());
            k = k + 1;
        }
        proof {
            assert(tasks@ =~= self.tasks@);
        }
        Snapshot {
            mode: self.mode,
            state: self.state,
            time_remaining: self.time_remaining,
            pomodoros_completed_total: self.pomodoros_completed_total,
            tasks,
            active_task_index: self.active_task_index,
            completed_task_list_state: self.completed_task_list_state,
        }
    }

    /// Resumes from a snapshot under `settings`. A snapshot whose indices or
    /// tasks are not valid is discarded and a fresh state is returned instead;
    /// in both cases the timer starts paused with a full countdown.
    pub fn from_snapshot(snap: Snapshot, settings: Settings) -> (app: App)
        requires
            settings.wf(),
        ensures
            app.wf(),
            restored_from(app, snap, settings),
    {
        if snapshot_checks_out(&snap) {
            let mode = snap.mode;
            let time_remaining = mode.duration(&settings);
            App {
                mode,
                state: TimerState::Paused,
                time_remaining,
                pomodoros_completed_total: snap.pomodoros_completed_total,
                should_quit: false,
                current_view: View::TaskList,
                previous_view: View::TaskList,
                tasks: snap.tasks,
                active_task_index: snap.active_task_index,
                input_mode: InputMode::Normal,
                current_input: String::new(),
                completed_task_list_state: snap.completed_task_list_state,
                settings,
                settings_selection: 0,
            }
        } else {
            App::with_settings(settings)
        }
    }
}

/// Whether `snap` satisfies `Snapshot::valid`.
fn snapshot_checks_out(snap: &Snapshot) -> (ok: bool)
    ensures
        ok == snap.valid(),
{
    if let Some(i) = snap.active_task_index {
        if i >= snap.tasks.len() {
            return false;
        }
        if snap.tasks[i].completed {
            return false;
        }
    }
    if let Some(j) = snap.completed_task_list_state {
        let count = crate::app::count_completed(&snap.tasks);
        if j >= count {
            return false;
        }
    }
    let mut k: usize = 0;
    while k < snap.tasks.len()
        invariant
            0 <= k <= snap.tasks@.len(),
            forall|j: int| 0 <= j < k ==> (#[trigger] snap.tasks@[j]).wf(),
            match snap.active_task_index {
                Some(i) => i < snap.tasks@.len() && !snap.tasks@[i as int].completed,
                None => true,
            },
            match snap.completed_task_list_state {
                Some(j) => (j as int) < num_completed(snap.tasks@),
                None => true,
            },
        decreases snap.tasks@.len() - k,
    {
        let task = &snap.tasks[k];
        if str_is_blank(task.name.as_str()) {
            return false;
        }
        let stamped = task.completion_date.is_some();
        if stamped != task.completed {
            return false;
        }
        k = k + 1;
    }
    true
}

} // verus!
