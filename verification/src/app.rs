use vstd::prelude::*;
use vstd::string::View as StrViewTrait;

use crate::clock::now_timestamp;

use crate::settings::{bump_duration, bumped, next_theme, ColorTheme, Settings};
use crate::task::{
    completed_idxs, completed_upto, first_pos, is_blank, lemma_completed_count_agree,
    lemma_completed_upto, lemma_first_pos, lemma_num_completed_same_flag,
    lemma_num_completed_set_flag, lemma_num_completed_swap_adjacent, lemma_uncompleted_upto,
    num_completed, str_is_blank, uncompleted_idxs, uncompleted_upto, Task,
};

verus! {

/// The three session types of the Pomodoro technique.
#[derive(Clone, Copy, PartialEq, Eq, Structural, Debug)]
pub enum Mode {
    Pomodoro,
    ShortBreak,
    LongBreak,
}

/// Whether the countdown is advancing.
#[derive(Clone, Copy, PartialEq, Eq, Structural, Debug)]
pub enum TimerState {
    Paused,
    Running,
}

/// The screen the user is looking at.
#[derive(Clone, Copy, PartialEq, Eq, Structural, Debug)]
pub enum View {
    Timer,
    TaskList,
    Statistics,
    Settings,
    TaskDetails,
}

/// Whether key presses feed the task-name input line.
#[derive(Clone, Copy, PartialEq, Eq, Structural, Debug)]
pub enum InputMode {
    Normal,
    Editing,
}

/// The configured duration of a mode, in milliseconds.
pub open spec fn duration_for(mode: Mode, settings: Settings) -> u64 {
    match mode {
        Mode::Pomodoro => settings.pomodoro_duration,
        Mode::ShortBreak => settings.short_break_duration,
        Mode::LongBreak => settings.long_break_duration,
    }
}

/// The break that follows a Pomodoro when `total` Pomodoros have been
/// completed so far: every fourth completion earns a long break.
pub open spec fn break_for_total(total: u32) -> Mode {
    if total % 4 == 0 {
        Mode::LongBreak
    } else {
        Mode::ShortBreak
    }
}

/// `x + 1`, saturating at the largest `u32`.
pub open spec fn inc_sat_u32(x: u32) -> u32 {
    if x == u32::MAX {
        x
    } else {
        (x + 1) as u32
    }
}

/// `x + y`, saturating at the largest `u64`.
pub open spec fn add_sat_u64(x: u64, y: u64) -> u64 {
    if x + y > u64::MAX {
        u64::MAX
    } else {
        (x + y) as u64
    }
}

impl Mode {
    /// The duration of this mode under `settings`, in milliseconds.
    pub fn duration(&self, settings: &Settings) -> (d: u64)
        ensures
            d == duration_for(*self, *settings),
    {
        match self {
            Mode::Pomodoro => settings.pomodoro_duration,
            Mode::ShortBreak => settings.short_break_duration,
            Mode::LongBreak => settings.long_break_duration,
        }
    }

    /// The display title of this mode.
    pub fn title(&self) -> (t: &'static str)
        ensures
            *self == Mode::Pomodoro ==> t@ == "Pomodoro"@,
            *self == Mode::ShortBreak ==> t@ == "Short Break"@,
            *self == Mode::LongBreak ==> t@ == "Long Break"@,
    {
        match self {
            Mode::Pomodoro => "Pomodoro",
            Mode::ShortBreak => "Short Break",
            Mode::LongBreak => "Long Break",
        }
    }
}

/// The whole application state: timer engine, task registry with the
/// active-task selection, the completed-list cursor of the statistics view,
/// and settings.
pub struct App {
    pub mode: Mode,
    pub state: TimerState,
    pub time_remaining: u64,
    pub pomodoros_completed_total: u32,
    pub should_quit: bool,
    pub current_view: View,
    pub previous_view: View,
    pub tasks: Vec<Task>,
    pub active_task_index: Option<usize>,
    pub input_mode: InputMode,
    pub current_input: String,
    pub completed_task_list_state: Option<usize>,
    pub settings: Settings,
    pub settings_selection: usize,
}

/// A fresh application state under `settings`: a paused Pomodoro whose
/// countdown holds the full Pomodoro duration, an empty task list with no
/// selections, no completed sessions, and the task-list view showing.
pub open spec fn is_fresh(app: App, settings: Settings) -> bool {
    &&& app.mode == Mode::Pomodoro
    &&& app.state == TimerState::Paused
    &&& app.time_remaining == settings.pomodoro_duration
    &&& app.pomodoros_completed_total == 0
    &&& !app.should_quit
    &&& app.current_view == View::TaskList
    &&& app.previous_view == View::TaskList
    &&& app.tasks@ == Seq::<Task>::empty()
    &&& app.active_task_index is None
    &&& app.input_mode == InputMode::Normal
    &&& app.current_input@ == Seq::<char>::empty()
    &&& app.completed_task_list_state is None
    &&& app.settings == settings
    &&& app.settings_selection == 0
}

/// How many settings rows the settings screen offers.
pub const SETTINGS_COUNT: usize = 5;

impl App {
    /// Well-formedness, maintained by every operation: the active index, if
    /// any, points at an uncompleted task; the timer only runs with an active
    /// task; the completed-list cursor, if any, is a valid position among the
    /// completed tasks; every task and the settings are themselves well
    /// formed; and the settings selection is a valid row.
    pub open spec fn wf(self) -> bool {
        &&& self.settings.wf()
        &&& self.settings_selection < SETTINGS_COUNT
        &&& match self.active_task_index {
            Some(i) => i < self.tasks@.len() && !self.tasks@[i as int].completed,
            None => true,
        }
        &&& (self.state == TimerState::Running ==> self.active_task_index is Some)
        &&& match self.completed_task_list_state {
            Some(j) => (j as int) < num_completed(self.tasks@),
            None => true,
        }
        &&& forall|k: int| 0 <= k < self.tasks@.len() ==> (#[trigger] self.tasks@[k]).wf()
    }

    /// The state `o` with the timer paused and the countdown reloaded from the
    /// current mode's configured duration.
    pub open spec fn reset_applied(o: App) -> App {
        App { state: TimerState::Paused, time_remaining: duration_for(o.mode, o.settings), ..o }
    }

    /// A fresh state: a paused Pomodoro under `settings`, with no tasks.
    pub fn with_settings(settings: Settings) -> (app: App)
        requires
            settings.wf(),
        ensures
            app.wf(),
            is_fresh(app, settings),
    {
        let time_remaining = settings.pomodoro_duration;
        App {
            mode: Mode::Pomodoro,
            state: TimerState::Paused,
            time_remaining,
            pomodoros_completed_total: 0,
            should_quit: false,
            current_view: View::TaskList,
            previous_view: View::TaskList,
            tasks: Vec::new(),
            active_task_index: None,
            input_mode: InputMode::Normal,
            current_input: String::new(),
            completed_task_list_state: None,
            settings,
            settings_selection: 0,
        }
    }

    /// Toggles the timer between running and paused; without an active,
    /// uncompleted task this is a silent no-op.
    pub fn toggle_timer(&mut self)
        requires
            old(self).wf(),
        ensures
            final(self).wf(),
            old(self).active_task_index is Some ==> final(self).state == (if old(self).state
                == TimerState::Paused {
                TimerState::Running
            } else {
                TimerState::Paused
            }),
            old(self).active_task_index is None ==> final(self).state == old(self).state,
            *final(self) == (App { state: final(self).state, ..*old(self) }),
    {
        if let Some(index) = self.active_task_index {
            if !self.tasks[index].completed {
                match self.state {
                    TimerState::Paused => self.state = TimerState::Running,
                    TimerState::Running => self.state = TimerState::Paused,
                }
            }
        }
    }

    /// Pauses the timer and reloads the countdown from the current mode's
    /// configured duration. Always succeeds.
    pub fn reset_timer(&mut self)
        ensures
            *final(self) == App::reset_applied(*old(self)),
            old(self).wf() ==> final(self).wf(),
    {
        self.state = TimerState::Paused;
        self.time_remaining = self.mode.duration(&self.settings);
    }

    /// Switches to `mode` and resets the timer; the session count is not
    /// touched.
    pub fn set_mode(&mut self, mode: Mode)
        requires
            old(self).wf(),
        ensures
            final(self).wf(),
            *final(self) == App::reset_applied(App { mode, ..*old(self) }),
    {
        self.mode = mode;
        self.reset_timer();
    }

    /// Moves the settings selection down one row, cyclically.
    pub fn next_setting(&mut self)
        requires
            old(self).wf(),
        ensures
            final(self).wf(),
            final(self).settings_selection == (old(self).settings_selection + 1) % (
            SETTINGS_COUNT as int),
            *final(self) == (App { settings_selection: final(self).settings_selection, ..*old(self) }),
    {
        self.settings_selection = (self.settings_selection + 1) % SETTINGS_COUNT;
    }

    /// Moves the settings selection up one row, cyclically.
    pub fn previous_setting(&mut self)
        requires
            old(self).wf(),
        ensures
            final(self).wf(),
            final(self).settings_selection == (if old(self).settings_selection == 0 {
                (SETTINGS_COUNT - 1) as int
            } else {
                old(self).settings_selection - 1
            }),
            *final(self) == (App { settings_selection: final(self).settings_selection, ..*old(self) }),
    {
        if self.settings_selection > 0 {
            self.settings_selection = self.settings_selection - 1;
        } else {
            self.settings_selection = SETTINGS_COUNT - 1;
        }
    }
}

impl Default for App {
    /// A fresh state with default settings.
    fn default() -> (app: App)
        ensures
            app.wf(),
            is_fresh(app, Settings::spec_default()),
    {
        App::with_settings(Settings::default())
    }
}

/// The fields the timer engine does not own are unchanged between `o` and `f`:
/// view bookkeeping, the input line, and the quit flag.
pub open spec fn ui_unchanged(o: App, f: App) -> bool {
    &&& f.should_quit == o.should_quit
    &&& f.current_view == o.current_view
    &&& f.previous_view == o.previous_view
    &&& f.input_mode == o.input_mode
    &&& f.current_input == o.current_input
}

/// The settings and the settings selection are unchanged between `o` and `f`.
pub open spec fn settings_unchanged(o: App, f: App) -> bool {
    &&& f.settings == o.settings
    &&& f.settings_selection == o.settings_selection
}

/// `a` is the position of the first uncompleted task of `tasks`, or `None`
/// when every task is completed.
pub open spec fn is_first_uncompleted(tasks: Seq<Task>, a: Option<usize>) -> bool {
    match a {
        Some(k) => (k as int) < tasks.len() && !tasks[k as int].completed && (forall|j: int|
            0 <= j < k ==> tasks[j].completed),
        None => forall|j: int| 0 <= j < tasks.len() ==> tasks[j].completed,
    }
}

/// Where the active selection moves on a "next task" request: one step forward
/// through the uncompleted tasks in list order, wrapping around; `None` when no
/// task is uncompleted. A selection that is not itself uncompleted restarts at
/// the first uncompleted task.
pub open spec fn next_active_from(tasks: Seq<Task>, active: Option<usize>) -> Option<usize> {
    let u = uncompleted_idxs(tasks);
    if u.len() == 0 {
        None
    } else {
        let cur = match active {
            Some(a) => a as int,
            None => 0,
        };
        let p = first_pos(u, cur);
        let np = if p == u.len() {
            0
        } else {
            (p + 1) % (u.len() as int)
        };
        Some(u[np] as usize)
    }
}

/// Where the active selection moves on a "previous task" request: one step
/// backward through the uncompleted tasks in list order, wrapping around;
/// `None` when no task is uncompleted. A selection that is not itself
/// uncompleted restarts at the first uncompleted task.
pub open spec fn prev_active_from(tasks: Seq<Task>, active: Option<usize>) -> Option<usize> {
    let u = uncompleted_idxs(tasks);
    if u.len() == 0 {
        None
    } else {
        let cur = match active {
            Some(a) => a as int,
            None => 0,
        };
        let p = first_pos(u, cur);
        if p == u.len() {
            Some(u[0] as usize)
        } else {
            let np = if p == 0 {
                u.len() as int - 1
            } else {
                p - 1
            };
            Some(u[np] as usize)
        }
    }
}

/// Where the completed-list cursor moves on a "next" request over `count`
/// completed tasks; with no completed tasks the cursor does not move.
pub open spec fn next_cursor(count: int, cur: Option<usize>) -> Option<usize> {
    if count == 0 {
        cur
    } else {
        match cur {
            Some(i) => Some((((i + 1) % count) as usize)),
            None => Some(0usize),
        }
    }
}

/// Where the completed-list cursor moves on a "previous" request over `count`
/// completed tasks; with no completed tasks the cursor does not move.
pub open spec fn prev_cursor(count: int, cur: Option<usize>) -> Option<usize> {
    if count == 0 {
        cur
    } else {
        match cur {
            Some(i) => Some(
                (if i == 0 {
                    count - 1
                } else {
                    i - 1
                }) as usize,
            ),
            None => Some(0usize),
        }
    }
}

/// The settings after one adjustment of the selected row: durations move one
/// minute in the requested direction, the theme advances through its cycle,
/// the notification switch flips.
pub open spec fn modified_settings(s: Settings, selection: usize, increase: bool) -> Settings {
    if selection == 0 {
        Settings { pomodoro_duration: bumped(s.pomodoro_duration, increase) as u64, ..s }
    } else if selection == 1 {
        Settings { short_break_duration: bumped(s.short_break_duration, increase) as u64, ..s }
    } else if selection == 2 {
        Settings { long_break_duration: bumped(s.long_break_duration, increase) as u64, ..s }
    } else if selection == 3 {
        Settings { theme: next_theme(s.theme), ..s }
    } else if selection == 4 {
        Settings { desktop_notifications: !s.desktop_notifications, ..s }
    } else {
        s
    }
}

/// How many tasks of `tasks` are completed.
pub(crate) fn count_completed(tasks: &Vec<Task>) -> (c: usize)
    ensures
        c as int == num_completed(tasks@),
{
    let mut c: usize = 0;
    let mut k: usize = 0;
    while k < tasks.len()
        invariant
            0 <= k <= tasks@.len(),
            c as int == completed_upto(tasks@, k as int).len(),
            c <= k,
        decreases tasks@.len() - k,
    {
        if tasks[k].completed {
            c = c + 1;
        }
        k = k + 1;
    }
    c
}

/// The indices of the uncompleted tasks, in list order.
fn collect_uncompleted(tasks: &Vec<Task>) -> (v: Vec<usize>)
    ensures
        v@.len() == uncompleted_idxs(tasks@).len(),
        forall|j: int| 0 <= j < v@.len() ==> v@[j] as int == uncompleted_idxs(tasks@)[j],
{
    let mut v: Vec<usize> = Vec::new();
    let mut k: usize = 0;
    while k < tasks.len()
        invariant
            0 <= k <= tasks@.len(),
            v@.len() == uncompleted_upto(tasks@, k as int).len(),
            forall|j: int| 0 <= j < v@.len() ==> v@[j] as int == uncompleted_upto(
                tasks@,
                k as int,
            )[j],
        decreases tasks@.len() - k,
    {
        if !tasks[k].completed {
            v.push(k);
        }
        k = k + 1;
    }
    v
}

/// The indices of the completed tasks, in list order.
fn collect_completed(tasks: &Vec<Task>) -> (v: Vec<usize>)
    ensures
        v@.len() == completed_idxs(tasks@).len(),
        forall|j: int| 0 <= j < v@.len() ==> v@[j] as int == completed_idxs(tasks@)[j],
{
    let mut v: Vec<usize> = Vec::new();
    let mut k: usize = 0;
    while k < tasks.len()
        invariant
            0 <= k <= tasks@.len(),
            v@.len() == completed_upto(tasks@, k as int).len(),
            forall|j: int| 0 <= j < v@.len() ==> v@[j] as int == completed_upto(
                tasks@,
                k as int,
            )[j],
        decreases tasks@.len() - k,
    {
        if tasks[k].completed {
            v.push(k);
        }
        k = k + 1;
    }
    v
}

/// The position of the first uncompleted task, or `None` when every task is
/// completed.
fn find_first_uncompleted(tasks: &Vec<Task>) -> (r: Option<usize>)
    ensures
        is_first_uncompleted(tasks@, r),
{
    let mut k: usize = 0;
    while k < tasks.len()
        invariant
            0 <= k <= tasks@.len(),
            forall|j: int| 0 <= j < k ==> tasks@[j].completed,
        decreases tasks@.len() - k,
    {
        if !tasks[k].completed {
            return Some(k);
        }
        k = k + 1;
    }
    None
}

impl App {
    /// Finishes the current session and switches to the next appropriate mode,
    /// returning the mode that just ended. Finishing a Pomodoro counts the
    /// session (for the task too, when one is active) and earns a long break
    /// after every fourth completed Pomodoro, a short break otherwise; a break
    /// is followed by a Pomodoro. The timer is reloaded and continues running
    /// exactly when a task is active.
    pub fn next_mode(&mut self) -> (prev: Mode)
        requires
            old(self).wf(),
        ensures
            final(self).wf(),
            prev == old(self).mode,
            old(self).mode == Mode::Pomodoro ==> {
                &&& final(self).pomodoros_completed_total == inc_sat_u32(
                    old(self).pomodoros_completed_total,
                )
                &&& final(self).mode == break_for_total(final(self).pomodoros_completed_total)
                &&& match old(self).active_task_index {
                    Some(i) => final(self).tasks@ == old(self).tasks@.update(
                        i as int,
                        (Task {
                            pomodoros: inc_sat_u32(old(self).tasks@[i as int].pomodoros),
                            ..old(self).tasks@[i as int]
                        }),
                    ),
                    None => final(self).tasks@ == old(self).tasks@,
                }
            },
            old(self).mode != Mode::Pomodoro ==> {
                &&& final(self).mode == Mode::Pomodoro
                &&& final(self).pomodoros_completed_total == old(self).pomodoros_completed_total
                &&& final(self).tasks@ == old(self).tasks@
            },
            final(self).time_remaining == duration_for(final(self).mode, old(self).settings),
            final(self).state == (if old(self).active_task_index is Some {
                TimerState::Running
            } else {
                TimerState::Paused
            }),
            final(self).active_task_index == old(self).active_task_index,
            final(self).completed_task_list_state == old(self).completed_task_list_state,
            settings_unchanged(*old(self), *final(self)),
            ui_unchanged(*old(self), *final(self)),
    {
        let previous_mode = self.mode;
        if self.mode == Mode::Pomodoro {
            self.pomodoros_completed_total = self.pomodoros_completed_total.saturating_add(1);
            if let Some(index) = self.active_task_index {
                let t = self.tasks[index].clone();
                let bumped_task = Task { pomodoros: t.pomodoros.saturating_add(1), ..t };
                self.tasks.set(index, bumped_task);
                proof {
                    lemma_num_completed_same_flag(
                        old(self).tasks@,
                        index as int,
                        self.tasks@[index as int],
                    );
                }
            }
            if self.pomodoros_completed_total % 4 == 0 {
                self.mode = Mode::LongBreak;
            } else {
                self.mode = Mode::ShortBreak;
            }
        } else {
            self.mode = Mode::Pomodoro;
        }
        self.reset_timer();
        if let Some(index) = self.active_task_index {
            if !self.tasks[index].completed {
                self.state = TimerState::Running;
            }
        }
        previous_mode
    }

    /// Adjusts the selected settings row one step in the requested direction.
    /// While the timer is paused the countdown is reloaded at once so that it
    /// reflects the new duration; a running countdown is left undisturbed.
    pub fn modify_setting(&mut self, increase: bool)
        requires
            old(self).wf(),
        ensures
            final(self).wf(),
            final(self).settings == modified_settings(
                old(self).settings,
                old(self).settings_selection,
                increase,
            ),
            final(self).state == old(self).state,
            old(self).state == TimerState::Paused ==> final(self).time_remaining == duration_for(
                old(self).mode,
                final(self).settings,
            ),
            old(self).state == TimerState::Running ==> final(self).time_remaining == old(self).time_remaining,
            final(self).mode == old(self).mode,
            final(self).pomodoros_completed_total == old(self).pomodoros_completed_total,
            final(self).tasks@ == old(self).tasks@,
            final(self).active_task_index == old(self).active_task_index,
            final(self).completed_task_list_state == old(self).completed_task_list_state,
            final(self).settings_selection == old(self).settings_selection,
            ui_unchanged(*old(self), *final(self)),
    {
        match self.settings_selection {
            0 => {
                self.settings.pomodoro_duration = bump_duration(
                    self.settings.pomodoro_duration,
                    increase,
                );
            },
            1 => {
                self.settings.short_break_duration = bump_duration(
                    self.settings.short_break_duration,
                    increase,
                );
            },
            2 => {
                self.settings.long_break_duration = bump_duration(
                    self.settings.long_break_duration,
                    increase,
                );
            },
            3 => {
                self.settings.theme = match self.settings.theme {
                    ColorTheme::Default => ColorTheme::Dracula,
                    ColorTheme::Dracula => ColorTheme::Solarized,
                    ColorTheme::Solarized => ColorTheme::Nord,
                    ColorTheme::Nord => ColorTheme::Default,
                };
            },
            4 => {
                self.settings.desktop_notifications = !self.settings.desktop_notifications;
            },
            _ => {},
        }
        if self.state == TimerState::Paused {
            self.reset_timer();
        }
    }

    /// Adds a task named by the input line. A blank input adds nothing; a
    /// non-blank input becomes a fresh task at the end of the list and the
    /// input line is cleared. The first task ever added becomes active.
    /// Editing mode always ends.
    pub fn submit_task(&mut self)
        requires
            old(self).wf(),
        ensures
            final(self).wf(),
            !is_blank(old(self).current_input@) ==> {
                &&& final(self).tasks@.len() == old(self).tasks@.len() + 1
                &&& final(self).tasks@.subrange(0, old(self).tasks@.len() as int) == old(self).tasks@
                &&& final(self).tasks@.last().name@ == old(self).current_input@
                &&& !final(self).tasks@.last().completed
                &&& final(self).tasks@.last().pomodoros == 0
                &&& final(self).tasks@.last().time_spent == 0
                &&& final(self).tasks@.last().completion_date is None
                &&& final(self).current_input@ == Seq::<char>::empty()
                &&& final(self).active_task_index == (if old(self).tasks@.len() == 0 {
                    Some(0usize)
                } else {
                    old(self).active_task_index
                })
            },
            is_blank(old(self).current_input@) ==> {
                &&& final(self).tasks@ == old(self).tasks@
                &&& final(self).current_input == old(self).current_input
                &&& final(self).active_task_index == old(self).active_task_index
            },
            final(self).input_mode == InputMode::Normal,
            final(self).mode == old(self).mode,
            final(self).state == old(self).state,
            final(self).time_remaining == old(self).time_remaining,
            final(self).pomodoros_completed_total == old(self).pomodoros_completed_total,
            final(self).completed_task_list_state == old(self).completed_task_list_state,
            settings_unchanged(*old(self), *final(self)),
            final(self).should_quit == old(self).should_quit,
            final(self).current_view == old(self).current_view,
            final(self).previous_view == old(self).previous_view,
    {
        if !str_is_blank(self.current_input.as_str()) {
            let name = self.current_input.clone();
            self.current_input = String::new();
            let task = Task::new(name);
            self.tasks.push(task);
            if self.tasks.len() == 1 {
                self.active_task_index = Some(0);
            }
            proof {
                let o = old(self).tasks@;
                let f = self.tasks@;
                assert(f.subrange(0, o.len() as int) =~= o);
                lemma_completed_count_agree(o, f, 0, o.len() as int);
                assert(completed_upto(f, f.len() as int).len() == completed_upto(
                    f,
                    o.len() as int,
                ).len());
            }
        }
        self.input_mode = InputMode::Normal;
    }

    /// Moves the statistics cursor to the next completed task, cyclically; a
    /// no-op when no task is completed.
    pub fn next_completed_task(&mut self)
        requires
            old(self).wf(),
        ensures
            final(self).wf(),
            final(self).completed_task_list_state == next_cursor(
                num_completed(old(self).tasks@),
                old(self).completed_task_list_state,
            ),
            *final(self) == (App {
                completed_task_list_state: final(self).completed_task_list_state,
                ..*old(self)
            }),
    {
        let completed_count = count_completed(&self.tasks);
        if completed_count == 0 {
            return;
        }
        let i = match self.completed_task_list_state {
            Some(i) => (i + 1) % completed_count,
            None => 0,
        };
        self.completed_task_list_state = Some(i);
    }

    /// Moves the statistics cursor to the previous completed task, cyclically;
    /// a no-op when no task is completed.
    pub fn previous_completed_task(&mut self)
        requires
            old(self).wf(),
        ensures
            final(self).wf(),
            final(self).completed_task_list_state == prev_cursor(
                num_completed(old(self).tasks@),
                old(self).completed_task_list_state,
            ),
            *final(self) == (App {
                completed_task_list_state: final(self).completed_task_list_state,
                ..*old(self)
            }),
    {
        let completed_count = count_completed(&self.tasks);
        if completed_count == 0 {
            return;
        }
        let i = match self.completed_task_list_state {
            Some(i) => if i == 0 {
                completed_count - 1
            } else {
                i - 1
            },
            None => 0,
        };
        self.completed_task_list_state = Some(i);
    }
}

impl App {
    /// Moves the active selection to the next uncompleted task in list order,
    /// wrapping around; clears it when no task is uncompleted. A selection
    /// that is not itself among the uncompleted tasks restarts at the first
    /// one.
    pub fn next_task(&mut self)
        requires
            old(self).wf(),
        ensures
            final(self).wf(),
            final(self).active_task_index == next_active_from(
                old(self).tasks@,
                old(self).active_task_index,
            ),
            *final(self) == (App {
                active_task_index: final(self).active_task_index,
                ..*old(self)
            }),
    {
        proof {
            lemma_uncompleted_upto(self.tasks@, self.tasks@.len() as int);
        }
        let uncompleted = collect_uncompleted(&self.tasks);
        if uncompleted.len() == 0 {
            proof {
                if old(self).active_task_index is Some {
                    let a = old(self).active_task_index->0;
                    assert(uncompleted_idxs(self.tasks@).contains(a as int));
                }
            }
            self.active_task_index = None;
            return;
        }
        let current: usize = match self.active_task_index {
            Some(a) => a,
            None => 0,
        };
        let ghost u = uncompleted_idxs(old(self).tasks@);
        proof {
            lemma_first_pos(u, current as int);
        }
        let mut p: usize = 0;
        while p < uncompleted.len() && uncompleted[p] != current
            invariant
                0 <= p <= uncompleted@.len(),
                uncompleted@.len() == u.len(),
                forall|j: int| 0 <= j < uncompleted@.len() ==> uncompleted@[j] as int == u[j],
                forall|j: int| 0 <= j < p ==> u[j] != current as int,
            decreases uncompleted@.len() - p,
        {
            p = p + 1;
        }
        assert(p as int == first_pos(u, current as int));
        let np = if p == uncompleted.len() {
            0
        } else {
            (p + 1) % uncompleted.len()
        };
        self.active_task_index = Some(uncompleted[np]);
    }

    /// Moves the active selection to the previous uncompleted task in list
    /// order, wrapping around; clears it when no task is uncompleted. A
    /// selection that is not itself among the uncompleted tasks restarts at
    /// the first one.
    pub fn previous_task(&mut self)
        requires
            old(self).wf(),
        ensures
            final(self).wf(),
            final(self).active_task_index == prev_active_from(
                old(self).tasks@,
                old(self).active_task_index,
            ),
            *final(self) == (App {
                active_task_index: final(self).active_task_index,
                ..*old(self)
            }),
    {
        proof {
            lemma_uncompleted_upto(self.tasks@, self.tasks@.len() as int);
        }
        let uncompleted = collect_uncompleted(&self.tasks);
        if uncompleted.len() == 0 {
            proof {
                if old(self).active_task_index is Some {
                    let a = old(self).active_task_index->0;
                    assert(uncompleted_idxs(self.tasks@).contains(a as int));
                }
            }
            self.active_task_index = None;
            return;
        }
        let current: usize = match self.active_task_index {
            Some(a) => a,
            None => 0,
        };
        let ghost u = uncompleted_idxs(old(self).tasks@);
        proof {
            lemma_first_pos(u, current as int);
        }
        let mut p: usize = 0;
        while p < uncompleted.len() && uncompleted[p] != current
            invariant
                0 <= p <= uncompleted@.len(),
                uncompleted@.len() == u.len(),
                forall|j: int| 0 <= j < uncompleted@.len() ==> uncompleted@[j] as int == u[j],
                forall|j: int| 0 <= j < p ==> u[j] != current as int,
            decreases uncompleted@.len() - p,
        {
            p = p + 1;
        }
        assert(p as int == first_pos(u, current as int));
        if p == uncompleted.len() {
            self.active_task_index = Some(uncompleted[0]);
        } else {
            let np = if p == 0 {
                uncompleted.len() - 1
            } else {
                p - 1
            };
            self.active_task_index = Some(uncompleted[np]);
        }
    }

    /// Swaps the active task with its predecessor; the same task stays active.
    /// A no-op at the top of the list or without an active task.
    pub fn move_active_task_up(&mut self)
        requires
            old(self).wf(),
        ensures
            final(self).wf(),
            old(self).active_task_index is Some && old(self).active_task_index->0 > 0 ==> {
                let i = old(self).active_task_index->0 as int;
                &&& final(self).tasks@ == old(self).tasks@.update(i, old(self).tasks@[i - 1]).update(
                    i - 1,
                    old(self).tasks@[i],
                )
                &&& final(self).active_task_index == Some((i - 1) as usize)
            },
            !(old(self).active_task_index is Some && old(self).active_task_index->0 > 0) ==> *final(self) == *old(self),
            final(self).completed_task_list_state == old(self).completed_task_list_state,
            final(self).mode == old(self).mode,
            final(self).state == old(self).state,
            final(self).time_remaining == old(self).time_remaining,
            final(self).pomodoros_completed_total == old(self).pomodoros_completed_total,
            settings_unchanged(*old(self), *final(self)),
            ui_unchanged(*old(self), *final(self)),
    {
        if let Some(index) = self.active_task_index {
            if index > 0 {
                let task = self.tasks.remove(index);
                self.tasks.insert(index - 1, task);
                self.active_task_index = Some(index - 1);
                proof {
                    let o = old(self).tasks@;
                    let i = index as int;
                    assert(self.tasks@ =~= o.update(i, o[i - 1]).update(i - 1, o[i]));
                    lemma_num_completed_swap_adjacent(o, i);
                }
            }
        }
    }

    /// Swaps the active task with its successor; the same task stays active.
    /// A no-op at the bottom of the list or without an active task.
    pub fn move_active_task_down(&mut self)
        requires
            old(self).wf(),
        ensures
            final(self).wf(),
            old(self).active_task_index is Some && old(self).active_task_index->0 + 1 < old(self).tasks@.len() ==> {
                let i = old(self).active_task_index->0 as int;
                &&& final(self).tasks@ == old(self).tasks@.update(i + 1, old(self).tasks@[i]).update(
                    i,
                    old(self).tasks@[i + 1],
                )
                &&& final(self).active_task_index == Some((i + 1) as usize)
            },
            !(old(self).active_task_index is Some && old(self).active_task_index->0 + 1 < old(self).tasks@.len()) ==> *final(self) == *old(self),
            final(self).completed_task_list_state == old(self).completed_task_list_state,
            final(self).mode == old(self).mode,
            final(self).state == old(self).state,
            final(self).time_remaining == old(self).time_remaining,
            final(self).pomodoros_completed_total == old(self).pomodoros_completed_total,
            settings_unchanged(*old(self), *final(self)),
            ui_unchanged(*old(self), *final(self)),
    {
        if let Some(index) = self.active_task_index {
            if index < self.tasks.len() - 1 {
                let task = self.tasks.remove(index);
                self.tasks.insert(index + 1, task);
                self.active_task_index = Some(index + 1);
                proof {
                    let o = old(self).tasks@;
                    let i = index as int;
                    assert(self.tasks@ =~= o.update(i + 1, o[i]).update(i, o[i + 1]));
                    lemma_num_completed_swap_adjacent(o, i + 1);
                }
            }
        }
    }

    /// Completes the active task: stamps it with the current time, pauses and
    /// resets the timer, and moves the selection to the first uncompleted task
    /// (or clears it when none is left). A no-op without an active task.
    pub fn complete_active_task(&mut self)
        requires
            old(self).wf(),
        ensures
            final(self).wf(),
            old(self).active_task_index is None ==> *final(self) == *old(self),
            old(self).active_task_index is Some ==> {
                let i = old(self).active_task_index->0 as int;
                &&& final(self).tasks@.len() == old(self).tasks@.len()
                &&& forall|j: int|
                    0 <= j < old(self).tasks@.len() && j != i ==> final(self).tasks@[j] == old(self).tasks@[j]
                &&& final(self).tasks@[i].name == old(self).tasks@[i].name
                &&& final(self).tasks@[i].completed
                &&& final(self).tasks@[i].pomodoros == old(self).tasks@[i].pomodoros
                &&& final(self).tasks@[i].time_spent == old(self).tasks@[i].time_spent
                &&& final(self).tasks@[i].creation_date == old(self).tasks@[i].creation_date
                &&& final(self).tasks@[i].completion_date is Some
                &&& final(self).state == TimerState::Paused
                &&& final(self).time_remaining == duration_for(old(self).mode, old(self).settings)
                &&& is_first_uncompleted(final(self).tasks@, final(self).active_task_index)
                &&& final(self).completed_task_list_state == old(self).completed_task_list_state
            },
            final(self).mode == old(self).mode,
            final(self).pomodoros_completed_total == old(self).pomodoros_completed_total,
            settings_unchanged(*old(self), *final(self)),
            ui_unchanged(*old(self), *final(self)),
    {
        if let Some(index) = self.active_task_index {
            let t = self.tasks[index].clone();
            let done = Task { completed: true, completion_date: Some(now_timestamp()), ..t };
            self.tasks.set(index, done);
            proof {
                lemma_num_completed_set_flag(
                    old(self).tasks@,
                    index as int,
                    self.tasks@[index as int],
                );
            }
            self.state = TimerState::Paused;
            self.reset_timer();
            self.active_task_index = find_first_uncompleted(&self.tasks);
        }
    }

    /// Deletes the completed task under the statistics cursor and clears the
    /// cursor; an active selection behind the deleted task slides down one
    /// position so that the same task stays active. A no-op without a cursor.
    pub fn delete_selected_completed_task(&mut self)
        requires
            old(self).wf(),
        ensures
            final(self).wf(),
            old(self).completed_task_list_state is None ==> *final(self) == *old(self),
            old(self).completed_task_list_state is Some ==> {
                let t = completed_idxs(old(self).tasks@)[old(self).completed_task_list_state->0 as int];
                &&& final(self).tasks@ == old(self).tasks@.remove(t)
                &&& final(self).completed_task_list_state is None
                &&& final(self).active_task_index == (match old(self).active_task_index {
                    Some(a) => if a as int > t {
                        Some((a - 1) as usize)
                    } else {
                        Some(a)
                    },
                    None => None,
                })
            },
            final(self).mode == old(self).mode,
            final(self).state == old(self).state,
            final(self).time_remaining == old(self).time_remaining,
            final(self).pomodoros_completed_total == old(self).pomodoros_completed_total,
            settings_unchanged(*old(self), *final(self)),
            ui_unchanged(*old(self), *final(self)),
    {
        if let Some(selected_index) = self.completed_task_list_state {
            proof {
                lemma_completed_upto(self.tasks@, self.tasks@.len() as int);
            }
            let completed = collect_completed(&self.tasks);
            if selected_index < completed.len() {
                let task_index_to_delete = completed[selected_index];
                self.tasks.remove(task_index_to_delete);
                if let Some(active_idx) = self.active_task_index {
                    if active_idx > task_index_to_delete {
                        self.active_task_index = Some(active_idx - 1);
                    }
                }
                self.completed_task_list_state = None;
                proof {
                    let o = old(self).tasks@;
                    let t = task_index_to_delete as int;
                    assert(forall|j: int|
                        0 <= j < t ==> self.tasks@[j] == o[j]);
                    assert(forall|j: int|
                        t <= j < self.tasks@.len() ==> self.tasks@[j] == o[j + 1]);
                }
            }
        }
    }

    /// Advances the countdown by `elapsed` milliseconds. While paused nothing
    /// happens. While running, the active task accrues the full elapsed time;
    /// if the countdown survives it simply shrinks, otherwise it is floored at
    /// zero, the session finishes through `next_mode`, and the mode that just
    /// ended is returned.
    pub fn tick(&mut self, elapsed: u64) -> (finished: Option<Mode>)
        requires
            old(self).wf(),
        ensures
            final(self).wf(),
            old(self).state == TimerState::Paused ==> *final(self) == *old(self) && finished
                is None,
            old(self).state == TimerState::Running ==> {
                let i = old(self).active_task_index->0 as int;
                let accrued = old(self).tasks@.update(
                    i,
                    (Task {
                        time_spent: add_sat_u64(old(self).tasks@[i].time_spent, elapsed),
                        ..old(self).tasks@[i]
                    }),
                );
                if elapsed < old(self).time_remaining {
                    &&& finished is None
                    &&& final(self).time_remaining == old(self).time_remaining - elapsed
                    &&& final(self).tasks@ == accrued
                    &&& final(self).state == TimerState::Running
                    &&& final(self).mode == old(self).mode
                    &&& final(self).pomodoros_completed_total == old(self).pomodoros_completed_total
                    &&& final(self).active_task_index == old(self).active_task_index
                    &&& final(self).completed_task_list_state == old(self).completed_task_list_state
                } else {
                    &&& finished == Some(old(self).mode)
                    &&& (old(self).mode == Mode::Pomodoro ==> {
                        &&& final(self).pomodoros_completed_total == inc_sat_u32(
                            old(self).pomodoros_completed_total,
                        )
                        &&& final(self).mode == break_for_total(
                            final(self).pomodoros_completed_total,
                        )
                        &&& final(self).tasks@ == accrued.update(
                            i,
                            (Task {
                                pomodoros: inc_sat_u32(accrued[i].pomodoros),
                                ..accrued[i]
                            }),
                        )
                    })
                    &&& (old(self).mode != Mode::Pomodoro ==> {
                        &&& final(self).mode == Mode::Pomodoro
                        &&& final(self).pomodoros_completed_total == old(self).pomodoros_completed_total
                        &&& final(self).tasks@ == accrued
                    })
                    &&& final(self).time_remaining == duration_for(
                        final(self).mode,
                        old(self).settings,
                    )
                    &&& final(self).state == TimerState::Running
                    &&& final(self).active_task_index == old(self).active_task_index
                    &&& final(self).completed_task_list_state == old(self).completed_task_list_state
                }
            },
            settings_unchanged(*old(self), *final(self)),
            ui_unchanged(*old(self), *final(self)),
    {
        if self.state == TimerState::Running {
            if let Some(index) = self.active_task_index {
                let t = self.tasks[index].clone();
                let accrued_task = Task { time_spent: t.time_spent.saturating_add(elapsed), ..t };
                self.tasks.set(index, accrued_task);
                proof {
                    lemma_num_completed_same_flag(
                        old(self).tasks@,
                        index as int,
                        self.tasks@[index as int],
                    );
                }
            }
            if elapsed < self.time_remaining {
                self.time_remaining = self.time_remaining - elapsed;
                None
            } else {
                self.time_remaining = 0;
                let finished_mode = self.next_mode();
                Some(finished_mode)
            }
        } else {
            None
        }
    }
}

} // verus!
