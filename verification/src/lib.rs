//! A terminal Pomodoro timer: timer modes, a task list with an active-task
//! selection, and session statistics, all driven by a single state machine.

mod clock;
pub mod app;
pub mod laws;
pub mod settings;
pub mod snapshot;
pub mod task;

pub use settings::ColorTheme;
pub use settings::Settings;
pub use task::Task;
pub use snapshot::Snapshot;
pub use app::{App, InputMode, Mode, TimerState};
