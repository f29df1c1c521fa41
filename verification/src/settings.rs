use vstd::prelude::*;

verus! {

/// The color theme a user can pick; cycled by the settings screen.
#[derive(Clone, Copy, PartialEq, Eq, Structural, Debug)]
pub enum ColorTheme {
    Default,
    Dracula,
    Solarized,
    Nord,
}

/// One minute, in milliseconds: the granularity of every configured duration.
pub const MINUTE_MS: u64 = 60000;

/// The largest whole-minute count a duration of `u64` milliseconds can hold:
/// the machine bound on a configured duration, not a policy of its own.
pub const MAX_MINUTES: u64 = u64::MAX / MINUTE_MS;

/// Timer configuration. Durations are in milliseconds and are always a whole,
/// positive number of minutes (at most `MAX_MINUTES`, the largest that fits).
#[derive(Clone, PartialEq, Debug)]
pub struct Settings {
    pub pomodoro_duration: u64,
    pub short_break_duration: u64,
    pub long_break_duration: u64,
    pub theme: ColorTheme,
    pub desktop_notifications: bool,
}

impl Settings {
    /// A duration is valid when it is a whole, positive number of minutes;
    /// `MAX_MINUTES` minutes is the largest such value a `u64` of
    /// milliseconds can represent.
    pub open spec fn duration_valid(d: u64) -> bool {
        &&& d % MINUTE_MS == 0
        &&& MINUTE_MS <= d <= MAX_MINUTES * MINUTE_MS
    }

    /// Well-formedness: all three durations are valid.
    pub open spec fn wf(self) -> bool {
        &&& Self::duration_valid(self.pomodoro_duration)
        &&& Self::duration_valid(self.short_break_duration)
        &&& Self::duration_valid(self.long_break_duration)
    }
}

/// The theme after `theme`, in the fixed cycle
/// Default -> Dracula -> Solarized -> Nord -> Default.
pub open spec fn next_theme(theme: ColorTheme) -> ColorTheme {
    match theme {
        ColorTheme::Default => ColorTheme::Dracula,
        ColorTheme::Dracula => ColorTheme::Solarized,
        ColorTheme::Solarized => ColorTheme::Nord,
        ColorTheme::Nord => ColorTheme::Default,
    }
}

/// A whole number of minutes with a floor of one and, where the minute count
/// would not fit in `u64` milliseconds, the largest representable count.
pub open spec fn clamp_minutes(m: u64) -> int {
    if m < 1 {
        1
    } else if m > MAX_MINUTES {
        MAX_MINUTES as int
    } else {
        m as int
    }
}

/// A valid duration moved one minute up or down: a decrease floors at one
/// minute, an increase adds a minute whenever the result is representable in
/// `u64` milliseconds and saturates at the largest whole minute otherwise.
pub open spec fn bumped(d: u64, increase: bool) -> int {
    let m = d as int / MINUTE_MS as int;
    let m2 = if increase {
        if m >= MAX_MINUTES { MAX_MINUTES as int } else { m + 1 }
    } else {
        if m <= 1 { 1 } else { m - 1 }
    };
    m2 * MINUTE_MS
}

/// Moves a valid duration one minute up or down, with a floor of one minute,
/// saturating at the largest whole minute that fits in `u64` milliseconds.
pub(crate) fn bump_duration(d: u64, increase: bool) -> (r: u64)
    requires
        Settings::duration_valid(d),
    ensures
        r == bumped(d, increase),
        Settings::duration_valid(r),
{
    let m = d / MINUTE_MS;
    let m2 = if increase {
        if m >= MAX_MINUTES { MAX_MINUTES } else { m + 1 }
    } else {
        if m <= 1 { 1 } else { m - 1 }
    };
    proof {
        assert(1 <= m2 <= MAX_MINUTES);
        assert((m2 as int * MINUTE_MS as int) % (MINUTE_MS as int) == 0) by (nonlinear_arith);
        assert(MAX_MINUTES * MINUTE_MS <= u64::MAX) by (nonlinear_arith)
            requires MAX_MINUTES == u64::MAX / MINUTE_MS && MINUTE_MS > 0;
        assert(m2 * MINUTE_MS <= MAX_MINUTES * MINUTE_MS) by (nonlinear_arith)
            requires m2 <= MAX_MINUTES && MINUTE_MS > 0;
        assert(MINUTE_MS <= m2 * MINUTE_MS) by (nonlinear_arith)
            requires 1 <= m2 && MINUTE_MS > 0;
    }
    m2 * MINUTE_MS
}

impl Settings {
    /// The default configuration: 25-minute Pomodoros, 5-minute short breaks,
    /// 15-minute long breaks, the default theme, notifications on.
    pub open spec fn spec_default() -> Settings {
        Settings {
            pomodoro_duration: (25 * MINUTE_MS) as u64,
            short_break_duration: (5 * MINUTE_MS) as u64,
            long_break_duration: (15 * MINUTE_MS) as u64,
            theme: ColorTheme::Default,
            desktop_notifications: true,
        }
    }
}

impl Default for Settings {
    /// 25-minute Pomodoros, 5-minute short breaks, 15-minute long breaks.
    fn default() -> (s: Settings)
        ensures
            s.wf(),
            s == Settings::spec_default(),
    {
        Settings {
            pomodoro_duration: 25 * MINUTE_MS,
            short_break_duration: 5 * MINUTE_MS,
            long_break_duration: 15 * MINUTE_MS,
            theme: ColorTheme::Default,
            desktop_notifications: true,
        }
    }
}

impl Settings {
    /// Builds settings from whole-minute durations, flooring each at one
    /// minute and capping it at the largest whole minute that fits in `u64`
    /// milliseconds.
    pub fn new(
        pomodoro_minutes: u64,
        short_break_minutes: u64,
        long_break_minutes: u64,
        theme: ColorTheme,
        desktop_notifications: bool,
    ) -> (s: Settings)
        ensures
            s.wf(),
            s.pomodoro_duration == clamp_minutes(pomodoro_minutes) * MINUTE_MS,
            s.short_break_duration == clamp_minutes(short_break_minutes) * MINUTE_MS,
            s.long_break_duration == clamp_minutes(long_break_minutes) * MINUTE_MS,
            s.theme == theme,
            s.desktop_notifications == desktop_notifications,
    {
        Settings {
            pomodoro_duration: minutes_to_ms(pomodoro_minutes),
            short_break_duration: minutes_to_ms(short_break_minutes),
            long_break_duration: minutes_to_ms(long_break_minutes),
            theme,
            desktop_notifications,
        }
    }
}

/// Floors a minute count at one, caps it at the largest count representable
/// in `u64` milliseconds, and converts it to milliseconds.
fn minutes_to_ms(m: u64) -> (r: u64)
    ensures
        r == clamp_minutes(m) * MINUTE_MS,
        Settings::duration_valid(r),
{
    let m2 = if m < 1 { 1 } else if m > MAX_MINUTES { MAX_MINUTES } else { m };
    proof {
        assert((m2 as int * MINUTE_MS as int) % (MINUTE_MS as int) == 0) by (nonlinear_arith);
        assert(MAX_MINUTES * MINUTE_MS <= u64::MAX) by (nonlinear_arith)
            requires MAX_MINUTES == u64::MAX / MINUTE_MS && MINUTE_MS > 0;
        assert(m2 * MINUTE_MS <= MAX_MINUTES * MINUTE_MS) by (nonlinear_arith)
            requires m2 <= MAX_MINUTES && MINUTE_MS > 0;
        assert(MINUTE_MS <= m2 * MINUTE_MS) by (nonlinear_arith)
            requires 1 <= m2 && MINUTE_MS > 0;
    }
    m2 * MINUTE_MS
}

} // verus!
