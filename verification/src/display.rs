use vstd::prelude::*;
use crate::state::{AutoPause, MatchState, FULL_SECONDS, HALF_SECONDS};

verus! {

/// The phase of the match shown on both screens.
#[derive(Debug, Clone, Copy, PartialEq, Eq, Structural)]
pub enum MatchPhase {
    NotStarted,
    FirstHalf,
    SecondHalf,
}

impl MatchPhase {
    /// The phase's caption.
    pub fn label(&self) -> (r: &'static str)
        ensures
            r@ == match self {
                MatchPhase::NotStarted => "未开赛"@,
                MatchPhase::FirstHalf => "上半场"@,
                MatchPhase::SecondHalf => "下半场"@,
            },
    {
        match self {
            MatchPhase::NotStarted => "未开赛",
            MatchPhase::FirstHalf => "上半场",
            MatchPhase::SecondHalf => "下半场",
        }
    }
}

/// Whether the clock is waiting for kick-off, running or paused.
#[derive(Debug, Clone, Copy, PartialEq, Eq, Structural)]
pub enum RunStatus {
    Waiting,
    Running,
    Paused,
}

impl RunStatus {
    /// The status pill's caption.
    pub fn label(&self) -> (r: &'static str)
        ensures
            r@ == match self {
                RunStatus::Waiting => "等待开始"@,
                RunStatus::Running => "● 进行中"@,
                RunStatus::Paused => "已暂停"@,
            },
    {
        match self {
            RunStatus::Waiting => "等待开始",
            RunStatus::Running => "● 进行中",
            RunStatus::Paused => "已暂停",
        }
    }
}

/// The colour role of the clock digits.
#[derive(Debug, Clone, Copy, PartialEq, Eq, Structural)]
pub enum ClockTone {
    /// Not started (console only): muted.
    Muted,
    /// The ordinary colour.
    Normal,
    /// Paused: yellow.
    Paused,
    /// 90 minutes or more: red.
    FullTime,
}

impl MatchState {
    /// The phase at match time `elapsed`: the second half shows only once it
    /// has begun (a resume after the 45 minute mark) and the clock reads 45
    /// minutes or more.
    pub open spec fn phase_spec(&self, elapsed: int) -> MatchPhase {
        if !self.is_started() {
            MatchPhase::NotStarted
        } else if elapsed >= HALF_SECONDS && self.second_half_started {
            MatchPhase::SecondHalf
        } else {
            MatchPhase::FirstHalf
        }
    }

    /// The phase at match time `elapsed`.
    pub fn phase(&self, elapsed: i64) -> (r: MatchPhase)
        ensures
            r == self.phase_spec(elapsed as int),
    {
        if !self.started() {
            MatchPhase::NotStarted
        } else if elapsed >= HALF_SECONDS && self.second_half_started {
            MatchPhase::SecondHalf
        } else {
            MatchPhase::FirstHalf
        }
    }

    pub open spec fn run_status_spec(&self) -> RunStatus {
        if !self.is_started() {
            RunStatus::Waiting
        } else if self.running {
            RunStatus::Running
        } else {
            RunStatus::Paused
        }
    }

    /// Waiting before kick-off, then running or paused.
    pub fn run_status(&self) -> (r: RunStatus)
        ensures
            r == self.run_status_spec(),
    {
        if !self.started() {
            RunStatus::Waiting
        } else if self.running {
            RunStatus::Running
        } else {
            RunStatus::Paused
        }
    }

    pub open spec fn console_tone_spec(&self, elapsed: int) -> ClockTone {
        if !self.is_started() {
            ClockTone::Muted
        } else if elapsed >= FULL_SECONDS {
            ClockTone::FullTime
        } else if self.running {
            ClockTone::Normal
        } else {
            ClockTone::Paused
        }
    }

    /// The clock colour in the console preview: muted before kick-off, red
    /// from 90 minutes, normal while running, yellow while paused.
    pub fn console_clock_tone(&self, elapsed: i64) -> (r: ClockTone)
        ensures
            r == self.console_tone_spec(elapsed as int),
    {
        if !self.started() {
            ClockTone::Muted
        } else if elapsed >= FULL_SECONDS {
            ClockTone::FullTime
        } else if self.running {
            ClockTone::Normal
        } else {
            ClockTone::Paused
        }
    }

    pub open spec fn display_tone_spec(&self, elapsed: int) -> ClockTone {
        if elapsed >= FULL_SECONDS {
            ClockTone::FullTime
        } else if self.is_started() && !self.running {
            ClockTone::Paused
        } else {
            ClockTone::Normal
        }
    }

    /// The clock colour on the big screen: red from 90 minutes, yellow while
    /// paused, white otherwise.
    pub fn display_clock_tone(&self, elapsed: i64) -> (r: ClockTone)
        ensures
            r == self.display_tone_spec(elapsed as int),
    {
        if elapsed >= FULL_SECONDS {
            ClockTone::FullTime
        } else if self.started() && !self.running {
            ClockTone::Paused
        } else {
            ClockTone::Normal
        }
    }

    /// The blinking "paused" badge of the big screen shows while the clock
    /// is paused before full time (after it the red clock says enough).
    pub fn shows_paused_badge(&self, elapsed: i64) -> (r: bool)
        ensures
            r == (self.is_started() && !self.running && elapsed < FULL_SECONDS),
    {
        self.started() && !self.running && elapsed < FULL_SECONDS
    }

    /// The competition name is shown on the big screen when switched on and
    /// not empty.
    pub fn shows_event_name(&self) -> (r: bool)
        ensures
            r == (self.show_event_name && self.event_name@.len() > 0),
    {
        self.show_event_name && !self.event_name.as_str().is_empty()
    }
}

/// The character drawn in place of a missing team logo: the first character
/// of the name, or 队 for an empty name.
pub fn team_initial(name: &str) -> (r: char)
    ensures
        r == (if name@.len() > 0 {
            name@[0]
        } else {
            '队'
        }),
{
    if name.is_empty() {
        '队'
    } else {
        name.get_char(0)
    }
}

/// The phase reads second half exactly when the match has started, the
/// clock reads 45:00 or more and the second half has begun; before the
/// operator resumes after the half time pause it still reads first half.
pub proof fn law_second_half_only_once_begun(s: MatchState, e: int)
    ensures
        (s.phase_spec(e) == MatchPhase::SecondHalf) == (s.is_started() && e >= HALF_SECONDS
            && s.second_half_started),
        (s.phase_spec(e) == MatchPhase::NotStarted) == !s.is_started(),
        !s.second_half_started ==> s.phase_spec(e) != MatchPhase::SecondHalf,
{
}

/// During the half time break (the 45 minute pause, before the operator
/// resumes) both screens show the first half.
pub proof fn law_half_time_break_shows_first_half(s: MatchState, at: i64, e: int)
    requires
        s.auto_pause_fits(at),
        !s.second_half_started,
        s.elapsed(at as int) < FULL_SECONDS,
        s.auto_pause_outcome(at) == AutoPause::HalfTime,
    ensures
        s.after_auto_pause(at, at).phase_spec(e) == MatchPhase::FirstHalf,
{
}

/// The status pill and the clock colours follow the clock: waiting before
/// kick-off, running or paused after; red from 90:00 on both screens (on the
/// console only once started), yellow while paused before 90:00, muted on
/// the console before kick-off.
pub proof fn law_status_and_clock_colours(s: MatchState, e: int)
    ensures
        (s.run_status_spec() == RunStatus::Waiting) == (s.start_timestamp <= 0),
        (s.run_status_spec() == RunStatus::Running) == (s.start_timestamp > 0 && s.running),
        (s.run_status_spec() == RunStatus::Paused) == (s.start_timestamp > 0 && !s.running),
        (s.console_tone_spec(e) == ClockTone::Muted) == (s.start_timestamp <= 0),
        (s.console_tone_spec(e) == ClockTone::FullTime) == (s.start_timestamp > 0 && e
            >= FULL_SECONDS),
        (s.console_tone_spec(e) == ClockTone::Paused) == (s.start_timestamp > 0 && e
            < FULL_SECONDS && !s.running),
        (s.display_tone_spec(e) == ClockTone::FullTime) == (e >= FULL_SECONDS),
        (s.display_tone_spec(e) == ClockTone::Paused) == (e < FULL_SECONDS && s.start_timestamp
            > 0 && !s.running),
        s.display_tone_spec(e) != ClockTone::Muted,
{
}

} // verus!
