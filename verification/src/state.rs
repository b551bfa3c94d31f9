use vstd::prelude::*;

verus! {

/// Length of one half: 45 minutes.
pub const HALF_SECONDS: i64 = 45 * 60;

/// Length of a full match: 90 minutes.
pub const FULL_SECONDS: i64 = 90 * 60;

/// Whether a mathematical integer fits in an `i64`.
pub open spec fn fits_i64(x: int) -> bool {
    i64::MIN <= x <= i64::MAX
}

/// What a check of the 45 / 90 minute thresholds did.
#[derive(Debug, Clone, Copy, PartialEq, Eq, Structural)]
pub enum AutoPause {
    /// No threshold was crossed.
    Unchanged,
    /// A threshold was crossed and marked, without pausing.
    Crossed,
    /// The clock was paused and pinned at 45:00.
    HalfTime,
    /// The clock was paused and pinned at 90:00.
    FullTime,
}

/// Highest score a team can reach on the board.
pub const MAX_SCORE: u32 = 99;

/// Default for the display switches of a stored match that lacks them.
pub fn default_true() -> (r: bool)
    ensures
        r,
{
    true
}

/// Default home jersey colour (red).
pub fn default_home_color() -> (r: [u8; 3])
    ensures
        r@ == seq![227u8, 66u8, 52u8],
{
    [227, 66, 52]
}

/// Default away jersey colour (blue).
pub fn default_away_color() -> (r: [u8; 3])
    ensures
        r@ == seq![47u8, 129u8, 247u8],
{
    [47, 129, 247]
}

/// A score after one more goal, capped at `MAX_SCORE`.
pub open spec fn score_after_goal(score: u32) -> u32 {
    if score + 1 < MAX_SCORE {
        (score + 1) as u32
    } else {
        MAX_SCORE
    }
}

/// A score typed in by hand, capped at `MAX_SCORE`.
pub open spec fn capped_score(score: u32) -> u32 {
    if score < MAX_SCORE {
        score
    } else {
        MAX_SCORE
    }
}

/// What the main control button does in a given state.
#[derive(Debug, Clone, Copy, PartialEq, Eq, Structural)]
pub enum MatchControl {
    /// Kick off.
    Start,
    /// Pause the running clock.
    Pause,
    /// Resume the paused clock.
    Resume,
}

impl MatchControl {
    /// The button's caption.
    pub fn label(&self) -> (r: &'static str)
        ensures
            r@ == match self {
                MatchControl::Start => "开始比赛"@,
                MatchControl::Pause => "暂停"@,
                MatchControl::Resume => "继续"@,
            },
    {
        match self {
            MatchControl::Start => "开始比赛",
            MatchControl::Pause => "暂停",
            MatchControl::Resume => "继续",
        }
    }
}

/// The three uploadable images of a match.
#[derive(Debug, Clone, Copy, PartialEq, Eq, Structural)]
pub enum AssetKind {
    Background,
    HomeLogo,
    AwayLogo,
}

impl AssetKind {
    /// The stem of the stored file name.
    pub open spec fn key_spec(&self) -> Seq<char> {
        match self {
            AssetKind::Background => "background"@,
            AssetKind::HomeLogo => "home"@,
            AssetKind::AwayLogo => "away"@,
        }
    }

    /// The stem of the stored file name.
    pub fn key(&self) -> (r: &'static str)
        ensures
            r@ == self.key_spec(),
    {
        match self {
            AssetKind::Background => "background",
            AssetKind::HomeLogo => "home",
            AssetKind::AwayLogo => "away",
        }
    }

    /// The name shown to the operator.
    pub fn label(&self) -> (r: &'static str)
        ensures
            r@ == match self {
                AssetKind::Background => "比赛主背景图"@,
                AssetKind::HomeLogo => "主队队徽"@,
                AssetKind::AwayLogo => "客队队徽"@,
            },
    {
        match self {
            AssetKind::Background => "比赛主背景图",
            AssetKind::HomeLogo => "主队队徽",
            AssetKind::AwayLogo => "客队队徽",
        }
    }
}

/// The whole state of a match; it is persisted as one document.
#[derive(Debug, Clone)]
pub struct MatchState {
    pub home_team: String,
    pub away_team: String,
    pub home_score: u32,
    pub away_score: u32,
    /// Unix timestamp of kick-off; 0 means the match has not started.
    pub start_timestamp: i64,
    /// Seconds spent paused so far, less the time by which the clock was
    /// set forward while paused (so it can fall below 0).
    pub paused_seconds: i64,
    /// Whether the clock is running.
    pub running: bool,
    /// Unix timestamp at which the current pause began; 0 when not paused.
    pub pause_started_at: i64,
    pub auto_pause_45: bool,
    pub auto_pause_90: bool,
    /// Whether the 45 / 90 minute thresholds have been crossed (so that the
    /// auto pause does not fire again after a resume).
    pub auto_paused_45: bool,
    pub auto_paused_90: bool,
    /// Whether the second half has begun (set by resuming after the 45
    /// minute mark; until then the phase still reads "first half").
    pub second_half_started: bool,
    /// Asset file names, relative to the images directory.
    pub background_image: Option<String>,
    pub home_logo: Option<String>,
    pub away_logo: Option<String>,
    /// Asset version, bumped on every upload so that textures are reloaded.
    pub image_version: u64,
    /// Competition name shown above the clock.
    pub event_name: String,
    /// Whether the competition name is shown on the big screen.
    pub show_event_name: bool,
    /// Whether the team names are shown on the big screen.
    pub show_home_name: bool,
    pub show_away_name: bool,
    /// Jersey colours (RGB).
    pub home_color: [u8; 3],
    pub away_color: [u8; 3],
}

/// Longest match time that the time control accepts: two full matches.
pub const MAX_SET_SECONDS: i64 = 2 * FULL_SECONDS;

/// `x`, or 0 where `x` is negative.
pub open spec fn non_negative(x: int) -> int {
    if x > 0 {
        x
    } else {
        0
    }
}

/// A time-control target limited to `0 ..= MAX_SET_SECONDS`.
pub open spec fn clamped_target(target: i64) -> i64 {
    if target < 0 {
        0
    } else if target > MAX_SET_SECONDS {
        MAX_SET_SECONDS
    } else {
        target
    }
}

impl MatchState {
    pub open spec fn is_started(&self) -> bool {
        self.start_timestamp > 0
    }

    /// The instant up to which the clock has run: `at` while running, the
    /// start of the current pause otherwise.
    pub open spec fn clock_end(&self, at: int) -> int {
        if self.running {
            at
        } else {
            self.pause_started_at as int
        }
    }

    /// Match time before it is floored at zero.
    pub open spec fn raw_elapsed(&self, at: int) -> int {
        self.clock_end(at) - self.start_timestamp - self.paused_seconds
    }

    /// Match time at `at`: end of clock - kick-off - time paused, never
    /// negative, and 0 before kick-off.
    pub open spec fn elapsed(&self, at: int) -> int {
        if !self.is_started() {
            0
        } else {
            non_negative(self.raw_elapsed(at))
        }
    }

    /// The subtractions of `elapsed_seconds_at` stay within `i64`.
    pub open spec fn elapsed_fits(&self, at: int) -> bool {
        self.is_started() ==> {
            &&& fits_i64(self.clock_end(at) - self.start_timestamp)
            &&& fits_i64(self.raw_elapsed(at))
        }
    }

    /// The state after `pause(at)`.
    pub open spec fn paused_at(self, at: i64) -> MatchState {
        if !self.is_started() || !self.running {
            self
        } else {
            MatchState { running: false, pause_started_at: at, ..self }
        }
    }

    /// Whether `resume(at)` does anything.
    pub open spec fn can_resume(&self) -> bool {
        self.is_started() && !self.running && !self.auto_paused_90
    }

    /// Time paused once the current pause ends at `at`.
    pub open spec fn paused_after_resume(&self, at: i64) -> int {
        self.paused_seconds + non_negative(at - self.pause_started_at)
    }

    /// The arithmetic of `resume(at)` stays within `i64`.
    pub open spec fn resume_fits(&self, at: i64) -> bool {
        self.can_resume() ==> {
            &&& fits_i64(at - self.pause_started_at)
            &&& fits_i64(self.paused_after_resume(at))
            &&& fits_i64(at - self.start_timestamp)
            &&& fits_i64(at - self.start_timestamp - self.paused_after_resume(at))
        }
    }

    /// The state after `resume(at)`.
    pub open spec fn resumed_at(self, at: i64) -> MatchState {
        if !self.can_resume() {
            self
        } else {
            let running = MatchState {
                paused_seconds: self.paused_after_resume(at) as i64,
                pause_started_at: 0,
                running: true,
                ..self
            };
            MatchState {
                second_half_started: running.second_half_started || running.elapsed(
                    at as int,
                ) >= HALF_SECONDS,
                ..running
            }
        }
    }

    /// The arithmetic of `set_elapsed(target, at)` stays within `i64`.
    pub open spec fn set_elapsed_fits(&self, target: i64, at: i64) -> bool {
        self.is_started() ==> if self.running {
            &&& fits_i64(at - self.paused_seconds)
            &&& fits_i64(at - self.paused_seconds - clamped_target(target))
        } else {
            &&& fits_i64(self.pause_started_at - self.start_timestamp)
            &&& fits_i64(self.pause_started_at - self.start_timestamp - clamped_target(target))
        }
    }

    /// The state after `set_elapsed(target, at)`: a running clock moves its
    /// kick-off (never below 1); a paused clock takes the difference between
    /// the time it shows and the target into its time paused, which goes
    /// below 0 where the target lies past the time shown at the pause;
    /// crossing 45 / 90 minutes marks those thresholds as passed.
    pub open spec fn with_elapsed(self, target: i64, at: i64) -> MatchState {
        if !self.is_started() {
            self
        } else {
            let t = clamped_target(target);
            let moved = if self.running {
                let kick_off = at - self.paused_seconds - t;
                MatchState {
                    start_timestamp: (if kick_off > 1 {
                        kick_off
                    } else {
                        1
                    }) as i64,
                    ..self
                }
            } else {
                MatchState {
                    paused_seconds: (self.pause_started_at - self.start_timestamp - t) as i64,
                    ..self
                }
            };
            let half = if t >= HALF_SECONDS {
                MatchState {
                    auto_paused_45: true,
                    second_half_started: moved.second_half_started || self.running,
                    ..moved
                }
            } else {
                moved
            };
            if t >= FULL_SECONDS {
                MatchState { auto_paused_90: true, ..half }
            } else {
                half
            }
        }
    }

    /// The state after `reset()`: the clock, the score and the threshold
    /// flags are cleared; teams, assets, display choices and the auto pause
    /// switches are kept.
    pub open spec fn after_reset(self) -> MatchState {
        MatchState {
            home_score: 0,
            away_score: 0,
            start_timestamp: 0,
            paused_seconds: 0,
            running: false,
            pause_started_at: 0,
            auto_paused_45: false,
            auto_paused_90: false,
            second_half_started: false,
            ..self
        }
    }

    /// The 45 minute mark is passed at match time `e` for the first time.
    pub open spec fn crosses_half(&self, e: int) -> bool {
        e >= HALF_SECONDS && !self.auto_paused_45
    }

    /// The 90 minute mark is passed at match time `e` for the first time.
    pub open spec fn crosses_full(&self, e: int) -> bool {
        e >= FULL_SECONDS && !self.auto_paused_90
    }

    /// What `check_auto_pause(at, _)` reports.
    pub open spec fn auto_pause_outcome(&self, at: i64) -> AutoPause {
        if !self.running {
            AutoPause::Unchanged
        } else {
            let e = self.elapsed(at as int);
            if self.crosses_full(e) && self.auto_pause_90 {
                AutoPause::FullTime
            } else if self.crosses_half(e) && self.auto_pause_45 {
                AutoPause::HalfTime
            } else if self.crosses_half(e) || self.crosses_full(e) {
                AutoPause::Crossed
            } else {
                AutoPause::Unchanged
            }
        }
    }

    /// Seconds run past the threshold at which the clock is pinned; they are
    /// added to the time paused.
    pub open spec fn overshoot(&self, at: i64) -> int {
        let e = self.elapsed(at as int);
        match self.auto_pause_outcome(at) {
            AutoPause::FullTime => non_negative(e - FULL_SECONDS),
            AutoPause::HalfTime => non_negative(e - HALF_SECONDS),
            _ => 0,
        }
    }

    /// The arithmetic of `check_auto_pause(at, _)` stays within `i64`.
    pub open spec fn auto_pause_fits(&self, at: i64) -> bool {
        self.running ==> {
            &&& self.elapsed_fits(at as int)
            &&& fits_i64(self.paused_seconds + self.overshoot(at))
        }
    }

    /// The state after `check_auto_pause(at, pause_at)`: thresholds passed
    /// while running are marked whatever the switches say (passing 90
    /// minutes also means the second half has begun); where the switch of
    /// the last threshold passed is on, the overshoot goes into the time
    /// paused and the clock is paused at `pause_at`.
    pub open spec fn after_auto_pause(self, at: i64, pause_at: i64) -> MatchState {
        if !self.running {
            self
        } else {
            let e = self.elapsed(at as int);
            let marked = MatchState {
                auto_paused_45: self.auto_paused_45 || self.crosses_half(e),
                auto_paused_90: self.auto_paused_90 || self.crosses_full(e),
                second_half_started: self.second_half_started || self.crosses_full(e),
                ..self
            };
            match self.auto_pause_outcome(at) {
                AutoPause::FullTime | AutoPause::HalfTime => MatchState {
                    paused_seconds: (self.paused_seconds + self.overshoot(at)) as i64,
                    ..marked
                }.paused_at(pause_at),
                _ => marked,
            }
        }
    }

    /// The stored file name of an asset.
    pub open spec fn asset_spec(&self, kind: AssetKind) -> Option<String> {
        match kind {
            AssetKind::Background => self.background_image,
            AssetKind::HomeLogo => self.home_logo,
            AssetKind::AwayLogo => self.away_logo,
        }
    }

    /// The state after recording a newly stored asset file: the file name is
    /// set and the asset version moves on (wrapping).
    pub open spec fn with_asset(self, kind: AssetKind, name: String) -> MatchState {
        let bumped = MatchState {
            image_version: if self.image_version == u64::MAX {
                0
            } else {
                (self.image_version + 1) as u64
            },
            ..self
        };
        match kind {
            AssetKind::Background => MatchState { background_image: Some(name), ..bumped },
            AssetKind::HomeLogo => MatchState { home_logo: Some(name), ..bumped },
            AssetKind::AwayLogo => MatchState { away_logo: Some(name), ..bumped },
        }
    }

    /// Which action the main control button takes.
    pub open spec fn control_spec(&self) -> MatchControl {
        if !self.is_started() {
            MatchControl::Start
        } else if self.running {
            MatchControl::Pause
        } else {
            MatchControl::Resume
        }
    }

    /// The arithmetic of `press_control(at)` stays within `i64`.
    pub open spec fn press_control_fits(&self, at: i64) -> bool {
        self.start_fits(at) && self.resume_fits(at)
    }

    /// The state after `press_control(at)`.
    pub open spec fn after_control(self, at: i64) -> MatchState {
        match self.control_spec() {
            MatchControl::Start => self.started_at(at),
            MatchControl::Pause => self.paused_at(at),
            MatchControl::Resume => self.resumed_at(at),
        }
    }

    /// The arithmetic of `start(at)` stays within `i64`.
    pub open spec fn start_fits(&self, at: i64) -> bool {
        self.resume_fits(at)
    }

    /// The state after `start(at)`: kick-off before the match has started,
    /// a resume once it has.
    pub open spec fn started_at(self, at: i64) -> MatchState {
        if self.is_started() {
            self.resumed_at(at)
        } else {
            MatchState { start_timestamp: at, running: true, ..self }
        }
    }

    /// The match has kicked off.
    pub fn started(&self) -> (r: bool)
        ensures
            r == self.is_started(),
    {
        self.start_timestamp > 0
    }

    /// Match time at `at`: (now, or the moment of pausing) - kick-off - time
    /// paused, never negative; 0 before kick-off.
    pub fn elapsed_seconds_at(&self, at: i64) -> (r: i64)
        requires
            self.elapsed_fits(at as int),
        ensures
            r == self.elapsed(at as int),
            r >= 0,
    {
        if !self.started() {
            return 0;
        }
        let end = if self.running {
            at
        } else {
            self.pause_started_at
        };
        let raw = end - self.start_timestamp - self.paused_seconds;
        if raw > 0 {
            raw
        } else {
            0
        }
    }

    /// Kick off at `at`; once the match has started this resumes a paused
    /// clock and otherwise does nothing.
    pub fn start(&mut self, at: i64)
        requires
            old(self).start_fits(at),
        ensures
            *final(self) == old(self).started_at(at),
            old(self).is_started() && old(self).running ==> *final(self) == *old(self),
            old(self).is_started() && !old(self).running ==> *final(self) == old(
                self,
            ).resumed_at(at),
    {
        if self.started() {
            if !self.running {
                self.resume(at);
            }
            return;
        }
        self.start_timestamp = at;
        self.running = true;
    }

    /// Stop the clock at `at`; does nothing unless it is running.
    pub fn pause(&mut self, at: i64)
        ensures
            *final(self) == old(self).paused_at(at),
    {
        if !self.started() || !self.running {
            return;
        }
        self.running = false;
        self.pause_started_at = at;
    }

    /// Restart a paused clock at `at`, adding the pause to the time paused.
    /// After full time (the 90 minute mark was crossed) the clock cannot be
    /// resumed. Resuming at or past 45 minutes begins the second half.
    pub fn resume(&mut self, at: i64)
        requires
            old(self).resume_fits(at),
        ensures
            *final(self) == old(self).resumed_at(at),
            final(self).paused_seconds >= old(self).paused_seconds,
            at < old(self).pause_started_at ==> final(self).paused_seconds == old(
                self,
            ).paused_seconds,
    {
        if !self.started() || self.running {
            return;
        }
        if self.auto_paused_90 {
            return;
        }
        let gap = at - self.pause_started_at;
        self.paused_seconds = self.paused_seconds + if gap > 0 {
            gap
        } else {
            0
        };
        self.pause_started_at = 0;
        self.running = true;
        if self.elapsed_seconds_at(at) >= HALF_SECONDS {
            self.second_half_started = true;
        }
    }
    /// Set the match time to `target` seconds (limited to 0 ..= 180 minutes)
    /// at wall-clock time `at`. A running clock moves its kick-off, a paused
    /// clock takes the difference into the time paused (negative where the
    /// clock is set forward past the time it showed at the pause), so that it
    /// shows the target. Reaching 45 / 90
    /// minutes marks those thresholds as passed, so that the auto pause does
    /// not later pin the clock back to them; reaching 45 minutes while running
    /// counts as being in the second half.
    pub fn set_elapsed(&mut self, target: i64, at: i64)
        requires
            old(self).set_elapsed_fits(target, at),
        ensures
            *final(self) == old(self).with_elapsed(target, at),
    {
        if !self.started() {
            return;
        }
        let target = if target < 0 {
            0
        } else if target > MAX_SET_SECONDS {
            MAX_SET_SECONDS
        } else {
            target
        };
        if self.running {
            let kick_off = at - self.paused_seconds - target;
            self.start_timestamp = if kick_off > 1 {
                kick_off
            } else {
                1
            };
        } else {
            let base = self.pause_started_at - self.start_timestamp;
            self.paused_seconds = base - target;
        }
        if target >= HALF_SECONDS {
            self.auto_paused_45 = true;
            if self.running {
                self.second_half_started = true;
            }
        }
        if target >= FULL_SECONDS {
            self.auto_paused_90 = true;
        }
    }

    /// Reset the match, keeping team names, assets and the auto pause
    /// settings.
    pub fn reset(&mut self)
        ensures
            *final(self) == old(self).after_reset(),
            !final(self).is_started(),
            !final(self).running,
    {
        self.home_score = 0;
        self.away_score = 0;
        self.start_timestamp = 0;
        self.paused_seconds = 0;
        self.running = false;
        self.pause_started_at = 0;
        self.auto_paused_45 = false;
        self.auto_paused_90 = false;
        self.second_half_started = false;
    }
    /// The per-frame check of the 45 / 90 minute thresholds, with the match
    /// time read at `at` and the pause taken at `pause_at`. A threshold counts
    /// as passed once crossed, whether or not its switch is on, so that it
    /// never fires twice and crossing both at once pauses only once. Where
    /// the clock pauses, it is pinned at the threshold: time run past it
    /// (say while the program was closed) goes into the time paused, and the
    /// clock continues from 45:00 or 90:00.
    pub fn check_auto_pause(&mut self, at: i64, pause_at: i64) -> (r: AutoPause)
        requires
            old(self).auto_pause_fits(at),
        ensures
            r == old(self).auto_pause_outcome(at),
            *final(self) == old(self).after_auto_pause(at, pause_at),
    {
        if !self.running {
            return AutoPause::Unchanged;
        }
        let elapsed = self.elapsed_seconds_at(at);
        let mut crossed = false;
        let mut pause_now = false;
        let mut target: Option<i64> = None;
        let mut notice: Option<AutoPause> = None;
        if elapsed >= HALF_SECONDS && !self.auto_paused_45 {
            self.auto_paused_45 = true;
            crossed = true;
            if self.auto_pause_45 {
                pause_now = true;
                target = Some(HALF_SECONDS);
                notice = Some(AutoPause::HalfTime);
            }
        }
        if elapsed >= FULL_SECONDS && !self.auto_paused_90 {
            self.auto_paused_90 = true;
            crossed = true;
            self.second_half_started = true;
            if self.auto_pause_90 {
                pause_now = true;
                target = Some(FULL_SECONDS);
                notice = Some(AutoPause::FullTime);
            }
        }
        if pause_now {
            if let Some(t) = target {
                let over = elapsed - t;
                if over > 0 {
                    self.paused_seconds = self.paused_seconds + over;
                }
            }
            self.pause(pause_at);
        }
        match notice {
            Some(n) => n,
            None => if crossed {
                AutoPause::Crossed
            } else {
                AutoPause::Unchanged
            },
        }
    }
    /// One more goal for the home team, capped at `MAX_SCORE`.
    pub fn add_home_goal(&mut self)
        requires
            old(self).home_score < u32::MAX,
        ensures
            *final(self) == (MatchState { home_score: score_after_goal(old(self).home_score), ..*old(self) }),
    {
        let s = self.home_score + 1;
        self.home_score = if s < MAX_SCORE {
            s
        } else {
            MAX_SCORE
        };
    }

    /// One more goal for the away team, capped at `MAX_SCORE`.
    pub fn add_away_goal(&mut self)
        requires
            old(self).away_score < u32::MAX,
        ensures
            *final(self) == (MatchState { away_score: score_after_goal(old(self).away_score), ..*old(self) }),
    {
        let s = self.away_score + 1;
        self.away_score = if s < MAX_SCORE {
            s
        } else {
            MAX_SCORE
        };
    }

    /// Both scores back to 0; the clock is not touched.
    pub fn clear_scores(&mut self)
        ensures
            *final(self) == (MatchState { home_score: 0, away_score: 0, ..*old(self) }),
    {
        self.home_score = 0;
        self.away_score = 0;
    }

    /// Scores set by hand, each capped at `MAX_SCORE`.
    pub fn set_scores(&mut self, home: u32, away: u32)
        ensures
            *final(self) == (MatchState {
                home_score: capped_score(home),
                away_score: capped_score(away),
                ..*old(self)
            }),
    {
        self.home_score = if home < MAX_SCORE {
            home
        } else {
            MAX_SCORE
        };
        self.away_score = if away < MAX_SCORE {
            away
        } else {
            MAX_SCORE
        };
    }

    /// Which action the main control button takes: kick off before the
    /// match, pause while running, resume while paused.
    pub fn control(&self) -> (r: MatchControl)
        ensures
            r == self.control_spec(),
    {
        if !self.started() {
            MatchControl::Start
        } else if self.running {
            MatchControl::Pause
        } else {
            MatchControl::Resume
        }
    }

    /// The main control button can be pressed until full time.
    pub fn control_enabled(&self) -> (r: bool)
        ensures
            r == !self.auto_paused_90,
    {
        !self.auto_paused_90
    }

    /// Press the main control button at `at`.
    pub fn press_control(&mut self, at: i64) -> (r: MatchControl)
        requires
            old(self).press_control_fits(at),
        ensures
            r == old(self).control_spec(),
            *final(self) == old(self).after_control(at),
    {
        let c = self.control();
        match c {
            MatchControl::Start => self.start(at),
            MatchControl::Pause => self.pause(at),
            MatchControl::Resume => self.resume(at),
        }
        c
    }

    /// Save the match settings from the (already trimmed) inputs: an empty
    /// team name keeps the old one, the competition name is always taken.
    pub fn apply_settings(&mut self, home: &str, away: &str, event: &str)
        ensures
            final(self).home_team@ == (if home@.len() == 0 {
                old(self).home_team@
            } else {
                home@
            }),
            final(self).away_team@ == (if away@.len() == 0 {
                old(self).away_team@
            } else {
                away@
            }),
            final(self).event_name@ == event@,
            home@.len() == 0 ==> final(self).home_team == old(self).home_team,
            away@.len() == 0 ==> final(self).away_team == old(self).away_team,
            *final(self) == (MatchState {
                home_team: final(self).home_team,
                away_team: final(self).away_team,
                event_name: final(self).event_name,
                ..*old(self)
            }),
    {
        if !home.is_empty() {
            self.home_team = String::from_str(home);
        }
        if !away.is_empty() {
            self.away_team = String::from_str(away);
        }
        self.event_name = String::from_str(event);
    }

    /// The stored file name of an asset.
    pub fn asset(&self, kind: AssetKind) -> (r: &Option<String>)
        ensures
            *r == self.asset_spec(kind),
    {
        match kind {
            AssetKind::Background => &self.background_image,
            AssetKind::HomeLogo => &self.home_logo,
            AssetKind::AwayLogo => &self.away_logo,
        }
    }

    /// The old file of an asset that a new file named `new_name` replaces:
    /// the stored name, where there is one and it differs from the new name.
    pub fn replaced_asset(&self, kind: AssetKind, new_name: &String) -> (r: Option<String>)
        ensures
            r is Some <==> (self.asset_spec(kind) is Some && self.asset_spec(kind)->0@ != new_name@),
            r is Some ==> r == self.asset_spec(kind),
    {
        match self.asset(kind) {
            Some(old) => {
                if *old != *new_name {
                    Some(old.clone())
                } else {
                    None
                }
            },
            None => None,
        }
    }

    /// Record a newly stored asset file; the asset version moves on so that
    /// the textures are reloaded.
    pub fn set_asset(&mut self, kind: AssetKind, name: String)
        ensures
            *final(self) == old(self).with_asset(kind, name),
    {
        match kind {
            AssetKind::Background => self.background_image = Some(name),
            AssetKind::HomeLogo => self.home_logo = Some(name),
            AssetKind::AwayLogo => self.away_logo = Some(name),
        }
        self.image_version = self.image_version.wrapping_add(1);
    }
}

impl Default for MatchState {
    /// A fresh match: default team names, no score, clock not started, both
    /// auto pauses on, no assets, everything shown, red against blue.
    fn default() -> (r: Self)
        ensures
            r.home_team@ == "主队"@,
            r.away_team@ == "客队"@,
            r.home_score == 0,
            r.away_score == 0,
            r.start_timestamp == 0,
            r.paused_seconds == 0,
            !r.running,
            r.pause_started_at == 0,
            r.auto_pause_45,
            r.auto_pause_90,
            !r.auto_paused_45,
            !r.auto_paused_90,
            !r.second_half_started,
            r.background_image is None,
            r.home_logo is None,
            r.away_logo is None,
            r.image_version == 0,
            r.event_name@ == Seq::<char>::empty(),
            r.show_event_name,
            r.show_home_name,
            r.show_away_name,
            r.home_color@ == seq![227u8, 66u8, 52u8],
            r.away_color@ == seq![47u8, 129u8, 247u8],
    {
        MatchState {
            home_team: String::from_str("主队"),
            away_team: String::from_str("客队"),
            home_score: 0,
            away_score: 0,
            start_timestamp: 0,
            paused_seconds: 0,
            running: false,
            pause_started_at: 0,
            auto_pause_45: true,
            auto_pause_90: true,
            auto_paused_45: false,
            auto_paused_90: false,
            second_half_started: false,
            background_image: None,
            home_logo: None,
            away_logo: None,
            image_version: 0,
            event_name: String::new(),
            show_event_name: true,
            show_home_name: true,
            show_away_name: true,
            home_color: default_home_color(),
            away_color: default_away_color(),
        }
    }
}

/// Whether a value computed in `i128` fits in an `i64`.
fn in_i64_range(x: i128) -> (r: bool)
    ensures
        r == fits_i64(x as int),
{
    (i64::MIN as i128) <= x && x <= (i64::MAX as i128)
}

/// Checks that callers outside the verified code make before calling the
/// timer operations, whose arithmetic must stay within `i64`.
impl MatchState {
    /// Whether `elapsed_seconds_at(at)` may be called.
    pub fn elapsed_fits_at(&self, at: i64) -> (r: bool)
        ensures
            r == self.elapsed_fits(at as int),
    {
        if !self.started() {
            return true;
        }
        let end: i128 = if self.running {
            at as i128
        } else {
            self.pause_started_at as i128
        };
        let since = end - self.start_timestamp as i128;
        let raw = since - self.paused_seconds as i128;
        in_i64_range(since) && in_i64_range(raw)
    }

    /// Whether `resume(at)` and `start(at)` may be called.
    pub fn resume_fits_at(&self, at: i64) -> (r: bool)
        ensures
            r == self.resume_fits(at),
            r == self.start_fits(at),
    {
        if !(self.started() && !self.running && !self.auto_paused_90) {
            return true;
        }
        let gap = at as i128 - self.pause_started_at as i128;
        let paused = self.paused_seconds as i128 + if gap > 0 {
            gap
        } else {
            0
        };
        let since = at as i128 - self.start_timestamp as i128;
        in_i64_range(gap) && in_i64_range(paused) && in_i64_range(since) && in_i64_range(
            since - paused,
        )
    }

    /// Whether `set_elapsed(target, at)` may be called.
    pub fn set_elapsed_fits_at(&self, target: i64, at: i64) -> (r: bool)
        ensures
            r == self.set_elapsed_fits(target, at),
    {
        if !self.started() {
            return true;
        }
        let t: i128 = if target < 0 {
            0
        } else if target > MAX_SET_SECONDS {
            MAX_SET_SECONDS as i128
        } else {
            target as i128
        };
        if self.running {
            let base = at as i128 - self.paused_seconds as i128;
            in_i64_range(base) && in_i64_range(base - t)
        } else {
            let base = self.pause_started_at as i128 - self.start_timestamp as i128;
            in_i64_range(base) && in_i64_range(base - t)
        }
    }

    /// Whether `check_auto_pause(at, _)` may be called.
    pub fn auto_pause_fits_at(&self, at: i64) -> (r: bool)
        ensures
            r == self.auto_pause_fits(at),
    {
        if !self.running {
            return true;
        }
        if !self.elapsed_fits_at(at) {
            return false;
        }
        let e = self.elapsed_seconds_at(at);
        let half = e >= HALF_SECONDS && !self.auto_paused_45;
        let full = e >= FULL_SECONDS && !self.auto_paused_90;
        let over: i128 = if full && self.auto_pause_90 {
            if e > FULL_SECONDS {
                (e - FULL_SECONDS) as i128
            } else {
                0
            }
        } else if half && self.auto_pause_45 {
            if e > HALF_SECONDS {
                (e - HALF_SECONDS) as i128
            } else {
                0
            }
        } else {
            0
        };
        in_i64_range(self.paused_seconds as i128 + over)
    }

    /// Whether `press_control(at)` may be called.
    pub fn press_control_fits_at(&self, at: i64) -> (r: bool)
        ensures
            r == self.press_control_fits(at),
    {
        self.resume_fits_at(at)
    }
}

} // verus!
