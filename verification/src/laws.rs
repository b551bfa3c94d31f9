use vstd::prelude::*;
use crate::state::{
    capped_score, clamped_target, non_negative, score_after_goal, AutoPause, MatchState,
    FULL_SECONDS, HALF_SECONDS,
};

verus! {

/// While the clock runs, match time advances one second per second of wall
/// clock.
pub proof fn law_running_clock_advances(s: MatchState, t1: int, t2: int)
    requires
        s.is_started(),
        s.running,
        s.raw_elapsed(t1) >= 0,
        t1 <= t2,
    ensures
        s.elapsed(t2) == s.elapsed(t1) + (t2 - t1),
{
}

/// Match time never goes backwards as the wall clock moves forwards.
pub proof fn law_elapsed_is_monotonic(s: MatchState, t1: int, t2: int)
    requires
        t1 <= t2,
    ensures
        0 <= s.elapsed(t1) <= s.elapsed(t2),
{
}

/// Pausing freezes the clock: after `pause(p)` the match time reads what it
/// read at `p`, whenever it is looked at.
pub proof fn law_pause_freezes_clock(s: MatchState, p: i64, t: int)
    requires
        s.is_started(),
        s.running,
    ensures
        s.paused_at(p).elapsed(t) == s.elapsed(p as int),
{
}

/// Pausing and resuming loses no time and adds none: after `pause(p)` and
/// `resume(r)` the clock reads what it read at `p`, plus what has run since
/// `r`.
pub proof fn law_pause_resume_keeps_time(s: MatchState, p: i64, r: i64, t: int)
    requires
        s.is_started(),
        s.running,
        !s.auto_paused_90,
        p <= r,
        s.paused_at(p).resume_fits(r),
    ensures
        s.paused_at(p).resumed_at(r).running,
        s.paused_at(p).resumed_at(r).pause_started_at == 0,
        s.paused_at(p).resumed_at(r).start_timestamp == s.start_timestamp,
        s.paused_at(p).resumed_at(r).paused_seconds == s.paused_seconds + (r - p),
        s.paused_at(p).resumed_at(r).elapsed(t) == non_negative(s.raw_elapsed(p as int) + (t - r)),
        t >= r ==> s.paused_at(p).resumed_at(r).elapsed(t) == s.elapsed(t - (r - p)),
{
}

/// Resuming never shrinks the time paused; a resume dated before the pause
/// began (the wall clock was set back) adds nothing to it.
pub proof fn law_resume_never_shrinks_paused_time(s: MatchState, at: i64)
    requires
        s.resume_fits(at),
    ensures
        s.resumed_at(at).paused_seconds >= s.paused_seconds,
        at < s.pause_started_at ==> s.resumed_at(at).paused_seconds == s.paused_seconds,
{
}

/// Pressing start on a match that has kicked off changes nothing while the
/// clock runs, and resumes a paused clock.
pub proof fn law_start_after_kick_off(s: MatchState, at: i64)
    requires
        s.is_started(),
    ensures
        s.running ==> s.started_at(at) == s,
        !s.running ==> s.started_at(at) == s.resumed_at(at),
{
}

/// Checking the thresholds a second time at the same moment finds nothing
/// new and changes nothing.
pub proof fn law_auto_pause_check_is_idempotent(s: MatchState, at: i64, pause_at: i64)
    ensures
        s.after_auto_pause(at, pause_at).auto_pause_outcome(at) == AutoPause::Unchanged,
        s.after_auto_pause(at, pause_at).after_auto_pause(at, pause_at) == s.after_auto_pause(
            at,
            pause_at,
        ),
{
}

/// Once full time is reached (the 90 minute mark was passed and the clock is
/// stopped) neither the start button nor resuming restarts the clock.
pub proof fn law_full_time_is_final(s: MatchState, at: i64)
    requires
        s.auto_paused_90,
        !s.running,
    ensures
        s.resumed_at(at) == s,
        s.is_started() ==> s.started_at(at) == s,
{
}

/// Setting the match time makes the clock read the (limited) target at that
/// moment; on a running clock, where the kick-off floor of 1 does not
/// intervene. A paused clock shows the target for as long as it stays
/// paused.
pub proof fn law_set_elapsed_sets_clock(s: MatchState, target: i64, at: i64)
    requires
        s.is_started(),
        s.set_elapsed_fits(target, at),
        s.running ==> at - s.paused_seconds - clamped_target(target) >= 1,
    ensures
        s.with_elapsed(target, at).elapsed(at as int) == clamped_target(target),
        !s.running ==> forall|t: int| #[trigger] s.with_elapsed(target, at).elapsed(t)
            == clamped_target(target),
{
}

/// An automatic pause pins the clock at the threshold: at 45:00 at half
/// time, at 90:00 at full time, however late the check came.
pub proof fn law_auto_pause_pins_clock(s: MatchState, at: i64, t: int)
    requires
        s.auto_pause_fits(at),
    ensures
        s.auto_pause_outcome(at) == AutoPause::HalfTime ==> {
            &&& !s.after_auto_pause(at, at).running
            &&& s.after_auto_pause(at, at).elapsed(t) == HALF_SECONDS
        },
        s.auto_pause_outcome(at) == AutoPause::FullTime ==> {
            &&& !s.after_auto_pause(at, at).running
            &&& s.after_auto_pause(at, at).elapsed(t) == FULL_SECONDS
        },
{
}

/// A threshold passed while the clock runs is marked as passed whatever the
/// auto pause switches say; passing 90 minutes for the first time also
/// starts the second half.
pub proof fn law_thresholds_are_marked(s: MatchState, at: i64, pause_at: i64)
    requires
        s.running,
    ensures
        s.elapsed(at as int) >= HALF_SECONDS ==> s.after_auto_pause(at, pause_at).auto_paused_45,
        s.elapsed(at as int) >= FULL_SECONDS ==> s.after_auto_pause(at, pause_at).auto_paused_90,
        s.elapsed(at as int) >= FULL_SECONDS && !s.auto_paused_90 ==> s.after_auto_pause(
            at,
            pause_at,
        ).second_half_started,
{
}

/// The half time pause fires once: after it, resuming and checking again at
/// any later moment never pauses at half time again.
pub proof fn law_half_time_fires_once(s: MatchState, at: i64, r: i64, later: i64)
    requires
        s.auto_pause_outcome(at) == AutoPause::HalfTime,
    ensures
        s.after_auto_pause(at, at).resumed_at(r).auto_pause_outcome(later) != AutoPause::HalfTime,
{
}

/// Resetting stops and clears the clock and the score, and keeps the teams,
/// the assets, the display choices and the auto pause switches.
pub proof fn law_reset_clears_match(s: MatchState, t: int)
    ensures
        s.after_reset().elapsed(t) == 0,
        !s.after_reset().is_started(),
        s.after_reset().home_score == 0 && s.after_reset().away_score == 0,
        s.after_reset().home_team == s.home_team,
        s.after_reset().away_team == s.away_team,
        s.after_reset().event_name == s.event_name,
        s.after_reset().background_image == s.background_image,
        s.after_reset().home_logo == s.home_logo,
        s.after_reset().away_logo == s.away_logo,
        s.after_reset().auto_pause_45 == s.auto_pause_45,
        s.after_reset().auto_pause_90 == s.auto_pause_90,
{
}

/// Setting the match time past a threshold marks it as passed, so that the
/// automatic pause does not afterwards pin the clock back to it.
pub proof fn law_set_elapsed_skips_passed_thresholds(
    s: MatchState,
    target: i64,
    at: i64,
    later: i64,
)
    requires
        s.is_started(),
    ensures
        clamped_target(target) >= HALF_SECONDS ==> s.with_elapsed(target, at).auto_pause_outcome(
            later,
        ) != AutoPause::HalfTime,
        clamped_target(target) >= FULL_SECONDS ==> s.with_elapsed(target, at).auto_pause_outcome(
            later,
        ) != AutoPause::FullTime,
{
}

/// The half time pause happens at 45:00 itself: a running clock that reads
/// 45 minutes or more, with the 45 minute switch on and the mark not yet
/// passed, pauses at half time (unless the full time pause is due at the
/// same check), is stopped, marks 45 minutes as passed, and reads 45:00
/// from then on.
pub proof fn law_half_time_pause_at_the_mark(s: MatchState, at: i64, t: int)
    requires
        s.auto_pause_fits(at),
        s.running,
        s.auto_pause_45,
        !s.auto_paused_45,
        s.elapsed(at as int) >= HALF_SECONDS,
        !(s.elapsed(at as int) >= FULL_SECONDS && !s.auto_paused_90 && s.auto_pause_90),
    ensures
        s.auto_pause_outcome(at) == AutoPause::HalfTime,
        !s.after_auto_pause(at, at).running,
        s.after_auto_pause(at, at).auto_paused_45,
        s.after_auto_pause(at, at).elapsed(t) == HALF_SECONDS,
{
}

/// The full time pause happens at 90:00 itself: a running clock that reads
/// 90 minutes or more, with the 90 minute switch on and the mark not yet
/// passed, pauses at full time, is stopped, marks both marks as passed, and
/// reads 90:00 from then on.
pub proof fn law_full_time_pause_at_the_mark(s: MatchState, at: i64, t: int)
    requires
        s.auto_pause_fits(at),
        s.running,
        s.auto_pause_90,
        !s.auto_paused_90,
        s.elapsed(at as int) >= FULL_SECONDS,
    ensures
        s.auto_pause_outcome(at) == AutoPause::FullTime,
        !s.after_auto_pause(at, at).running,
        s.after_auto_pause(at, at).auto_paused_45,
        s.after_auto_pause(at, at).auto_paused_90,
        s.after_auto_pause(at, at).second_half_started,
        s.after_auto_pause(at, at).elapsed(t) == FULL_SECONDS,
{
}

/// Setting a running clock to 45:00 or later starts the second half; setting
/// a paused clock leaves the second half to the resume that follows.
pub proof fn law_set_elapsed_second_half(s: MatchState, target: i64, at: i64)
    requires
        s.is_started(),
    ensures
        s.running && target >= HALF_SECONDS ==> s.with_elapsed(target, at).second_half_started,
        s.running && target < HALF_SECONDS ==> s.with_elapsed(target, at).second_half_started
            == s.second_half_started,
        !s.running ==> s.with_elapsed(target, at).second_half_started == s.second_half_started,
        target >= HALF_SECONDS ==> s.with_elapsed(target, at).auto_paused_45,
        target >= FULL_SECONDS ==> s.with_elapsed(target, at).auto_paused_90,
{
}

/// Resuming starts the second half exactly when the match time (not the
/// wall time since kick-off) reads 45:00 or more: the resumed clock's
/// reading, which, for a resume not dated before the pause, is the reading
/// at the pause.
pub proof fn law_resume_second_half_by_match_time(s: MatchState, at: i64)
    requires
        s.is_started(),
        !s.running,
        !s.auto_paused_90,
        s.resume_fits(at),
    ensures
        s.resumed_at(at).running,
        s.resumed_at(at).second_half_started == (s.second_half_started || s.resumed_at(at).elapsed(
            at as int,
        ) >= HALF_SECONDS),
        at >= s.pause_started_at ==> s.resumed_at(at).elapsed(at as int) == s.elapsed(at as int),
        at >= s.pause_started_at ==> s.resumed_at(at).second_half_started == (s.second_half_started
            || s.elapsed(at as int) >= HALF_SECONDS),
{
}

/// A reset clears the time paused and the kick-off, so that a match kicked
/// off after a reset counts from zero: `d` seconds after the new kick-off it
/// reads `d`.
pub proof fn law_match_after_reset_counts_from_zero(s: MatchState, k: i64, d: int)
    requires
        k > 0,
        d >= 0,
    ensures
        s.after_reset().paused_seconds == 0,
        s.after_reset().pause_started_at == 0,
        s.after_reset().start_timestamp == 0,
        s.after_reset().started_at(k).running,
        s.after_reset().started_at(k).elapsed(k + d) == d,
{
}

/// The main control button starts, pauses and resumes: before kick-off it
/// starts the clock at the press, while running it stops the clock, and
/// while paused (before full time) it restarts it; the clock shows at the
/// press what it showed before.
pub proof fn law_control_button_toggles_clock(s: MatchState, at: i64)
    requires
        s.press_control_fits(at),
        at > 0,
    ensures
        s.start_timestamp <= 0 ==> s.after_control(at).running && s.after_control(
            at,
        ).start_timestamp == at,
        s.start_timestamp > 0 && s.running ==> !s.after_control(at).running && s.after_control(
            at,
        ).elapsed(at as int) == s.elapsed(at as int),
        s.start_timestamp > 0 && !s.running && !s.auto_paused_90 && at >= s.pause_started_at
            ==> s.after_control(at).running && s.after_control(at).elapsed(at as int) == s.elapsed(
            at as int,
        ),
        s.start_timestamp > 0 && !s.running && s.auto_paused_90 ==> s.after_control(at) == s,
{
}

/// A goal adds one to the score, up to 99; a typed score is kept up to 99.
pub proof fn law_scores_are_capped(score: u32)
    ensures
        score < 99 ==> score_after_goal(score) == score + 1,
        score >= 99 ==> score_after_goal(score) == 99,
        score <= 99 ==> capped_score(score) == score,
        score > 99 ==> capped_score(score) == 99,
{
}

} // verus!
