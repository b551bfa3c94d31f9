use football_scoreboard::state::{AutoPause, MatchControl, MatchState, FULL_SECONDS, HALF_SECONDS};

fn kicked_off_at(t: i64) -> MatchState {
    let mut s = MatchState::default();
    s.start(t);
    s
}

#[test]
fn default_match_is_fresh() {
    let s = MatchState::default();
    assert_eq!(s.home_team, "主队");
    assert_eq!(s.away_team, "客队");
    assert_eq!((s.home_score, s.away_score), (0, 0));
    assert!(!s.started());
    assert!(!s.running);
    assert!(s.auto_pause_45 && s.auto_pause_90);
    assert!(!s.auto_paused_45 && !s.auto_paused_90 && !s.second_half_started);
    assert!(s.show_event_name && s.show_home_name && s.show_away_name);
    assert_eq!(s.home_color, [227, 66, 52]);
    assert_eq!(s.away_color, [47, 129, 247]);
    assert_eq!(s.event_name, "");
    assert!(s.background_image.is_none() && s.home_logo.is_none() && s.away_logo.is_none());
    assert_eq!(s.image_version, 0);
}

#[test]
fn clock_reads_zero_before_kick_off() {
    let s = MatchState::default();
    assert_eq!(s.elapsed_seconds_at(1_000_000), 0);
}

#[test]
fn running_clock_counts_wall_time() {
    let s = kicked_off_at(1000);
    assert!(s.started() && s.running);
    assert_eq!(s.start_timestamp, 1000);
    assert_eq!(s.elapsed_seconds_at(1000), 0);
    assert_eq!(s.elapsed_seconds_at(1100), 100);
    assert_eq!(s.elapsed_seconds_at(4600), 3600);
}

#[test]
fn clock_never_reads_negative() {
    let s = kicked_off_at(1000);
    assert_eq!(s.elapsed_seconds_at(500), 0);
}

#[test]
fn pause_freezes_and_resume_loses_nothing() {
    let mut s = kicked_off_at(1000);
    s.pause(1300);
    assert!(!s.running);
    assert_eq!(s.pause_started_at, 1300);
    assert_eq!(s.elapsed_seconds_at(1300), 300);
    assert_eq!(s.elapsed_seconds_at(9999), 300);
    s.resume(2000);
    assert!(s.running);
    assert_eq!(s.paused_seconds, 700);
    assert_eq!(s.pause_started_at, 0);
    assert_eq!(s.elapsed_seconds_at(2000), 300);
    assert_eq!(s.elapsed_seconds_at(2060), 360);
}

#[test]
fn pause_and_resume_do_nothing_out_of_turn() {
    let mut s = MatchState::default();
    s.pause(50);
    s.resume(60);
    assert!(!s.started() && !s.running);
    let mut r = kicked_off_at(1000);
    r.resume(1100);
    assert_eq!(r.paused_seconds, 0);
    r.pause(1200);
    r.pause(1300);
    assert_eq!(r.pause_started_at, 1200);
}

#[test]
fn start_twice_resumes() {
    let mut s = kicked_off_at(1000);
    s.start(5000);
    assert_eq!(s.start_timestamp, 1000);
    s.pause(1100);
    s.start(1200);
    assert!(s.running);
    assert_eq!(s.start_timestamp, 1000);
    assert_eq!(s.paused_seconds, 100);
}

#[test]
fn resume_after_half_time_starts_second_half() {
    let mut s = kicked_off_at(1000);
    s.auto_pause_45 = false;
    s.pause(1000 + HALF_SECONDS + 10);
    s.resume(1000 + HALF_SECONDS + 20);
    assert!(s.second_half_started);
    let mut t = kicked_off_at(1000);
    t.pause(1100);
    t.resume(1200);
    assert!(!t.second_half_started);
}

#[test]
fn auto_pause_pins_clock_at_half_time() {
    let mut s = kicked_off_at(1000);
    let late = 1000 + HALF_SECONDS + 95;
    assert_eq!(s.check_auto_pause(late, late), AutoPause::HalfTime);
    assert!(!s.running);
    assert!(s.auto_paused_45);
    assert_eq!(s.paused_seconds, 95);
    assert_eq!(s.elapsed_seconds_at(late + 500), HALF_SECONDS);
    // resuming continues from 45:00 in the second half, and the pause does not fire again
    s.resume(late + 600);
    assert!(s.second_half_started);
    assert_eq!(s.elapsed_seconds_at(late + 610), HALF_SECONDS + 10);
    assert_eq!(s.check_auto_pause(late + 700, late + 700), AutoPause::Unchanged);
    assert!(s.running);
}

#[test]
fn auto_pause_pins_clock_at_full_time_and_full_time_is_final() {
    let mut s = kicked_off_at(1000);
    s.auto_paused_45 = true;
    s.second_half_started = true;
    let at = 1000 + FULL_SECONDS + 30;
    assert_eq!(s.check_auto_pause(at, at), AutoPause::FullTime);
    assert_eq!(s.elapsed_seconds_at(at + 99), FULL_SECONDS);
    assert!(s.auto_paused_90);
    assert!(!s.control_enabled());
    s.resume(at + 100);
    assert!(!s.running);
    s.start(at + 100);
    assert!(!s.running);
}

#[test]
fn crossing_both_thresholds_at_once_pauses_at_full_time() {
    let mut s = kicked_off_at(1000);
    let at = 1000 + FULL_SECONDS + 5;
    assert_eq!(s.check_auto_pause(at, at), AutoPause::FullTime);
    assert!(s.auto_paused_45 && s.auto_paused_90 && s.second_half_started);
    assert_eq!(s.elapsed_seconds_at(at), FULL_SECONDS);
}

#[test]
fn switched_off_threshold_is_only_marked() {
    let mut s = kicked_off_at(1000);
    s.auto_pause_45 = false;
    let at = 1000 + HALF_SECONDS + 1;
    assert_eq!(s.check_auto_pause(at, at), AutoPause::Crossed);
    assert!(s.running);
    assert!(s.auto_paused_45);
    assert_eq!(s.check_auto_pause(at + 1, at + 1), AutoPause::Unchanged);
}

#[test]
fn auto_pause_ignores_a_stopped_clock() {
    let mut s = kicked_off_at(1000);
    s.pause(1000 + HALF_SECONDS + 50);
    assert_eq!(s.check_auto_pause(99_999, 99_999), AutoPause::Unchanged);
    assert!(!s.auto_paused_45);
}

#[test]
fn set_elapsed_on_a_running_clock_moves_kick_off() {
    let mut s = kicked_off_at(1000);
    s.set_elapsed(46 * 60 + 30, 5000);
    assert_eq!(s.elapsed_seconds_at(5000), 2790);
    assert_eq!(s.start_timestamp, 5000 - 2790);
    assert!(s.auto_paused_45);
    assert!(s.second_half_started);
    assert!(!s.auto_paused_90);
}

#[test]
fn set_elapsed_on_a_paused_clock_moves_paused_time() {
    let mut s = kicked_off_at(1000);
    s.pause(2000);
    s.set_elapsed(600, 3000);
    assert_eq!(s.paused_seconds, 400);
    assert_eq!(s.elapsed_seconds_at(3000), 600);
    s.set_elapsed(FULL_SECONDS, 3000);
    assert!(s.auto_paused_45 && s.auto_paused_90);
    assert!(!s.second_half_started);
}

#[test]
fn set_elapsed_limits_and_floors() {
    let mut s = kicked_off_at(1000);
    s.set_elapsed(99_999, 2000);
    assert_eq!(s.start_timestamp, 1);
    let mut p = kicked_off_at(1000);
    p.pause(1100);
    p.set_elapsed(-50, 1200);
    assert_eq!(p.paused_seconds, 100);
    assert_eq!(p.elapsed_seconds_at(1200), 0);
    let mut n = MatchState::default();
    n.set_elapsed(600, 2000);
    assert!(!n.started());
}

#[test]
fn reset_keeps_teams_assets_and_switches() {
    let mut s = kicked_off_at(1000);
    s.home_team = "上海申花".to_string();
    s.home_logo = Some("home.png".to_string());
    s.auto_pause_45 = false;
    s.home_score = 3;
    s.away_score = 2;
    s.auto_paused_45 = true;
    s.reset();
    assert!(!s.started() && !s.running);
    assert_eq!((s.home_score, s.away_score), (0, 0));
    assert_eq!(s.elapsed_seconds_at(5000), 0);
    assert!(!s.auto_paused_45 && !s.auto_paused_90 && !s.second_half_started);
    assert_eq!(s.home_team, "上海申花");
    assert_eq!(s.home_logo.as_deref(), Some("home.png"));
    assert!(!s.auto_pause_45);
}

#[test]
fn goals_are_capped_and_clearing_keeps_the_clock() {
    let mut s = kicked_off_at(1000);
    s.add_home_goal();
    s.add_away_goal();
    s.add_away_goal();
    assert_eq!((s.home_score, s.away_score), (1, 2));
    s.home_score = 99;
    s.add_home_goal();
    assert_eq!(s.home_score, 99);
    s.clear_scores();
    assert_eq!((s.home_score, s.away_score), (0, 0));
    assert!(s.running);
    assert_eq!(s.elapsed_seconds_at(1050), 50);
    s.set_scores(150, 7);
    assert_eq!((s.home_score, s.away_score), (99, 7));
}

#[test]
fn control_button_follows_the_clock() {
    let mut s = MatchState::default();
    assert_eq!(s.control(), MatchControl::Start);
    assert_eq!(s.control().label(), "开始比赛");
    assert_eq!(s.press_control(1000), MatchControl::Start);
    assert_eq!(s.control(), MatchControl::Pause);
    assert_eq!(s.control().label(), "暂停");
    assert_eq!(s.press_control(1100), MatchControl::Pause);
    assert_eq!(s.control(), MatchControl::Resume);
    assert_eq!(s.control().label(), "继续");
    assert_eq!(s.press_control(1200), MatchControl::Resume);
    assert_eq!(s.elapsed_seconds_at(1300), 200);
}

#[test]
fn overflow_checks() {
    let mut s = MatchState::default();
    s.start_timestamp = i64::MIN + 5;
    s.start_timestamp = 5;
    s.running = true;
    assert!(s.elapsed_fits_at(100));
    assert!(!s.elapsed_fits_at(i64::MIN));
    s.paused_seconds = i64::MIN;
    assert!(!s.elapsed_fits_at(100));
    let mut p = kicked_off_at(1000);
    p.pause(2000);
    assert!(p.resume_fits_at(3000));
    assert!(!p.resume_fits_at(i64::MIN + 1));
    assert!(p.set_elapsed_fits_at(10, 3000));
    assert!(p.auto_pause_fits_at(3000));
    assert!(p.press_control_fits_at(3000));
}

#[test]
fn set_elapsed_forward_on_a_paused_clock_reaches_the_target() {
    let mut s = kicked_off_at(1000);
    s.pause(1600);
    assert_eq!(s.elapsed_seconds_at(1600), 600);
    s.set_elapsed(2790, 5000);
    assert_eq!(s.elapsed_seconds_at(5000), 2790);
    assert_eq!(s.elapsed_seconds_at(9000), 2790);
    assert_eq!(s.paused_seconds, 600 - 2790);
    assert!(s.auto_paused_45);
    s.resume(6000);
    assert_eq!(s.elapsed_seconds_at(6010), 2800);
}

#[test]
fn second_threshold_check_at_the_same_moment_changes_nothing() {
    let mut s = kicked_off_at(1000);
    s.auto_pause_45 = false;
    let at = 1000 + HALF_SECONDS + 3;
    assert_eq!(s.check_auto_pause(at, at), AutoPause::Crossed);
    let before = (s.running, s.paused_seconds, s.auto_paused_45, s.auto_paused_90, s.second_half_started);
    assert_eq!(s.check_auto_pause(at, at), AutoPause::Unchanged);
    assert_eq!(before, (s.running, s.paused_seconds, s.auto_paused_45, s.auto_paused_90, s.second_half_started));
}
