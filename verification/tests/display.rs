use football_scoreboard::clock::{fmt_clock, now, timestamp_of};
use football_scoreboard::display::{team_initial, ClockTone, MatchPhase, RunStatus};
use football_scoreboard::jersey::{jersey_color_index, jersey_color_name, jersey_palette_entry, JERSEY_PALETTE_LEN};
use football_scoreboard::state::{MatchState, FULL_SECONDS, HALF_SECONDS};

#[test]
fn clock_face_is_minutes_and_seconds() {
    assert_eq!(fmt_clock(0), "00:00");
    assert_eq!(fmt_clock(59), "00:59");
    assert_eq!(fmt_clock(60), "01:00");
    assert_eq!(fmt_clock(2790), "46:30");
    assert_eq!(fmt_clock(HALF_SECONDS), "45:00");
    assert_eq!(fmt_clock(FULL_SECONDS), "90:00");
    assert_eq!(fmt_clock(6000), "100:00");
    assert_eq!(fmt_clock(-5), "00:00");
    assert_eq!(fmt_clock(i64::MAX), "153722867280912930:07");
}

#[test]
fn timestamps_from_seconds() {
    assert_eq!(timestamp_of(Some(1_725_000_000)), 1_725_000_000);
    assert_eq!(timestamp_of(None), 0);
    assert_eq!(timestamp_of(Some(u64::MAX)), -1);
    assert!(now() > 0);
}

#[test]
fn phase_and_status() {
    let mut s = MatchState::default();
    assert_eq!(s.phase(0), MatchPhase::NotStarted);
    assert_eq!(s.phase(0).label(), "未开赛");
    assert_eq!(s.run_status(), RunStatus::Waiting);
    assert_eq!(s.run_status().label(), "等待开始");
    s.start(1000);
    assert_eq!(s.phase(HALF_SECONDS + 5), MatchPhase::FirstHalf);
    assert_eq!(s.phase(10).label(), "上半场");
    assert_eq!(s.run_status().label(), "● 进行中");
    s.second_half_started = true;
    assert_eq!(s.phase(HALF_SECONDS), MatchPhase::SecondHalf);
    assert_eq!(s.phase(HALF_SECONDS).label(), "下半场");
    assert_eq!(s.phase(HALF_SECONDS - 1), MatchPhase::FirstHalf);
    s.pause(1100);
    assert_eq!(s.run_status(), RunStatus::Paused);
    assert_eq!(s.run_status().label(), "已暂停");
}

#[test]
fn clock_colours() {
    let mut s = MatchState::default();
    assert_eq!(s.console_clock_tone(0), ClockTone::Muted);
    assert_eq!(s.display_clock_tone(0), ClockTone::Normal);
    s.start(1000);
    assert_eq!(s.console_clock_tone(100), ClockTone::Normal);
    assert_eq!(s.console_clock_tone(FULL_SECONDS), ClockTone::FullTime);
    s.pause(1100);
    assert_eq!(s.console_clock_tone(100), ClockTone::Paused);
    assert_eq!(s.display_clock_tone(100), ClockTone::Paused);
    assert_eq!(s.display_clock_tone(FULL_SECONDS), ClockTone::FullTime);
    assert!(s.shows_paused_badge(100));
    assert!(!s.shows_paused_badge(FULL_SECONDS));
}

#[test]
fn event_name_visibility_and_score_line() {
    let mut s = MatchState::default();
    assert!(!s.shows_event_name());
    s.event_name = "2026 中超联赛·第 20 轮".to_string();
    assert!(s.shows_event_name());
    s.show_event_name = false;
    assert!(!s.shows_event_name());
    s.home_score = 12;
    s.away_score = 0;
    assert_eq!(s.score_line(), "12 : 0");
}

#[test]
fn team_initials() {
    assert_eq!(team_initial("上海申花"), '上');
    assert_eq!(team_initial("Ajax"), 'A');
    assert_eq!(team_initial(""), '队');
}

#[test]
fn jersey_names() {
    assert_eq!(jersey_color_name([227, 66, 52]), "红");
    assert_eq!(jersey_color_name([47, 129, 247]), "蓝");
    assert_eq!(jersey_color_name([0, 0, 0]), "黑");
    assert_eq!(jersey_color_name([255, 255, 255]), "白");
    assert_eq!(jersey_color_name([250, 210, 80]), "黄");
    for i in 0..JERSEY_PALETTE_LEN {
        let (name, rgb) = jersey_palette_entry(i);
        assert_eq!(jersey_color_index(rgb), i);
        assert_eq!(jersey_color_name(rgb), name);
    }
}
