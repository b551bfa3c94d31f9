use football_scoreboard::assets::{asset_file_name, is_supported_image_extension};
use football_scoreboard::input::{
    parse_clock_input, parse_i64_text, parse_u32_text, score_from_text, score_input,
    seconds_from_clock_parts,
};
use football_scoreboard::state::{AssetKind, MatchState};

#[test]
fn integers_parse_like_std() {
    for t in ["0", "42", "-42", "+7", "007", "", "-", "+", " 1", "1 ", "1.5", "x",
              "9223372036854775807", "9223372036854775808", "-9223372036854775808",
              "-9223372036854775809", "99999999999999999999999"] {
        assert_eq!(parse_i64_text(t), t.parse::<i64>().ok(), "i64 {t:?}");
    }
    for t in ["0", "42", "-0", "-1", "+7", "", "+", "4294967295", "4294967296", "12a", "٣"] {
        assert_eq!(parse_u32_text(t), t.parse::<u32>().ok(), "u32 {t:?}");
    }
}

#[test]
fn time_control_reads_minutes_and_seconds() {
    assert_eq!(parse_clock_input("46:30"), Some(2790));
    assert_eq!(parse_clock_input("  46 : 30  "), Some(2790));
    assert_eq!(parse_clock_input("90"), Some(5400));
    assert_eq!(parse_clock_input("abc"), Some(0));
    assert_eq!(parse_clock_input("x:30"), Some(30));
    assert_eq!(parse_clock_input("200"), Some(10800));
    assert_eq!(parse_clock_input("-5"), Some(0));
    assert_eq!(parse_clock_input("1:2:3"), Some(60));
    assert_eq!(parse_clock_input(""), Some(0));
    assert_eq!(parse_clock_input("9223372036854775807"), None);
    assert_eq!(seconds_from_clock_parts("3", Some("5")), Some(185));
    assert_eq!(seconds_from_clock_parts("3", None), Some(180));
}

#[test]
fn clock_face_reads_back() {
    for t in [0i64, 5, 59, 60, 2700, 2790, 5400, 6000, 10800] {
        let face = football_scoreboard::clock::fmt_clock(t);
        assert_eq!(parse_clock_input(&face), Some(t));
    }
}

#[test]
fn typed_scores() {
    assert_eq!(score_input(" 7 "), 7);
    assert_eq!(score_input("150"), 99);
    assert_eq!(score_input("x"), 0);
    assert_eq!(score_input("-1"), 0);
    assert_eq!(score_input("+5"), 5);
    assert_eq!(score_from_text("12"), 12);
}

#[test]
fn settings_are_trimmed_and_empty_names_kept() {
    let mut s = MatchState::default();
    s.save_settings("  上海申花 ", "   ", " 中超 ");
    assert_eq!(s.home_team, "上海申花");
    assert_eq!(s.away_team, "客队");
    assert_eq!(s.event_name, "中超");
    s.apply_settings("A", "B", "");
    assert_eq!((s.home_team.as_str(), s.away_team.as_str(), s.event_name.as_str()), ("A", "B", ""));
}

#[test]
fn assets() {
    assert!(is_supported_image_extension("png"));
    assert!(is_supported_image_extension("jpeg"));
    assert!(!is_supported_image_extension("bmp"));
    assert!(!is_supported_image_extension("PNG"));
    assert_eq!(asset_file_name(AssetKind::HomeLogo, "png"), "home.png");
    assert_eq!(asset_file_name(AssetKind::Background, "jpg"), "background.jpg");
    assert_eq!(AssetKind::AwayLogo.label(), "客队队徽");
    let mut s = MatchState::default();
    assert_eq!(s.replaced_asset(AssetKind::HomeLogo, &"home.png".to_string()), None);
    s.set_asset(AssetKind::HomeLogo, "home.jpg".to_string());
    assert_eq!(s.home_logo.as_deref(), Some("home.jpg"));
    assert_eq!(s.image_version, 1);
    assert_eq!(s.replaced_asset(AssetKind::HomeLogo, &"home.png".to_string()), Some("home.jpg".to_string()));
    assert_eq!(s.replaced_asset(AssetKind::HomeLogo, &"home.jpg".to_string()), None);
    s.image_version = u64::MAX;
    s.set_asset(AssetKind::Background, "background.png".to_string());
    assert_eq!(s.image_version, 0);
    assert_eq!(s.asset(AssetKind::Background).as_deref(), Some("background.png"));
}

#[test]
fn white_space_is_the_unicode_white_space_set() {
    let listed = |u: u32| {
        (0x9..=0xD).contains(&u)
            || u == 0x20
            || u == 0x85
            || u == 0xA0
            || u == 0x1680
            || (0x2000..=0x200A).contains(&u)
            || u == 0x2028
            || u == 0x2029
            || u == 0x202F
            || u == 0x205F
            || u == 0x3000
    };
    for u in 0u32..=0x10FFFF {
        if let Some(c) = char::from_u32(u) {
            assert_eq!(c.is_whitespace(), listed(u), "U+{u:04X}");
        }
    }
}

#[test]
fn typed_fields_are_trimmed_of_unicode_white_space() {
    assert_eq!(score_input("\u{3000}8\u{3000}"), 8);
    assert_eq!(parse_clock_input("\u{3000}46：30"), Some(0));
    assert_eq!(parse_clock_input("\t46:\u{a0}30\n"), Some(2790));
}
