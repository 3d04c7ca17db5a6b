use kiro_rs::admin::schedule::{
    normalize_auto_apply_time, parse_auto_apply_time, AutoUpdateScheduler, TickAction,
    TICK_SECONDS,
};
use kiro_rs::admin::types::UpdateCheckInfo;
use kiro_rs::admin::update_config::RuntimeUpdateConfig;
use kiro_rs::clock::WallClock;

fn settings(auto_apply: bool, time: &str) -> RuntimeUpdateConfig {
    RuntimeUpdateConfig {
        image: "a/b".to_string(),
        previous_image: None,
        auto_apply,
        auto_apply_time: time.to_string(),
    }
}

fn clock(date: (i32, u32, u32), hour: u32, minute: u32) -> WallClock {
    WallClock { year: date.0, month: date.1, day: date.2, hour, minute }
}

fn found(version: &str, has_update: bool) -> UpdateCheckInfo {
    UpdateCheckInfo {
        current_version: "1.0.0".to_string(),
        latest_version: version.to_string(),
        has_update,
        build_type: "docker-compose".to_string(),
        release_name: None,
        release_notes: None,
        release_url: None,
        published_at: None,
        checked_at: String::new(),
        cached: false,
        warning: None,
    }
}

#[test]
fn times_are_read() {
    assert_eq!(parse_auto_apply_time(" 3:0 ").unwrap(), (3, 0));
    assert_eq!(parse_auto_apply_time("23:59").unwrap(), (23, 59));
    assert_eq!(parse_auto_apply_time("").unwrap_err().message(), "凭据无效: 自动更新时间不能为空");
    assert_eq!(
        parse_auto_apply_time("3").unwrap_err().message(),
        "凭据无效: 自动更新时间格式无效：3（应为 HH:MM）"
    );
    assert_eq!(
        parse_auto_apply_time("3:4:5").unwrap_err().message(),
        "凭据无效: 自动更新时间格式无效：3:4:5（应为 HH:MM）"
    );
    assert_eq!(
        parse_auto_apply_time(" 24:00").unwrap_err().message(),
        "凭据无效: 自动更新时间超出范围： 24:00（HH 0-23，MM 0-59）"
    );
}

#[test]
fn times_are_brought_into_one_form() {
    assert_eq!(normalize_auto_apply_time("3:7").unwrap(), "03:07");
    assert_eq!(normalize_auto_apply_time("003:07").unwrap(), "03:07");
    assert_eq!(normalize_auto_apply_time("03:07").unwrap(), "03:07");
    assert!(normalize_auto_apply_time("3:60").is_err());
}

#[test]
fn the_scheduler_acts_once_in_its_minute() {
    let mut s = AutoUpdateScheduler::new();
    let on = settings(true, "4:30");
    assert_eq!(s.tick_at(&on, &clock((2026, 1, 2), 4, 29)), TickAction::Idle);
    assert_eq!(s.tick_at(&on, &clock((2026, 1, 2), 4, 30)), TickAction::CheckUpdate);
    assert_eq!(s.last_run_marker, Some("2026-01-02-04:30".to_string()));
    assert_eq!(s.tick_at(&on, &clock((2026, 1, 2), 4, 30)), TickAction::Idle);
    assert_eq!(s.tick_at(&on, &clock((2026, 1, 3), 4, 30)), TickAction::CheckUpdate);
}

#[test]
fn markers_show_the_date() {
    for (date, marker) in [
        ((2026, 11, 3), "2026-11-03-04:30"),
        ((987, 1, 2), "0987-01-02-04:30"),
        ((45, 12, 31), "0045-12-31-04:30"),
        ((0, 2, 9), "0000-02-09-04:30"),
        ((-44, 3, 15), "-0044-03-15-04:30"),
        ((9999, 12, 31), "9999-12-31-04:30"),
        ((12026, 1, 1), "+12026-01-01-04:30"),
    ] {
        let mut s = AutoUpdateScheduler::new();
        let action = s.tick_at(&settings(true, "4:30"), &clock(date, 4, 30));
        assert_eq!(action, TickAction::CheckUpdate);
        assert_eq!(s.last_run_marker, Some(marker.to_string()));
        let day = chrono::NaiveDate::from_ymd_opt(date.0, date.1, date.2).unwrap();
        assert_eq!(day.format("%Y-%m-%d-04:30").to_string(), marker);
    }
}

#[test]
fn the_scheduler_looks_twice_a_minute() {
    assert_eq!(TICK_SECONDS, 30);
}

#[test]
fn the_scheduler_minds_its_settings() {
    let mut s = AutoUpdateScheduler::default();
    assert_eq!(s.tick_at(&settings(false, "4:30"), &clock((2026, 1, 2), 4, 30)), TickAction::Idle);
    assert_eq!(s.tick_at(&settings(true, "x"), &clock((2026, 1, 2), 4, 30)), TickAction::ReportInvalidTime);
    assert_eq!(s.last_run_marker, None);
}

#[test]
fn a_version_is_applied_once() {
    let mut s = AutoUpdateScheduler::new();
    assert!(s.wants(&found("1.1.0", true)));
    assert!(!s.wants(&found("1.1.0", false)));
    assert!(!s.wants(&found("", true)));
    s.apply_finished("1.1.0".to_string(), false);
    assert!(s.wants(&found("1.1.0", true)));
    s.apply_finished("1.1.0".to_string(), true);
    assert!(!s.wants(&found("1.1.0", true)));
    assert!(s.wants(&found("1.2.0", true)));
    s.apply_finished("1.2.0".to_string(), true);
    assert!(!s.wants(&found("1.1.0", true)));
    assert!(!s.wants(&found("1.2.0", true)));
    assert!(s.wants(&found("1.3.0", true)));
}

#[test]
fn the_scheduler_reads_the_clock_on_the_wall() {
    // One of the minutes of a day is the current one, so one tick in two days'
    // worth of minutes acts.
    let mut acted = false;
    for minute in 0..2880u32 {
        let time = format!("{}:{}", (minute / 60) % 24, minute % 60);
        let mut s = AutoUpdateScheduler::new();
        if s.tick(&settings(true, &time)) == TickAction::CheckUpdate {
            let marker = s.last_run_marker.unwrap();
            assert_eq!(marker.len(), 16);
            assert_eq!(&marker[10..11], "-");
            let parts: Vec<&str> = marker[..10].split('-').collect();
            let year: i32 = parts[0].parse().unwrap();
            let month: u32 = parts[1].parse().unwrap();
            let day: u32 = parts[2].parse().unwrap();
            assert!(chrono::NaiveDate::from_ymd_opt(year, month, day).is_some());
            assert_eq!(marker[11..], normalize_auto_apply_time(&time).unwrap());
            acted = true;
        }
    }
    assert!(acted);
}
