use blink_sync::action::CycleEnd;
use blink_sync::clock::{current_watermark, watermark_at};
use blink_sync::device::device_id;
use blink_sync::session::{
    after_login, login_body, login_host, next_step, region_host, settings, LoginNext, Part, Step,
};

fn defaults() -> blink_sync::session::Settings {
    settings("a@b.c".to_string(), "pw".to_string(), None, None, None, None, false, false)
}

#[test]
fn settings_defaults() {
    let s = defaults();
    assert_eq!(s.wait_secs, 120);
    assert_eq!(s.since_minutes, 10);
    assert_eq!(s.folder, "downloads");
    assert!(s.cloud_downloads);
    assert!(!s.local_downloads);
    assert_eq!(s.domain, None);
}

#[test]
fn settings_given_values() {
    let s = settings(
        "a@b.c".to_string(),
        "pw".to_string(),
        Some("example.org".to_string()),
        Some(30),
        Some(60),
        Some("clips".to_string()),
        true,
        true,
    );
    assert_eq!(s.wait_secs, 30);
    assert_eq!(s.since_minutes, 60);
    assert_eq!(s.folder, "clips");
    assert!(!s.cloud_downloads);
    assert!(s.local_downloads);
}

#[test]
fn hosts_from_tier_or_override() {
    assert_eq!(login_host(&None), "rest-prod.immedia-semi.com");
    assert_eq!(region_host(&None, "u011"), "rest-u011.immedia-semi.com");
    let o = Some("proxy.local".to_string());
    assert_eq!(login_host(&o), "proxy.local");
    assert_eq!(region_host(&o, "u011"), "proxy.local");
}

#[test]
fn login_body_is_escaped_json() {
    assert_eq!(
        login_body("a@b.c", "p\"w", "ABC"),
        "{\"email\":\"a@b.c\",\"password\":\"p\\\"w\",\"reauth\":true,\"unique_id\":\"ABC\"}"
    );
}

#[test]
fn login_outcomes() {
    assert_eq!(after_login(Some(200), true, 120), LoginNext::Proceed);
    assert_eq!(after_login(None, true, 120), LoginNext::Retry { delay_secs: 120 });
    assert_eq!(after_login(Some(401), true, 120), LoginNext::Exit);
    assert_eq!(after_login(Some(500), false, 120), LoginNext::Retry { delay_secs: 120 });
}

#[test]
fn cycle_steps() {
    let s = defaults();
    assert_eq!(next_step(Part::Start, CycleEnd::Completed, &s), Step::SyncCloud);
    assert_eq!(next_step(Part::Cloud, CycleEnd::Completed, &s), Step::NextCycle { delay_secs: 120 });
    assert_eq!(next_step(Part::Cloud, CycleEnd::Reauthenticate, &s), Step::Relogin { delay_secs: 120 });
    assert_eq!(next_step(Part::Local, CycleEnd::Fatal, &s), Step::Stop);
    let both = settings("e".to_string(), "p".to_string(), None, None, None, None, false, true);
    assert_eq!(next_step(Part::Cloud, CycleEnd::Completed, &both), Step::SyncLocal);
    let local_only = settings("e".to_string(), "p".to_string(), None, None, None, None, true, true);
    assert_eq!(next_step(Part::Start, CycleEnd::Completed, &local_only), Step::SyncLocal);
}

#[test]
fn watermark_is_ten_minutes_back() {
    // 1700000000 is 2023-11-14T22:13:20Z
    assert_eq!(watermark_at(1700000000, 0, 10), Some("2023-11-14T22:03:20+00:00".to_string()));
    assert_eq!(watermark_at(1700000000, 500_000_000, 0), Some("2023-11-14T22:13:20.500+00:00".to_string()));
}

#[test]
fn watermark_out_of_range() {
    assert_eq!(watermark_at(i64::MIN, 0, 1), None);
    assert_eq!(watermark_at(0, 0, u64::MAX), None);
}

#[test]
fn current_watermark_is_rfc3339() {
    let w = current_watermark(10).unwrap();
    assert!(w.ends_with("+00:00"));
    assert_eq!(&w[4..5], "-");
}

#[test]
fn device_id_kept_or_fresh() {
    assert_eq!(device_id(Some("KEEP".to_string())), ("KEEP".to_string(), false));
    let (id, fresh) = device_id(None);
    assert!(fresh);
    assert_eq!(id.len(), 36);
    assert_eq!(id.to_uppercase(), id);
    assert_eq!(id.chars().filter(|c| *c == '-').count(), 4);
}
