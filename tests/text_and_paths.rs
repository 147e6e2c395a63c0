use blink_sync::api::{
    clip_url, command_url, homescreen_url, login_url, manifest_request_url, manifest_url,
    media_changed_url, media_url, pin_body, pin_verify_url,
};
use blink_sync::classify::{classify, text_contains, Fault, Outcome};
use blink_sync::paths::{output_path, sanitize_timestamp};
use blink_sync::text::push_decimal;

#[test]
fn sanitize_replaces_every_colon() {
    assert_eq!(sanitize_timestamp("2024-01-02T03:04:05+00:00"), "2024-01-02T03-04-05+00-00");
    assert_eq!(sanitize_timestamp(""), "");
    assert_eq!(sanitize_timestamp(":::"), "---");
}

#[test]
fn colon_placement_does_not_collide() {
    assert_ne!(sanitize_timestamp("12:30"), sanitize_timestamp("1:230"));
    assert_ne!(sanitize_timestamp("T12:30:00"), sanitize_timestamp("T1:230:00"));
}

#[test]
fn colon_and_hyphen_collide() {
    assert_eq!(sanitize_timestamp("12:30"), sanitize_timestamp("12-30"));
}

#[test]
fn output_path_layout() {
    assert_eq!(
        output_path("downloads", "Home", "Front Door", "2024-01-02T03:04:05+00:00"),
        "downloads/Home_Front Door_2024-01-02T03-04-05+00-00.mp4"
    );
}

#[test]
fn decimal_rendering() {
    let mut s = String::from("n=");
    push_decimal(&mut s, 0);
    assert_eq!(s, "n=0");
    let mut t = String::new();
    push_decimal(&mut t, u64::MAX);
    assert_eq!(t, "18446744073709551615");
}

#[test]
fn classify_ok_returns_body() {
    assert_eq!(classify(Some(200), "{\"a\":1}"), Outcome::Success("{\"a\":1}".to_string()));
}

#[test]
fn classify_session_expiry() {
    assert_eq!(classify(Some(401), ""), Outcome::Failed(Fault::AuthExpired));
    assert_eq!(classify(Some(406), "whatever"), Outcome::Failed(Fault::AuthExpired));
}

#[test]
fn classify_pending_manifest() {
    let body = "{\"message\":\"Manifest command is in process\",\"code\":307}";
    assert_eq!(classify(Some(409), body), Outcome::Failed(Fault::Pending));
}

#[test]
fn classify_transient() {
    assert_eq!(classify(Some(500), "oops"), Outcome::Failed(Fault::Transient));
    assert_eq!(classify(Some(400), "bad"), Outcome::Failed(Fault::Transient));
    assert_eq!(classify(None, ""), Outcome::Failed(Fault::Transient));
}

#[test]
fn contains_finds_and_misses() {
    assert!(text_contains("abcabd", "abd"));
    assert!(text_contains("abc", ""));
    assert!(!text_contains("ab", "abc"));
    assert!(!text_contains("abcab", "abd"));
}

#[test]
fn endpoint_addresses() {
    let h = "rest-u011.immedia-semi.com";
    assert_eq!(login_url("rest-prod.immedia-semi.com"), "https://rest-prod.immedia-semi.com/api/v5/account/login");
    assert_eq!(pin_verify_url(h, 7, 42), "https://rest-u011.immedia-semi.com/api/v4/account/7/client/42/pin/verify");
    assert_eq!(
        media_changed_url(h, 7, "2024-01-01T00:00:00+00:00", 2),
        "https://rest-u011.immedia-semi.com/api/v1/accounts/7/media/changed?since=2024-01-01T00:00:00+00:00&page=2"
    );
    assert_eq!(media_url(h, "/api/v2/x.mp4"), "https://rest-u011.immedia-semi.com/api/v2/x.mp4");
    assert_eq!(homescreen_url(h, 7), "https://rest-u011.immedia-semi.com/api/v4/accounts/7/homescreen");
    assert_eq!(
        manifest_request_url(h, 7, 3, 9),
        "https://rest-u011.immedia-semi.com/api/v1/accounts/7/networks/3/sync_modules/9/local_storage/manifest/request"
    );
    assert_eq!(
        manifest_url(h, 7, 3, 9, 55),
        "https://rest-u011.immedia-semi.com/api/v1/accounts/7/networks/3/sync_modules/9/local_storage/manifest/55"
    );
    assert_eq!(
        clip_url(h, 7, 3, 9, 66, 1001),
        "https://rest-u011.immedia-semi.com/api/v1/accounts/7/networks/3/sync_modules/9/local_storage/manifest/66/clip/request/1001"
    );
    assert_eq!(command_url(h, 3, 77), "https://rest-u011.immedia-semi.com/network/3/command/77");
    assert_eq!(pin_body("1234"), "{\"pin\": 1234 }");
}
