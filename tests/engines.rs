use blink_sync::action::{Action, CycleEnd};
use blink_sync::classify::Fault;
use blink_sync::cloud::{CloudEvent, CloudItem, CloudPhase, CloudSync};
use blink_sync::local::{LocalClip, LocalEvent, LocalPhase, LocalSync, Network, SyncModule};
use blink_sync::session::{next_step, settings, Part, Step};

const HOST: &str = "rest-u011.immedia-semi.com";
const SINCE: &str = "2023-11-14T22:03:20+00:00";

fn item(media: &str, created: &str, deleted: bool) -> CloudItem {
    CloudItem {
        media: media.to_string(),
        created_at: created.to_string(),
        network_name: "Home".to_string(),
        device_name: "Door".to_string(),
        deleted,
    }
}

fn list_url(page: u64) -> String {
    format!("https://{}/api/v1/accounts/7/media/changed?since={}&page={}", HOST, SINCE, page)
}

fn cloud() -> (CloudSync, Action) {
    CloudSync::start(HOST.to_string(), 7, SINCE.to_string(), "downloads".to_string())
}

fn finish(end: CycleEnd, delay_secs: u64) -> Action {
    Action::Finish { end, delay_secs }
}

#[test]
fn cloud_cycle_one_deleted_one_new() {
    let (mut c, a) = cloud();
    assert_eq!(a, Action::Get { url: list_url(1), delay_secs: 0 });
    let page = vec![item("/old.mp4", "2024-01-01T00:00:00", true), item("/new.mp4", "2024-01-01T00:01:00", false)];
    let a = c.step(CloudEvent::Page(page));
    let path = "downloads/Home_Door_2024-01-01T00-01-00.mp4".to_string();
    assert_eq!(a, Action::Probe { path: path.clone() });
    let a = c.step(CloudEvent::Exists(false));
    assert_eq!(a, Action::Download { url: format!("https://{}/new.mp4", HOST), path });
    let a = c.step(CloudEvent::Saved);
    assert_eq!(a, Action::Get { url: list_url(2), delay_secs: 0 });
    let a = c.step(CloudEvent::Page(vec![]));
    assert_eq!(a, finish(CycleEnd::Completed, 0));
    assert_eq!(c.phase(), CloudPhase::Done);
    let s = settings("e".to_string(), "p".to_string(), None, None, None, None, false, false);
    assert_eq!(next_step(Part::Cloud, CycleEnd::Completed, &s), Step::NextCycle { delay_secs: 120 });
}

#[test]
fn cloud_second_cycle_downloads_nothing() {
    let (mut c, _) = cloud();
    let page = vec![item("/a.mp4", "t1", false), item("/b.mp4", "t2", false)];
    let mut actions = vec![c.step(CloudEvent::Page(page))];
    actions.push(c.step(CloudEvent::Exists(true)));
    actions.push(c.step(CloudEvent::Exists(true)));
    actions.push(c.step(CloudEvent::Page(vec![])));
    assert!(actions.iter().all(|a| !matches!(a, Action::Download { .. })));
    assert_eq!(actions[3], finish(CycleEnd::Completed, 0));
}

#[test]
fn cloud_deleted_only_page_moves_on() {
    let (mut c, _) = cloud();
    let a = c.step(CloudEvent::Page(vec![item("/gone.mp4", "t", true)]));
    assert_eq!(a, Action::Get { url: list_url(2), delay_secs: 0 });
}

#[test]
fn cloud_unauthorized_download_stops_cycle() {
    let (mut c, _) = cloud();
    c.step(CloudEvent::Page(vec![item("/a.mp4", "t1", false), item("/b.mp4", "t2", false)]));
    c.step(CloudEvent::Exists(false));
    let a = c.step(CloudEvent::Failed(Fault::AuthExpired));
    assert_eq!(a, finish(CycleEnd::Reauthenticate, 0));
    assert_eq!(c.phase(), CloudPhase::Done);
    let s = settings("e".to_string(), "p".to_string(), None, None, None, None, false, true);
    assert_eq!(next_step(Part::Cloud, CycleEnd::Reauthenticate, &s), Step::Relogin { delay_secs: 120 });
}

#[test]
fn cloud_listing_failures() {
    let (mut c, _) = cloud();
    assert_eq!(c.step(CloudEvent::Failed(Fault::Transient)), finish(CycleEnd::Completed, 0));
    let (mut d, _) = cloud();
    assert_eq!(d.step(CloudEvent::Failed(Fault::AuthExpired)), finish(CycleEnd::Reauthenticate, 0));
}

#[test]
fn cloud_download_retries_nine_times() {
    let (mut c, _) = cloud();
    c.step(CloudEvent::Page(vec![item("/a.mp4", "t1", false), item("/b.mp4", "t2", false)]));
    let first = c.step(CloudEvent::Exists(false));
    for _ in 1..9 {
        assert_eq!(c.step(CloudEvent::Failed(Fault::Transient)), first);
    }
    let a = c.step(CloudEvent::Failed(Fault::Transient));
    assert_eq!(a, Action::Probe { path: "downloads/Home_Door_t2.mp4".to_string() });
}

#[test]
fn cloud_accepts_only_expected_events() {
    let (c, _) = cloud();
    assert!(c.accepts(&CloudEvent::Page(vec![])));
    assert!(!c.accepts(&CloudEvent::Saved));
    assert!(!c.accepts(&CloudEvent::Exists(true)));
}

fn storage(net: u64, module: u64) -> String {
    format!("https://{}/api/v1/accounts/7/networks/{}/sync_modules/{}/local_storage/", HOST, net, module)
}

fn tree() -> LocalEvent {
    LocalEvent::Tree(
        vec![Network { id: 3, name: "Cabin".to_string() }],
        vec![
            SyncModule { id: 8, network_id: 3, local_storage_status: "disabled".to_string() },
            SyncModule { id: 9, network_id: 3, local_storage_status: "active".to_string() },
            SyncModule { id: 10, network_id: 4, local_storage_status: "active".to_string() },
        ],
    )
}

fn clip(id: u64, created: &str) -> LocalClip {
    LocalClip { id, device_name: "Cam".to_string(), created_at: created.to_string() }
}

fn local_at_manifest_poll() -> LocalSync {
    let (mut l, a) = LocalSync::start(HOST.to_string(), 7, "downloads".to_string());
    assert_eq!(a, Action::Get { url: format!("https://{}/api/v4/accounts/7/homescreen", HOST), delay_secs: 0 });
    let a = l.step(tree());
    assert_eq!(a, Action::Post { url: format!("{}manifest/request", storage(3, 9)), delay_secs: 0 });
    let a = l.step(LocalEvent::Job(55));
    assert_eq!(a, Action::Get { url: format!("{}manifest/55", storage(3, 9)), delay_secs: 2 });
    l
}

#[test]
fn local_full_clip_handshake() {
    let mut l = local_at_manifest_poll();
    let a = l.step(LocalEvent::Manifest(66, vec![clip(1001, "2024-01-01T10:00:00")]));
    let path = "downloads/Cabin_Cam_2024-01-01T10-00-00.mp4".to_string();
    assert_eq!(a, Action::Probe { path: path.clone() });
    let clip_addr = format!("{}manifest/66/clip/request/1001", storage(3, 9));
    assert_eq!(l.step(LocalEvent::Exists(false)), Action::Post { url: clip_addr.clone(), delay_secs: 0 });
    let cmd = format!("https://{}/network/3/command/77", HOST);
    assert_eq!(l.step(LocalEvent::Job(77)), Action::Get { url: cmd.clone(), delay_secs: 2 });
    assert_eq!(l.step(LocalEvent::Status(false)), Action::Get { url: cmd, delay_secs: 2 });
    assert_eq!(l.step(LocalEvent::Status(true)), Action::Download { url: clip_addr, path });
    // next module: network 4 is not listed, so the name falls back
    let a = l.step(LocalEvent::Saved);
    assert_eq!(a, Action::Post { url: format!("{}manifest/request", storage(4, 10)), delay_secs: 0 });
    l.step(LocalEvent::Job(56));
    let a = l.step(LocalEvent::Manifest(67, vec![clip(2, "t")]));
    assert_eq!(a, Action::Probe { path: "downloads/unknown_Cam_t.mp4".to_string() });
    l.step(LocalEvent::Exists(true));
    assert_eq!(l.phase(), LocalPhase::Done);
}

#[test]
fn local_upload_request_fails_three_times() {
    let mut l = local_at_manifest_poll();
    l.step(LocalEvent::Manifest(66, vec![clip(1001, "a"), clip(1002, "b")]));
    let first = l.step(LocalEvent::Exists(false));
    assert_eq!(l.step(LocalEvent::Failed(Fault::Transient)), first);
    assert_eq!(l.step(LocalEvent::Failed(Fault::Transient)), first);
    let a = l.step(LocalEvent::Failed(Fault::Transient));
    assert_eq!(a, finish(CycleEnd::Completed, 10));
    assert_eq!(l.phase(), LocalPhase::Done);
    // the next cycle starts fresh from the device tree and the manifest request
    let mut next = local_at_manifest_poll();
    assert_eq!(next.phase(), LocalPhase::ManifestPoll);
    let a = next.step(LocalEvent::Failed(Fault::Pending));
    assert_eq!(a, Action::Get { url: format!("{}manifest/55", storage(3, 9)), delay_secs: 5 });
}

#[test]
fn local_auth_expiry_halts_all_modules() {
    let mut l = local_at_manifest_poll();
    l.step(LocalEvent::Manifest(66, vec![clip(1001, "a")]));
    l.step(LocalEvent::Exists(false));
    l.step(LocalEvent::Job(77));
    let a = l.step(LocalEvent::Failed(Fault::AuthExpired));
    assert_eq!(a, finish(CycleEnd::Reauthenticate, 0));
    assert_eq!(l.step(LocalEvent::Saved), finish(CycleEnd::Reauthenticate, 0));
}

#[test]
fn local_pending_manifest_keeps_polling() {
    let mut l = local_at_manifest_poll();
    for _ in 0..50 {
        let a = l.step(LocalEvent::Failed(Fault::Pending));
        assert_eq!(a, Action::Get { url: format!("{}manifest/55", storage(3, 9)), delay_secs: 5 });
        assert_eq!(l.phase(), LocalPhase::ManifestPoll);
    }
}

#[test]
fn local_manifest_failures() {
    let mut l = local_at_manifest_poll();
    assert_eq!(l.step(LocalEvent::Undecodable), finish(CycleEnd::Fatal, 0));
    let mut m = local_at_manifest_poll();
    assert_eq!(m.step(LocalEvent::Failed(Fault::Transient)), finish(CycleEnd::Reauthenticate, 0));
}

#[test]
fn local_upload_never_completes() {
    let mut l = local_at_manifest_poll();
    l.step(LocalEvent::Manifest(66, vec![clip(1, "a"), clip(2, "b")]));
    l.step(LocalEvent::Exists(false));
    l.step(LocalEvent::Job(77));
    for _ in 1..6 {
        l.step(LocalEvent::Status(false));
    }
    let a = l.step(LocalEvent::Status(false));
    assert_eq!(a, Action::Probe { path: "downloads/Cabin_Cam_b.mp4".to_string() });
}

#[test]
fn local_no_modules() {
    let (mut l, _) = LocalSync::start(HOST.to_string(), 7, "downloads".to_string());
    assert_eq!(l.step(LocalEvent::Tree(vec![], vec![])), finish(CycleEnd::Completed, 0));
    let (mut m, _) = LocalSync::start(HOST.to_string(), 7, "downloads".to_string());
    assert_eq!(m.step(LocalEvent::Failed(Fault::AuthExpired)), finish(CycleEnd::Reauthenticate, 0));
}
