use pulse::id_lists::{decode_ids, encode_ids};
use pulse::models::{CreateNotification, CreateStatusPage, Monitor, STATUS_DOWN, STATUS_PENDING};
use pulse::pages::{
    maintenance_applies, window_applies, new_maintenance_window, new_notification, new_status_page, page_monitor_ids, status_entry,
    window_monitor_ids,
};

fn monitor() -> Monitor {
    Monitor {
        id: "m1".into(),
        name: "My API".into(),
        monitor_type: "http".into(),
        url: None,
        hostname: None,
        port: None,
        interval_sec: 60,
        retries: 0,
        retry_interval_sec: 60,
        timeout_sec: 30,
        keyword: None,
        expected_status: None,
        method: None,
        headers: None,
        body: None,
        active: true,
        upside_down: false,
        max_redirects: 10,
        notification_ids: None,
        created_at: "2026-07-03T19:15:45+00:00".into(),
    }
}

#[test]
fn id_lists_are_json_arrays() {
    let ids = vec!["a".to_string(), "b\"c".to_string()];
    let text = encode_ids(&ids);
    assert_eq!(text, "[\"a\",\"b\\\"c\"]");
    assert_eq!(decode_ids(&text), ids);
    assert_eq!(decode_ids("[\"x\", \"y\"]"), vec!["x".to_string(), "y".to_string()]);
    assert_eq!(decode_ids("not json"), Vec::<String>::new());
    assert_eq!(decode_ids("[1,2]"), Vec::<String>::new());
    assert_eq!(encode_ids(&vec![]), "[]");
}

#[test]
fn status_page_lists_the_monitors_it_was_created_with() {
    let input = CreateStatusPage {
        slug: "public".into(),
        title: "Service Status".into(),
        description: Some("Live status".into()),
        monitor_ids: vec!["id1".into(), "id2".into()],
        published: true,
    };
    let page = new_status_page("p1".into(), input);
    assert_eq!(page.id, "p1");
    assert_eq!(page.slug, "public");
    assert!(page.published);
    assert_eq!(page.monitor_ids, "[\"id1\",\"id2\"]");
    assert_eq!(page_monitor_ids(&page), vec!["id1".to_string(), "id2".to_string()]);
}

#[test]
fn monitors_without_heartbeats_show_pending() {
    let m = monitor();
    let e = status_entry(&m, None);
    assert_eq!(e.status, STATUS_PENDING);
    assert_eq!(e.name, "My API");
    assert_eq!(e.id, "m1");
    assert_eq!(status_entry(&m, Some(STATUS_DOWN)).status, STATUS_DOWN);
}

#[test]
fn maintenance_windows_and_channels_are_stored_as_given() {
    let w = new_maintenance_window(
        "w1".into(),
        "Scheduled DB migration".into(),
        &vec!["id1".to_string()],
        "2026-07-10T02:00:00Z".into(),
        "2026-07-10T04:00:00Z".into(),
    );
    assert!(w.active);
    assert_eq!(w.monitor_ids, "[\"id1\"]");
    assert_eq!(window_monitor_ids(&w), vec!["id1".to_string()]);
    let n = new_notification(
        "n1".into(),
        CreateNotification {
            name: "team-discord".into(),
            notif_type: "discord".into(),
            config: "{\"webhook_url\":\"https://x\"}".into(),
            active: true,
        },
    );
    assert_eq!(n.notif_type, "discord");
    assert_eq!(n.config, "{\"webhook_url\":\"https://x\"}");
}

#[test]
fn monitors_inside_an_active_window_are_under_maintenance() {
    let w = new_maintenance_window(
        "w1".into(),
        "Scheduled DB migration".into(),
        &vec!["id1".to_string(), "id2".to_string()],
        "2026-07-10T02:00:00Z".into(),
        "2026-07-10T04:00:00Z".into(),
    );
    assert!(window_applies(&w, "id1", "2026-07-10T03:00:00.5+00:00"));
    assert!(window_applies(&w, "id2", "2026-07-10T02:00:00Z"));
    assert!(window_applies(&w, "id2", "2026-07-10T04:00:00Z"));
    assert!(window_applies(&w, "id1", "2026-07-10T05:30:00+02:00"));
    assert!(!window_applies(&w, "id1", "2026-07-10T04:00:00.000001Z"));
    assert!(!window_applies(&w, "id1", "2026-07-10T01:59:59Z"));
    assert!(!window_applies(&w, "id3", "2026-07-10T03:00:00Z"));
    assert!(!window_applies(&w, "id1", "not a time"));
    let mut off = w.clone();
    off.active = false;
    assert!(!window_applies(&off, "id1", "2026-07-10T03:00:00Z"));
    let windows = vec![off, w];
    assert!(maintenance_applies(&windows, "id2", "2026-07-10T03:00:00Z"));
    assert!(!maintenance_applies(&windows, "id2", "2026-07-11T03:00:00Z"));
    assert!(!maintenance_applies(&vec![], "id2", "2026-07-10T03:00:00Z"));
}
