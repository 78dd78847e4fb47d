use pulse::models::{Monitor, STATUS_DOWN, STATUS_MAINTENANCE, STATUS_PENDING, STATUS_UP};
use pulse::notify::{build_embed, COLOR_DOWN, COLOR_MAINTENANCE, COLOR_PENDING, COLOR_UP};

fn monitor(url: Option<&str>) -> Monitor {
    Monitor {
        id: "m1".into(),
        name: "OxaDash".into(),
        monitor_type: "http".into(),
        url: url.map(String::from),
        hostname: None,
        port: None,
        interval_sec: 60,
        retries: 0,
        retry_interval_sec: 60,
        timeout_sec: 30,
        keyword: None,
        expected_status: None,
        method: None,
        headers: None,
        body: None,
        active: true,
        upside_down: false,
        max_redirects: 10,
        notification_ids: None,
        created_at: "2026-07-03T19:15:45.367708+00:00".into(),
    }
}

#[test]
fn embed_down_has_error_field_and_red_color() {
    let m = monitor(Some("https://oxadash.fr/"));
    let embed = build_embed(&m, STATUS_DOWN, "Request failed with status code 502", Some(120));
    assert_eq!(embed.color, COLOR_DOWN);
    assert!(embed.title.contains("went down"));
    let fields = &embed.fields;
    assert!(fields.iter().any(|f| f.name == "Service URL" && f.value == "https://oxadash.fr/"));
    assert!(fields.iter().any(|f| f.name == "Error" && f.value == "Request failed with status code 502"));
    assert!(!fields.iter().any(|f| f.name == "Ping"));
}

#[test]
fn embed_up_has_ping_field_and_green_color() {
    let m = monitor(Some("https://oxadash.fr/"));
    let embed = build_embed(&m, STATUS_UP, "200 OK", Some(1344));
    assert_eq!(embed.color, COLOR_UP);
    assert!(embed.title.contains("is up!"));
    let fields = &embed.fields;
    assert!(fields.iter().any(|f| f.name == "Ping" && f.value == "1344 ms"));
    assert!(!fields.iter().any(|f| f.name == "Error"));
}

#[test]
fn embed_falls_back_to_hostname_when_no_url() {
    let mut m = monitor(None);
    m.hostname = Some("db.internal".into());
    m.port = Some(5432);
    let embed = build_embed(&m, STATUS_DOWN, "connection refused", None);
    let fields = &embed.fields;
    assert!(fields.iter().any(|f| f.name == "Service URL" && f.value == "db.internal:5432"));
}

#[test]
fn embed_title_and_field_order() {
    let m = monitor(Some("https://oxadash.fr/"));
    let embed = build_embed(&m, STATUS_UP, "200 OK", Some(7));
    assert_eq!(embed.title, "✅ Your service OxaDash is up! ✅");
    let names: Vec<&str> = embed.fields.iter().map(|f| f.name.as_str()).collect();
    assert_eq!(names, vec!["Service Name", "Service URL", "Time (UTC)", "Ping"]);
    assert_eq!(embed.fields[0].value, "OxaDash");
    assert!(embed.fields[0].inline);
    assert!(!embed.fields[2].inline);
    assert!(!embed.fields[2].value.is_empty());
    assert!(!embed.timestamp.is_empty());
}

#[test]
fn embed_pending_and_maintenance_colors() {
    let m = monitor(None);
    let pending = build_embed(&m, STATUS_PENDING, "", None);
    assert_eq!(pending.color, COLOR_PENDING);
    assert_eq!(pending.title, "⏳ Your service OxaDash is pending. ⏳");
    let maint = build_embed(&m, STATUS_MAINTENANCE, "x", None);
    assert_eq!(maint.color, COLOR_MAINTENANCE);
    assert!(maint.title.contains("is under maintenance."));
    let other = build_embed(&m, 9, "x", None);
    assert_eq!(other.color, COLOR_PENDING);
    assert!(other.title.contains("status changed."));
    // no location, no ping, no error field for these
    let names: Vec<&str> = other.fields.iter().map(|f| f.name.as_str()).collect();
    assert_eq!(names, vec!["Service Name", "Time (UTC)"]);
}

#[test]
fn embed_down_with_empty_message_has_no_error_field() {
    let mut m = monitor(None);
    m.hostname = Some("db.internal".into());
    let embed = build_embed(&m, STATUS_DOWN, "", Some(3));
    assert!(!embed.fields.iter().any(|f| f.name == "Error"));
    assert!(!embed.fields.iter().any(|f| f.name == "Ping"));
    assert!(embed.fields.iter().any(|f| f.name == "Service URL" && f.value == "db.internal"));
}

#[test]
fn embed_time_texts_read_one_instant() {
    let m = monitor(Some("https://oxadash.fr/"));
    let embed = build_embed(&m, STATUS_UP, "200 OK", None);
    let clock: Vec<char> = embed.fields[2].value.chars().collect();
    let stamp: Vec<char> = embed.timestamp.chars().collect();
    assert_eq!(clock.len(), 19);
    for (i, c) in clock.iter().enumerate() {
        match i {
            4 | 7 => assert_eq!(*c, '-'),
            10 => assert_eq!(*c, ' '),
            13 | 16 => assert_eq!(*c, ':'),
            _ => assert!(c.is_ascii_digit()),
        }
        if i == 10 {
            assert_eq!(stamp[i], 'T');
        } else {
            assert_eq!(stamp[i], *c);
        }
    }
    assert!(embed.timestamp.ends_with("+00:00"));
}
