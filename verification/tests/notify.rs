use pulse::models::{Monitor, STATUS_DOWN, STATUS_PENDING, STATUS_UP};
use pulse::notify::{
    discord_message, notification_targets, plan_notification, read_notify_config, summary_text,
    NotifyConfig, Payload,
};

fn monitor() -> Monitor {
    Monitor {
        id: "m1".into(),
        name: "My API".into(),
        monitor_type: "http".into(),
        url: Some("https://example.com".into()),
        hostname: None,
        port: None,
        interval_sec: 60,
        retries: 0,
        retry_interval_sec: 60,
        timeout_sec: 30,
        keyword: None,
        expected_status: None,
        method: None,
        headers: None,
        body: None,
        active: true,
        upside_down: false,
        max_redirects: 10,
        notification_ids: Some("[\"n1\",\"n2\"]".into()),
        created_at: "2026-07-03T19:15:45+00:00".into(),
    }
}

fn config() -> NotifyConfig {
    NotifyConfig {
        url: None,
        webhook_url: None,
        bot_token: None,
        chat_id: None,
        content: None,
        username: None,
        avatar_url: None,
        use_embed: None,
    }
}

#[test]
fn monitors_name_their_channels() {
    let mut m = monitor();
    assert_eq!(notification_targets(&m), vec!["n1".to_string(), "n2".to_string()]);
    m.notification_ids = None;
    assert!(notification_targets(&m).is_empty());
    m.notification_ids = Some("garbage".into());
    assert!(notification_targets(&m).is_empty());
}

#[test]
fn summary_line() {
    let m = monitor();
    assert_eq!(summary_text(&m, STATUS_UP, "200 OK"), "[Pulse] My API is UP - 200 OK");
    assert_eq!(summary_text(&m, STATUS_PENDING, "x"), "[Pulse] My API is DOWN - x");
}

#[test]
fn webhook_request() {
    let m = monitor();
    let mut cfg = config();
    assert_eq!(
        plan_notification("webhook", &cfg, &m, STATUS_DOWN, "boom", None).unwrap_err(),
        "missing url"
    );
    cfg.url = Some("https://hooks.example/x".into());
    let post = plan_notification("webhook", &cfg, &m, STATUS_DOWN, "boom", None).unwrap();
    assert_eq!(post.url, "https://hooks.example/x");
    match post.payload {
        Payload::Webhook { monitor, status, msg } => {
            assert_eq!(monitor, "My API");
            assert_eq!(status, "DOWN");
            assert_eq!(msg, "boom");
        }
        other => panic!("unexpected payload {:?}", other),
    }
}

#[test]
fn slack_and_telegram_requests() {
    let m = monitor();
    let mut cfg = config();
    assert_eq!(
        plan_notification("slack", &cfg, &m, STATUS_UP, "200 OK", Some(5)).unwrap_err(),
        "missing webhook_url"
    );
    cfg.webhook_url = Some("https://hooks.slack.com/x".into());
    let post = plan_notification("slack", &cfg, &m, STATUS_UP, "200 OK", Some(5)).unwrap();
    assert_eq!(post.url, "https://hooks.slack.com/x");
    match post.payload {
        Payload::Slack { text } => assert_eq!(text, "[Pulse] My API is UP - 200 OK"),
        other => panic!("unexpected payload {:?}", other),
    }
    cfg.bot_token = Some("SECRET-REDACTED".into());
    assert_eq!(
        plan_notification("telegram", &cfg, &m, STATUS_UP, "200 OK", None).unwrap_err(),
        "missing bot_token/chat_id"
    );
    cfg.chat_id = Some("42".into());
    let post = plan_notification("telegram", &cfg, &m, STATUS_UP, "200 OK", None).unwrap();
    assert_eq!(post.url, "https://api.telegram.org/botSECRET-REDACTED/sendMessage");
    match post.payload {
        Payload::Telegram { chat_id, text } => {
            assert_eq!(chat_id, "42");
            assert_eq!(text, "[Pulse] My API is UP - 200 OK");
        }
        other => panic!("unexpected payload {:?}", other),
    }
    assert_eq!(
        plan_notification("email", &cfg, &m, STATUS_UP, "", None).unwrap_err(),
        "unsupported notif type email"
    );
}

#[test]
fn discord_embed_by_default_plain_text_when_disabled() {
    let m = monitor();
    let mut cfg = config();
    assert_eq!(
        discord_message(&cfg, &m, STATUS_DOWN, "boom", None, "fallback").unwrap_err(),
        "missing webhook_url"
    );
    cfg.webhook_url = Some("https://discord.com/api/webhooks/1".into());
    let (url, d) = discord_message(&cfg, &m, STATUS_DOWN, "boom", None, "fallback").unwrap();
    assert_eq!(url, "https://discord.com/api/webhooks/1");
    assert!(d.embed.is_some());
    assert_eq!(d.content, None);
    cfg.content = Some("<@&123456789012345678>".into());
    cfg.username = Some("Pulse".into());
    cfg.avatar_url = Some("https://example.com/icon.png".into());
    let (_, d) = discord_message(&cfg, &m, STATUS_DOWN, "boom", None, "fallback").unwrap();
    assert_eq!(d.content, Some("<@&123456789012345678>".to_string()));
    assert_eq!(d.username, Some("Pulse".to_string()));
    assert_eq!(d.avatar_url, Some("https://example.com/icon.png".to_string()));
    cfg.content = None;
    cfg.use_embed = Some(false);
    let (_, d) = discord_message(&cfg, &m, STATUS_DOWN, "boom", None, "fallback").unwrap();
    assert!(d.embed.is_none());
    assert_eq!(d.content, Some("fallback".to_string()));
    let post = plan_notification("discord", &cfg, &m, STATUS_DOWN, "boom", None).unwrap();
    match post.payload {
        Payload::Discord(d) => assert_eq!(d.content, Some("[Pulse] My API is DOWN - boom".to_string())),
        other => panic!("unexpected payload {:?}", other),
    }
}

#[test]
fn channel_configuration_is_read_from_its_json_text() {
    let c = read_notify_config(
        "{\"webhook_url\": \"https://discord.com/api/webhooks/1\", \"content\": \"@here\", \"use_embed\": false, \"username\": 7}",
    );
    assert_eq!(c.webhook_url, Some("https://discord.com/api/webhooks/1".to_string()));
    assert_eq!(c.content, Some("@here".to_string()));
    assert_eq!(c.use_embed, Some(false));
    assert_eq!(c.username, None);
    assert_eq!(c.url, None);
    let t = read_notify_config("{\"bot_token\": \"SECRET-REDACTED\", \"chat_id\": \"42\", \"url\": \"https://x\"}");
    assert_eq!(t.bot_token, Some("SECRET-REDACTED".to_string()));
    assert_eq!(t.chat_id, Some("42".to_string()));
    assert_eq!(t.url, Some("https://x".to_string()));
    assert_eq!(t.use_embed, None);
    let bad = read_notify_config("not json");
    assert!(bad.url.is_none() && bad.webhook_url.is_none() && bad.use_embed.is_none());
}
