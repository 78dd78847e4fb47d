use pulse::checks::{
    clamp_secs, connect_outcome, dns_outcome, is_important, keyword_outcome, method_token,
    plan_check, status_outcome, CheckPlan, CheckRun, CheckStep, ConnectKind, ConnectResult,
};
use pulse::models::{Monitor, STATUS_DOWN, STATUS_UP};

fn monitor(kind: &str) -> Monitor {
    Monitor {
        id: "m1".into(),
        name: "api".into(),
        monitor_type: kind.into(),
        url: Some("https://example.com/health".into()),
        hostname: Some("example.com".into()),
        port: Some(443),
        interval_sec: 60,
        retries: 0,
        retry_interval_sec: 30,
        timeout_sec: 10,
        keyword: None,
        expected_status: None,
        method: None,
        headers: None,
        body: None,
        active: true,
        upside_down: false,
        max_redirects: 10,
        notification_ids: None,
        created_at: "2026-07-03T19:15:45+00:00".into(),
    }
}

#[test]
fn http_plan_defaults_to_get_and_clamps_timeout() {
    let mut m = monitor("http");
    m.timeout_sec = 0;
    match plan_check(&m) {
        CheckPlan::Http { url, method, headers, timeout_secs, max_redirects, body, keyword, expected_status } => {
            assert_eq!(url, "https://example.com/health");
            assert_eq!(method, "GET");
            assert!(headers.is_empty());
            assert_eq!(max_redirects, 10);
            assert_eq!(timeout_secs, 1);
            assert_eq!(body, None);
            assert_eq!(keyword, None);
            assert_eq!(expected_status, None);
        }
        other => panic!("unexpected plan {:?}", other),
    }
}

#[test]
fn http_plan_keeps_valid_method_and_drops_invalid_one() {
    let mut m = monitor("json");
    m.method = Some("POST".into());
    m.body = Some("{}".into());
    match plan_check(&m) {
        CheckPlan::Http { method, body, .. } => {
            assert_eq!(method, "POST");
            assert_eq!(body, Some("{}".to_string()));
        }
        other => panic!("unexpected plan {:?}", other),
    }
    m.method = Some("NOT A METHOD".into());
    match plan_check(&m) {
        CheckPlan::Http { method, .. } => assert_eq!(method, "GET"),
        other => panic!("unexpected plan {:?}", other),
    }
    assert!(method_token("PROPFIND"));
    assert!(!method_token(""));
    assert!(!method_token("GÉT"));
}

#[test]
fn keyword_plan_carries_keyword_or_empty() {
    let mut m = monitor("keyword");
    m.keyword = Some("healthy".into());
    match plan_check(&m) {
        CheckPlan::Http { keyword, .. } => assert_eq!(keyword, Some("healthy".to_string())),
        other => panic!("unexpected plan {:?}", other),
    }
    m.keyword = None;
    match plan_check(&m) {
        CheckPlan::Http { keyword, .. } => assert_eq!(keyword, Some(String::new())),
        other => panic!("unexpected plan {:?}", other),
    }
}

fn fail_msg(p: CheckPlan) -> String {
    match p {
        CheckPlan::Fail { msg } => msg,
        other => panic!("expected failure, got {:?}", other),
    }
}

#[test]
fn missing_settings_fail_the_check() {
    let mut m = monitor("http");
    m.url = None;
    assert_eq!(fail_msg(plan_check(&m)), "missing url");
    let mut m = monitor("tcp");
    m.hostname = None;
    assert_eq!(fail_msg(plan_check(&m)), "missing hostname");
    let mut m = monitor("tcp");
    m.port = None;
    assert_eq!(fail_msg(plan_check(&m)), "missing port");
    let mut m = monitor("dns");
    m.hostname = None;
    assert_eq!(fail_msg(plan_check(&m)), "missing hostname");
    let m = monitor("smtp");
    assert_eq!(fail_msg(plan_check(&m)), "unknown monitor type");
}

#[test]
fn connect_plans_use_host_and_port() {
    let m = monitor("tcp");
    match plan_check(&m) {
        CheckPlan::Connect { addr, timeout_secs, kind } => {
            assert_eq!(addr, "example.com:443");
            assert_eq!(timeout_secs, 10);
            assert_eq!(kind, ConnectKind::Tcp);
        }
        other => panic!("unexpected plan {:?}", other),
    }
    let mut m = monitor("ping");
    m.port = None;
    match plan_check(&m) {
        CheckPlan::Connect { addr, kind, .. } => {
            assert_eq!(addr, "example.com:80");
            assert_eq!(kind, ConnectKind::Ping);
        }
        other => panic!("unexpected plan {:?}", other),
    }
    let m = monitor("dns");
    match plan_check(&m) {
        CheckPlan::Resolve { host } => assert_eq!(host, "example.com"),
        other => panic!("unexpected plan {:?}", other),
    }
}

#[test]
fn status_codes_are_judged() {
    assert_eq!(status_outcome(200, None), Ok("200 OK".to_string()));
    assert_eq!(status_outcome(204, None), Ok("204 OK".to_string()));
    assert_eq!(status_outcome(404, None), Err("expected 200, got 404".to_string()));
    assert_eq!(status_outcome(204, Some(200)), Err("expected 200, got 204".to_string()));
    assert_eq!(status_outcome(503, Some(503)), Ok("503 OK".to_string()));
    // the expected code is cut to 16 bits, as a u16 cast does
    assert_eq!(status_outcome(200, Some(65736)), Ok("200 OK".to_string()));
    assert_eq!(status_outcome(301, None), Err("expected 200, got 301".to_string()));
}

#[test]
fn keyword_is_searched_in_body() {
    assert_eq!(
        keyword_outcome(200, "healthy", "status: healthy\n"),
        Ok("200 OK, keyword found".to_string())
    );
    assert_eq!(
        keyword_outcome(500, "healthy", "status: down"),
        Err("keyword 'healthy' not found".to_string())
    );
    assert_eq!(keyword_outcome(200, "", "anything"), Ok("200 OK, keyword found".to_string()));
    assert_eq!(keyword_outcome(200, "é", "café"), Ok("200 OK, keyword found".to_string()));
    assert_eq!(keyword_outcome(200, "abc", "ab"), Err("keyword 'abc' not found".to_string()));
}

#[test]
fn connect_and_dns_outcomes() {
    assert_eq!(connect_outcome(ConnectKind::Tcp, ConnectResult::Connected), Ok("TCP connect OK".to_string()));
    assert_eq!(connect_outcome(ConnectKind::Ping, ConnectResult::Connected), Ok("host reachable".to_string()));
    assert_eq!(
        connect_outcome(ConnectKind::Tcp, ConnectResult::Failed { error: "refused".into() }),
        Err("refused".to_string())
    );
    assert_eq!(connect_outcome(ConnectKind::Ping, ConnectResult::TimedOut), Err("timeout".to_string()));
    assert_eq!(dns_outcome(&vec![]), Err("no records".to_string()));
    assert_eq!(
        dns_outcome(&vec!["1.2.3.4".to_string(), "::1".to_string()]),
        Ok("resolved: 1.2.3.4, ::1".to_string())
    );
}

#[test]
fn retries_stop_at_first_success() {
    let mut run = CheckRun::start(3, 0);
    assert_eq!(run.record(Err("boom".into()), 12), CheckStep::RetryAfter(1));
    assert_eq!(run.record(Ok("200 OK".into()), 34), CheckStep::Finished);
    let r = run.finish(false);
    assert_eq!(r.status, STATUS_UP);
    assert_eq!(r.msg, "200 OK");
    assert_eq!(r.ping_ms, Some(34));
}

#[test]
fn retries_run_out_after_retries_plus_one_attempts() {
    let mut run = CheckRun::start(2, 45);
    assert_eq!(run.record(Err("a".into()), 1), CheckStep::RetryAfter(45));
    assert_eq!(run.record(Err("b".into()), 2), CheckStep::RetryAfter(45));
    assert_eq!(run.record(Err("c".into()), 3), CheckStep::Finished);
    let r = run.finish(false);
    assert_eq!(r.status, STATUS_DOWN);
    assert_eq!(r.msg, "c");
    assert_eq!(r.ping_ms, Some(3));
}

#[test]
fn negative_retries_mean_one_attempt_and_upside_down_inverts() {
    let mut run = CheckRun::start(-5, 10);
    assert_eq!(run.record(Err("refused".into()), 7), CheckStep::Finished);
    let r = run.finish(true);
    assert_eq!(r.status, STATUS_UP);
    let mut run = CheckRun::start(0, 10);
    assert_eq!(run.record(Ok("ok".into()), 7), CheckStep::Finished);
    assert_eq!(run.finish(true).status, STATUS_DOWN);
}

#[test]
fn importance_follows_status_changes() {
    assert!(is_important(None, STATUS_UP));
    assert!(is_important(Some(STATUS_UP), STATUS_DOWN));
    assert!(!is_important(Some(STATUS_DOWN), STATUS_DOWN));
    assert_eq!(clamp_secs(-3), 1);
    assert_eq!(clamp_secs(300), 300);
}

#[test]
fn heartbeat_records_result() {
    let mut run = CheckRun::start(0, 1);
    run.record(Ok("200 OK".into()), 5);
    let rec = run.finish(false).conclude(Some(STATUS_DOWN), "h1".into(), "m1".into(), "t".into());
    let hb = rec.heartbeat;
    assert_eq!(hb.status, STATUS_UP);
    assert_eq!(hb.msg, Some("200 OK".to_string()));
    assert_eq!(hb.ping_ms, Some(5));
    assert!(hb.important);
    assert!(rec.notify);
    assert_eq!(hb.monitor_id, "m1");
    assert_eq!(hb.id, "h1");
    assert_eq!(hb.time, "t");
}

#[test]
fn unchanged_status_does_not_notify() {
    let mut run = CheckRun::start(0, 1);
    run.record(Err("refused".into()), 5);
    let rec = run.finish(false).conclude(Some(STATUS_DOWN), "h2".into(), "m1".into(), "t".into());
    assert!(!rec.heartbeat.important);
    assert!(!rec.notify);
    let mut run = CheckRun::start(0, 1);
    run.record(Err("refused".into()), 5);
    let rec = run.finish(false).conclude(None, "h3".into(), "m1".into(), "t".into());
    assert!(rec.notify);
}

#[test]
fn http_plan_carries_configured_headers_and_redirect_limit() {
    let mut m = monitor("http");
    m.headers = Some("{\"Authorization\": \"Bearer x\", \"Accept\": \"text/plain\"}".into());
    m.max_redirects = 3;
    match plan_check(&m) {
        CheckPlan::Http { headers, max_redirects, .. } => {
            assert_eq!(
                headers,
                vec![
                    ("Accept".to_string(), "text/plain".to_string()),
                    ("Authorization".to_string(), "Bearer x".to_string()),
                ]
            );
            assert_eq!(max_redirects, 3);
        }
        other => panic!("unexpected plan {:?}", other),
    }
    m.headers = Some("[1, 2]".into());
    m.max_redirects = -1;
    match plan_check(&m) {
        CheckPlan::Http { headers, max_redirects, .. } => {
            assert!(headers.is_empty());
            assert_eq!(max_redirects, 0);
        }
        other => panic!("unexpected plan {:?}", other),
    }
}

#[test]
fn maintenance_overrides_the_checked_status() {
    let mut run = CheckRun::start(0, 1);
    run.record(Err("refused".into()), 5);
    let r = run.finish(false).with_maintenance(true);
    assert_eq!(r.status, pulse::models::STATUS_MAINTENANCE);
    assert_eq!(r.msg, "refused");
    assert_eq!(r.ping_ms, Some(5));
    let rec = r.conclude(Some(STATUS_DOWN), "h".into(), "m1".into(), "t".into());
    assert_eq!(rec.heartbeat.status, pulse::models::STATUS_MAINTENANCE);
    assert!(rec.notify);
    let mut run = CheckRun::start(0, 1);
    run.record(Ok("200 OK".into()), 5);
    assert_eq!(run.finish(false).with_maintenance(false).status, STATUS_UP);
}
