//! The records the service stores and serves: monitors, heartbeats,
//! notification channels, status pages and maintenance windows.
use vstd::prelude::*;
use crate::text::same_text;

verus! {

/// The kinds of check a monitor can run.
#[derive(Debug, Clone, Copy, PartialEq, Eq, Structural)]
pub enum MonitorType {
    Http,
    Tcp,
    Ping,
    Dns,
    Keyword,
    Json,
}

/// The name under which a monitor kind is stored and sent.
pub open spec fn kind_name(t: MonitorType) -> Seq<char> {
    match t {
        MonitorType::Http => "http"@,
        MonitorType::Tcp => "tcp"@,
        MonitorType::Ping => "ping"@,
        MonitorType::Dns => "dns"@,
        MonitorType::Keyword => "keyword"@,
        MonitorType::Json => "json"@,
    }
}

/// The kind that a stored name stands for; a name that is none of the
/// known ones stands for an HTTP check.
pub open spec fn kind_of_name(s: Seq<char>) -> MonitorType {
    if s == "tcp"@ {
        MonitorType::Tcp
    } else if s == "ping"@ {
        MonitorType::Ping
    } else if s == "dns"@ {
        MonitorType::Dns
    } else if s == "keyword"@ {
        MonitorType::Keyword
    } else if s == "json"@ {
        MonitorType::Json
    } else {
        MonitorType::Http
    }
}

impl MonitorType {
    /// The name of this kind: `http`, `tcp`, `ping`, `dns`, `keyword` or `json`.
    pub fn as_str(&self) -> (s: &'static str)
        ensures
            s@ == kind_name(*self),
    {
        match self {
            MonitorType::Http => "http",
            MonitorType::Tcp => "tcp",
            MonitorType::Ping => "ping",
            MonitorType::Dns => "dns",
            MonitorType::Keyword => "keyword",
            MonitorType::Json => "json",
        }
    }

    /// The kind named by `s`; any unknown name gives `Http`.
    pub fn from_str(s: &str) -> (t: Self)
        ensures
            t == kind_of_name(s@),
    {
        if same_text(s, "tcp") {
            MonitorType::Tcp
        } else if same_text(s, "ping") {
            MonitorType::Ping
        } else if same_text(s, "dns") {
            MonitorType::Dns
        } else if same_text(s, "keyword") {
            MonitorType::Keyword
        } else if same_text(s, "json") {
            MonitorType::Json
        } else {
            MonitorType::Http
        }
    }
}

/// Reading back the name of a kind gives that kind again.
pub proof fn lemma_type_name_round_trip(t: MonitorType)
    ensures
        kind_of_name(kind_name(t)) == t,
{
    reveal_strlit("http");
    reveal_strlit("tcp");
    reveal_strlit("ping");
    reveal_strlit("dns");
    reveal_strlit("keyword");
    reveal_strlit("json");
    assert("http"@[0] != "ping"@[0]);
    assert("http"@[0] != "json"@[0]);
    assert("ping"@[0] != "json"@[0]);
    assert("tcp"@[0] != "dns"@[0]);
    assert("http"@.len() != "tcp"@.len());
    assert("http"@.len() != "dns"@.len());
    assert("http"@.len() != "keyword"@.len());
    assert("ping"@.len() != "tcp"@.len());
    assert("ping"@.len() != "dns"@.len());
    assert("ping"@.len() != "keyword"@.len());
    assert("json"@.len() != "tcp"@.len());
    assert("json"@.len() != "dns"@.len());
    assert("json"@.len() != "keyword"@.len());
    assert("tcp"@.len() != "keyword"@.len());
    assert("dns"@.len() != "keyword"@.len());
}

/// A monitor as stored: what to check, how often, and what to do about it.
/// Times are RFC 3339 texts.
#[derive(Debug, Clone)]
pub struct Monitor {
    pub id: String,
    pub name: String,
    pub monitor_type: String,
    pub url: Option<String>,
    pub hostname: Option<String>,
    pub port: Option<i64>,
    pub interval_sec: i64,
    pub retries: i64,
    pub retry_interval_sec: i64,
    pub timeout_sec: i64,
    pub keyword: Option<String>,
    pub expected_status: Option<i64>,
    pub method: Option<String>,
    pub headers: Option<String>,
    pub body: Option<String>,
    pub active: bool,
    pub upside_down: bool,
    pub max_redirects: i64,
    pub notification_ids: Option<String>,
    pub created_at: String,
}

/// The body of a request that creates or replaces a monitor.
#[derive(Debug, Clone)]
pub struct CreateMonitor {
    pub name: String,
    pub monitor_type: String,
    pub url: Option<String>,
    pub hostname: Option<String>,
    pub port: Option<i64>,
    pub interval_sec: i64,
    pub retries: i64,
    pub retry_interval_sec: i64,
    pub timeout_sec: i64,
    pub keyword: Option<String>,
    pub expected_status: Option<i64>,
    pub method: Option<String>,
    pub headers: Option<String>,
    pub body: Option<String>,
    pub active: bool,
    pub upside_down: bool,
    pub max_redirects: i64,
    pub notification_ids: Option<String>,
}

/// Seconds between checks when a request names none.
pub fn default_interval() -> (r: i64)
    ensures
        r == 60,
{
    60
}

/// Seconds between retries when a request names none.
pub fn default_retry_interval() -> (r: i64)
    ensures
        r == 60,
{
    60
}

/// Seconds a check may take when a request names none.
pub fn default_timeout() -> (r: i64)
    ensures
        r == 30,
{
    30
}

/// Flags such as `active` and `published` are on unless a request says otherwise.
pub fn default_true() -> (r: bool)
    ensures
        r,
{
    true
}

/// Redirects followed when a request names no limit.
pub fn default_redirects() -> (r: i64)
    ensures
        r == 10,
{
    10
}

/// Whether `c` has every setting at the value a request gets when it names
/// only the monitor's name and type.
pub open spec fn has_default_settings(c: CreateMonitor) -> bool {
    &&& c.url is None
    &&& c.hostname is None
    &&& c.port is None
    &&& c.interval_sec == 60
    &&& c.retries == 0
    &&& c.retry_interval_sec == 60
    &&& c.timeout_sec == 30
    &&& c.keyword is None
    &&& c.expected_status is None
    &&& c.method is None
    &&& c.headers is None
    &&& c.body is None
    &&& c.active
    &&& !c.upside_down
    &&& c.max_redirects == 10
    &&& c.notification_ids is None
}

impl CreateMonitor {
    /// A request that names only the monitor's name and type: every other
    /// setting takes its default.
    pub fn new(name: String, monitor_type: String) -> (c: CreateMonitor)
        ensures
            c.name == name,
            c.monitor_type == monitor_type,
            has_default_settings(c),
    {
        CreateMonitor {
            name,
            monitor_type,
            url: None,
            hostname: None,
            port: None,
            interval_sec: default_interval(),
            retries: 0,
            retry_interval_sec: default_retry_interval(),
            timeout_sec: default_timeout(),
            keyword: None,
            expected_status: None,
            method: None,
            headers: None,
            body: None,
            active: default_true(),
            upside_down: false,
            max_redirects: default_redirects(),
            notification_ids: None,
        }
    }
}

/// A monitor is down.
pub const STATUS_DOWN: i64 = 0;

/// A monitor is up.
pub const STATUS_UP: i64 = 1;

/// Nothing is known of a monitor yet.
pub const STATUS_PENDING: i64 = 2;

/// A monitor is under maintenance.
pub const STATUS_MAINTENANCE: i64 = 3;

/// The record of one check of a monitor.
#[derive(Debug, Clone)]
pub struct Heartbeat {
    pub id: String,
    pub monitor_id: String,
    pub status: i64,
    pub msg: Option<String>,
    pub ping_ms: Option<i64>,
    pub important: bool,
    pub time: String,
}

/// A notification channel; `config` is a JSON object whose keys depend on
/// `notif_type` (webhook, discord, slack or telegram).
#[derive(Debug, Clone)]
pub struct Notification {
    pub id: String,
    pub name: String,
    pub notif_type: String,
    pub config: String,
    pub active: bool,
}

/// The body of a request that creates a notification channel; `config` is
/// the JSON text of the channel's configuration.
#[derive(Debug, Clone)]
pub struct CreateNotification {
    pub name: String,
    pub notif_type: String,
    pub config: String,
    pub active: bool,
}

/// A public status page; `monitor_ids` is a JSON array of monitor ids.
#[derive(Debug, Clone)]
pub struct StatusPage {
    pub id: String,
    pub slug: String,
    pub title: String,
    pub description: Option<String>,
    pub monitor_ids: String,
    pub published: bool,
}

/// The body of a request that creates a status page.
#[derive(Debug, Clone)]
pub struct CreateStatusPage {
    pub slug: String,
    pub title: String,
    pub description: Option<String>,
    pub monitor_ids: Vec<String>,
    pub published: bool,
}

/// A maintenance window; `monitor_ids` is a JSON array of monitor ids and
/// the times are RFC 3339 texts.
#[derive(Debug, Clone)]
pub struct MaintenanceWindow {
    pub id: String,
    pub title: String,
    pub monitor_ids: String,
    pub start_time: String,
    pub end_time: String,
    pub active: bool,
}

/// Whether `c` is a lower-case hexadecimal digit.
pub open spec fn is_lower_hex(c: char) -> bool {
    ('0' <= c && c <= '9') || ('a' <= c && c <= 'f')
}

/// Whether `s` is the hyphenated lower-case text of a random (version 4,
/// RFC 4122 variant) UUID: 36 characters, hyphens at positions 8, 13, 18
/// and 23, hexadecimal digits elsewhere, the version digit `4` at position
/// 14 and one of `8`, `9`, `a`, `b` at position 19.
pub open spec fn is_uuid_v4_text(s: Seq<char>) -> bool {
    &&& s.len() == 36
    &&& forall|i: int|
        0 <= i < 36 ==> if i == 8 || i == 13 || i == 18 || i == 23 {
            s[i] == '-'
        } else {
            is_lower_hex(#[trigger] s[i])
        }
    &&& s[14] == '4'
    &&& (s[19] == '8' || s[19] == '9' || s[19] == 'a' || s[19] == 'b')
}

/// Calls `uuid::Uuid::new_v4` and renders it with `to_string`. The uuid
/// crate draws 128 random bits, fixes the version nibble to 4 and the
/// variant bits to `10`, and its `Display` writes the hyphenated lower-case
/// form; the contract claims exactly that shape and nothing of the bits.
#[verifier::external_body]
fn random_uuid_text() -> (s: String)
    ensures
        is_uuid_v4_text(s@),
{
    uuid::Uuid::new_v4().to_string()
}

/// A fresh random identifier for a stored record.
pub fn new_id() -> (id: String)
    ensures
        is_uuid_v4_text(id@),
{
    random_uuid_text()
}

} // verus!
