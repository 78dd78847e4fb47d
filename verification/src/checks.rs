//! What one check of a monitor does: which probe it runs and with what
//! settings, how a probe's outcome reads, how failed attempts are retried,
//! and what the resulting heartbeat says.
use vstd::prelude::*;
use vstd::string::*;
use crate::models::{Heartbeat, Monitor, STATUS_DOWN, STATUS_MAINTENANCE, STATUS_UP};
use crate::text::{chars_of, contains_text, int_text, join_texts, joined, owned, push_int, same_text, text_contains, texts};

verus! {

/// `x`, or 1 when `x` is below 1: intervals and timeouts are at least one second.
pub open spec fn at_least_one(x: i64) -> int {
    if x < 1 {
        1
    } else {
        x as int
    }
}

/// Seconds to wait or allow, never below one.
pub fn clamp_secs(x: i64) -> (r: u64)
    ensures
        r == at_least_one(x),
{
    if x < 1 {
        1
    } else {
        x as u64
    }
}

/// Whether `c` may stand in an HTTP method token.
pub open spec fn is_method_char(c: char) -> bool {
    ||| ('0' <= c && c <= '9')
    ||| ('a' <= c && c <= 'z')
    ||| ('A' <= c && c <= 'Z')
    ||| c == '!' || c == '#' || c == '$' || c == '%' || c == '&' || c == '\''
    ||| c == '*' || c == '+' || c == '-' || c == '.' || c == '^' || c == '_'
    ||| c == '`' || c == '|' || c == '~'
}

/// Whether `s` is a method name that an HTTP request can carry: a non-empty
/// token of method characters.
pub open spec fn is_method_token(s: Seq<char>) -> bool {
    &&& s.len() > 0
    &&& forall|i: int| 0 <= i < s.len() ==> is_method_char(#[trigger] s[i])
}

fn method_char(c: char) -> (r: bool)
    ensures
        r == is_method_char(c),
{
    ('0' <= c && c <= '9') || ('a' <= c && c <= 'z') || ('A' <= c && c <= 'Z') || c == '!' || c
        == '#' || c == '$' || c == '%' || c == '&' || c == '\'' || c == '*' || c == '+' || c == '-'
        || c == '.' || c == '^' || c == '_' || c == '`' || c == '|' || c == '~'
}

/// Whether `s` is a usable HTTP method name.
pub fn method_token(s: &str) -> (r: bool)
    ensures
        r == is_method_token(s@),
{
    let cs = chars_of(s);
    if cs.len() == 0 {
        return false;
    }
    let mut i: usize = 0;
    while i < cs.len()
        invariant
            cs@ == s@,
            i <= cs@.len(),
            forall|k: int| 0 <= k < i ==> is_method_char(#[trigger] s@[k]),
        decreases cs@.len() - i,
    {
        if !method_char(cs[i]) {
            return false;
        }
        i = i + 1;
    }
    true
}

/// The method an HTTP check sends: the monitor's own when it is a valid
/// method name, `GET` otherwise.
pub open spec fn request_method(method: Option<String>) -> Seq<char> {
    match method {
        Some(m) => if is_method_token(m@) {
            m@
        } else {
            "GET"@
        },
        None => "GET"@,
    }
}

/// What `serde_json::from_str::<BTreeMap<String, String>>` reads from
/// `text`: the (name, value) entries of the JSON object of strings it holds,
/// in ascending order of name, or nothing when `text` is not such an object.
pub uninterp spec fn json_string_object(text: Seq<char>) -> Option<Seq<(Seq<char>, Seq<char>)>>;

/// The views of a list of (name, value) pairs.
pub open spec fn header_views(pairs: Seq<(String, String)>) -> Seq<(Seq<char>, Seq<char>)> {
    pairs.map_values(|p: (String, String)| (p.0@, p.1@))
}

/// Calls `serde_json::from_str::<BTreeMap<String, String>>` on `text` and
/// lists the map's entries, dropping the error. The contract names the
/// entries and claims no more of them: JSON's grammar is serde_json's to check.
#[verifier::external_body]
fn parse_string_object(text: &str) -> (r: Option<Vec<(String, String)>>)
    ensures
        match r {
            Some(v) => json_string_object(text@) == Some(header_views(v@)),
            None => json_string_object(text@) is None,
        },
{
    match serde_json::from_str::<std::collections::BTreeMap<String, String>>(text) {
        Ok(m) => Some(m.into_iter().collect()),
        Err(_) => None,
    }
}

/// The headers an HTTP check sends: the entries of the monitor's `headers`
/// text, a JSON object of strings; none when it has no such text or the
/// text is not such an object.
pub open spec fn request_headers(headers: Option<String>) -> Seq<(Seq<char>, Seq<char>)> {
    match headers {
        Some(h) => match json_string_object(h@) {
            Some(v) => v,
            None => Seq::empty(),
        },
        None => Seq::empty(),
    }
}

/// The number of redirects an HTTP check follows: the monitor's limit, or
/// none when the limit is negative.
pub open spec fn redirect_limit(max_redirects: i64) -> int {
    if max_redirects < 0 {
        0
    } else {
        max_redirects as int
    }
}

/// The text of `o`, or the empty text.
pub open spec fn text_or_empty(o: Option<String>) -> Seq<char> {
    match o {
        Some(s) => s@,
        None => Seq::empty(),
    }
}

/// How a check of some kind is carried out.
#[derive(Debug, Clone)]
pub enum CheckPlan {
    /// Send an HTTP request carrying each of `headers` (name, value) and
    /// following at most `max_redirects` redirects. With `keyword` present the
    /// body must contain it; otherwise the response status is judged against
    /// `expected_status`.
    Http {
        url: String,
        method: String,
        headers: Vec<(String, String)>,
        timeout_secs: u64,
        max_redirects: u64,
        body: Option<String>,
        keyword: Option<String>,
        expected_status: Option<i64>,
    },
    /// Open a TCP connection to `addr` (`host:port`).
    Connect { addr: String, timeout_secs: u64, kind: ConnectKind },
    /// Resolve `host`.
    Resolve { host: String },
    /// The check fails at once with this message.
    Fail { msg: String },
}

/// Which check a TCP connection serves; it decides the success message.
#[derive(Debug, Clone, Copy, PartialEq, Eq, Structural)]
pub enum ConnectKind {
    Tcp,
    Ping,
}

/// The `host:port` text of an address.
pub open spec fn host_port(host: Seq<char>, port: int) -> Seq<char> {
    host + ":"@ + int_text(port)
}

/// Whether `p` is the way to check `m`: the probe its type calls for, with
/// the monitor's settings, or an immediate failure naming what is missing.
pub open spec fn is_plan_for(m: Monitor, p: CheckPlan) -> bool {
    let t = m.monitor_type@;
    if t == "http"@ || t == "keyword"@ || t == "json"@ {
        match m.url {
            None => p is Fail && p->msg@ == "missing url"@,
            Some(u) => {
                &&& p is Http
                &&& p->url@ == u@
                &&& p->method@ == request_method(m.method)
                &&& header_views(p->headers@) == request_headers(m.headers)
                &&& p->max_redirects == redirect_limit(m.max_redirects)
                &&& p->Http_timeout_secs == at_least_one(m.timeout_sec)
                &&& p->body == m.body
                &&& (if t == "keyword"@ {
                    p->keyword is Some && p->keyword->0@ == text_or_empty(m.keyword)
                } else {
                    p->keyword is None
                })
                &&& p->expected_status == m.expected_status
            },
        }
    } else if t == "tcp"@ || t == "ping"@ {
        match m.hostname {
            None => p is Fail && p->msg@ == "missing hostname"@,
            Some(h) => if t == "tcp"@ && m.port is None {
                p is Fail && p->msg@ == "missing port"@
            } else {
                let port = match m.port {
                    Some(n) => n as int,
                    None => 80,
                };
                &&& p is Connect
                &&& p->addr@ == host_port(h@, port)
                &&& p->Connect_timeout_secs == at_least_one(m.timeout_sec)
                &&& p->kind == (if t == "tcp"@ {
                    ConnectKind::Tcp
                } else {
                    ConnectKind::Ping
                })
            },
        }
    } else if t == "dns"@ {
        match m.hostname {
            None => p is Fail && p->msg@ == "missing hostname"@,
            Some(h) => p is Resolve && p->host@ == h@,
        }
    } else {
        p is Fail && p->msg@ == "unknown monitor type"@
    }
}

fn fail_with(msg: &str) -> (p: CheckPlan)
    ensures
        p is Fail,
        p->msg@ == msg@,
{
    CheckPlan::Fail { msg: owned(msg) }
}

/// Decides how to check `m`: an HTTP request for `http`, `keyword` and
/// `json` monitors, a TCP connection for `tcp` and `ping` (port 80 by default
/// for `ping`), a DNS lookup for `dns`, and an immediate failure when a
/// needed setting is missing or the type is unknown.
pub fn plan_check(m: &Monitor) -> (p: CheckPlan)
    ensures
        is_plan_for(*m, p),
{
    let t = m.monitor_type.as_str();
    let is_keyword = same_text(t, "keyword");
    if same_text(t, "http") || is_keyword || same_text(t, "json") {
        match &m.url {
            None => fail_with("missing url"),
            Some(u) => {
                let method = match &m.method {
                    Some(s) => if method_token(s.as_str()) {
                        s.clone()
                    } else {
                        owned("GET")
                    },
                    None => owned("GET"),
                };
                let keyword = if is_keyword {
                    match &m.keyword {
                        Some(k) => Some(k.clone()),
                        None => Some(String::new()),
                    }
                } else {
                    None
                };
                let headers = match &m.headers {
                    Some(h) => match parse_string_object(h.as_str()) {
                        Some(v) => v,
                        None => {
                            let v: Vec<(String, String)> = Vec::new();
                            assert(header_views(v@) =~= Seq::empty());
                            v
                        },
                    },
                    None => {
                        let v: Vec<(String, String)> = Vec::new();
                        assert(header_views(v@) =~= Seq::empty());
                        v
                    },
                };
                let max_redirects: u64 = if m.max_redirects < 0 {
                    0
                } else {
                    m.max_redirects as u64
                };
                CheckPlan::Http {
                    url: u.clone(),
                    method,
                    headers,
                    timeout_secs: clamp_secs(m.timeout_sec),
                    max_redirects,
                    body: m.body.clone(),
                    keyword,
                    expected_status: m.expected_status,
                }
            },
        }
    } else if same_text(t, "tcp") || same_text(t, "ping") {
        let is_tcp = same_text(t, "tcp");
        match &m.hostname {
            None => fail_with("missing hostname"),
            Some(h) => {
                if is_tcp && m.port.is_none() {
                    fail_with("missing port")
                } else {
                    let port: i64 = match m.port {
                        Some(n) => n,
                        None => 80,
                    };
                    let mut addr = h.clone();
                    addr.append(":");
                    push_int(&mut addr, port);
                    CheckPlan::Connect {
                        addr,
                        timeout_secs: clamp_secs(m.timeout_sec),
                        kind: if is_tcp {
                            ConnectKind::Tcp
                        } else {
                            ConnectKind::Ping
                        },
                    }
                }
            },
        }
    } else if same_text(t, "dns") {
        match &m.hostname {
            None => fail_with("missing hostname"),
            Some(h) => CheckPlan::Resolve { host: h.clone() },
        }
    } else {
        fail_with("unknown monitor type")
    }
}

/// An HTTP monitor whose configured method is made of ASCII letters and
/// digits (GET, HEAD, POST, PUT, DELETE, PATCH, OPTIONS, CONNECT, TRACE, or
/// any other such name) is checked with exactly that method; one with no
/// method or an empty one is checked with GET.
pub proof fn lemma_configured_method_is_sent(m: Monitor, p: CheckPlan)
    requires
        is_plan_for(m, p),
        m.monitor_type@ == "http"@ || m.monitor_type@ == "keyword"@ || m.monitor_type@ == "json"@,
        m.url is Some,
    ensures
        m.method is Some ==> {
            let s = m.method->0@;
            (s.len() > 0 && forall|i: int|
                0 <= i < s.len() ==> ('A' <= #[trigger] s[i] && s[i] <= 'Z') || ('a' <= s[i] && s[i]
                    <= 'z') || ('0' <= s[i] && s[i] <= '9')) ==> p->method@ == s
        },
        m.method is None ==> p->method@ == "GET"@,
        m.method is Some && m.method->0@.len() == 0 ==> p->method@ == "GET"@,
{
}

/// The status code an HTTP check expects: the monitor's own, cut to 16
/// bits, or 200.
pub open spec fn expected_code(expected_status: Option<i64>) -> u16 {
    match expected_status {
        Some(e) => e as u16,
        None => 200,
    }
}

/// Whether `code` is a success code (200 to 299).
pub open spec fn is_success_code(code: u16) -> bool {
    200 <= code && code < 300
}

/// Whether a response with `code` passes: it is the expected code, or no
/// code was set and it is a success code.
pub open spec fn status_passes(code: u16, expected_status: Option<i64>) -> bool {
    code == expected_code(expected_status) || (expected_status is None && is_success_code(code))
}

/// With an expected status set, a response passes exactly when its code is
/// that status cut to 16 bits; with none set, exactly when its code is
/// between 200 and 299.
pub proof fn lemma_status_judgement(code: u16, expected_status: Option<i64>)
    ensures
        expected_status matches Some(e) ==> (status_passes(code, expected_status) <==> code == (e as u16)),
        expected_status is None ==> (status_passes(code, expected_status) <==> (200 <= code && code <= 299)),
{
}

/// Judges the status code of an HTTP response: `"<code> OK"` when it passes,
/// `"expected <e>, got <code>"` otherwise.
pub fn status_outcome(code: u16, expected_status: Option<i64>) -> (r: Result<String, String>)
    ensures
        r is Ok <==> status_passes(code, expected_status),
        r matches Ok(s) ==> s@ == int_text(code as int) + " OK"@,
        r matches Err(s) ==> s@ == "expected "@ + int_text(expected_code(expected_status) as int)
            + ", got "@ + int_text(code as int),
{
    let expected: u16 = match expected_status {
        Some(e) => e as u16,
        None => 200,
    };
    if code == expected || (expected_status.is_none() && 200 <= code && code < 300) {
        let mut s = String::new();
        push_int(&mut s, code as i64);
        s.append(" OK");
        assert(s@ =~= int_text(code as int) + " OK"@);
        Ok(s)
    } else {
        let mut s = owned("expected ");
        push_int(&mut s, expected as i64);
        s.append(", got ");
        push_int(&mut s, code as i64);
        Err(s)
    }
}

/// Judges the body of a keyword check: `"<code> OK, keyword found"` when the
/// body contains `keyword`, `"keyword '<keyword>' not found"` otherwise.
pub fn keyword_outcome(code: u16, keyword: &str, body: &str) -> (r: Result<String, String>)
    ensures
        r is Ok <==> contains_text(body@, keyword@),
        r matches Ok(s) ==> s@ == int_text(code as int) + " OK, keyword found"@,
        r matches Err(s) ==> s@ == "keyword '"@ + keyword@ + "' not found"@,
{
    if text_contains(body, keyword) {
        let mut s = String::new();
        push_int(&mut s, code as i64);
        s.append(" OK, keyword found");
        assert(s@ =~= int_text(code as int) + " OK, keyword found"@);
        Ok(s)
    } else {
        let mut s = owned("keyword '");
        s.append(keyword);
        s.append("' not found");
        Err(s)
    }
}

/// A keyword check whose keyword is empty (none was set) always finds it.
pub proof fn lemma_empty_keyword_always_found(body: Seq<char>)
    ensures
        contains_text(body, Seq::<char>::empty()),
{
    assert(body.subrange(0, 0) =~= Seq::<char>::empty());
    assert(crate::text::occurs_at(body, Seq::<char>::empty(), 0));
}

/// How an attempt to open a TCP connection ended.
#[derive(Debug, Clone)]
pub enum ConnectResult {
    Connected,
    Failed { error: String },
    TimedOut,
}

/// Judges a TCP connection attempt: a connection is success (`"TCP connect
/// OK"` for a TCP check, `"host reachable"` for a ping check), an error
/// fails with its own text, and running out of time fails with `"timeout"`.
pub fn connect_outcome(kind: ConnectKind, result: ConnectResult) -> (r: Result<String, String>)
    ensures
        r is Ok <==> result is Connected,
        r matches Ok(s) ==> s@ == (if kind == ConnectKind::Tcp {
            "TCP connect OK"@
        } else {
            "host reachable"@
        }),
        result matches ConnectResult::Failed { error } ==> (r matches Err(s) && s@ == error@),
        result is TimedOut ==> (r matches Err(s) && s@ == "timeout"@),
{
    match result {
        ConnectResult::Connected => match kind {
            ConnectKind::Tcp => Ok(owned("TCP connect OK")),
            ConnectKind::Ping => Ok(owned("host reachable")),
        },
        ConnectResult::Failed { error } => Err(error),
        ConnectResult::TimedOut => Err(owned("timeout")),
    }
}

/// Judges a DNS lookup by the addresses it returned: none fails with
/// `"no records"`, otherwise `"resolved: "` and the addresses joined by `", "`.
pub fn dns_outcome(addresses: &Vec<String>) -> (r: Result<String, String>)
    ensures
        r is Ok <==> addresses@.len() > 0,
        r matches Ok(s) ==> s@ == "resolved: "@ + joined(texts(addresses@), ", "@),
        r matches Err(s) ==> s@ == "no records"@,
{
    if addresses.len() == 0 {
        Err(owned("no records"))
    } else {
        let mut s = owned("resolved: ");
        let list = join_texts(addresses, ", ");
        s.append(list.as_str());
        Ok(s)
    }
}

/// The status after the upside-down setting is applied: an up result reads
/// as down and any other as up.
pub open spec fn flipped(status: i64, upside_down: bool) -> i64 {
    if upside_down {
        if status == STATUS_UP {
            STATUS_DOWN
        } else {
            STATUS_UP
        }
    } else {
        status
    }
}

/// What the caller of a check does next.
#[derive(Debug, Clone, Copy, PartialEq, Eq, Structural)]
pub enum CheckStep {
    /// Wait this many seconds, then make the next attempt.
    RetryAfter(u64),
    /// The check is over; read its result.
    Finished,
}

/// The result of a check before it is stored.
#[derive(Debug, Clone)]
pub struct CheckResult {
    pub status: i64,
    pub msg: String,
    pub ping_ms: Option<i64>,
}

/// One check of a monitor in progress: attempts are made until one
/// succeeds or `retries + 1` have been made, with a pause between them.
pub struct CheckRun {
    max_attempts: i64,
    retry_delay_secs: u64,
    attempts: i64,
    status: i64,
    msg: String,
    ping_ms: Option<i64>,
    outcomes: Ghost<Seq<bool>>,
}

impl CheckRun {
    /// Whether each attempt so far succeeded, in order.
    pub closed spec fn outcomes(&self) -> Seq<bool> {
        self.outcomes@
    }

    /// The number of attempts the check may make.
    pub closed spec fn max_attempts(&self) -> int {
        self.max_attempts as int
    }

    /// The seconds waited between attempts.
    pub closed spec fn retry_delay(&self) -> int {
        self.retry_delay_secs as int
    }

    /// The attempts made so far.
    pub closed spec fn attempts(&self) -> int {
        self.attempts as int
    }

    /// The status of the latest attempt (down before the first).
    pub closed spec fn status(&self) -> i64 {
        self.status
    }

    /// The message of the latest attempt (empty before the first).
    pub closed spec fn msg(&self) -> Seq<char> {
        self.msg@
    }

    /// The duration of the latest attempt (none before the first).
    pub closed spec fn ping_ms(&self) -> Option<i64> {
        self.ping_ms
    }

    /// Whether no further attempt is made: the latest succeeded, or all
    /// allowed attempts have been made.
    pub open spec fn is_finished(&self) -> bool {
        self.status() == STATUS_UP || self.attempts() == self.max_attempts()
    }

    /// The run's internal consistency.
    pub open spec fn wf(&self) -> bool {
        &&& 1 <= self.max_attempts()
        &&& 0 <= self.attempts() <= self.max_attempts()
        &&& self.status() == STATUS_UP || self.status() == STATUS_DOWN
        &&& self.status() == STATUS_UP ==> self.attempts() >= 1
        &&& self.retry_delay() >= 1
        &&& self.outcomes().len() == self.attempts()
        &&& self.attempts() > 0 ==> (self.status() == STATUS_UP <==> self.outcomes().last())
        &&& forall|i: int| 0 <= i < self.attempts() - 1 ==> !#[trigger] self.outcomes()[i]
    }

    /// Starts a check of a monitor with these settings: `max(retries, 0) + 1`
    /// attempts at most, `max(retry_interval_sec, 1)` seconds apart.
    pub fn start(retries: i64, retry_interval_sec: i64) -> (run: CheckRun)
        requires
            retries < i64::MAX,
        ensures
            run.wf(),
            run.max_attempts() == (if retries < 0 { 0 } else { retries as int }) + 1,
            run.retry_delay() == at_least_one(retry_interval_sec),
            run.attempts() == 0,
            run.status() == STATUS_DOWN,
            run.msg() == Seq::<char>::empty(),
            run.ping_ms() is None,
            run.outcomes() == Seq::<bool>::empty(),
            !run.is_finished(),
    {
        let base: i64 = if retries < 0 {
            0
        } else {
            retries
        };
        CheckRun {
            max_attempts: base + 1,
            retry_delay_secs: clamp_secs(retry_interval_sec),
            attempts: 0,
            status: STATUS_DOWN,
            msg: String::new(),
            ping_ms: None,
            outcomes: Ghost(Seq::empty()),
        }
    }

    /// Records the outcome of an attempt that took `elapsed_ms`: a success
    /// ends the check as up; a failure leaves it down and either asks for
    /// another attempt after the retry delay or, when no attempt is left,
    /// ends it.
    pub fn record(&mut self, outcome: Result<String, String>, elapsed_ms: i64) -> (step: CheckStep)
        requires
            old(self).wf(),
            !old(self).is_finished(),
        ensures
            final(self).wf(),
            final(self).max_attempts() == old(self).max_attempts(),
            final(self).retry_delay() == old(self).retry_delay(),
            final(self).attempts() == old(self).attempts() + 1,
            final(self).ping_ms() == Some(elapsed_ms),
            final(self).outcomes() == old(self).outcomes().push(outcome is Ok),
            match outcome {
                Ok(text) => final(self).status() == STATUS_UP && final(self).msg() == text@,
                Err(text) => final(self).status() == STATUS_DOWN && final(self).msg() == text@,
            },
            step == (if final(self).is_finished() {
                CheckStep::Finished
            } else {
                CheckStep::RetryAfter(old(self).retry_delay() as u64)
            }),
    {
        self.attempts = self.attempts + 1;
        self.ping_ms = Some(elapsed_ms);
        self.outcomes = Ghost(self.outcomes@.push(outcome is Ok));
        match outcome {
            Ok(text) => {
                self.status = STATUS_UP;
                self.msg = text;
            },
            Err(text) => {
                self.status = STATUS_DOWN;
                self.msg = text;
            },
        }
        if self.status == STATUS_UP || self.attempts == self.max_attempts {
            CheckStep::Finished
        } else {
            CheckStep::RetryAfter(self.retry_delay_secs)
        }
    }

    /// The result of a finished check, with the upside-down setting applied.
    pub fn finish(self, upside_down: bool) -> (r: CheckResult)
        requires
            self.wf(),
            self.is_finished(),
        ensures
            r.status == flipped(self.status(), upside_down),
            r.msg@ == self.msg(),
            r.ping_ms == self.ping_ms(),
    {
        let status = if upside_down {
            if self.status == STATUS_UP {
                STATUS_DOWN
            } else {
                STATUS_UP
            }
        } else {
            self.status
        };
        CheckResult { status, msg: self.msg, ping_ms: self.ping_ms }
    }
}

/// A finished check ended at its first successful attempt, every earlier
/// attempt having failed, or made all `retries + 1` attempts, all of which
/// failed; it reads as up exactly in the first case.
pub proof fn lemma_finished_check(run: &CheckRun)
    requires
        run.wf(),
        run.is_finished(),
    ensures
        run.attempts() >= 1,
        run.outcomes().len() == run.attempts(),
        forall|i: int| 0 <= i < run.attempts() - 1 ==> !#[trigger] run.outcomes()[i],
        run.status() == STATUS_UP <==> run.outcomes().last(),
        run.status() == STATUS_DOWN ==> run.attempts() == run.max_attempts() && forall|i: int|
            0 <= i < run.attempts() ==> !#[trigger] run.outcomes()[i],
{
}

/// Applying the upside-down setting twice to an up or down status gives it back.
pub proof fn lemma_upside_down_twice(status: i64)
    requires
        status == STATUS_UP || status == STATUS_DOWN,
    ensures
        flipped(flipped(status, true), true) == status,
        flipped(status, false) == status,
        flipped(status, true) != status,
{
}

/// Whether a heartbeat with `status` is important: it is the monitor's first,
/// or its status differs from the previous one. Notifications are sent for
/// important heartbeats only.
pub fn is_important(previous: Option<i64>, status: i64) -> (r: bool)
    ensures
        r == (previous != Some(status)),
{
    match previous {
        Some(p) => p != status,
        None => true,
    }
}

impl CheckResult {
    /// The result as stored for a monitor that is (or is not) under
    /// maintenance: a monitor under maintenance reads as maintenance, keeping
    /// the check's message and time; otherwise the result is unchanged.
    pub fn with_maintenance(self, under_maintenance: bool) -> (r: CheckResult)
        ensures
            r.status == (if under_maintenance {
                STATUS_MAINTENANCE
            } else {
                self.status
            }),
            r.msg == self.msg,
            r.ping_ms == self.ping_ms,
    {
        if under_maintenance {
            CheckResult { status: STATUS_MAINTENANCE, msg: self.msg, ping_ms: self.ping_ms }
        } else {
            self
        }
    }
}

/// A monitor that an active maintenance window lists, at a moment between
/// the window's start and end, gets a heartbeat with the maintenance status;
/// outside every such window its status is the check's own.
pub proof fn lemma_maintenance_status(
    windows: Seq<crate::models::MaintenanceWindow>,
    id: Seq<char>,
    now: Seq<char>,
    checked: i64,
    stored: i64,
)
    requires
        stored == (if crate::pages::under_maintenance(windows, id, now) {
            STATUS_MAINTENANCE
        } else {
            checked
        }),
    ensures
        forall|i: int|
            0 <= i < windows.len() && #[trigger] crate::pages::window_covers(windows[i], id, now)
                ==> stored == STATUS_MAINTENANCE,
        !crate::pages::under_maintenance(windows, id, now) ==> stored == checked,
{
}

/// A stored check: its heartbeat, and whether the monitor's channels are
/// notified.
#[derive(Debug, Clone)]
pub struct CheckRecord {
    pub heartbeat: Heartbeat,
    pub notify: bool,
}

impl CheckResult {
    /// Concludes a check whose monitor's previous heartbeat had status
    /// `previous`: the heartbeat records the result and is important when
    /// the status changed (or there was none before), and the channels are
    /// notified exactly for important heartbeats.
    pub fn conclude(
        self,
        previous: Option<i64>,
        id: String,
        monitor_id: String,
        time: String,
    ) -> (r: CheckRecord)
        ensures
            r.heartbeat.id == id,
            r.heartbeat.monitor_id == monitor_id,
            r.heartbeat.status == self.status,
            r.heartbeat.msg == Some(self.msg),
            r.heartbeat.ping_ms == self.ping_ms,
            r.heartbeat.important == (previous != Some(self.status)),
            r.heartbeat.time == time,
            r.notify == r.heartbeat.important,
    {
        let important = is_important(previous, self.status);
        let heartbeat = Heartbeat {
            id,
            monitor_id,
            status: self.status,
            msg: Some(self.msg),
            ping_ms: self.ping_ms,
            important,
            time,
        };
        CheckRecord { heartbeat, notify: important }
    }
}

/// Channels are notified when, and only when, a monitor's status differs
/// from that of its previous heartbeat; a monitor's first heartbeat always
/// notifies.
pub proof fn lemma_notify_on_change(previous: Option<i64>, status: i64, notify: bool)
    requires
        notify == (previous != Some(status)),
    ensures
        previous is None ==> notify,
        previous matches Some(p) ==> (notify <==> p != status),
{
}

} // verus!
