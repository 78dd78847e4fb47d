//! Notifications sent when a monitor's status changes: which channels a
//! monitor names, and the request each kind of channel (webhook, Discord,
//! Slack, Telegram) is sent.
use vstd::prelude::*;
use vstd::string::*;
use crate::checks::host_port;
use crate::id_lists::{decode_ids, stored_ids};
use crate::models::{Monitor, STATUS_DOWN, STATUS_MAINTENANCE, STATUS_PENDING, STATUS_UP};
use crate::text::{int_text, owned, push_int, same_text, texts};

verus! {

/// Embed colour of an up monitor (green).
pub const COLOR_UP: i64 = 0x2ECC71;

/// Embed colour of a down monitor (red).
pub const COLOR_DOWN: i64 = 0xE74C3C;

/// Embed colour of a pending monitor (yellow).
pub const COLOR_PENDING: i64 = 0xF1C40F;

/// Embed colour of a monitor under maintenance (blue).
pub const COLOR_MAINTENANCE: i64 = 0x3498DB;

/// The string settings of a notification channel that the sender reads,
/// each present when the channel's JSON configuration holds a string under
/// that key, and `use_embed` when it holds a boolean there.
#[derive(Debug, Clone)]
pub struct NotifyConfig {
    pub url: Option<String>,
    pub webhook_url: Option<String>,
    pub bot_token: Option<String>,
    pub chat_id: Option<String>,
    pub content: Option<String>,
    pub username: Option<String>,
    pub avatar_url: Option<String>,
    pub use_embed: Option<bool>,
}

/// What a channel configuration text holds under `key`: the string there
/// when the text is a JSON object (as `serde_json::from_str::<Value>` reads
/// it) with a string under that key, nothing otherwise.
pub uninterp spec fn json_text_at(config: Seq<char>, key: Seq<char>) -> Option<Seq<char>>;

/// What a channel configuration text holds under `key`: the boolean there
/// when the text is a JSON object with a boolean under that key, nothing
/// otherwise.
pub uninterp spec fn json_bool_at(config: Seq<char>, key: Seq<char>) -> Option<bool>;

/// Calls `serde_json::from_str::<Value>` on `config` (an unreadable text
/// reads as `null`), then `get(key)`, keeping a string value. The contract
/// names the result; JSON's grammar is serde_json's to check.
#[verifier::external_body]
fn config_text(config: &str, key: &str) -> (r: Option<String>)
    ensures
        opt_text(r) == json_text_at(config@, key@),
{
    let value: serde_json::Value = serde_json::from_str(config).unwrap_or_default();
    match value.get(key) {
        Some(serde_json::Value::String(s)) => Some(s.clone()),
        _ => None,
    }
}

/// Calls `serde_json::from_str::<Value>` on `config` (an unreadable text
/// reads as `null`), then `get(key)`, keeping a boolean value. The contract
/// names the result; JSON's grammar is serde_json's to check.
#[verifier::external_body]
fn config_bool(config: &str, key: &str) -> (r: Option<bool>)
    ensures
        r == json_bool_at(config@, key@),
{
    let value: serde_json::Value = serde_json::from_str(config).unwrap_or_default();
    match value.get(key) {
        Some(serde_json::Value::Bool(b)) => Some(*b),
        _ => None,
    }
}

/// The settings that a channel's stored configuration text holds.
pub fn read_notify_config(config: &str) -> (c: NotifyConfig)
    ensures
        opt_text(c.url) == json_text_at(config@, "url"@),
        opt_text(c.webhook_url) == json_text_at(config@, "webhook_url"@),
        opt_text(c.bot_token) == json_text_at(config@, "bot_token"@),
        opt_text(c.chat_id) == json_text_at(config@, "chat_id"@),
        opt_text(c.content) == json_text_at(config@, "content"@),
        opt_text(c.username) == json_text_at(config@, "username"@),
        opt_text(c.avatar_url) == json_text_at(config@, "avatar_url"@),
        c.use_embed == json_bool_at(config@, "use_embed"@),
{
    NotifyConfig {
        url: config_text(config, "url"),
        webhook_url: config_text(config, "webhook_url"),
        bot_token: config_text(config, "bot_token"),
        chat_id: config_text(config, "chat_id"),
        content: config_text(config, "content"),
        username: config_text(config, "username"),
        avatar_url: config_text(config, "avatar_url"),
        use_embed: config_bool(config, "use_embed"),
    }
}

/// One field of a Discord embed.
#[derive(Debug, Clone)]
pub struct EmbedField {
    pub name: String,
    pub value: String,
    pub inline: bool,
}

/// A Discord embed: a coloured title, fields and a timestamp.
#[derive(Debug, Clone)]
pub struct Embed {
    pub title: String,
    pub color: i64,
    pub fields: Vec<EmbedField>,
    pub timestamp: String,
}

/// A message posted to a Discord webhook; `embed`, when present, is sent as
/// the message's only embed, and absent texts are left out.
#[derive(Debug, Clone)]
pub struct DiscordMessage {
    pub content: Option<String>,
    pub username: Option<String>,
    pub avatar_url: Option<String>,
    pub embed: Option<Embed>,
}

/// The JSON body of a notification request.
#[derive(Debug, Clone)]
pub enum Payload {
    /// `{"monitor": .., "status": .., "msg": ..}`
    Webhook { monitor: String, status: String, msg: String },
    /// `{"text": ..}`
    Slack { text: String },
    /// `{"chat_id": .., "text": ..}`
    Telegram { chat_id: String, text: String },
    /// A Discord webhook message.
    Discord(DiscordMessage),
}

/// A notification request: a JSON body posted to `url`.
#[derive(Debug, Clone)]
pub struct OutgoingPost {
    pub url: String,
    pub payload: Payload,
}

/// The word for a status in notifications: `UP` for up, `DOWN` for any other.
pub open spec fn status_word(status: i64) -> Seq<char> {
    if status == STATUS_UP {
        "UP"@
    } else {
        "DOWN"@
    }
}

/// The one-line notification text: `[Pulse] <name> is <UP|DOWN> - <msg>`.
pub open spec fn summary(name: Seq<char>, status: i64, msg: Seq<char>) -> Seq<char> {
    "[Pulse] "@ + name + " is "@ + status_word(status) + " - "@ + msg
}

/// The view of an optional text.
pub open spec fn opt_text(o: Option<String>) -> Option<Seq<char>> {
    match o {
        Some(s) => Some(s@),
        None => None,
    }
}

/// The ids of the channels a monitor notifies: those of its stored list,
/// none when it has no list or the list cannot be read.
pub open spec fn channel_ids(m: Monitor) -> Seq<Seq<char>> {
    match m.notification_ids {
        Some(s) => stored_ids(s@),
        None => Seq::empty(),
    }
}

/// Notifications call a monitor `UP` exactly when its status is up; every
/// other status (down, pending, maintenance) reads `DOWN`.
pub proof fn lemma_status_word(status: i64)
    ensures
        status_word(status) == "UP"@ <==> status == STATUS_UP,
        status != STATUS_UP ==> status_word(status) == "DOWN"@,
{
    reveal_strlit("UP");
    reveal_strlit("DOWN");
    assert("UP"@.len() != "DOWN"@.len());
}

/// The ids of the notification channels that `m` names.
pub fn notification_targets(m: &Monitor) -> (ids: Vec<String>)
    ensures
        texts(ids@) == channel_ids(*m),
{
    match &m.notification_ids {
        Some(s) => decode_ids(s.as_str()),
        None => {
            let v: Vec<String> = Vec::new();
            assert(texts(v@) =~= Seq::<Seq<char>>::empty());
            v
        },
    }
}

/// The text of [`summary`] for `m`.
pub fn summary_text(m: &Monitor, status: i64, msg: &str) -> (s: String)
    ensures
        s@ == summary(m.name@, status, msg@),
{
    let mut s = owned("[Pulse] ");
    s.append(m.name.as_str());
    s.append(" is ");
    if status == STATUS_UP {
        s.append("UP");
    } else {
        s.append("DOWN");
    }
    s.append(" - ");
    s.append(msg);
    s
}

/// The emoji, verb and colour of an embed for `status`.
pub open spec fn embed_look(status: i64) -> (Seq<char>, Seq<char>, i64) {
    if status == STATUS_UP {
        ("✅"@, "is up!"@, COLOR_UP)
    } else if status == STATUS_DOWN {
        ("❌"@, "went down."@, COLOR_DOWN)
    } else if status == STATUS_PENDING {
        ("⏳"@, "is pending."@, COLOR_PENDING)
    } else if status == STATUS_MAINTENANCE {
        ("🔧"@, "is under maintenance."@, COLOR_MAINTENANCE)
    } else {
        ("ℹ️"@, "status changed."@, COLOR_PENDING)
    }
}

/// The embed title: `<emoji> Your service <name> <verb> <emoji>`.
pub open spec fn embed_title(name: Seq<char>, status: i64) -> Seq<char> {
    let (emoji, verb, _) = embed_look(status);
    emoji + " Your service "@ + name + " "@ + verb + " "@ + emoji
}

/// Where a monitored service lives: its URL, else its host (with `:port`
/// when it has one), else nothing.
pub open spec fn service_location(m: Monitor) -> Option<Seq<char>> {
    match m.url {
        Some(u) => Some(u@),
        None => match m.hostname {
            Some(h) => Some(
                match m.port {
                    Some(p) => host_port(h@, p as int),
                    None => h@,
                },
            ),
            None => None,
        },
    }
}

/// The name, value and inline flag of a field.
pub open spec fn field_view(f: EmbedField) -> (Seq<char>, Seq<char>, bool) {
    (f.name@, f.value@, f.inline)
}

/// The views of a list of fields.
pub open spec fn field_views(fields: Seq<EmbedField>) -> Seq<(Seq<char>, Seq<char>, bool)> {
    fields.map_values(|f: EmbedField| field_view(f))
}

/// The fields of an embed, in order: the service name; its location when
/// known; the time; then the ping time when the service is up and it was
/// measured, or the error when the service is down and the message is not
/// empty.
pub open spec fn embed_fields(
    m: Monitor,
    status: i64,
    msg: Seq<char>,
    ping_ms: Option<i64>,
    time_text: Seq<char>,
) -> Seq<(Seq<char>, Seq<char>, bool)> {
    let head = seq![("Service Name"@, m.name@, true)];
    let place = match service_location(m) {
        Some(loc) => seq![("Service URL"@, loc, true)],
        None => Seq::empty(),
    };
    let time = seq![("Time (UTC)"@, time_text, false)];
    let tail = if status == STATUS_UP {
        match ping_ms {
            Some(p) => seq![("Ping"@, int_text(p as int) + " ms"@, true)],
            None => Seq::empty(),
        }
    } else if status == STATUS_DOWN && msg.len() > 0 {
        seq![("Error"@, msg, false)]
    } else {
        Seq::empty()
    };
    head + place + time + tail
}

/// Whether `e` is the embed for this status change, read at a time whose
/// clock text is `time_text` and RFC 3339 text is `timestamp`.
pub open spec fn is_embed_for(
    e: Embed,
    m: Monitor,
    status: i64,
    msg: Seq<char>,
    ping_ms: Option<i64>,
    time_text: Seq<char>,
    timestamp: Seq<char>,
) -> bool {
    &&& e.title@ == embed_title(m.name@, status)
    &&& e.color == embed_look(status).2
    &&& field_views(e.fields@) == embed_fields(m, status, msg, ping_ms, time_text)
    &&& e.timestamp@ == timestamp
}

/// The current time in UTC as two texts: `%Y-%m-%d %H:%M:%S` and RFC 3339.
#[derive(Debug, Clone)]
pub struct ClockTexts {
    pub clock: String,
    pub rfc3339: String,
}

/// Whether `c` is a decimal digit.
pub open spec fn is_digit(c: char) -> bool {
    '0' <= c && c <= '9'
}

/// Whether `c` may stand at position `k` of the last 19 characters of a
/// `%Y-%m-%d %H:%M:%S` text.
pub open spec fn clock_char_ok(k: int, c: char) -> bool {
    if k == 4 || k == 7 {
        c == '-'
    } else if k == 10 {
        c == ' '
    } else if k == 13 || k == 16 {
        c == ':'
    } else {
        is_digit(c)
    }
}

/// Whether `s` has the shape of a `%Y-%m-%d %H:%M:%S` text: it ends in four
/// year digits, `-`, month, `-`, day, a space, hour, `:`, minute, `:`,
/// second (two digits each); a year beyond four digits adds a sign and more
/// digits in front.
pub open spec fn is_clock_text(s: Seq<char>) -> bool {
    &&& s.len() >= 19
    &&& forall|i: int| s.len() - 19 <= i < s.len() ==> clock_char_ok(i - (s.len() - 19), #[trigger] s[i])
}

/// Whether the RFC 3339 text `stamp` reads the same instant as the clock
/// text `clock`: it starts with the same characters, with `T` in place of
/// the space between date and time, then perhaps a fraction of a second,
/// and ends with the UTC offset `+00:00`.
pub open spec fn same_instant(clock: Seq<char>, stamp: Seq<char>) -> bool {
    &&& stamp.len() >= clock.len() + 6
    &&& forall|i: int|
        0 <= i < clock.len() ==> if i == clock.len() - 9 {
            #[trigger] stamp[i] == 'T'
        } else {
            stamp[i] == clock[i]
        }
    &&& stamp.subrange(stamp.len() - 6, stamp.len() as int) == "+00:00"@
}

/// Calls `chrono::Utc::now` and renders the one instant with
/// `format("%Y-%m-%d %H:%M:%S")` and `to_rfc3339`. Which instant depends on
/// the machine's clock and is not claimed. chrono writes the year, month,
/// day, hour, minute and second in the same way in both texts, `T` between
/// date and time in RFC 3339, an optional fraction, and `+00:00` for UTC;
/// the contract claims those shapes and that both texts read the same instant.
#[verifier::external_body]
fn utc_now_texts() -> (t: ClockTexts)
    ensures
        is_clock_text(t.clock@),
        same_instant(t.clock@, t.rfc3339@),
{
    let now = chrono::Utc::now();
    ClockTexts { clock: now.format("%Y-%m-%d %H:%M:%S").to_string(), rfc3339: now.to_rfc3339() }
}

fn field(name: &str, value: String, inline: bool) -> (f: EmbedField)
    ensures
        field_view(f) == (name@, value@, inline),
{
    EmbedField { name: owned(name), value, inline }
}

fn push_field(fields: &mut Vec<EmbedField>, f: EmbedField)
    ensures
        field_views(final(fields)@) == field_views(old(fields)@).push(field_view(f)),
{
    fields.push(f);
    assert(field_views(final(fields)@) =~= field_views(old(fields)@).push(field_view(f)));
}

fn look(status: i64) -> (r: (&'static str, &'static str, i64))
    ensures
        (r.0@, r.1@, r.2) == embed_look(status),
{
    if status == STATUS_UP {
        ("✅", "is up!", COLOR_UP)
    } else if status == STATUS_DOWN {
        ("❌", "went down.", COLOR_DOWN)
    } else if status == STATUS_PENDING {
        ("⏳", "is pending.", COLOR_PENDING)
    } else if status == STATUS_MAINTENANCE {
        ("🔧", "is under maintenance.", COLOR_MAINTENANCE)
    } else {
        ("ℹ️", "status changed.", COLOR_PENDING)
    }
}

fn location(m: &Monitor) -> (r: Option<String>)
    ensures
        opt_text(r) == service_location(*m),
{
    match &m.url {
        Some(u) => Some(u.clone()),
        None => match &m.hostname {
            Some(h) => match m.port {
                Some(p) => {
                    let mut s = h.clone();
                    s.append(":");
                    push_int(&mut s, p);
                    Some(s)
                },
                None => Some(h.clone()),
            },
            None => None,
        },
    }
}

/// The embed for this status change, stamped with the given time texts.
pub fn build_embed_at(
    m: &Monitor,
    status: i64,
    msg: &str,
    ping_ms: Option<i64>,
    now: &ClockTexts,
) -> (e: Embed)
    ensures
        is_embed_for(e, *m, status, msg@, ping_ms, now.clock@, now.rfc3339@),
{
    let (emoji, verb, color) = look(status);
    let mut title = owned(emoji);
    title.append(" Your service ");
    title.append(m.name.as_str());
    title.append(" ");
    title.append(verb);
    title.append(" ");
    title.append(emoji);

    let mut fields: Vec<EmbedField> = Vec::new();
    let ghost expected = embed_fields(*m, status, msg@, ping_ms, now.clock@);
    assert(field_views(fields@) =~= Seq::empty());
    push_field(&mut fields, field("Service Name", m.name.clone(), true));
    let ghost after_head = field_views(fields@);
    match location(m) {
        Some(loc) => push_field(&mut fields, field("Service URL", loc, true)),
        None => {},
    }
    let ghost after_place = field_views(fields@);
    push_field(&mut fields, field("Time (UTC)", now.clock.clone(), false));
    let ghost after_time = field_views(fields@);
    if status == STATUS_UP {
        match ping_ms {
            Some(p) => {
                let mut v = String::new();
                push_int(&mut v, p);
                v.append(" ms");
                assert(v@ =~= int_text(p as int) + " ms"@);
                push_field(&mut fields, field("Ping", v, true));
            },
            None => {},
        }
    } else if status == STATUS_DOWN && !msg.is_empty() {
        push_field(&mut fields, field("Error", owned(msg), false));
    }
    assert(field_views(fields@) =~= expected);
    Embed { title, color, fields, timestamp: now.rfc3339.clone() }
}

/// Whether `e` is the embed for this status change read at some moment,
/// whose clock text and RFC 3339 text read the same instant.
pub open spec fn is_embed_at_some_time(
    e: Embed,
    m: Monitor,
    status: i64,
    msg: Seq<char>,
    ping_ms: Option<i64>,
) -> bool {
    exists|clock: Seq<char>, stamp: Seq<char>|
        {
            &&& is_clock_text(clock)
            &&& same_instant(clock, stamp)
            &&& is_embed_for(e, m, status, msg, ping_ms, clock, stamp)
        }
}

/// The embed for this status change, stamped with the current time: its
/// title, colour, fields and timestamp are as [`is_embed_for`] says, for a
/// clock text and an RFC 3339 text of one moment.
pub fn build_embed(m: &Monitor, status: i64, msg: &str, ping_ms: Option<i64>) -> (e: Embed)
    ensures
        is_embed_at_some_time(e, *m, status, msg@, ping_ms),
{
    let now = utc_now_texts();
    let e = build_embed_at(m, status, msg, ping_ms, &now);
    assert(is_embed_for(e, *m, status, msg@, ping_ms, now.clock@, now.rfc3339@));
    e
}

fn copy_text(o: &Option<String>) -> (r: Option<String>)
    ensures
        r == *o,
{
    match o {
        Some(s) => Some(s.clone()),
        None => None,
    }
}

/// Whether a Discord channel sends an embed: yes unless its configuration
/// says `use_embed: false`.
pub open spec fn uses_embed(cfg: NotifyConfig) -> bool {
    match cfg.use_embed {
        Some(b) => b,
        None => true,
    }
}

/// A Discord channel sends an embed unless its configuration says
/// `use_embed: false`, whatever else it holds (content, username, avatar).
pub proof fn lemma_embed_unless_disabled(cfg: NotifyConfig)
    ensures
        cfg.use_embed is None ==> uses_embed(cfg),
        cfg.use_embed == Some(true) ==> uses_embed(cfg),
        cfg.use_embed == Some(false) ==> !uses_embed(cfg),
{
}

/// The text posted above a Discord embed: the configured `content`, else
/// the plain notification text when no embed is sent, else none.
pub open spec fn discord_content(cfg: NotifyConfig, fallback: Seq<char>) -> Option<Seq<char>> {
    match cfg.content {
        Some(c) => Some(c@),
        None => if !uses_embed(cfg) {
            Some(fallback)
        } else {
            None
        },
    }
}

/// The Discord message for this status change and the webhook it goes to;
/// a channel without `webhook_url` gives `"missing webhook_url"`.
pub fn discord_message(
    cfg: &NotifyConfig,
    m: &Monitor,
    status: i64,
    msg: &str,
    ping_ms: Option<i64>,
    fallback_text: &str,
) -> (r: Result<(String, DiscordMessage), String>)
    ensures
        r is Err <==> cfg.webhook_url is None,
        r matches Err(e) ==> e@ == "missing webhook_url"@,
        r matches Ok((url, d)) ==> {
            &&& url@ == cfg.webhook_url->0@
            &&& opt_text(d.content) == discord_content(*cfg, fallback_text@)
            &&& d.username == cfg.username
            &&& d.avatar_url == cfg.avatar_url
            &&& (d.embed is Some <==> uses_embed(*cfg))
            &&& (d.embed matches Some(e) ==> is_embed_at_some_time(e, *m, status, msg@, ping_ms))
        },
{
    let url = match &cfg.webhook_url {
        Some(u) => u.clone(),
        None => {
            return Err(owned("missing webhook_url"));
        },
    };
    let use_embed = match cfg.use_embed {
        Some(b) => b,
        None => true,
    };
    let content = match &cfg.content {
        Some(c) => Some(c.clone()),
        None => if !use_embed {
            Some(owned(fallback_text))
        } else {
            None
        },
    };
    let embed = if use_embed {
        Some(build_embed(m, status, msg, ping_ms))
    } else {
        None
    };
    let d = DiscordMessage {
        content,
        username: copy_text(&cfg.username),
        avatar_url: copy_text(&cfg.avatar_url),
        embed,
    };
    Ok((url, d))
}

/// Whether `r` is the request (or the error) that a channel of type
/// `ntype` with configuration `cfg` gives for this status change; Discord
/// requests are as [`discord_message`] says.
pub open spec fn is_planned(
    ntype: Seq<char>,
    cfg: NotifyConfig,
    m: Monitor,
    status: i64,
    msg: Seq<char>,
    r: Result<OutgoingPost, String>,
) -> bool {
    let text = summary(m.name@, status, msg);
    let p = r->Ok_0;
    let e = r->Err_0;
    if ntype == "webhook"@ {
        match cfg.url {
            Some(u) => {
                &&& r is Ok
                &&& p.url@ == u@
                &&& p.payload is Webhook
                &&& p.payload->Webhook_monitor@ == m.name@
                &&& p.payload->Webhook_status@ == status_word(status)
                &&& p.payload->Webhook_msg@ == msg
            },
            None => r is Err && e@ == "missing url"@,
        }
    } else if ntype == "discord"@ {
        match cfg.webhook_url {
            Some(u) => r is Ok && p.url@ == u@ && p.payload is Discord,
            None => r is Err && e@ == "missing webhook_url"@,
        }
    } else if ntype == "slack"@ {
        match cfg.webhook_url {
            Some(u) => {
                &&& r is Ok
                &&& p.url@ == u@
                &&& p.payload is Slack
                &&& p.payload->Slack_text@ == text
            },
            None => r is Err && e@ == "missing webhook_url"@,
        }
    } else if ntype == "telegram"@ {
        if cfg.bot_token is Some && cfg.chat_id is Some {
            &&& r is Ok
            &&& p.url@ == "https://api.telegram.org/bot"@ + cfg.bot_token->0@ + "/sendMessage"@
            &&& p.payload is Telegram
            &&& p.payload->Telegram_chat_id@ == cfg.chat_id->0@
            &&& p.payload->Telegram_text@ == text
        } else {
            r is Err && e@ == "missing bot_token/chat_id"@
        }
    } else {
        r is Err && e@ == "unsupported notif type "@ + ntype
    }
}

/// The request that notifies a channel of type `ntype` with configuration
/// `cfg` that monitor `m` now has `status`, or why none can be made.
pub fn plan_notification(
    ntype: &str,
    cfg: &NotifyConfig,
    m: &Monitor,
    status: i64,
    msg: &str,
    ping_ms: Option<i64>,
) -> (r: Result<OutgoingPost, String>)
    ensures
        is_planned(ntype@, *cfg, *m, status, msg@, r),
        r matches Ok(p) ==> (p.payload matches Payload::Discord(d) ==> {
            &&& opt_text(d.content) == discord_content(*cfg, summary(m.name@, status, msg@))
            &&& d.username == cfg.username
            &&& d.avatar_url == cfg.avatar_url
            &&& (d.embed is Some <==> uses_embed(*cfg))
            &&& (d.embed matches Some(e) ==> is_embed_at_some_time(e, *m, status, msg@, ping_ms))
        }),
{
    let text = summary_text(m, status, msg);
    if same_text(ntype, "webhook") {
        match &cfg.url {
            Some(u) => {
                let word = if status == STATUS_UP {
                    owned("UP")
                } else {
                    owned("DOWN")
                };
                Ok(
                    OutgoingPost {
                        url: u.clone(),
                        payload: Payload::Webhook { monitor: m.name.clone(), status: word, msg: owned(msg) },
                    },
                )
            },
            None => Err(owned("missing url")),
        }
    } else if same_text(ntype, "discord") {
        match discord_message(cfg, m, status, msg, ping_ms, text.as_str()) {
            Ok((url, d)) => Ok(OutgoingPost { url, payload: Payload::Discord(d) }),
            Err(e) => Err(e),
        }
    } else if same_text(ntype, "slack") {
        match &cfg.webhook_url {
            Some(u) => Ok(OutgoingPost { url: u.clone(), payload: Payload::Slack { text } }),
            None => Err(owned("missing webhook_url")),
        }
    } else if same_text(ntype, "telegram") {
        match (&cfg.bot_token, &cfg.chat_id) {
            (Some(token), Some(chat_id)) => {
                let mut url = owned("https://api.telegram.org/bot");
                url.append(token.as_str());
                url.append("/sendMessage");
                Ok(
                    OutgoingPost {
                        url,
                        payload: Payload::Telegram { chat_id: chat_id.clone(), text },
                    },
                )
            },
            _ => Err(owned("missing bot_token/chat_id")),
        }
    } else {
        let mut e = owned("unsupported notif type ");
        e.append(ntype);
        Err(e)
    }
}

} // verus!
