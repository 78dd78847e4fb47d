//! Status pages, maintenance windows and notification channels as they
//! are stored, and what a public status page shows of each monitor.
use vstd::prelude::*;
use crate::id_lists::{decode_ids, encode_ids, json_array_text, stored_ids};
use crate::models::{
    CreateNotification,
    CreateStatusPage,
    MaintenanceWindow,
    Monitor,
    Notification,
    StatusPage,
    STATUS_PENDING,
};
use crate::text::{same_text, texts};

verus! {

/// How one monitor appears on a public status page.
#[derive(Debug, Clone)]
pub struct StatusEntry {
    pub id: String,
    pub name: String,
    pub status: i64,
}

/// The status shown for a monitor: that of its latest heartbeat, or
/// pending when it has none.
pub open spec fn shown_status(latest: Option<i64>) -> i64 {
    match latest {
        Some(s) => s,
        None => STATUS_PENDING,
    }
}

/// A status page shows a monitor with the status of its latest heartbeat
/// whenever it has one, and as pending only when it has none.
pub proof fn lemma_latest_status_shown(latest: Option<i64>)
    ensures
        latest matches Some(s) ==> shown_status(latest) == s,
        latest is None ==> shown_status(latest) == 2,
{
}

/// The entry of monitor `m` whose latest heartbeat has status `latest`.
pub fn status_entry(m: &Monitor, latest: Option<i64>) -> (e: StatusEntry)
    ensures
        e.id == m.id,
        e.name == m.name,
        e.status == shown_status(latest),
{
    let status = match latest {
        Some(s) => s,
        None => STATUS_PENDING,
    };
    StatusEntry { id: m.id.clone(), name: m.name.clone(), status }
}

/// The ids of the monitors a status page shows, in the order stored.
pub fn page_monitor_ids(page: &StatusPage) -> (ids: Vec<String>)
    ensures
        texts(ids@) == stored_ids(page.monitor_ids@),
{
    decode_ids(page.monitor_ids.as_str())
}

/// The stored form of a new status page with id `id`.
pub fn new_status_page(id: String, input: CreateStatusPage) -> (page: StatusPage)
    ensures
        page.id == id,
        page.slug == input.slug,
        page.title == input.title,
        page.description == input.description,
        page.published == input.published,
        page.monitor_ids@ == json_array_text(texts(input.monitor_ids@)),
        stored_ids(page.monitor_ids@) == texts(input.monitor_ids@),
{
    let monitor_ids = encode_ids(&input.monitor_ids);
    StatusPage {
        id,
        slug: input.slug,
        title: input.title,
        description: input.description,
        monitor_ids,
        published: input.published,
    }
}

/// The stored form of a new maintenance window with id `id`; a new window
/// is active.
pub fn new_maintenance_window(
    id: String,
    title: String,
    monitor_ids: &Vec<String>,
    start_time: String,
    end_time: String,
) -> (w: MaintenanceWindow)
    ensures
        w.id == id,
        w.title == title,
        w.monitor_ids@ == json_array_text(texts(monitor_ids@)),
        stored_ids(w.monitor_ids@) == texts(monitor_ids@),
        w.start_time == start_time,
        w.end_time == end_time,
        w.active,
{
    MaintenanceWindow {
        id,
        title,
        monitor_ids: encode_ids(monitor_ids),
        start_time,
        end_time,
        active: true,
    }
}

/// The ids of the monitors a maintenance window covers.
pub fn window_monitor_ids(w: &MaintenanceWindow) -> (ids: Vec<String>)
    ensures
        texts(ids@) == stored_ids(w.monitor_ids@),
{
    decode_ids(w.monitor_ids.as_str())
}

/// The instant an RFC 3339 text reads, as seconds since the Unix epoch and
/// the nanoseconds within that second, as `chrono::DateTime::parse_from_rfc3339`
/// reads it; nothing when the text is not RFC 3339.
pub uninterp spec fn rfc3339_instant(text: Seq<char>) -> Option<(i64, u32)>;

/// Calls `chrono::DateTime::parse_from_rfc3339` on `text` and reads the
/// instant with `timestamp` and `timestamp_subsec_nanos`, dropping the
/// error. The contract names the result; the calendar is chrono's to check.
#[verifier::external_body]
fn parse_instant(text: &str) -> (r: Option<(i64, u32)>)
    ensures
        r == rfc3339_instant(text@),
{
    match chrono::DateTime::parse_from_rfc3339(text) {
        Ok(t) => Some((t.timestamp(), t.timestamp_subsec_nanos())),
        Err(_) => None,
    }
}

/// Whether instant `a` is not after instant `b`.
pub open spec fn not_after(a: (i64, u32), b: (i64, u32)) -> bool {
    a.0 < b.0 || (a.0 == b.0 && a.1 <= b.1)
}

/// Whether window `w` puts monitor `id` under maintenance at the moment
/// `now` (an RFC 3339 text): the window is active, lists the monitor, and
/// `now` lies between its start and end, both included.
pub open spec fn window_covers(w: MaintenanceWindow, id: Seq<char>, now: Seq<char>) -> bool {
    &&& w.active
    &&& stored_ids(w.monitor_ids@).contains(id)
    &&& match (rfc3339_instant(w.start_time@), rfc3339_instant(now), rfc3339_instant(w.end_time@)) {
        (Some(start), Some(at), Some(end)) => not_after(start, at) && not_after(at, end),
        _ => false,
    }
}

/// Whether some window of `windows` puts monitor `id` under maintenance at `now`.
pub open spec fn under_maintenance(windows: Seq<MaintenanceWindow>, id: Seq<char>, now: Seq<char>) -> bool {
    exists|i: int| 0 <= i < windows.len() && #[trigger] window_covers(windows[i], id, now)
}

fn lists_id(ids: &Vec<String>, id: &str) -> (r: bool)
    ensures
        r == texts(ids@).contains(id@),
{
    let mut k: usize = 0;
    while k < ids.len()
        invariant
            k <= ids@.len(),
            forall|j: int| 0 <= j < k ==> ids@[j]@ != id@,
        decreases ids@.len() - k,
    {
        if same_text(ids[k].as_str(), id) {
            assert(texts(ids@)[k as int] == id@);
            return true;
        }
        k = k + 1;
    }
    assert forall|j: int| 0 <= j < texts(ids@).len() implies texts(ids@)[j] != id@ by {
        assert(texts(ids@)[j] == ids@[j]@);
    }
    false
}

fn instant_not_after(a: (i64, u32), b: (i64, u32)) -> (r: bool)
    ensures
        r == not_after(a, b),
{
    a.0 < b.0 || (a.0 == b.0 && a.1 <= b.1)
}

/// Whether window `w` puts monitor `id` under maintenance at `now`.
pub fn window_applies(w: &MaintenanceWindow, id: &str, now: &str) -> (r: bool)
    ensures
        r == window_covers(*w, id@, now@),
{
    if !w.active {
        return false;
    }
    let ids = window_monitor_ids(w);
    if !lists_id(&ids, id) {
        return false;
    }
    match (parse_instant(w.start_time.as_str()), parse_instant(now), parse_instant(w.end_time.as_str())) {
        (Some(start), Some(at), Some(end)) => instant_not_after(start, at) && instant_not_after(at, end),
        _ => false,
    }
}

/// Whether some window of `windows` puts monitor `id` under maintenance at
/// `now` (an RFC 3339 text); its heartbeat then reads as maintenance.
pub fn maintenance_applies(windows: &Vec<MaintenanceWindow>, id: &str, now: &str) -> (r: bool)
    ensures
        r == under_maintenance(windows@, id@, now@),
{
    let mut i: usize = 0;
    while i < windows.len()
        invariant
            i <= windows@.len(),
            forall|j: int| 0 <= j < i ==> !window_covers(#[trigger] windows@[j], id@, now@),
        decreases windows@.len() - i,
    {
        if window_applies(&windows[i], id, now) {
            return true;
        }
        i = i + 1;
    }
    false
}

/// The stored form of a new notification channel with id `id`.
pub fn new_notification(id: String, input: CreateNotification) -> (n: Notification)
    ensures
        n.id == id,
        n.name == input.name,
        n.notif_type == input.notif_type,
        n.config == input.config,
        n.active == input.active,
{
    Notification {
        id,
        name: input.name,
        notif_type: input.notif_type,
        config: input.config,
        active: input.active,
    }
}

/// A public status page shows exactly the monitors it was created with, in
/// the same order.
pub proof fn lemma_page_lists_its_monitors(input_ids: Seq<String>, page: StatusPage, shown: Seq<String>)
    requires
        stored_ids(page.monitor_ids@) == texts(input_ids),
        texts(shown) == stored_ids(page.monitor_ids@),
    ensures
        texts(shown) == texts(input_ids),
        shown.len() == input_ids.len(),
        forall|i: int| 0 <= i < shown.len() ==> #[trigger] shown[i]@ == input_ids[i]@,
{
    assert(texts(shown).len() == shown.len());
    assert(texts(input_ids).len() == input_ids.len());
    assert forall|i: int| 0 <= i < shown.len() implies #[trigger] shown[i]@ == input_ids[i]@ by {
        assert(texts(shown)[i] == shown[i]@);
        assert(texts(input_ids)[i] == input_ids[i]@);
    }
}

} // verus!
