//! What the HTTP server answers: routes, request parameters, and the
//! data of its responses.
use std::path::Path;
use vstd::prelude::*;

use crate::cmd::common::{step_name_of, workflow_index, Project};
use crate::cmd::status::{detail_fits, workflow_len_of, TaskDetail};
use crate::error::PawlError;
use crate::model::config::{max_retries_of, Config};
use crate::model::event::{rfc3339, rfc3339_text, step_of, ts_of, type_tag_of, Event, Timestamp};
use crate::model::state::TaskState;
use crate::model::task::string_views;
use crate::text::{
    chars_of, find, find_vec, index_of, index_of_vec, owned, parse_i64, parse_u64, parsed_i64,
    parsed_u64, slice, split, split_vec, starts_with, starts_with_vec, str_eq, string_of,
    trim_start_char, trim_start_char_vec, views,
};

verus! {

/// Where a request goes.
#[derive(Debug, Clone, Copy, PartialEq, Eq, Structural)]
pub enum Route {
    /// The UI page, or the list of endpoints.
    Root,
    /// `/api/status`.
    Status,
    /// `/api/stream/<task>`.
    Stream,
    /// `/api/events`.
    Events,
    /// A file of the UI.
    Static,
    NotFound,
}

pub open spec fn route_of(url: Seq<char>) -> Route {
    if url == "/"@ {
        Route::Root
    } else if url == "/api/status"@ {
        Route::Status
    } else if starts_with(url, "/api/stream/"@) {
        Route::Stream
    } else if starts_with(url, "/api/events"@) {
        Route::Events
    } else if !starts_with(url, "/api/"@) {
        Route::Static
    } else {
        Route::NotFound
    }
}

/// The route of a request URL.
pub fn route(url: &str) -> (r: Route)
    ensures
        r == route_of(url@),
{
    let u = chars_of(url);
    if str_eq(url, "/") {
        Route::Root
    } else if str_eq(url, "/api/status") {
        Route::Status
    } else if starts_with_vec(&u, &chars_of("/api/stream/")) {
        Route::Stream
    } else if starts_with_vec(&u, &chars_of("/api/events")) {
        Route::Events
    } else if !starts_with_vec(&u, &chars_of("/api/")) {
        Route::Static
    } else {
        Route::NotFound
    }
}

/// The text before the first `c`, or all of it.
pub open spec fn before_char(s: Seq<char>, c: char) -> Seq<char> {
    if index_of(s, c) < 0 {
        s
    } else {
        s.take(index_of(s, c))
    }
}

/// The value of a query parameter as `url.split(key).nth(1)` then
/// `split('&').next()` reads it: after the first `key`, up to the next
/// `key` or `&`.
pub open spec fn query_value(url: Seq<char>, key: Seq<char>) -> Option<Seq<char>> {
    if find(url, key) < 0 {
        None
    } else {
        let rest = url.skip(find(url, key) + key.len());
        let seg = if find(rest, key) < 0 {
            rest
        } else {
            rest.take(find(rest, key))
        };
        Some(before_char(seg, '&'))
    }
}

fn before_char_vec(v: &Vec<char>, c: char) -> (r: Vec<char>)
    ensures
        r@ == before_char(v@, c),
{
    match index_of_vec(v, c) {
        Some(i) => slice(v, 0, i),
        None => v.clone(),
    }
}

fn query_value_vec(url: &Vec<char>, key: &Vec<char>) -> (r: Option<Vec<char>>)
    requires
        key.len() > 0,
    ensures
        match r {
            Some(v) => query_value(url@, key@) == Some(v@),
            None => query_value(url@, key@) is None,
        },
{
    match find_vec(url, key) {
        None => None,
        Some(i) => {
            proof {
                crate::text::lemma_find(url@, key@);
            }
            assert(crate::text::matches_at(url@, key@, i as int));
            assert(i + key.len() <= url.len());
            let rest = slice(url, i + key.len(), url.len());
            assert(rest@ =~= url@.skip(i + key.len()));
            let seg = match find_vec(&rest, key) {
                Some(j) => {
                    proof {
                        crate::text::lemma_find(rest@, key@);
                    }
                    slice(&rest, 0, j)
                },
                None => rest,
            };
            Some(before_char_vec(&seg, '&'))
        },
    }
}

/// The task and byte offset a stream request asks for; the offset is 0
/// when it is missing or not a number.
pub open spec fn stream_request_of(url: Seq<char>) -> Result<(Seq<char>, nat), Seq<char>> {
    let path = before_char(url, '?');
    let task = if starts_with(path, "/api/stream/"@) {
        path.skip(12)
    } else {
        seq![]
    };
    if task.len() == 0 {
        Err("Missing task name"@)
    } else {
        Ok(
            (
                task,
                match query_value(url, "offset="@) {
                    Some(v) => match parsed_u64(v) {
                        Some(n) => n,
                        None => 0,
                    },
                    None => 0,
                },
            ),
        )
    }
}

/// Reads a stream request: `/api/stream/<task>?offset=<bytes>`.
pub fn stream_request(url: &str) -> (r: Result<(String, u64), String>)
    ensures
        match stream_request_of(url@) {
            Ok((t, n)) => r matches Ok((s, m)) && s@ == t && m == n,
            Err(e) => r matches Err(m) && m@ == e,
        },
{
    proof {
        reveal_strlit("/api/stream/");
        reveal_strlit("offset=");
    }
    let u = chars_of(url);
    let path = before_char_vec(&u, '?');
    let prefix = chars_of("/api/stream/");
    let task = if starts_with_vec(&path, &prefix) {
        slice(&path, 12, path.len())
    } else {
        Vec::new()
    };
    assert(path@.len() >= 12 ==> path@.subrange(12, path@.len() as int) =~= path@.skip(12));
    if task.len() == 0 {
        assert(task@ =~= Seq::<char>::empty());
        return Err(owned("Missing task name"));
    }
    let offset = match query_value_vec(&u, &chars_of("offset=")) {
        Some(v) => match parse_u64(string_of(&v).as_str()) {
            Some(n) => n,
            None => 0,
        },
        None => 0,
    };
    Ok((string_of(&task), offset))
}

/// The `since` parameter of an events request, in milliseconds, when it is
/// a number.
pub fn events_since(url: &str) -> (r: Option<i64>)
    ensures
        r == match query_value(url@, "since="@) {
            Some(v) => match parsed_i64(v) {
                Some(n) => Some(n as i64),
                None => None,
            },
            None => None,
        },
{
    proof {
        reveal_strlit("since=");
    }
    match query_value_vec(&chars_of(url), &chars_of("since=")) {
        Some(v) => parse_i64(string_of(&v).as_str()),
        None => None,
    }
}

/// The UTC time of a count of milliseconds since the epoch, as seconds and
/// nanoseconds, when chrono can represent it.
pub uninterp spec fn utc_from_millis(ms: i64) -> Option<(i64, u32)>;

/// The time of a count of milliseconds since the epoch
/// (`DateTime::from_timestamp_millis`, then `timestamp` and
/// `timestamp_subsec_nanos`): the whole seconds (rounded down) and the
/// nanoseconds of the remaining milliseconds; none outside chrono's range.
#[verifier::external_body]
pub fn time_from_millis(ms: i64) -> (r: Option<Timestamp>)
    ensures
        match r {
            Some(t) => utc_from_millis(ms) == Some((t.secs, t.nanos)) && t.secs == (ms as int)
                / 1000 && t.nanos == ((ms as int) % 1000) * 1_000_000,
            None => utc_from_millis(ms) is None,
        },
{
    chrono::DateTime::from_timestamp_millis(ms).map(
        |d| Timestamp { secs: d.timestamp(), nanos: d.timestamp_subsec_nanos() },
    )
}

/// `a` is later than `b`.
pub open spec fn later(a: Timestamp, b: Timestamp) -> bool {
    a.secs > b.secs || (a.secs == b.secs && a.nanos > b.nanos)
}

/// The milliseconds since the epoch of a time, as chrono counts them
/// (seconds times 1000 plus the whole milliseconds of the nanoseconds),
/// held to the range of an `i64`.
pub open spec fn millis_of(t: Timestamp) -> i64 {
    let m = (t.secs as int) * 1000 + (t.nanos as int) / 1_000_000;
    if m > i64::MAX {
        i64::MAX
    } else if m < i64::MIN {
        i64::MIN
    } else {
        m as i64
    }
}

fn millis(t: Timestamp) -> (m: i64)
    ensures
        m == millis_of(t),
{
    let wide: i128 = (t.secs as i128) * 1000 + (t.nanos as i128) / 1_000_000;
    if wide > i64::MAX as i128 {
        i64::MAX
    } else if wide < i64::MIN as i128 {
        i64::MIN
    } else {
        wide as i64
    }
}

/// The short detail the event list shows: "ok" or "fail" for a finished
/// step, the reason of a yield, "auto" or "manual" for a step reset,
/// nothing otherwise.
pub open spec fn event_detail_of(e: Event) -> Seq<char> {
    match e {
        Event::StepFinished { success, .. } => if success {
            "ok"@
        } else {
            "fail"@
        },
        Event::StepYielded { reason, .. } => reason@,
        Event::StepReset { auto, .. } => if auto {
            "auto"@
        } else {
            "manual"@
        },
        _ => seq![],
    }
}

pub fn build_event_detail(e: &Event) -> (r: String)
    ensures
        r@ == event_detail_of(*e),
{
    match e {
        Event::StepFinished { success, .. } => if *success {
            owned("ok")
        } else {
            owned("fail")
        },
        Event::StepYielded { reason, .. } => reason.clone(),
        Event::StepReset { auto, .. } => if *auto {
            owned("auto")
        } else {
            owned("manual")
        },
        _ => String::new(),
    }
}

/// One event of the event list.
#[derive(Debug)]
pub struct EventEntry {
    /// RFC 3339 time (empty when chrono cannot write it).
    pub ts: String,
    pub ts_ms: i64,
    pub task: String,
    pub event_type: String,
    pub step_name: Option<String>,
    pub detail: String,
}

/// The entry of an event of a task.
pub open spec fn entry_fits(
    x: EventEntry,
    ws: Seq<(Seq<char>, crate::model::config::ConfigView)>,
    task: Seq<char>,
    e: Event,
) -> bool {
    &&& x.ts@ == match rfc3339_text(ts_of(e).secs, ts_of(e).nanos) {
        Some(t) => t,
        None => seq![],
    }
    &&& x.ts_ms == millis_of(ts_of(e))
    &&& x.task@ == task
    &&& x.event_type@ == type_tag_of(e)
    &&& match step_of(e) {
        Some(i) => x.step_name matches Some(n) && n@ == step_name_of(ws, task, i as nat),
        None => x.step_name is None,
    }
    &&& x.detail@ == event_detail_of(e)
}

/// Stable insertion by time, newest first: after every entry at least as
/// new.
pub open spec fn insert_newest_first(s: Seq<EventEntry>, x: EventEntry) -> Seq<EventEntry>
    decreases s.len(),
{
    if s.len() == 0 {
        seq![x]
    } else if s[0].ts_ms < x.ts_ms {
        seq![x] + s
    } else {
        seq![s[0]] + insert_newest_first(s.drop_first(), x)
    }
}

/// The entries sorted newest first; entries of the same time keep their
/// order (the order of a stable sort).
pub open spec fn newest_first(s: Seq<EventEntry>) -> Seq<EventEntry>
    decreases s.len(),
{
    if s.len() == 0 {
        seq![]
    } else {
        insert_newest_first(newest_first(s.drop_last()), s.last())
    }
}

pub open spec fn sorted_newest_first(s: Seq<EventEntry>) -> bool {
    forall|i: int, j: int| 0 <= i < j < s.len() ==> (#[trigger] s[i]).ts_ms >= (#[trigger] s[j]).ts_ms
}

proof fn lemma_insert_sorted(s: Seq<EventEntry>, x: EventEntry)
    requires
        sorted_newest_first(s),
    ensures
        sorted_newest_first(insert_newest_first(s, x)),
        insert_newest_first(s, x).len() == s.len() + 1,
        forall|k: int| 0 <= k < insert_newest_first(s, x).len() ==> (#[trigger] insert_newest_first(s, x)[k] == x || s.contains(insert_newest_first(s, x)[k])),
    decreases s.len(),
{
    if s.len() > 0 && s[0].ts_ms >= x.ts_ms {
        let t = s.drop_first();
        lemma_insert_sorted(t, x);
        let r = insert_newest_first(s, x);
        let rt = insert_newest_first(t, x);
        assert(r == seq![s[0]] + rt);
        assert forall|k: int| 0 <= k < r.len() implies (#[trigger] r[k] == x || s.contains(r[k])) by {
            if k > 0 {
                if rt[k - 1] != x {
                    let j = choose|j: int| 0 <= j < t.len() && t[j] == rt[k - 1];
                    assert(s[j + 1] == r[k]);
                }
            } else {
                assert(s[0] == r[0]);
            }
        }
        assert forall|i: int, j: int| 0 <= i < j < r.len() implies (#[trigger] r[i]).ts_ms >= (#[trigger] r[j]).ts_ms by {
            if i == 0 {
                if rt[j - 1] == x {
                } else {
                    let m = choose|m: int| 0 <= m < t.len() && t[m] == rt[j - 1];
                    assert(s[m + 1] == r[j]);
                }
            } else {
                assert(r[i] == rt[i - 1]);
                assert(r[j] == rt[j - 1]);
            }
        }
    } else if s.len() > 0 {
        let r = insert_newest_first(s, x);
        assert(r == seq![x] + s);
        assert forall|k: int| 0 <= k < r.len() implies (#[trigger] r[k] == x || s.contains(r[k])) by {
            if k > 0 {
                assert(s[k - 1] == r[k]);
            }
        }
        assert forall|i: int, j: int| 0 <= i < j < r.len() implies (#[trigger] r[i]).ts_ms >= (#[trigger] r[j]).ts_ms by {
            if i > 0 {
                assert(r[i] == s[i - 1]);
            }
            assert(r[j] == s[j - 1]);
        }
    }
}

/// The event list is in time order, newest first.
pub proof fn law_event_list_newest_first(s: Seq<EventEntry>)
    ensures
        sorted_newest_first(newest_first(s)),
        newest_first(s).len() == s.len(),
    decreases s.len(),
{
    if s.len() > 0 {
        law_event_list_newest_first(s.drop_last());
        lemma_insert_sorted(newest_first(s.drop_last()), s.last());
    }
}

fn insert_entry(v: &mut Vec<EventEntry>, x: EventEntry)
    ensures
        final(v)@ == insert_newest_first(old(v)@, x),
{
    let mut p: usize = 0;
    assert(v@.take(0) =~= Seq::<EventEntry>::empty());
    assert(v@.skip(0) =~= v@);
    while p < v.len() && v[p].ts_ms >= x.ts_ms
        invariant
            p <= v.len(),
            v@ == old(v)@,
            insert_newest_first(v@, x) == v@.take(p as int) + insert_newest_first(v@.skip(p as int), x),
        decreases v.len() - p,
    {
        let ghost s = v@.skip(p as int);
        assert(s.drop_first() =~= v@.skip(p + 1));
        assert(v@.take(p + 1) =~= v@.take(p as int) + seq![s[0]]);
        p = p + 1;
    }
    let ghost s = v@.skip(p as int);
    assert(insert_newest_first(s, x) =~= seq![x] + s);
    v.insert(p, x);
    assert(v@ =~= old(v)@.take(p as int) + (seq![x] + old(v)@.skip(p as int)));
}

/// The newest `limit` entries, newest first.
pub fn newest_entries(entries: Vec<EventEntry>, limit: usize) -> (r: Vec<EventEntry>)
    ensures
        r@ == newest_first(entries@).take(
            if entries@.len() < limit {
                entries@.len() as int
            } else {
                limit as int
            },
        ),
{
    let ghost all = entries@;
    let n = entries.len();
    let mut sorted: Vec<EventEntry> = Vec::new();
    let mut rest = entries;
    let mut i: usize = 0;
    assert(all.take(0) =~= Seq::<EventEntry>::empty());
    while rest.len() > 0
        invariant
            all.len() == n,
            i + rest.len() == all.len(),
            rest@ == all.skip(i as int),
            sorted@ == newest_first(all.take(i as int)),
        decreases rest.len(),
    {
        let x = rest.remove(0);
        assert(all.take(i + 1).drop_last() =~= all.take(i as int));
        assert(all.take(i + 1).last() == x);
        insert_entry(&mut sorted, x);
        i = i + 1;
        assert(rest@ =~= all.skip(i as int));
    }
    assert(all.take(i as int) =~= all);
    proof {
        law_event_list_newest_first(all);
    }
    sorted.truncate(limit);
    sorted
}

/// The events later than `since` (all of them without it), in order.
pub open spec fn kept_events(events: Seq<Event>, since: Option<Timestamp>) -> Seq<Event>
    decreases events.len(),
{
    if events.len() == 0 {
        seq![]
    } else {
        let rest = kept_events(events.drop_last(), since);
        match since {
            Some(s) => if later(ts_of(events.last()), s) {
                rest.push(events.last())
            } else {
                rest
            },
            None => rest.push(events.last()),
        }
    }
}

impl Project {
    /// The entries of the events of a task, in log order, keeping only
    /// those later than `since` when it is given.
    pub fn event_entries(&self, task: &str, events: &[Event], since: Option<Timestamp>) -> (r: Vec<
        EventEntry,
    >)
        ensures
            r.len() == kept_events(events@, since).len(),
            forall|k: int|
                0 <= k < r.len() ==> entry_fits(
                    #[trigger] r@[k],
                    self.entries(),
                    task@,
                    kept_events(events@, since)[k],
                ),
    {
        let mut r: Vec<EventEntry> = Vec::new();
        let mut i: usize = 0;
        while i < events.len()
            invariant
                i <= events.len(),
                r.len() == kept_events(events@.take(i as int), since).len(),
                forall|k: int|
                    0 <= k < r.len() ==> entry_fits(
                        #[trigger] r@[k],
                        self.entries(),
                        task@,
                        kept_events(events@.take(i as int), since)[k],
                    ),
            decreases events.len() - i,
        {
            assert(events@.take(i + 1).drop_last() =~= events@.take(i as int));
            assert(events@.take(i + 1).last() == events@[i as int]);
            let e = &events[i];
            let ts = e.ts();
            let keep = match since {
                Some(s) => ts.secs > s.secs || (ts.secs == s.secs && ts.nanos > s.nanos),
                None => true,
            };
            if keep {
                let step_name = match e.step_index() {
                    Some(si) => Some(self.step_name(task, si)),
                    None => None,
                };
                let x = EventEntry {
                    ts: match rfc3339(ts) {
                        Some(t) => t,
                        None => String::new(),
                    },
                    ts_ms: millis(ts),
                    task: owned(task),
                    event_type: owned(e.type_tag()),
                    step_name,
                    detail: build_event_detail(e),
                };
                assert(entry_fits(x, self.entries(), task@, events@[i as int]));
                r.push(x);
            }
            i = i + 1;
        }
        assert(events@.take(i as int) =~= events@);
        r
    }

    /// What `/api/status` reports of a task: its detail, its workflow, the
    /// dependencies that block it and how many automatic retries its
    /// current step allows (0 past the last step).
    pub fn task_entry(
        &self,
        name: &str,
        state: &Option<TaskState>,
        events: &[Event],
        blocked_by: Vec<String>,
    ) -> (r: Result<TaskEntry, PawlError>)
        ensures
            match workflow_index(self.entries(), name@) {
                Some(i) => r matches Ok(t) && {
                    &&& t.workflow@ == self.entries()[i].0
                    &&& t.blocked_by@ == blocked_by@
                    &&& detail_fits(t.detail, self.entries(), name@, *state, events@)
                    &&& t.max_retries == if t.detail.current_step < self.entries()[i].1.workflow.len() {
                        max_retries_of(self.entries()[i].1.workflow[t.detail.current_step as int])
                    } else {
                        0
                    }
                },
                None => r is Err,
            },
    {
        let detail = self.task_detail(name, state, events);
        let (wf_name, config) = self.workflow_for(name)?;
        let max_retries = if detail.current_step < config.workflow.len() {
            config.workflow[detail.current_step].effective_max_retries()
        } else {
            0
        };
        Ok(TaskEntry { detail, workflow: wf_name.clone(), blocked_by, max_retries })
    }
}

/// A task as `/api/status` reports it.
#[derive(Debug)]
pub struct TaskEntry {
    pub detail: TaskDetail,
    pub workflow: String,
    pub blocked_by: Vec<String>,
    pub max_retries: usize,
}

/// The file of the UI a URL asks for: the path without its leading
/// slashes; none when that is empty or climbs out with `..`.
pub open spec fn static_path_of(url: Seq<char>) -> Option<Seq<char>> {
    let rel = trim_start_char(url, '/');
    if rel.len() == 0 || split(rel, '/').contains(".."@) {
        None
    } else {
        Some(rel)
    }
}

/// The relative path of a UI file request, if it is acceptable.
pub fn static_path(url: &str) -> (r: Option<String>)
    ensures
        match r {
            Some(p) => static_path_of(url@) == Some(p@),
            None => static_path_of(url@) is None,
        },
{
    let rel = trim_start_char_vec(&chars_of(url), '/');
    if rel.len() == 0 {
        return None;
    }
    let parts = split_vec(&rel, '/');
    let mut i: usize = 0;
    proof {
        reveal_strlit("..");
    }
    let dots = chars_of("..");
    while i < parts.len()
        invariant
            i <= parts.len(),
            dots@ == ".."@,
            views(parts@) == split(rel@, '/'),
            rel@ == trim_start_char(url@, '/'),
            forall|j: int| 0 <= j < i ==> views(parts@)[j] != ".."@,
        decreases parts.len() - i,
    {
        if crate::text::vec_eq(&parts[i], &dots) {
            assert(views(parts@)[i as int] == ".."@);
            assert(views(parts@).contains(".."@));
            return None;
        }
        i = i + 1;
    }
    Some(string_of(&rel))
}

/// The extension of the last component of a path, as `Path::extension`
/// gives it, when there is one and it is valid Unicode.
pub uninterp spec fn extension_of(p: Seq<char>) -> Option<Seq<char>>;

/// The extension of a path (`Path::extension`, then `OsStr::to_str`).
#[verifier::external_body]
fn path_extension(p: &str) -> (r: Option<String>)
    ensures
        match r {
            Some(e) => extension_of(p@) == Some(e@),
            None => extension_of(p@) is None,
        },
{
    Path::new(p).extension().and_then(|e| e.to_str()).map(|e| e.to_string())
}

/// The content type of a file by its extension.
pub open spec fn content_type_of(ext: Option<Seq<char>>) -> Seq<char> {
    match ext {
        Some(e) => if e == "css"@ {
            "text/css; charset=utf-8"@
        } else if e == "js"@ {
            "application/javascript; charset=utf-8"@
        } else if e == "html"@ || e == "htm"@ {
            "text/html; charset=utf-8"@
        } else if e == "json"@ {
            "application/json"@
        } else if e == "svg"@ {
            "image/svg+xml"@
        } else if e == "png"@ {
            "image/png"@
        } else if e == "ico"@ {
            "image/x-icon"@
        } else {
            "application/octet-stream"@
        },
        None => "application/octet-stream"@,
    }
}

/// The content type to serve a file with.
pub fn content_type_for(path: &str) -> (r: &'static str)
    ensures
        r@ == content_type_of(extension_of(path@)),
{
    match path_extension(path) {
        Some(e) => {
            let e = e.as_str();
            if str_eq(e, "css") {
                "text/css; charset=utf-8"
            } else if str_eq(e, "js") {
                "application/javascript; charset=utf-8"
            } else if str_eq(e, "html") || str_eq(e, "htm") {
                "text/html; charset=utf-8"
            } else if str_eq(e, "json") {
                "application/json"
            } else if str_eq(e, "svg") {
                "image/svg+xml"
            } else if str_eq(e, "png") {
                "image/png"
            } else if str_eq(e, "ico") {
                "image/x-icon"
            } else {
                "application/octet-stream"
            }
        },
        None => "application/octet-stream",
    }
}

} // verus!
