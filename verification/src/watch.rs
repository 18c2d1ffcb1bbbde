//! Flow-file watching: which files are flow definitions, what a definition
//! file's body must carry, and what a file event asks of the definition
//! manager. Reading files, parsing their text and watching the directory
//! are the host's work.

use vstd::prelude::*;
use vstd::string::*;

use crate::definition::DefinitionSource;
use crate::ids::{is_reverse_dns, FlowId, IdError};
use crate::json::{json_text, JsonValue};
use crate::text::{lower_text, text_eq, to_ascii_lowercase};

verus! {

/// Quiet period after the last event on a path before it is applied.
pub const DEFAULT_DEBOUNCE_MS: u64 = 200u64;

/// Why a flow file could not be used.
#[derive(Debug)]
pub enum WatchError {
    /// Reading the file (or publishing it) failed.
    Io {
        /// The file.
        path: String,
        /// The error, rendered.
        error: String,
    },
    /// The extension is not `.yaml`, `.yml` or `.json`.
    UnsupportedExtension {
        /// The file.
        path: String,
    },
    /// The YAML did not parse.
    Yaml {
        /// The file.
        path: String,
        /// The parser's error, rendered.
        error: String,
    },
    /// The JSON did not parse.
    Json {
        /// The file.
        path: String,
        /// The parser's error, rendered.
        error: String,
    },
    /// The body has no string `flow_id` member.
    MissingFlowId {
        /// The file.
        path: String,
    },
    /// The body's `flow_id` is not a valid flow id.
    InvalidFlowId {
        /// The file.
        path: String,
        /// The `flow_id` given.
        value: String,
        /// The id error, rendered.
        error: String,
    },
}

/// The extension of the file a path names, as `std::path::Path::extension`
/// reports it.
pub uninterp spec fn path_extension(path: Seq<char>) -> Option<Seq<char>>;

/// `std::path::Path::extension` (as text): the extension of the file a path
/// names. The contract names the result ([`path_extension`]) and claims it
/// depends on the path alone.
#[verifier::external_body]
pub(crate) fn extension_of(path: &str) -> (r: Option<String>)
    ensures
        match r {
            Some(e) => path_extension(path@) == Some(e@),
            None => path_extension(path@) is None,
        },
{
    match std::path::Path::new(path).extension() {
        Some(e) => match e.to_str() {
            Some(s) => Some(s.to_owned()),
            None => None,
        },
        None => None,
    }
}

/// The text a flow file is written in.
#[derive(Debug, Clone, Copy, PartialEq, Eq)]
pub enum FlowFormat {
    /// `.yaml` / `.yml`.
    Yaml,
    /// `.json`.
    Json,
}

/// The format an extension (any ASCII case) selects.
pub open spec fn format_of(ext: Option<Seq<char>>) -> Option<FlowFormat> {
    match ext {
        Some(e) => if lower_text(e) == "yaml"@ || lower_text(e) == "yml"@ {
            Some(FlowFormat::Yaml)
        } else if lower_text(e) == "json"@ {
            Some(FlowFormat::Json)
        } else {
            None
        },
        None => None,
    }
}

/// The format an extension selects, or `UnsupportedExtension`.
pub fn format_for_extension(path: &str, ext: Option<String>) -> (r: Result<FlowFormat, WatchError>)
    ensures
        format_of(match ext {
            Some(e) => Some(e@),
            None => None,
        }) matches Some(f) ==> r matches Ok(g) && g == f,
        format_of(match ext {
            Some(e) => Some(e@),
            None => None,
        }) is None ==> (r matches Err(WatchError::UnsupportedExtension { path: p }) && p@ == path@),
{
    match ext {
        Some(e) => {
            let l = to_ascii_lowercase(e.as_str());
            if text_eq(l.as_str(), "yaml") || text_eq(l.as_str(), "yml") {
                Ok(FlowFormat::Yaml)
            } else if text_eq(l.as_str(), "json") {
                Ok(FlowFormat::Json)
            } else {
                Err(WatchError::UnsupportedExtension { path: path.to_owned() })
            }
        },
        None => Err(WatchError::UnsupportedExtension { path: path.to_owned() }),
    }
}

/// The format of a flow file, by its path's extension.
pub fn flow_format(path: &str) -> (r: Result<FlowFormat, WatchError>)
    ensures
        format_of(path_extension(path@)) matches Some(f) ==> r matches Ok(g) && g == f,
        format_of(path_extension(path@)) is None ==> (r matches Err(WatchError::UnsupportedExtension { path: p })
            && p@ == path@),
{
    let ext = extension_of(path);
    format_for_extension(path, ext)
}

/// A parsed flow file.
#[derive(Debug)]
pub struct ParsedFlow {
    /// The flow the body declares.
    pub flow_id: FlowId,
    /// The body.
    pub body: JsonValue,
    /// The file.
    pub path: String,
}

/// The value of the first member named `key` of a JSON object.
pub open spec fn member(members: Seq<(String, JsonValue)>, key: Seq<char>) -> Option<JsonValue>
    decreases members.len(),
{
    if members.len() == 0 {
        None
    } else if members[0].0@ == key {
        Some(members[0].1)
    } else {
        member(members.drop_first(), key)
    }
}

/// The text of the body's `flow_id` member, when the body is an object
/// whose `flow_id` is a string.
pub open spec fn flow_id_text(body: JsonValue) -> Option<Seq<char>> {
    match body {
        JsonValue::Object(members) => match member(members@, "flow_id"@) {
            Some(JsonValue::String(s)) => Some(s@),
            _ => None,
        },
        _ => None,
    }
}

/// The text of an id error, as rendered.
pub open spec fn id_error_message(s: Seq<char>) -> Seq<char> {
    if s.len() == 0 {
        "id may not be empty"@
    } else {
        "not a valid reverse-DNS id: "@ + s
    }
}

fn member_text(members: &Vec<(String, JsonValue)>) -> (r: Option<String>)
    ensures
        match member(members@, "flow_id"@) {
            Some(JsonValue::String(s)) => r matches Some(t) && t@ == s@,
            _ => r is None,
        },
{
    let mut i: usize = 0;
    assert(members@.skip(0) =~= members@);
    while i < members.len()
        invariant
            0 <= i <= members@.len(),
            member(members@, "flow_id"@) == member(members@.skip(i as int), "flow_id"@),
        decreases members@.len() - i,
    {
        assert(members@.skip(i as int).drop_first() =~= members@.skip(i + 1));
        assert(members@.skip(i as int)[0] == members@[i as int]);
        if text_eq(members[i].0.as_str(), "flow_id") {
            return match &members[i].1 {
                JsonValue::String(s) => Some(s.clone()),
                _ => None,
            };
        }
        i = i + 1;
    }
    None
}

/// Read the flow a parsed body declares: its `flow_id` must be a string
/// that is a valid flow id.
pub fn flow_from_body(path: String, body: JsonValue) -> (r: Result<ParsedFlow, WatchError>)
    ensures
        flow_id_text(body) is None ==> (r matches Err(WatchError::MissingFlowId { path: p }) && p == path),
        flow_id_text(body) matches Some(t) ==> (!is_reverse_dns(t) ==> (r matches Err(
            WatchError::InvalidFlowId { path: p, value, error },
        ) && p == path && value@ == t && error@ == id_error_message(t))),
        flow_id_text(body) matches Some(t) ==> (is_reverse_dns(t) ==> (r matches Ok(f) && f.flow_id@ == t
            && f.body == body && f.path == path)),
{
    let text = match &body {
        JsonValue::Object(members) => member_text(members),
        _ => None,
    };
    match text {
        None => Err(WatchError::MissingFlowId { path }),
        Some(t) => match FlowId::new(t.clone()) {
            Ok(flow_id) => Ok(ParsedFlow { flow_id, body, path }),
            Err(e) => {
                let error = e.message();
                Err(WatchError::InvalidFlowId { path, value: t, error })
            },
        },
    }
}

/// A change the directory watcher saw.
#[derive(Debug, Clone, PartialEq, Eq)]
pub enum FileEvent {
    /// The file was created or modified.
    Upsert(String),
    /// The file was removed.
    Remove(String),
}

impl FileEvent {
    /// The file the event is about.
    pub fn path(&self) -> (p: &String)
        ensures
            self matches FileEvent::Upsert(q) ==> *p == q,
            self matches FileEvent::Remove(q) ==> *p == q,
    {
        match self {
            FileEvent::Upsert(p) => p,
            FileEvent::Remove(p) => p,
        }
    }
}

/// What a file event asks of the definition manager.
#[derive(Debug)]
pub enum FileAction {
    /// Nothing (a file that is not a flow file, or a removal of a file that
    /// was never published).
    Ignore,
    /// Publish this flow with the file as its source.
    Publish(ParsedFlow, DefinitionSource),
    /// Delete this flow, with the file as the source.
    Delete(FlowId, DefinitionSource),
    /// Report this failure.
    Fail(WatchError),
}

/// Decide an upsert from the outcome of parsing the file: a file that is
/// not a flow file is ignored, a parse failure is reported, a parsed flow
/// is published with the file as its source.
pub fn upsert_action(parsed: Result<ParsedFlow, WatchError>) -> (a: FileAction)
    ensures
        parsed matches Err(WatchError::UnsupportedExtension { .. }) ==> a is Ignore,
        parsed matches Err(e) ==> (!(e is UnsupportedExtension) ==> a == FileAction::Fail(e)),
        parsed matches Ok(p) ==> (a matches FileAction::Publish(q, DefinitionSource::File { path }) && q == p
            && path == p.path),
{
    match parsed {
        Err(WatchError::UnsupportedExtension { .. }) => FileAction::Ignore,
        Err(e) => FileAction::Fail(e),
        Ok(p) => {
            let source = DefinitionSource::File { path: p.path.clone() };
            FileAction::Publish(p, source)
        },
    }
}

/// Decide a removal from the flow the file was published as, if any.
pub fn remove_action(path: String, published_as: Option<FlowId>) -> (a: FileAction)
    ensures
        published_as is None ==> a is Ignore,
        published_as matches Some(f) ==> (a matches FileAction::Delete(g, DefinitionSource::File { path: p })
            && g == f && p == path),
{
    match published_as {
        None => FileAction::Ignore,
        Some(f) => FileAction::Delete(f, DefinitionSource::File { path }),
    }
}

/// The failure a rejected publish (or delete) of `path` is reported as.
pub fn publish_failure(path: String, error: String) -> (e: WatchError)
    ensures
        e == (WatchError::Io { path, error }),
{
    WatchError::Io { path, error }
}

/// Settings of a directory watch.
#[derive(Debug, Clone)]
pub struct WatchConfig {
    /// The watched directory.
    pub dir: String,
    /// Debounce window in milliseconds.
    pub debounce_ms: u64,
}

impl WatchConfig {
    /// Watch `dir` with the default debounce.
    pub fn new(dir: String) -> (c: WatchConfig)
        ensures
            c.dir == dir,
            c.debounce_ms == DEFAULT_DEBOUNCE_MS,
    {
        WatchConfig { dir, debounce_ms: DEFAULT_DEBOUNCE_MS }
    }
}

/// Events waiting out the debounce window: the latest event per path, paths
/// in the order they were first seen.
pub struct PendingEvents {
    events: Vec<FileEvent>,
}

/// The path an event is about, as text.
pub open spec fn event_path(e: FileEvent) -> Seq<char> {
    match e {
        FileEvent::Upsert(p) => p@,
        FileEvent::Remove(p) => p@,
    }
}

impl PendingEvents {
    #[verifier::type_invariant]
    closed spec fn well_formed(self) -> bool {
        forall|i: int, j: int|
            0 <= i < j < self.events@.len() ==> event_path(#[trigger] self.events@[i]) != event_path(
                #[trigger] self.events@[j],
            )
    }

    /// The pending events.
    pub closed spec fn pending(&self) -> Seq<FileEvent> {
        self.events@
    }

    /// Nothing pending.
    pub fn new() -> (p: PendingEvents)
        ensures
            p.pending().len() == 0,
    {
        PendingEvents { events: Vec::new() }
    }

    /// Record an event: it replaces a pending event on the same path, or
    /// joins the end.
    pub fn insert(&mut self, event: FileEvent)
        ensures
            (exists|i: int| 0 <= i < old(self).pending().len() && event_path(#[trigger] old(self).pending()[i])
                == event_path(event)) ==> (exists|i: int|
                0 <= i < old(self).pending().len() && event_path(#[trigger] old(self).pending()[i]) == event_path(
                    event,
                ) && final(self).pending() == old(self).pending().update(i, event)),
            !(exists|i: int| 0 <= i < old(self).pending().len() && event_path(#[trigger] old(self).pending()[i])
                == event_path(event)) ==> final(self).pending() == old(self).pending().push(event),
    {
        proof {
            use_type_invariant(&*self);
        }
        let ghost before = self.events@;
        let mut events: Vec<FileEvent> = Vec::new();
        std::mem::swap(&mut events, &mut self.events);
        let mut i: usize = 0;
        while i < events.len()
            invariant
                events@ == before,
                before == old(self).events@,
                0 <= i <= before.len(),
                forall|a: int, b: int|
                    0 <= a < b < before.len() ==> event_path(#[trigger] before[a]) != event_path(#[trigger] before[b]),
                forall|j: int| 0 <= j < i ==> event_path(#[trigger] before[j]) != event_path(event),
            decreases before.len() - i,
        {
            if text_eq(events[i].path().as_str(), event.path().as_str()) {
                assert(event_path(before[i as int]) == event_path(event));
                events.set(i, event);
                assert(events@ =~= before.update(i as int, event));
                proof {
                    assert forall|a: int, b: int| 0 <= a < b < events@.len() implies event_path(
                        #[trigger] events@[a],
                    ) != event_path(#[trigger] events@[b]) by {
                        if a != i && b != i {
                            assert(events@[a] == before[a] && events@[b] == before[b]);
                        } else if a == i {
                            assert(events@[b] == before[b]);
                        } else {
                            assert(events@[a] == before[a]);
                        }
                    }
                }
                self.events = events;
                assert(old(self).pending() == before);
                assert(event_path(old(self).pending()[i as int]) == event_path(event));
                assert(self.pending() == old(self).pending().update(i as int, event));
                return;
            }
            i = i + 1;
        }
        events.push(event);
        proof {
            assert forall|a: int, b: int| 0 <= a < b < events@.len() implies event_path(#[trigger] events@[a])
                != event_path(#[trigger] events@[b]) by {
                assert(events@[a] == before[a]);
                if b < before.len() {
                    assert(events@[b] == before[b]);
                }
            }
        }
        self.events = events;
    }

    /// Take every pending event, in order, leaving none.
    pub fn drain(&mut self) -> (v: Vec<FileEvent>)
        ensures
            v@ == old(self).pending(),
            final(self).pending().len() == 0,
    {
        let mut events: Vec<FileEvent> = Vec::new();
        std::mem::swap(&mut events, &mut self.events);
        events
    }
}

/// Position of the last entry for path `p`, or `-1`.
pub open spec fn path_pos(s: Seq<(Seq<char>, Seq<char>)>, p: Seq<char>) -> int
    decreases s.len(),
{
    if s.len() == 0 {
        -1
    } else if s.last().0 == p {
        s.len() - 1
    } else {
        path_pos(s.drop_last(), p)
    }
}

/// The flow id recorded for path `p`, if any.
pub open spec fn published_as(s: Seq<(Seq<char>, Seq<char>)>, p: Seq<char>) -> Option<Seq<char>> {
    if path_pos(s, p) >= 0 {
        Some(s[path_pos(s, p)].1)
    } else {
        None
    }
}

/// `path_pos` lies within the entries.
proof fn lemma_path_pos_bounds(s: Seq<(Seq<char>, Seq<char>)>, p: Seq<char>)
    ensures
        -1 <= path_pos(s, p) < s.len(),
    decreases s.len(),
{
    if s.len() > 0 {
        lemma_path_pos_bounds(s.drop_last(), p);
    }
}

/// No path is recorded twice.
pub open spec fn paths_unique(s: Seq<(Seq<char>, Seq<char>)>) -> bool {
    forall|i: int, j: int| 0 <= i < j < s.len() ==> (#[trigger] s[i]).0 != (#[trigger] s[j]).0
}

/// In entries with distinct paths, the entry for `p` at `j` is what
/// `published_as` finds, and a path with no entry finds nothing.
proof fn lemma_path_pos(s: Seq<(Seq<char>, Seq<char>)>, p: Seq<char>)
    requires
        paths_unique(s),
    ensures
        -1 <= path_pos(s, p) < s.len(),
        path_pos(s, p) >= 0 ==> s[path_pos(s, p)].0 == p,
        path_pos(s, p) == -1 <==> (forall|i: int| 0 <= i < s.len() ==> (#[trigger] s[i]).0 != p),
        forall|i: int| 0 <= i < s.len() && (#[trigger] s[i]).0 == p ==> i == path_pos(s, p),
    decreases s.len(),
{
    if s.len() > 0 {
        let t = s.drop_last();
        assert(paths_unique(t));
        lemma_path_pos(t, p);
        if s.last().0 != p {
            assert forall|i: int| 0 <= i < s.len() && (#[trigger] s[i]).0 == p implies i == path_pos(s, p) by {
                assert(t[i] == s[i]);
            }
            if path_pos(t, p) == -1 {
                assert forall|i: int| 0 <= i < s.len() implies (#[trigger] s[i]).0 != p by {
                    if i < s.len() - 1 {
                        assert(t[i] == s[i]);
                    }
                }
            }
        }
    }
}

/// Taking out the entry at `i` keeps the paths distinct and leaves every
/// path but its own where it was.
proof fn lemma_remove_keeps(s: Seq<(Seq<char>, Seq<char>)>, i: int, q: Seq<char>)
    requires
        paths_unique(s),
        0 <= i < s.len(),
        s[i].0 != q,
    ensures
        paths_unique(s.remove(i)),
        published_as(s.remove(i), q) == published_as(s, q),
{
    let t = s.remove(i);
    assert forall|a: int, b: int| 0 <= a < b < t.len() implies (#[trigger] t[a]).0 != (#[trigger] t[b]).0 by {
        let sa = if a < i { a } else { a + 1 };
        let sb = if b < i { b } else { b + 1 };
        assert(t[a] == s[sa] && t[b] == s[sb]);
    }
    lemma_path_pos(s, q);
    lemma_path_pos(t, q);
    if path_pos(s, q) >= 0 {
        let j = path_pos(s, q);
        let k = if j < i { j } else { j - 1 };
        assert(t[k] == s[j]);
    } else {
        assert forall|a: int| 0 <= a < t.len() implies (#[trigger] t[a]).0 != q by {
            let sa = if a < i { a } else { a + 1 };
            assert(t[a] == s[sa]);
        }
    }
}

/// Taking out the entry for a path leaves no entry for it.
proof fn lemma_remove_entry(s: Seq<(Seq<char>, Seq<char>)>, i: int)
    requires
        paths_unique(s),
        0 <= i < s.len(),
    ensures
        paths_unique(s.remove(i)),
        forall|a: int| 0 <= a < s.remove(i).len() ==> (#[trigger] s.remove(i)[a]).0 != s[i].0,
{
    let t = s.remove(i);
    assert forall|a: int, b: int| 0 <= a < b < t.len() implies (#[trigger] t[a]).0 != (#[trigger] t[b]).0 by {
        let sa = if a < i { a } else { a + 1 };
        let sb = if b < i { b } else { b + 1 };
        assert(t[a] == s[sa] && t[b] == s[sb]);
    }
    assert forall|a: int| 0 <= a < t.len() implies (#[trigger] t[a]).0 != s[i].0 by {
        let sa = if a < i { a } else { a + 1 };
        assert(t[a] == s[sa]);
    }
}

/// Adding an entry for a new path: the paths stay distinct, the new path
/// finds its flow, and every other path finds what it found before.
proof fn lemma_push_new(s: Seq<(Seq<char>, Seq<char>)>, p: Seq<char>, v: Seq<char>, q: Seq<char>)
    requires
        paths_unique(s),
        forall|a: int| 0 <= a < s.len() ==> (#[trigger] s[a]).0 != p,
    ensures
        paths_unique(s.push((p, v))),
        published_as(s.push((p, v)), p) == Some(v),
        q != p ==> published_as(s.push((p, v)), q) == published_as(s, q),
{
    let t = s.push((p, v));
    assert(t.drop_last() =~= s);
    if q != p {
        lemma_path_pos(s, q);
        assert(path_pos(t, q) == path_pos(s, q));
        if path_pos(s, q) >= 0 {
            assert(t[path_pos(s, q)] == s[path_pos(s, q)]);
        }
    }
    assert forall|a: int, b: int| 0 <= a < b < t.len() implies (#[trigger] t[a]).0 != (#[trigger] t[b]).0 by {
        assert(t[a] == s[a]);
        if b < s.len() {
            assert(t[b] == s[b]);
        }
    }
}

/// The paths of the flow files published so far and the flow each was
/// published as, so a later removal of the file can name the flow.
pub struct PublishedPaths {
    entries: Vec<(String, FlowId)>,
}

/// The entries as (path, flow id) text.
pub open spec fn path_entries(v: Seq<(String, FlowId)>) -> Seq<(Seq<char>, Seq<char>)> {
    v.map_values(|e: (String, FlowId)| (e.0@, e.1@))
}

impl PublishedPaths {
    #[verifier::type_invariant]
    closed spec fn well_formed(self) -> bool {
        paths_unique(path_entries(self.entries@))
    }

    /// The recorded (path, flow id) pairs.
    pub closed spec fn recorded(self) -> Seq<(Seq<char>, Seq<char>)> {
        path_entries(self.entries@)
    }

    /// Nothing recorded.
    pub fn new() -> (m: PublishedPaths)
        ensures
            forall|p: Seq<char>| published_as(m.recorded(), p) is None,
    {
        let m = PublishedPaths { entries: Vec::new() };
        assert(m.recorded() =~= Seq::<(Seq<char>, Seq<char>)>::empty());
        m
    }

    fn position(&self, path: &str) -> (r: Option<usize>)
        ensures
            match r {
                Some(i) => i == path_pos(self.recorded(), path@) && i < self.recorded().len(),
                None => path_pos(self.recorded(), path@) == -1,
            },
    {
        proof {
            use_type_invariant(self);
            lemma_path_pos(self.recorded(), path@);
        }
        let ghost s = self.recorded();
        let mut i: usize = 0;
        while i < self.entries.len()
            invariant
                0 <= i <= self.entries@.len(),
                s == path_entries(self.entries@),
                s.len() == self.entries@.len(),
                paths_unique(s),
                forall|j: int| 0 <= j < i ==> (#[trigger] s[j]).0 != path@,
                -1 <= path_pos(s, path@) < s.len(),
                path_pos(s, path@) == -1 <==> (forall|j: int| 0 <= j < s.len() ==> (#[trigger] s[j]).0 != path@),
                forall|j: int| 0 <= j < s.len() && (#[trigger] s[j]).0 == path@ ==> j == path_pos(s, path@),
            decreases self.entries@.len() - i,
        {
            if text_eq(self.entries[i].0.as_str(), path) {
                assert(s[i as int].0 == path@);
                return Some(i);
            }
            i = i + 1;
        }
        None
    }

    /// Record that `path` was published as `flow`, replacing what was
    /// recorded for it before.
    pub fn record(&mut self, path: String, flow: FlowId)
        ensures
            published_as(final(self).recorded(), path@) == Some(flow@),
            forall|q: Seq<char>| q != path@ ==> published_as(final(self).recorded(), q) == published_as(
                old(self).recorded(),
                q,
            ),
    {
        proof {
            use_type_invariant(&*self);
            lemma_path_pos(self.recorded(), path@);
        }
        let ghost before = self.recorded();
        let pos = self.position(path.as_str());
        let mut entries: Vec<(String, FlowId)> = Vec::new();
        std::mem::swap(&mut entries, &mut self.entries);
        let ghost kept;
        match pos {
            Some(i) => {
                let _ = entries.remove(i);
                proof {
                    kept = before.remove(i as int);
                    assert(path_entries(entries@) =~= kept);
                }
            },
            None => {
                proof {
                    kept = before;
                }
            },
        }
        let ghost pv = path@;
        let ghost fv = flow@;
        proof {
            match pos {
                Some(i) => {
                    assert(before[i as int].0 == pv);
                    lemma_remove_entry(before, i as int);
                    assert forall|q: Seq<char>| q != pv implies published_as(kept, q) == published_as(before, q) by {
                        lemma_remove_keeps(before, i as int, q);
                    }
                },
                None => {},
            }
        }
        entries.push((path, flow));
        proof {
            assert(path_entries(entries@) =~= kept.push((pv, fv)));
            assert forall|q: Seq<char>| q != pv implies published_as(kept.push((pv, fv)), q) == published_as(
                kept,
                q,
            ) by {
                lemma_push_new(kept, pv, fv, q);
            }
            lemma_push_new(kept, pv, fv, pv);
        }
        self.entries = entries;
    }

    /// Take what was recorded for `path`, leaving nothing recorded for it.
    pub fn take(&mut self, path: &str) -> (r: Option<FlowId>)
        ensures
            match r {
                Some(f) => published_as(old(self).recorded(), path@) == Some(f@),
                None => published_as(old(self).recorded(), path@) is None,
            },
            published_as(final(self).recorded(), path@) is None,
            forall|q: Seq<char>| q != path@ ==> published_as(final(self).recorded(), q) == published_as(
                old(self).recorded(),
                q,
            ),
    {
        proof {
            use_type_invariant(&*self);
            lemma_path_pos(self.recorded(), path@);
        }
        let ghost before = self.recorded();
        match self.position(path) {
            None => {
                return None;
            },
            Some(i) => {
                let mut entries: Vec<(String, FlowId)> = Vec::new();
                std::mem::swap(&mut entries, &mut self.entries);
                let (_p, f) = entries.remove(i);
                proof {
                    assert(path_entries(entries@) =~= before.remove(i as int));
                    lemma_remove_entry(before, i as int);
                    lemma_path_pos(before.remove(i as int), path@);
                    assert forall|q: Seq<char>| q != path@ implies published_as(before.remove(i as int), q)
                        == published_as(before, q) by {
                        lemma_remove_keeps(before, i as int, q);
                    }
                }
                self.entries = entries;
                Some(f)
            },
        }
    }

    /// The record of a boot walk: each (path, flow) in turn, a later entry
    /// for a path replacing an earlier one.
    pub fn from_boot(walked: Vec<(String, FlowId)>) -> (m: PublishedPaths)
        ensures
            forall|p: Seq<char>| published_as(m.recorded(), p) == published_as(path_entries(walked@), p),
    {
        let ghost all = path_entries(walked@);
        let total: usize = walked.len();
        let mut m = PublishedPaths::new();
        let mut rest = walked;
        let mut n: usize = 0;
        while rest.len() > 0
            invariant
                all.len() == n + rest@.len(),
                all.len() == total,
                path_entries(rest@) == all.skip(n as int),
                forall|p: Seq<char>| published_as(m.recorded(), p) == published_as(all.take(n as int), p),
            decreases rest@.len(),
        {
            let ghost prev = rest@;
            let (path, flow) = rest.remove(0);
            proof {
                assert(path_entries(prev)[0] == all[n as int]);
                assert(all[n as int] == (path@, flow@));
                assert(path_entries(rest@) =~= all.skip(n + 1)) by {
                    assert(rest@ =~= prev.subrange(1, prev.len() as int));
                    assert forall|j: int| 0 <= j < rest@.len() implies path_entries(rest@)[j] == all.skip(n + 1)[j] by {
                        assert(rest@[j] == prev[j + 1]);
                        assert(path_entries(prev)[j + 1] == all.skip(n as int)[j + 1]);
                    }
                }
            }
            let ghost pv = path@;
            let ghost fv = flow@;
            m.record(path, flow);
            proof {
                let t = all.take(n + 1);
                assert(t.drop_last() =~= all.take(n as int));
                assert(t.last() == (pv, fv));
                assert(published_as(t, pv) == Some(fv));
                assert forall|q: Seq<char>| q != pv implies published_as(t, q) == published_as(
                    all.take(n as int),
                    q,
                ) by {
                    lemma_path_pos_bounds(all.take(n as int), q);
                    if path_pos(all.take(n as int), q) >= 0 {
                        assert(t[path_pos(all.take(n as int), q)] == all.take(n as int)[path_pos(
                            all.take(n as int),
                            q,
                        )]);
                    }
                }
            }
            n = n + 1;
        }
        assert(all.take(n as int) =~= all);
        m
    }
}

} // verus!
