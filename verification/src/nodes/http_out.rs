//! `http-out` — one outbound HTTP request shaped by the input slots, its
//! response emitted on the output slots.
//!
//! The library decides everything around the request: which request the
//! input asks for (or which error it earns), and what the response becomes
//! on the output slots. Sending the request and reading the response body is
//! the host's work.

use vstd::prelude::*;
use vstd::string::*;

use crate::decimal::{format_i64, signed_decimal};
use crate::ids::KindId;
use crate::json::{json_text, JsonValue};
use crate::node::{describes, NodeDescriptor, KindError, NodeError};
use crate::slot::{lookup, names_ascend, SlotEntry, SlotMap, SlotValue};
use crate::text::{
    eq_ignore_ascii_case, lex_lt, lossy_text, lower_text, push_char, starts_with, to_ascii_lowercase, to_ascii_uppercase,
    upper_text, utf8_lossy,
};

verus! {

/// Reverse-DNS kind id.
pub const KIND_ID: &'static str = "starter.flow.http-out";

/// Catalog entry of this kind.
pub fn descriptor() -> (d: NodeDescriptor)
    ensures
        describes(d, KIND_ID@, "http-out"@),
        crate::ids::is_reverse_dns(d.kind@),
{
    proof {
        reveal_strlit("starter.flow.http-out");
        reveal_strlit("http-out");
        reveal_strlit("starter.flow.node.");
        reveal_strlit("label");
        reveal_strlit("summary");
        reveal_strlit("help");
        reveal_strlit("starter.flow.node.http-out.label");
        reveal_strlit("starter.flow.node.http-out.summary");
        reveal_strlit("starter.flow.node.http-out.help");
        assert(KIND_ID@[7] == '.');
    }
    let d = NodeDescriptor::new(
        KIND_ID,
        "starter.flow.node.http-out.label",
        "starter.flow.node.http-out.summary",
        "starter.flow.node.http-out.help",
    );
    assert(d.label_key@ =~= crate::node::catalog_key("http-out"@, "label"@));
    assert(d.summary_key@ =~= crate::node::catalog_key("http-out"@, "summary"@));
    assert(d.help_key@ =~= crate::node::catalog_key("http-out"@, "help"@));
    d
}

/// Mandatory input slot carrying the request URL.
pub const URL_SLOT: &'static str = "url";

/// Optional input slot naming the HTTP method (case-insensitive, default
/// `GET`).
pub const METHOD_SLOT: &'static str = "method";

/// Optional input slot carrying the request body.
pub const BODY_SLOT: &'static str = "body";

/// Optional input slot carrying request headers as a JSON object of strings.
pub const HEADERS_SLOT: &'static str = "headers";

/// Optional input slot carrying a per-request timeout in milliseconds.
pub const TIMEOUT_MS_SLOT: &'static str = "timeout_ms";

/// Output slot carrying the response status code.
pub const STATUS_SLOT: &'static str = "status";

/// Output slot carrying the response headers as a JSON object of strings;
/// a header sent several times has its values joined with `, `.
pub const RESPONSE_HEADERS_SLOT: &'static str = "response_headers";

/// Output slot carrying the response body.
pub const RESPONSE_BODY_SLOT: &'static str = "response_body";

/// Request timeout when the input names none.
pub const DEFAULT_TIMEOUT_MS: u64 = 30_000u64;

/// Ceiling on the configurable timeout: ten minutes.
pub const MAX_TIMEOUT_MS: u64 = 600_000u64;

/// Header name that carries the body's media type.
pub const CONTENT_TYPE: &'static str = "content-type";

/// Media type sent with a byte body when the caller set none.
pub const OCTET_STREAM: &'static str = "application/octet-stream";

/// Media type sent with a JSON body when the caller set none; a response
/// whose type starts with it has its body read as JSON.
pub const APPLICATION_JSON: &'static str = "application/json";

/// HTTP methods an `http-out` node issues.
#[derive(Debug, Clone, Copy, PartialEq, Eq)]
pub enum HttpMethod {
    /// `GET`.
    Get,
    /// `POST`.
    Post,
    /// `PUT`.
    Put,
    /// `PATCH`.
    Patch,
    /// `DELETE`.
    Delete,
    /// `HEAD`.
    Head,
}

/// The method an upper-case name spells.
pub open spec fn method_named(s: Seq<char>) -> Option<HttpMethod> {
    if s == "GET"@ {
        Some(HttpMethod::Get)
    } else if s == "POST"@ {
        Some(HttpMethod::Post)
    } else if s == "PUT"@ {
        Some(HttpMethod::Put)
    } else if s == "PATCH"@ {
        Some(HttpMethod::Patch)
    } else if s == "DELETE"@ {
        Some(HttpMethod::Delete)
    } else if s == "HEAD"@ {
        Some(HttpMethod::Head)
    } else {
        None
    }
}

impl HttpMethod {
    /// The method's upper-case name.
    pub fn as_str(&self) -> (r: &'static str)
        ensures
            method_named(r@) == Some(*self),
    {
        proof {
            reveal_strlit("GET");
            reveal_strlit("POST");
            reveal_strlit("PUT");
            reveal_strlit("PATCH");
            reveal_strlit("DELETE");
            reveal_strlit("HEAD");
        }
        let r: &'static str = match self {
            HttpMethod::Get => "GET",
            HttpMethod::Post => "POST",
            HttpMethod::Put => "PUT",
            HttpMethod::Patch => "PATCH",
            HttpMethod::Delete => "DELETE",
            HttpMethod::Head => "HEAD",
        };
        assert("GET"@[0] == 'G' && "DELETE"@[0] == 'D' && "HEAD"@[0] == 'H');
        assert("POST"@[0] == 'P' && "PUT"@[0] == 'P' && "PATCH"@[0] == 'P');
        assert("POST"@[1] == 'O' && "PUT"@[1] == 'U' && "PATCH"@[1] == 'A');
        assert(method_named("GET"@) == Some(HttpMethod::Get));
        assert(method_named("POST"@) == Some(HttpMethod::Post));
        assert(method_named("PUT"@) == Some(HttpMethod::Put));
        assert(method_named("PATCH"@) == Some(HttpMethod::Patch));
        assert(method_named("DELETE"@) == Some(HttpMethod::Delete));
        assert(method_named("HEAD"@) == Some(HttpMethod::Head));
        r
    }
}

/// Publish-time settings of an `http-out` node: defaults for the input
/// slots.
#[derive(Debug)]
pub struct HttpOutSettings {
    /// Request URL.
    pub url: Option<String>,
    /// Method.
    pub method: Option<HttpMethod>,
    /// Request headers, ascending by name.
    pub headers: Option<Vec<(String, String)>>,
    /// Request body text.
    pub body: Option<String>,
    /// Timeout in milliseconds, `1..=MAX_TIMEOUT_MS`.
    pub timeout_ms: Option<u64>,
}

/// Typed errors surfaced by `http-out`.
#[derive(Debug)]
pub enum HttpOutError {
    /// No `url` entry.
    MissingUrl,
    /// `url` not a string.
    InvalidUrlType,
    /// `method` not a supported method; carries the upper-cased name.
    InvalidMethod(String),
    /// `method` not a string.
    InvalidMethodType,
    /// `headers` not a JSON object of strings.
    InvalidHeaders,
    /// `timeout_ms` zero, negative, or above [`MAX_TIMEOUT_MS`].
    TimeoutOutOfRange(i64),
    /// `timeout_ms` not an integer.
    InvalidTimeoutType,
}

impl HttpOutError {
    /// The node error this surfaces as.
    pub fn into_node_error(self) -> (n: NodeError)
        ensures
            n == NodeError::Other(KindError::HttpOut(self)),
    {
        NodeError::Other(KindError::HttpOut(self))
    }
}


/// The text an `http-out` error renders as.
pub open spec fn http_out_error_text(e: HttpOutError) -> Seq<char> {
    match e {
        HttpOutError::MissingUrl => "http-out input missing `url` slot"@,
        HttpOutError::InvalidUrlType => "http-out `url` must be SlotValue::String"@,
        HttpOutError::InvalidMethod(s) => "http-out unsupported method: `"@ + s@
            + "` (expected GET|POST|PUT|PATCH|DELETE|HEAD)"@,
        HttpOutError::InvalidMethodType => "http-out `method` must be SlotValue::String"@,
        HttpOutError::InvalidHeaders => "http-out `headers` must be SlotValue::Json(object) with string values"@,
        HttpOutError::TimeoutOutOfRange(n) => "http-out `timeout_ms` out of range: "@ + signed_decimal(n as int)
            + " (must be 1..=600000)"@,
        HttpOutError::InvalidTimeoutType => "http-out `timeout_ms` must be SlotValue::Int milliseconds"@,
    }
}

impl HttpOutError {
    /// Human-readable message.
    pub fn message(&self) -> (m: String)
        ensures
            m@ == http_out_error_text(*self),
    {
        match self {
            HttpOutError::MissingUrl => String::from_str("http-out input missing `url` slot"),
            HttpOutError::InvalidUrlType => String::from_str("http-out `url` must be SlotValue::String"),
            HttpOutError::InvalidMethod(s) => {
                let m = String::from_str("http-out unsupported method: `");
                let m = m.concat(s.as_str());
                m.concat("` (expected GET|POST|PUT|PATCH|DELETE|HEAD)")
            },
            HttpOutError::InvalidMethodType => String::from_str(
                "http-out `method` must be SlotValue::String",
            ),
            HttpOutError::InvalidHeaders => String::from_str(
                "http-out `headers` must be SlotValue::Json(object) with string values",
            ),
            HttpOutError::TimeoutOutOfRange(n) => {
                let m = String::from_str("http-out `timeout_ms` out of range: ");
                let d = format_i64(*n);
                let m = m.concat(d.as_str());
                m.concat(" (must be 1..=600000)")
            },
            HttpOutError::InvalidTimeoutType => String::from_str(
                "http-out `timeout_ms` must be SlotValue::Int milliseconds",
            ),
        }
    }
}

/// Parse a method name, ignoring ASCII case.
pub fn parse_method(s: &str) -> (r: Result<HttpMethod, HttpOutError>)
    ensures
        method_named(upper_text(s@)) matches Some(m) ==> r matches Ok(n) && n == m,
        method_named(upper_text(s@)) is None ==> (r matches Err(HttpOutError::InvalidMethod(t))
            && t@ == upper_text(s@)),
{
    let u = to_ascii_uppercase(s);
    let us = u.as_str();
    if crate::text::text_eq(us, "GET") {
        Ok(HttpMethod::Get)
    } else if crate::text::text_eq(us, "POST") {
        Ok(HttpMethod::Post)
    } else if crate::text::text_eq(us, "PUT") {
        Ok(HttpMethod::Put)
    } else if crate::text::text_eq(us, "PATCH") {
        Ok(HttpMethod::Patch)
    } else if crate::text::text_eq(us, "DELETE") {
        Ok(HttpMethod::Delete)
    } else if crate::text::text_eq(us, "HEAD") {
        Ok(HttpMethod::Head)
    } else {
        Err(HttpOutError::InvalidMethod(u))
    }
}

/// The text a string slot value holds (empty for any other value).
pub open spec fn slot_text(v: SlotValue) -> Seq<char> {
    match v {
        SlotValue::String(s) => s@,
        _ => Seq::empty(),
    }
}

/// A header pair as two texts.
pub open spec fn header_view(h: (String, String)) -> (Seq<char>, Seq<char>) {
    (h.0@, h.1@)
}

/// The method a request is issued with: `GET` when the input names none,
/// and each method name, in either case, selects the method of that name.
pub proof fn lemma_method_selection(input: Seq<(Seq<char>, SlotValue)>)
    ensures
        lookup(input, METHOD_SLOT@) is None ==> requested_method(input) == Some(HttpMethod::Get),
        method_named(upper_text("GET"@)) == Some(HttpMethod::Get),
        method_named(upper_text("get"@)) == Some(HttpMethod::Get),
        method_named(upper_text("POST"@)) == Some(HttpMethod::Post),
        method_named(upper_text("post"@)) == Some(HttpMethod::Post),
        method_named(upper_text("PUT"@)) == Some(HttpMethod::Put),
        method_named(upper_text("put"@)) == Some(HttpMethod::Put),
        method_named(upper_text("DELETE"@)) == Some(HttpMethod::Delete),
        method_named(upper_text("delete"@)) == Some(HttpMethod::Delete),
        method_named(upper_text("PATCH"@)) == Some(HttpMethod::Patch),
        method_named(upper_text("patch"@)) == Some(HttpMethod::Patch),
        method_named(upper_text("HEAD"@)) == Some(HttpMethod::Head),
        method_named(upper_text("head"@)) == Some(HttpMethod::Head),
{
    reveal_strlit("GET");
    reveal_strlit("get");
    reveal_strlit("POST");
    reveal_strlit("post");
    reveal_strlit("PUT");
    reveal_strlit("put");
    reveal_strlit("DELETE");
    reveal_strlit("delete");
    reveal_strlit("PATCH");
    reveal_strlit("patch");
    reveal_strlit("HEAD");
    reveal_strlit("head");
    assert(upper_text("PATCH"@) =~= "PATCH"@);
    assert(upper_text("patch"@) =~= "PATCH"@);
    assert(upper_text("HEAD"@) =~= "HEAD"@);
    assert(upper_text("head"@) =~= "HEAD"@);
    assert("PATCH"@[0] != "GET"@[0] && "PATCH"@[1] != "POST"@[1] && "PATCH"@[1] != "PUT"@[1]);
    assert("HEAD"@[0] != "GET"@[0] && "HEAD"@[0] != "POST"@[0] && "HEAD"@[0] != "PUT"@[0]
        && "HEAD"@[0] != "PATCH"@[0] && "HEAD"@[0] != "DELETE"@[0]);
    assert(upper_text("GET"@) =~= "GET"@);
    assert(upper_text("get"@) =~= "GET"@);
    assert(upper_text("POST"@) =~= "POST"@);
    assert(upper_text("post"@) =~= "POST"@);
    assert(upper_text("PUT"@) =~= "PUT"@);
    assert(upper_text("put"@) =~= "PUT"@);
    assert(upper_text("DELETE"@) =~= "DELETE"@);
    assert(upper_text("delete"@) =~= "DELETE"@);
    assert("POST"@[0] != "GET"@[0]);
    assert("PUT"@[1] != "POST"@[1] && "PUT"@[0] != "GET"@[0]);
    assert("DELETE"@[0] != "GET"@[0] && "DELETE"@[0] != "POST"@[0] && "DELETE"@[0] != "PUT"@[0]
        && "DELETE"@[0] != "PATCH"@[0]);
}

/// The method the input selects, if it is a valid one.
pub open spec fn requested_method(input: Seq<(Seq<char>, SlotValue)>) -> Option<HttpMethod> {
    match lookup(input, METHOD_SLOT@) {
        None => Some(HttpMethod::Get),
        Some(SlotValue::String(s)) => method_named(upper_text(s@)),
        Some(_) => None,
    }
}

/// The request headers the input names, if they are a JSON object of
/// strings.
pub open spec fn requested_headers(input: Seq<(Seq<char>, SlotValue)>) -> Option<
    Seq<(Seq<char>, Seq<char>)>,
> {
    match lookup(input, HEADERS_SLOT@) {
        None => Some(Seq::empty()),
        Some(SlotValue::Json(JsonValue::Object(members))) => if forall|i: int|
            0 <= i < members@.len() ==> (#[trigger] members@[i]).1 is String {
            Some(members@.map_values(|m: (String, JsonValue)| (m.0@, json_text(m.1))))
        } else {
            None
        },
        Some(_) => None,
    }
}

/// The timeout the input selects, if it is in range.
pub open spec fn requested_timeout(input: Seq<(Seq<char>, SlotValue)>) -> Option<u64> {
    match lookup(input, TIMEOUT_MS_SLOT@) {
        None => Some(DEFAULT_TIMEOUT_MS),
        Some(SlotValue::Int(n)) => if 1 <= n <= MAX_TIMEOUT_MS {
            Some(n as u64)
        } else {
            None
        },
        Some(_) => None,
    }
}

/// The input names a string URL, a valid method, a JSON object of string
/// headers and an in-range timeout.
pub open spec fn prepare_accepts(input: Seq<(Seq<char>, SlotValue)>) -> bool {
    &&& lookup(input, URL_SLOT@) matches Some(SlotValue::String(_))
    &&& requested_method(input) is Some
    &&& requested_headers(input) is Some
    &&& requested_timeout(input) is Some
}

/// `e` is the error an input that [`prepare_accepts`] refuses earns: the
/// first of the `url`, `method`, `headers`, `timeout_ms` checks to fail.
pub open spec fn rejects_with(input: Seq<(Seq<char>, SlotValue)>, e: HttpOutError) -> bool {
    match lookup(input, URL_SLOT@) {
        None => e is MissingUrl,
        Some(SlotValue::String(_)) => match lookup(input, METHOD_SLOT@) {
            Some(SlotValue::String(s)) if method_named(upper_text(s@)) is None => e matches HttpOutError::InvalidMethod(t)
                && t@ == upper_text(s@),
            Some(SlotValue::String(_)) | None => if requested_headers(input) is None {
                e is InvalidHeaders
            } else {
                match lookup(input, TIMEOUT_MS_SLOT@) {
                    Some(SlotValue::Int(n)) => e matches HttpOutError::TimeoutOutOfRange(m) && m == n,
                    _ => e is InvalidTimeoutType,
                }
            },
            Some(_) => e is InvalidMethodType,
        },
        Some(_) => e is InvalidUrlType,
    }
}

/// Some header is named `content-type`, in any ASCII case.
pub open spec fn names_content_type(hs: Seq<(Seq<char>, Seq<char>)>) -> bool {
    exists|i: int| 0 <= i < hs.len() && lower_text((#[trigger] hs[i]).0) == lower_text(CONTENT_TYPE@)
}

/// The `content-type` header the library adds for a body, when the caller
/// named none.
pub open spec fn added_content_type(body: Option<SlotValue>, hs: Seq<(Seq<char>, Seq<char>)>) -> Option<
    Seq<char>,
> {
    if names_content_type(hs) {
        None
    } else {
        match body {
            Some(SlotValue::Bytes(_)) => Some(OCTET_STREAM@),
            Some(SlotValue::Json(_)) => Some(APPLICATION_JSON@),
            _ => None,
        }
    }
}

/// The request one `http-out` invocation issues.
pub struct HttpRequestPlan {
    /// Method.
    pub method: HttpMethod,
    /// Target URL, as given.
    pub url: String,
    /// Caller headers, in the order given.
    pub headers: Vec<(String, String)>,
    /// A `content-type` value the library adds after the caller headers.
    pub added_content_type: Option<&'static str>,
    /// Timeout in milliseconds, `1..=MAX_TIMEOUT_MS`.
    pub timeout_ms: u64,
    /// Body: a string is sent as it is, bytes as they are, JSON serialised;
    /// any other value is sent as its debug text.
    pub body: Option<SlotValue>,
}

/// Read the request headers out of a JSON object of strings.
fn headers_of(members: &Vec<(String, JsonValue)>) -> (r: Option<Vec<(String, String)>>)
    ensures
        (forall|i: int| 0 <= i < members@.len() ==> (#[trigger] members@[i]).1 is String) ==> (
        r matches Some(h) && h@.map_values(|p: (String, String)| header_view(p)) == members@.map_values(
            |m: (String, JsonValue)| (m.0@, json_text(m.1)),
        )),
        !(forall|i: int| 0 <= i < members@.len() ==> (#[trigger] members@[i]).1 is String) ==> r is None,
{
    let mut out: Vec<(String, String)> = Vec::new();
    let mut i: usize = 0;
    while i < members.len()
        invariant
            0 <= i <= members@.len(),
            out@.len() == i,
            forall|j: int| 0 <= j < i ==> (#[trigger] members@[j]).1 is String,
            forall|j: int| 0 <= j < i ==> header_view(#[trigger] out@[j]) == (members@[j].0@, json_text(members@[j].1)),
        decreases members@.len() - i,
    {
        match &members[i].1 {
            JsonValue::String(s) => {
                out.push((members[i].0.clone(), s.clone()));
            },
            _ => {
                return None;
            },
        }
        i = i + 1;
    }
    assert(out@.map_values(|p: (String, String)| header_view(p)) =~= members@.map_values(
        |m: (String, JsonValue)| (m.0@, json_text(m.1)),
    ));
    Some(out)
}

/// Whether some header is named `content-type`, in any ASCII case.
fn has_content_type(hs: &Vec<(String, String)>) -> (b: bool)
    ensures
        b == names_content_type(hs@.map_values(|p: (String, String)| header_view(p))),
{
    let ghost v = hs@.map_values(|p: (String, String)| header_view(p));
    let mut i: usize = 0;
    while i < hs.len()
        invariant
            0 <= i <= hs@.len(),
            v == hs@.map_values(|p: (String, String)| header_view(p)),
            forall|j: int| 0 <= j < i ==> lower_text((#[trigger] v[j]).0) != lower_text(CONTENT_TYPE@),
        decreases hs@.len() - i,
    {
        if eq_ignore_ascii_case(hs[i].0.as_str(), CONTENT_TYPE) {
            assert(lower_text(v[i as int].0) == lower_text(CONTENT_TYPE@));
            return true;
        }
        i = i + 1;
    }
    false
}

/// `http-out` node-kind body.
pub struct HttpOut {
    kind: KindId,
}

impl HttpOut {
    /// Construct an `http-out` body.
    pub fn new() -> (h: HttpOut)
        ensures
            h.kind_id()@ == KIND_ID@,
    {
        proof {
            reveal_strlit("starter.flow.http-out");
            assert(KIND_ID@[7] == '.');
        }
        HttpOut { kind: KindId::from_valid(KIND_ID) }
    }

    /// The kind id this body implements.
    pub closed spec fn kind_id(&self) -> KindId {
        self.kind
    }

    /// Decide the request the input asks for. Errors come in this order: the
    /// `url`, the `method`, the `headers`, the `timeout_ms`.
    pub fn prepare(&self, input: SlotMap) -> (r: Result<HttpRequestPlan, NodeError>)
        ensures
            !prepare_accepts(input@) ==> (r matches Err(NodeError::Other(KindError::HttpOut(e)))
                && rejects_with(input@, e)),
            prepare_accepts(input@) ==> r is Ok,
            r matches Ok(p) ==> (lookup(input@, METHOD_SLOT@) is None ==> p.method == HttpMethod::Get),
            r matches Ok(p) ==> (lookup(input@, METHOD_SLOT@) matches Some(SlotValue::String(m)) ==> ((m@
                == "GET"@ || m@ == "get"@ ==> p.method == HttpMethod::Get) && (m@ == "POST"@ || m@ == "post"@
                ==> p.method == HttpMethod::Post) && (m@ == "PUT"@ || m@ == "put"@ ==> p.method
                == HttpMethod::Put) && (m@ == "DELETE"@ || m@ == "delete"@ ==> p.method == HttpMethod::Delete))),
            r matches Ok(p) ==> ({
                &&& lookup(input@, URL_SLOT@) matches Some(SlotValue::String(u)) && p.url@ == u@
                &&& requested_method(input@) == Some(p.method)
                &&& requested_headers(input@) == Some(
                    p.headers@.map_values(|h: (String, String)| header_view(h)),
                )
                &&& requested_timeout(input@) == Some(p.timeout_ms)
                &&& p.body == lookup(input@, BODY_SLOT@)
                &&& match added_content_type(p.body, p.headers@.map_values(|h: (String, String)| header_view(h))) {
                    Some(c) => p.added_content_type matches Some(a) && a@ == c,
                    None => p.added_content_type is None,
                }
            }),
    {
        proof {
            lemma_method_selection(input@);
            reveal_strlit("url");
            reveal_strlit("method");
            reveal_strlit("headers");
            reveal_strlit("timeout_ms");
            reveal_strlit("body");
            assert(URL_SLOT@[0] != METHOD_SLOT@[0]);
            assert(URL_SLOT@[0] != HEADERS_SLOT@[0]);
            assert(URL_SLOT@[0] != TIMEOUT_MS_SLOT@[0]);
            assert(URL_SLOT@[0] != BODY_SLOT@[0]);
            assert(METHOD_SLOT@[0] != HEADERS_SLOT@[0]);
            assert(METHOD_SLOT@[0] != TIMEOUT_MS_SLOT@[0]);
            assert(METHOD_SLOT@[0] != BODY_SLOT@[0]);
            assert(HEADERS_SLOT@[0] != TIMEOUT_MS_SLOT@[0]);
            assert(HEADERS_SLOT@[0] != BODY_SLOT@[0]);
            assert(TIMEOUT_MS_SLOT@[0] != BODY_SLOT@[0]);
        }
        let mut input = input;
        let url = match input.remove(URL_SLOT) {
            None => return Err(NodeError::Other(KindError::HttpOut(HttpOutError::MissingUrl))),
            Some(SlotValue::String(s)) => s,
            Some(_) => return Err(NodeError::Other(KindError::HttpOut(HttpOutError::InvalidUrlType))),
        };
        let method = match input.remove(METHOD_SLOT) {
            None => HttpMethod::Get,
            Some(SlotValue::String(s)) => match parse_method(s.as_str()) {
                Ok(m) => m,
                Err(e) => return Err(NodeError::Other(KindError::HttpOut(e))),
            },
            Some(_) => return Err(NodeError::Other(KindError::HttpOut(HttpOutError::InvalidMethodType))),
        };
        let headers = match input.remove(HEADERS_SLOT) {
            None => {
                let h: Vec<(String, String)> = Vec::new();
                assert(h@.map_values(|p: (String, String)| header_view(p)) =~= Seq::<
                    (Seq<char>, Seq<char>),
                >::empty());
                h
            },
            Some(SlotValue::Json(JsonValue::Object(members))) => match headers_of(&members) {
                Some(h) => h,
                None => return Err(NodeError::Other(KindError::HttpOut(HttpOutError::InvalidHeaders))),
            },
            Some(_) => return Err(NodeError::Other(KindError::HttpOut(HttpOutError::InvalidHeaders))),
        };
        let timeout_ms: u64 = match input.remove(TIMEOUT_MS_SLOT) {
            None => DEFAULT_TIMEOUT_MS,
            Some(SlotValue::Int(n)) => {
                if n <= 0 || n as u64 > MAX_TIMEOUT_MS {
                    return Err(NodeError::Other(KindError::HttpOut(HttpOutError::TimeoutOutOfRange(n))));
                }
                n as u64
            },
            Some(_) => return Err(
                NodeError::Other(KindError::HttpOut(HttpOutError::InvalidTimeoutType)),
            ),
        };
        let body = input.remove(BODY_SLOT);
        let ct = has_content_type(&headers);
        let added_content_type: Option<&'static str> = if ct {
            None
        } else {
            match &body {
                Some(SlotValue::Bytes(_)) => Some(OCTET_STREAM),
                Some(SlotValue::Json(_)) => Some(APPLICATION_JSON),
                _ => None,
            }
        };
        Ok(HttpRequestPlan { method, url, headers, added_content_type, timeout_ms, body })
    }
}

/// Response headers as one text per name: a name sent several times has its
/// values joined, in the order received, with `, `.
pub open spec fn header_join(hs: Seq<(Seq<char>, Seq<char>)>) -> Map<Seq<char>, Seq<char>>
    decreases hs.len(),
{
    if hs.len() == 0 {
        Map::empty()
    } else {
        let m = header_join(hs.drop_last());
        let k = hs.last().0;
        let v = hs.last().1;
        if m.contains_key(k) {
            m.insert(k, m[k] + seq![',', ' '] + v)
        } else {
            m.insert(k, v)
        }
    }
}

/// `j` is the JSON object of the joined response headers: one string member
/// per header name, names strictly ascending.
pub open spec fn is_joined_headers(j: JsonValue, hs: Seq<(Seq<char>, Seq<char>)>) -> bool {
    j matches JsonValue::Object(members) && {
        &&& forall|a: int, b: int|
            0 <= a < b < members@.len() ==> lex_lt(
                (#[trigger] members@[a]).0@,
                (#[trigger] members@[b]).0@,
            )
        &&& forall|i: int|
            0 <= i < members@.len() ==> header_join(hs).contains_key((#[trigger] members@[i]).0@)
                && members@[i].1 is String && json_text(members@[i].1) == header_join(hs)[members@[i].0@]
        &&& forall|k: Seq<char>|
            #[trigger] header_join(hs).contains_key(k) ==> exists|i: int|
                0 <= i < members@.len() && (#[trigger] members@[i]).0@ == k
    }
}

/// Join the response headers, received as `(name, value)` pairs, into one
/// JSON object.
pub fn join_response_headers(headers: Vec<(String, String)>) -> (r: JsonValue)
    ensures
        is_joined_headers(r, headers@.map_values(|h: (String, String)| header_view(h))),
{
    let ghost hs = headers@.map_values(|h: (String, String)| header_view(h));
    let mut m = SlotMap::new();
    let mut i: usize = 0;
    while i < headers.len()
        invariant
            0 <= i <= headers@.len(),
            hs == headers@.map_values(|h: (String, String)| header_view(h)),
            names_ascend(m@),
            forall|k: Seq<char>|
                #![trigger lookup(m@, k)]
                (lookup(m@, k) is Some <==> header_join(hs.take(i as int)).contains_key(k)),
            forall|k: Seq<char>|
                #![trigger lookup(m@, k)]
                lookup(m@, k) is Some ==> (lookup(m@, k).unwrap() is String && slot_text(
                    lookup(m@, k).unwrap(),
                ) == header_join(hs.take(i as int))[k]),
        decreases headers@.len() - i,
    {
        let name = headers[i].0.clone();
        let value = headers[i].1.as_str();
        assert(hs.take(i + 1).drop_last() =~= hs.take(i as int));
        assert(hs.take(i + 1).last() == hs[i as int]);
        let joined = match m.get(name.as_str()) {
            Some(SlotValue::String(prev)) => {
                let mut t = prev.clone();
                push_char(&mut t, ',');
                push_char(&mut t, ' ');
                let t = t.concat(value);
                t
            },
            _ => value.to_owned(),
        };
        let ghost before = m@;
        m.insert(name, SlotValue::String(joined));
        proof {
            assert forall|k: Seq<char>| #![trigger lookup(m@, k)]
                (lookup(m@, k) is Some <==> header_join(hs.take(i + 1)).contains_key(k)) by {
                if k != hs[i as int].0 {
                    assert(lookup(m@, k) == lookup(before, k));
                }
            }
            assert forall|k: Seq<char>| #![trigger lookup(m@, k)]
                lookup(m@, k) is Some implies (lookup(m@, k).unwrap() is String && slot_text(
                    lookup(m@, k).unwrap(),
                ) == header_join(hs.take(i + 1))[k]) by {
                if k != hs[i as int].0 {
                    assert(lookup(m@, k) == lookup(before, k));
                }
            }
        }
        i = i + 1;
    }
    assert(hs.take(headers@.len() as int) =~= hs);
    let ghost full = m@;
    let mut members: Vec<(String, JsonValue)> = Vec::new();
    while m.len() > 0
        invariant
            names_ascend(full),
            members@.len() + m@.len() == full.len(),
            m@ == full.skip(members@.len() as int),
            forall|j: int|
                0 <= j < members@.len() ==> (#[trigger] members@[j]).0@ == full[j].0 && (full[j].1 matches SlotValue::String(s)
                    ==> members@[j].1 == JsonValue::String(s)),
            forall|k: Seq<char>|
                #![trigger lookup(full, k)]
                lookup(full, k) is Some ==> (lookup(full, k).unwrap() is String && slot_text(
                    lookup(full, k).unwrap(),
                ) == header_join(hs)[k]),
            forall|k: Seq<char>|
                #![trigger lookup(full, k)]
                (lookup(full, k) is Some <==> header_join(hs).contains_key(k)),
        decreases m@.len(),
    {
        let ghost j = members@.len() as int;
        match m.pop_first() {
            Some((k, v)) => {
                assert(full[j] == (k@, v));
                let jv = match v {
                    SlotValue::String(s) => JsonValue::String(s),
                    _ => JsonValue::Null,
                };
                members.push((k, jv));
                assert(full.skip(j + 1) =~= full.skip(j).drop_first());
            },
            None => {},
        }
    }
    proof {
        assert forall|a: int, b: int|
            0 <= a < b < members@.len() implies lex_lt(
                (#[trigger] members@[a]).0@,
                (#[trigger] members@[b]).0@,
            ) by {
            assert(lex_lt(full[a].0, full[b].0));
        }
        assert forall|i: int| 0 <= i < members@.len() implies header_join(hs).contains_key(
            (#[trigger] members@[i]).0@,
        ) && members@[i].1 is String && json_text(members@[i].1) == header_join(hs)[members@[i].0@] by {
            crate::slot::lemma_lookup_at(full, full[i].0, i);
        }
        assert forall|k: Seq<char>| #[trigger] header_join(hs).contains_key(k) implies exists|i: int|
            0 <= i < members@.len() && (#[trigger] members@[i]).0@ == k by {
            crate::slot::lemma_name_pos(full, k);
            assert(lookup(full, k) is Some);
            let p = crate::slot::name_pos(full, k);
            assert(members@[p].0@ == k);
        }
    }
    JsonValue::Object(members)
}

/// The first value of the `content-type` header (name in any ASCII case).
pub open spec fn first_content_type(hs: Seq<(Seq<char>, Seq<char>)>) -> Option<Seq<char>>
    decreases hs.len(),
{
    if hs.len() == 0 {
        None
    } else if lower_text(hs[0].0) == lower_text(CONTENT_TYPE@) {
        Some(hs[0].1)
    } else {
        first_content_type(hs.drop_first())
    }
}

/// The response advertises a JSON body: its first `content-type` value,
/// lower-cased, starts with `application/json`.
pub open spec fn advertises_json(hs: Seq<(Seq<char>, Seq<char>)>) -> bool {
    match first_content_type(hs) {
        Some(t) => APPLICATION_JSON@.len() <= t.len() && lower_text(t).subrange(
            0,
            APPLICATION_JSON@.len() as int,
        ) == APPLICATION_JSON@,
        None => false,
    }
}

/// Whether the response body is to be read as JSON.
pub fn response_is_json(headers: &Vec<(String, String)>) -> (b: bool)
    ensures
        b == advertises_json(headers@.map_values(|h: (String, String)| header_view(h))),
{
    let ghost hs = headers@.map_values(|h: (String, String)| header_view(h));
    assert(hs.skip(0) =~= hs);
    let mut i: usize = 0;
    while i < headers.len()
        invariant
            0 <= i <= headers@.len(),
            hs == headers@.map_values(|h: (String, String)| header_view(h)),
            first_content_type(hs) == first_content_type(hs.skip(i as int)),
        decreases headers@.len() - i,
    {
        assert(hs.skip(i as int).drop_first() =~= hs.skip(i + 1));
        assert(hs.skip(i as int)[0] == hs[i as int]);
        if eq_ignore_ascii_case(headers[i].0.as_str(), CONTENT_TYPE) {
            let t = to_ascii_lowercase(headers[i].1.as_str());
            let r = starts_with(t.as_str(), APPLICATION_JSON);
            assert(t@.len() == hs[i as int].1.len());
            return r;
        }
        i = i + 1;
    }
    assert(hs.skip(i as int).len() == 0);
    false
}

/// The output of a completed request: the status, the joined response
/// headers, and the body the host read.
pub fn response_output(status: u16, headers: Vec<(String, String)>, body: SlotValue) -> (out: SlotMap)
    ensures
        out@.len() == 3,
        lookup(out@, STATUS_SLOT@) == Some(SlotValue::Int(status as i64)),
        lookup(out@, RESPONSE_HEADERS_SLOT@) matches Some(SlotValue::Json(j)) && is_joined_headers(
            j,
            headers@.map_values(|h: (String, String)| header_view(h)),
        ),
        lookup(out@, RESPONSE_BODY_SLOT@) == Some(body),
{
    proof {
        reveal_strlit("status");
        reveal_strlit("response_headers");
        reveal_strlit("response_body");
        assert(STATUS_SLOT@[0] != RESPONSE_HEADERS_SLOT@[0]);
        assert(STATUS_SLOT@[0] != RESPONSE_BODY_SLOT@[0]);
        assert(RESPONSE_HEADERS_SLOT@[9] != RESPONSE_BODY_SLOT@[9]);
    }
    let joined = join_response_headers(headers);
    let mut out = SlotMap::new();
    out.insert(String::from_str(STATUS_SLOT), SlotValue::Int(status as i64));
    out.insert(String::from_str(RESPONSE_HEADERS_SLOT), SlotValue::Json(joined));
    out.insert(String::from_str(RESPONSE_BODY_SLOT), body);
    out
}


/// The body of a response read as JSON (see [`response_is_json`]): the
/// document its bytes parse to when they parse (`parsed`, the host's JSON
/// parse of `bytes`), else the bytes as text, invalid UTF-8 replaced.
pub fn json_response_body(bytes: &[u8], parsed: Option<JsonValue>) -> (b: SlotValue)
    ensures
        parsed matches Some(j) ==> b == SlotValue::Json(j),
        parsed is None ==> (b matches SlotValue::String(t) && t@ == utf8_lossy(bytes@)),
        parsed is None && vstd::utf8::valid_utf8(bytes@) ==> (b matches SlotValue::String(t) && t@
            == vstd::utf8::decode_utf8(bytes@)),
{
    match parsed {
        Some(j) => SlotValue::Json(j),
        None => SlotValue::String(lossy_text(bytes)),
    }
}

} // verus!
