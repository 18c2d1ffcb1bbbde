//! Flow surfaces: the decisions the flow-as-tool and flow-as-service
//! adapters make around the engine — which builder field is missing, the
//! dedup key of a service event, and how a scheduled dispatch is recorded.

use vstd::prelude::*;
use vstd::string::*;

use crate::flow::DedupKey;
use crate::hex::{bytes_hex, push_byte_hex};
use crate::ids::KindId;

verus! {

/// Cap, in UTF-8 bytes, on a recorded dispatch failure message.
pub const MESSAGE_CAP_BYTES: usize = 4096usize;

/// The largest character boundary of `b` at or below `e`.
pub open spec fn boundary_at_most(b: Seq<u8>, e: int) -> int
    decreases e,
{
    if e <= 0 {
        0
    } else if vstd::utf8::is_char_boundary(b, e) {
        e
    } else {
        boundary_at_most(b, e - 1)
    }
}

/// The UTF-8 bytes of what a failure message is recorded as: all of it when
/// it fits in [`MESSAGE_CAP_BYTES`], else its bytes up to the last
/// character boundary within the cap.
pub open spec fn truncated_bytes(s: Seq<char>) -> Seq<u8> {
    let b = vstd::utf8::encode_utf8(s);
    if b.len() <= MESSAGE_CAP_BYTES {
        b
    } else {
        b.subrange(0, boundary_at_most(b, MESSAGE_CAP_BYTES as int))
    }
}

/// The largest boundary at or below `e` lies in `0..=e`.
proof fn lemma_boundary_bounds(b: Seq<u8>, e: int)
    ensures
        0 <= boundary_at_most(b, e),
        e >= 0 ==> boundary_at_most(b, e) <= e,
    decreases e,
{
    if e > 0 && !vstd::utf8::is_char_boundary(b, e) {
        lemma_boundary_bounds(b, e - 1);
    }
}

/// A recorded message is a byte prefix of the original and never longer
/// than the cap.
pub proof fn lemma_truncated_fits(s: Seq<char>)
    ensures
        truncated_bytes(s).len() <= MESSAGE_CAP_BYTES,
        truncated_bytes(s) == vstd::utf8::encode_utf8(s).subrange(0, truncated_bytes(s).len() as int),
{
    let b = vstd::utf8::encode_utf8(s);
    if b.len() > MESSAGE_CAP_BYTES {
        lemma_boundary_bounds(b, MESSAGE_CAP_BYTES as int);
    } else {
        assert(b.subrange(0, b.len() as int) =~= b);
    }
}

/// `s`, cut to at most [`MESSAGE_CAP_BYTES`] bytes without splitting a
/// character. The byte length of `s` fits in `usize`, as that of any string
/// in memory does.
pub fn truncate_message(s: &str) -> (r: String)
    requires
        vstd::utf8::encode_utf8(s@).len() <= usize::MAX,
    ensures
        vstd::utf8::encode_utf8(r@) == truncated_bytes(s@),
        vstd::utf8::encode_utf8(s@).len() <= MESSAGE_CAP_BYTES ==> r@ == s@,
{
    proof {
        vstd::utf8::encode_utf8_valid_utf8(s@);
    }
    let len = s.len();
    if len <= MESSAGE_CAP_BYTES {
        return s.to_owned();
    }
    let ghost b = s.spec_bytes();
    let mut end: usize = MESSAGE_CAP_BYTES;
    while end > 0 && !s.is_char_boundary(end)
        invariant
            b == s.spec_bytes(),
            b == vstd::utf8::encode_utf8(s@),
            vstd::utf8::valid_utf8(b),
            end <= MESSAGE_CAP_BYTES,
            b.len() > MESSAGE_CAP_BYTES,
            boundary_at_most(b, end as int) == boundary_at_most(b, MESSAGE_CAP_BYTES as int),
        decreases end,
    {
        end = end - 1;
    }
    assert(vstd::utf8::is_char_boundary(b, end as int));
    assert(boundary_at_most(b, end as int) == end);
    let (head, _rest) = s.split_at(end);
    let r = head.to_owned();
    proof {
        assert(head.spec_bytes() == vstd::utf8::encode_utf8(head@));
    }
    r
}

/// Why a flow-as-tool builder could not build.
#[derive(Debug)]
pub enum FlowAsToolBuildError {
    /// A required field was not set; names the first one missing.
    MissingField(&'static str),
}

impl FlowAsToolBuildError {
    /// Human-readable message.
    pub fn message(&self) -> (m: String)
        ensures
            self matches FlowAsToolBuildError::MissingField(f) ==> m@ == "FlowAsTool builder missing field: "@
                + f@,
    {
        match self {
            FlowAsToolBuildError::MissingField(f) => String::from_str("FlowAsTool builder missing field: ").concat(
                f,
            ),
        }
    }
}

/// Why a flow-as-service builder could not build.
#[derive(Debug)]
pub enum FlowAsServiceBuildError {
    /// A required field was not set; names the first one missing.
    MissingField(&'static str),
}

impl FlowAsServiceBuildError {
    /// Human-readable message.
    pub fn message(&self) -> (m: String)
        ensures
            self matches FlowAsServiceBuildError::MissingField(f) ==> m@
                == "FlowAsService builder missing field: "@ + f@,
    {
        match self {
            FlowAsServiceBuildError::MissingField(f) => String::from_str(
                "FlowAsService builder missing field: ",
            ).concat(f),
        }
    }
}

/// The BLAKE3 digest (32 bytes) of some input.
pub uninterp spec fn blake3_digest(input: Seq<u8>) -> Seq<u8>;

/// `blake3::hash`: the 32-byte BLAKE3 digest of `input`. The contract names
/// the digest ([`blake3_digest`]), claims that it depends on the input alone
/// and that it is 32 bytes long; the hash function itself is not restated.
#[verifier::external_body]
fn blake3_hash(input: &[u8]) -> (r: Vec<u8>)
    ensures
        r@ == blake3_digest(input@),
        r@.len() == 32,
{
    blake3::hash(input).as_bytes().to_vec()
}

/// The bytes a service event's fallback dedup key hashes: the service id,
/// a zero byte, the event kind, a zero byte, and the payload's JSON bytes
/// (none when the payload could not be serialised).
pub open spec fn dedup_input(service: Seq<char>, kind: Seq<char>, payload: Option<Seq<u8>>) -> Seq<u8> {
    vstd::utf8::encode_utf8(service) + seq![0u8] + vstd::utf8::encode_utf8(kind) + seq![0u8] + match payload {
        Some(p) => p,
        None => Seq::empty(),
    }
}

/// The fallback dedup key of a service event: the lowercase hex of the
/// BLAKE3 digest of [`dedup_input`].
pub fn fallback_dedup_key(service_id: &KindId, kind: &str, payload_json: Option<Vec<u8>>) -> (k: String)
    ensures
        k@ == bytes_hex(
            blake3_digest(
                dedup_input(
                    service_id@,
                    kind@,
                    match payload_json {
                        Some(p) => Some(p@),
                        None => None,
                    },
                ),
            ),
        ),
{
    let mut input: Vec<u8> = service_id.as_str().as_bytes_vec();
    input.push(0u8);
    let mut kind_bytes = kind.as_bytes_vec();
    input.append(&mut kind_bytes);
    input.push(0u8);
    match payload_json {
        Some(p) => {
            let mut p = p;
            input.append(&mut p);
        },
        None => {},
    }
    assert(input@ =~= dedup_input(
        service_id@,
        kind@,
        match payload_json {
            Some(p) => Some(p@),
            None => None,
        },
    ));
    let digest = blake3_hash(input.as_slice());
    let mut out = String::new();
    let mut i: usize = 0;
    while i < digest.len()
        invariant
            0 <= i <= digest@.len(),
            out@ == bytes_hex(digest@.take(i as int)),
        decreases digest@.len() - i,
    {
        push_byte_hex(&mut out, digest[i]);
        assert(digest@.take(i + 1).drop_last() =~= digest@.take(i as int));
        i = i + 1;
    }
    assert(digest@.take(digest@.len() as int) =~= digest@);
    out
}

/// The dedup key of a service event: the sink's own key when it gives one,
/// else the fallback hash key.
pub fn event_dedup_key(
    service_id: &KindId,
    kind: &str,
    sink_key: Option<String>,
    payload_json: Option<Vec<u8>>,
) -> (d: DedupKey)
    ensures
        d.service_name@ == service_id@,
        sink_key matches Some(k) ==> d.key == k,
        sink_key is None ==> d.key@ == bytes_hex(
            blake3_digest(
                dedup_input(
                    service_id@,
                    kind@,
                    match payload_json {
                        Some(p) => Some(p@),
                        None => None,
                    },
                ),
            ),
        ),
{
    let key = match sink_key {
        Some(k) => k,
        None => fallback_dedup_key(service_id, kind, payload_json),
    };
    DedupKey::new(service_id.as_str().to_owned(), key)
}

/// How a scheduled dispatch is recorded: `succeeded` with no message, or
/// `failed` with the error truncated to the cap.
pub fn dispatch_record(result: Result<(), String>) -> (r: (&'static str, Option<String>))
    requires
        result matches Err(e) ==> vstd::utf8::encode_utf8(e@).len() <= usize::MAX,
    ensures
        result is Ok ==> r.0@ == "succeeded"@ && r.1 is None,
        result matches Err(e) ==> (r.1 matches Some(m) && vstd::utf8::encode_utf8(m@) == truncated_bytes(e@)
            && r.0@ == "failed"@),
{
    match result {
        Ok(()) => ("succeeded", None),
        Err(e) => ("failed", Some(truncate_message(e.as_str()))),
    }
}

} // verus!
