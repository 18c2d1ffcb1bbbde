//! Agent sessions: durable conversation logs with versioned artifacts. The
//! library holds the ids, the size caps, the write requests and the
//! reports; the stores are the host's.

use vstd::prelude::*;
use vstd::string::*;

use crate::flow::{uuid_variant_is_rfc4122, uuid_version};
use crate::hex::{format_uuid, uuid_hyphenated};
use crate::json::JsonValue;

verus! {

/// Cap on the serialised content of one turn: 64 KiB.
pub const TURN_CONTENT_CAP_BYTES: usize = 65_536usize;

/// Cap on the serialised value of one artifact: 32 KiB.
pub const ARTIFACT_VALUE_CAP_BYTES: usize = 32_768usize;

/// Schema version stamped on every turn.
pub const TURN_SCHEMA_VERSION: u32 = 1u32;

/// `uuid::Uuid::now_v7`: a time-ordered UUID for the current instant. Its
/// bits depend on the clock and on chance; what holds of every outcome, and
/// all that is claimed, is that the version field is 7 and the variant is
/// RFC 4122 (the crate's encoder sets exactly those bits).
#[verifier::external_body]
fn time_ordered_uuid() -> (r: u128)
    ensures
        uuid_version(r) == 7,
        uuid_variant_is_rfc4122(r),
{
    uuid::Uuid::now_v7().as_u128()
}

/// The 128-bit value the text of a UUID spells, if it spells one.
pub uninterp spec fn uuid_parse(s: Seq<char>) -> Option<u128>;

/// `uuid::Uuid::parse_str`: the UUID a text spells (hyphenated, simple,
/// braced or URN form), if any. The contract names the result
/// ([`uuid_parse`]) and claims it depends on the text alone, and that the
/// hyphenated form of a UUID spells that UUID.
#[verifier::external_body]
fn parse_uuid_text(s: &str) -> (r: Option<u128>)
    ensures
        r == uuid_parse(s@),
        forall|v: u128| s@ == #[trigger] uuid_hyphenated(v) ==> r == Some(v),
{
    match uuid::Uuid::parse_str(s) {
        Ok(u) => Some(u.as_u128()),
        Err(_) => None,
    }
}

/// Identifier of one agent session: a time-ordered UUID held as its 128-bit
/// value, so ids created later sort later.
#[derive(Debug, Clone, Copy, PartialEq, Eq, Hash)]
pub struct AgentSessionId(pub u128);

/// A text that is not a UUID.
#[derive(Debug)]
pub struct InvalidSessionId {
    /// The text given.
    pub text: String,
}

impl AgentSessionId {
    /// A fresh id for the current instant: a version-7 UUID.
    pub fn new() -> (r: AgentSessionId)
        ensures
            uuid_version(r.0) == 7,
            uuid_variant_is_rfc4122(r.0),
    {
        AgentSessionId(time_ordered_uuid())
    }

    /// The id a UUID text spells.
    pub fn parse(s: &str) -> (r: Result<AgentSessionId, InvalidSessionId>)
        ensures
            forall|v: u128| s@ == #[trigger] uuid_hyphenated(v) ==> r == Ok::<AgentSessionId, InvalidSessionId>(
                AgentSessionId(v),
            ),
            uuid_parse(s@) matches Some(v) ==> r == Ok::<AgentSessionId, InvalidSessionId>(AgentSessionId(v)),
            uuid_parse(s@) is None ==> (r matches Err(e) && e.text@ == s@),
    {
        match parse_uuid_text(s) {
            Some(v) => Ok(AgentSessionId(v)),
            None => Err(InvalidSessionId { text: s.to_owned() }),
        }
    }

    /// The hyphenated lowercase text of the id.
    pub fn to_text(&self) -> (r: String)
        ensures
            r@ == uuid_hyphenated(self.0),
    {
        format_uuid(self.0)
    }
}

/// Reading back the text of an id gives the id.
pub fn roundtrip_text(id: AgentSessionId) -> (r: Result<AgentSessionId, InvalidSessionId>)
    ensures
        r == Ok::<AgentSessionId, InvalidSessionId>(id),
{
    let t = id.to_text();
    AgentSessionId::parse(t.as_str())
}

/// Who produced a turn.
#[derive(Debug, Clone, Copy, PartialEq, Eq)]
pub enum TurnRole {
    /// The user.
    User,
    /// The assistant.
    Assistant,
    /// A tool.
    Tool,
}

/// One turn to append to a session.
#[derive(Debug)]
pub struct TurnInput {
    /// Who produced it.
    pub role: TurnRole,
    /// Its content.
    pub content: JsonValue,
    /// Input tokens, when known.
    pub tokens_in: Option<u32>,
    /// Output tokens, when known.
    pub tokens_out: Option<u32>,
}

impl TurnInput {
    /// A turn with no token counts.
    pub fn new(role: TurnRole, content: JsonValue) -> (t: TurnInput)
        ensures
            t.role == role,
            t.content == content,
            t.tokens_in is None,
            t.tokens_out is None,
    {
        TurnInput { role, content, tokens_in: None, tokens_out: None }
    }
}

/// One artifact write attached to a turn.
#[derive(Debug)]
pub struct ArtifactWrite {
    /// Artifact key.
    pub key: String,
    /// New value.
    pub value: JsonValue,
    /// The version this write supersedes, for lineage.
    pub parent_version: Option<u32>,
}

impl ArtifactWrite {
    /// A write with no recorded parent.
    pub fn new(key: String, value: JsonValue) -> (w: ArtifactWrite)
        ensures
            w.key == key,
            w.value == value,
            w.parent_version is None,
    {
        ArtifactWrite { key, value, parent_version: None }
    }

    /// The same write superseding `parent_version`.
    pub fn with_parent(self, parent_version: u32) -> (w: ArtifactWrite)
        ensures
            w.key == self.key,
            w.value == self.value,
            w.parent_version == Some(parent_version),
    {
        ArtifactWrite { parent_version: Some(parent_version), ..self }
    }
}

/// What appending a turn assigned.
#[derive(Debug)]
pub struct TurnReceipt {
    /// The turn's sequence number.
    pub seq: u32,
    /// The versions assigned to the turn's artifact writes, in order.
    pub artifact_versions: Vec<u32>,
}

impl TurnReceipt {
    /// Build a receipt.
    pub fn new(seq: u32, artifact_versions: Vec<u32>) -> (r: TurnReceipt)
        ensures
            r.seq == seq,
            r.artifact_versions == artifact_versions,
    {
        TurnReceipt { seq, artifact_versions }
    }
}

/// One persisted turn, as a store reads it back. Timestamps are
/// milliseconds since the Unix epoch (UTC).
#[derive(Debug)]
pub struct Turn {
    /// The session.
    pub session_id: AgentSessionId,
    /// Store-assigned sequence number, increasing per session.
    pub seq: u32,
    /// Who produced it.
    pub role: TurnRole,
    /// Its content.
    pub content: JsonValue,
    /// Schema version of `content`.
    pub schema_version: u32,
    /// Serialised length of `content` in bytes.
    pub content_bytes: u32,
    /// Input tokens, when known.
    pub tokens_in: Option<u32>,
    /// Output tokens, when known.
    pub tokens_out: Option<u32>,
    /// When the store committed the turn.
    pub created_at_ms: i64,
}

impl Turn {
    /// A turn with the given parts.
    pub fn new(
        session_id: AgentSessionId,
        seq: u32,
        role: TurnRole,
        content: JsonValue,
        schema_version: u32,
        content_bytes: u32,
        tokens_in: Option<u32>,
        tokens_out: Option<u32>,
        created_at_ms: i64,
    ) -> (t: Turn)
        ensures
            t == (Turn {
                session_id,
                seq,
                role,
                content,
                schema_version,
                content_bytes,
                tokens_in,
                tokens_out,
                created_at_ms,
            }),
    {
        Turn {
            session_id,
            seq,
            role,
            content,
            schema_version,
            content_bytes,
            tokens_in,
            tokens_out,
            created_at_ms,
        }
    }
}

/// One persisted artifact version. Timestamps are milliseconds since the
/// Unix epoch (UTC).
#[derive(Debug)]
pub struct Artifact {
    /// The session.
    pub session_id: AgentSessionId,
    /// Artifact key.
    pub key: String,
    /// Store-assigned version, increasing per (session, key).
    pub version: u32,
    /// The version this one was edited from.
    pub parent_version: Option<u32>,
    /// Its value.
    pub value: JsonValue,
    /// Serialised length of `value` in bytes.
    pub value_bytes: u32,
    /// The turn that produced it, when written with a turn.
    pub produced_by_seq: Option<u32>,
    /// When the store committed it.
    pub updated_at_ms: i64,
}

impl Artifact {
    /// An artifact with the given parts.
    pub fn new(
        session_id: AgentSessionId,
        key: String,
        version: u32,
        parent_version: Option<u32>,
        value: JsonValue,
        value_bytes: u32,
        produced_by_seq: Option<u32>,
        updated_at_ms: i64,
    ) -> (a: Artifact)
        ensures
            a == (Artifact {
                session_id,
                key,
                version,
                parent_version,
                value,
                value_bytes,
                produced_by_seq,
                updated_at_ms,
            }),
    {
        Artifact { session_id, key, version, parent_version, value, value_bytes, produced_by_seq, updated_at_ms }
    }
}

/// An artifact version without its value, for version listings.
/// Timestamps are milliseconds since the Unix epoch (UTC).
#[derive(Debug)]
pub struct ArtifactMeta {
    /// The session.
    pub session_id: AgentSessionId,
    /// Artifact key.
    pub key: String,
    /// Version.
    pub version: u32,
    /// The version this one was edited from.
    pub parent_version: Option<u32>,
    /// Serialised length of the value in bytes.
    pub value_bytes: u32,
    /// The turn that produced it, if any.
    pub produced_by_seq: Option<u32>,
    /// When the store committed it.
    pub updated_at_ms: i64,
}

impl ArtifactMeta {
    /// Listing metadata with the given parts.
    pub fn new(
        session_id: AgentSessionId,
        key: String,
        version: u32,
        parent_version: Option<u32>,
        value_bytes: u32,
        produced_by_seq: Option<u32>,
        updated_at_ms: i64,
    ) -> (m: ArtifactMeta)
        ensures
            m == (ArtifactMeta { session_id, key, version, parent_version, value_bytes, produced_by_seq, updated_at_ms }),
    {
        ArtifactMeta { session_id, key, version, parent_version, value_bytes, produced_by_seq, updated_at_ms }
    }
}

/// One session record. Timestamps are milliseconds since the Unix epoch
/// (UTC).
#[derive(Debug)]
pub struct AgentSession {
    /// The session.
    pub id: AgentSessionId,
    /// Surface-defined kind (`chat`, ...).
    pub kind: String,
    /// Owning principal subject, or `system`.
    pub owner: String,
    /// When it was created.
    pub created_at_ms: i64,
    /// When it was last written.
    pub updated_at_ms: i64,
    /// Free-form metadata.
    pub metadata: JsonValue,
}

impl AgentSession {
    /// A session record with the given parts.
    pub fn new(
        id: AgentSessionId,
        kind: String,
        owner: String,
        created_at_ms: i64,
        updated_at_ms: i64,
        metadata: JsonValue,
    ) -> (s: AgentSession)
        ensures
            s == (AgentSession { id, kind, owner, created_at_ms, updated_at_ms, metadata }),
    {
        AgentSession { id, kind, owner, created_at_ms, updated_at_ms, metadata }
    }
}

/// How long sessions and their turns are kept. Durations are milliseconds.
#[derive(Debug, Clone, Copy, PartialEq, Eq)]
pub enum RetentionPolicy {
    /// Never delete (the default).
    KeepForever,
    /// Delete sessions idle for at least `ttl_ms`.
    DeleteAfter {
        /// Idle time before deletion.
        ttl_ms: i64,
    },
    /// Delete turns idle for at least `ttl_ms`; with `keep_latest_artifact`,
    /// also collapse each touched session's artifacts to the latest version
    /// per key.
    DeleteTurnsAfter {
        /// Idle time before deletion.
        ttl_ms: i64,
        /// Keep only the latest artifact version per key.
        keep_latest_artifact: bool,
    },
}

impl Default for RetentionPolicy {
    fn default() -> (p: RetentionPolicy)
        ensures
            p == RetentionPolicy::KeepForever,
    {
        RetentionPolicy::KeepForever
    }
}

/// Why an agent-session operation failed.
#[derive(Debug)]
pub enum AgentSessionError {
    /// No such session.
    SessionNotFound(AgentSessionId),
    /// A turn's content is over the cap.
    TurnTooLarge {
        /// Its size.
        bytes: usize,
        /// The cap.
        cap: usize,
    },
    /// An artifact's value is over the cap.
    ArtifactTooLarge {
        /// The artifact.
        key: String,
        /// Its size.
        bytes: usize,
        /// The cap.
        cap: usize,
    },
    /// The backend failed.
    Backend(String),
}

/// Why a direct artifact write failed.
#[derive(Debug)]
pub enum PutArtifactError {
    /// The expected previous version is not the current one.
    Conflict {
        /// The current version.
        current: u32,
    },
    /// The value is over the cap.
    TooLarge {
        /// Its size.
        bytes: usize,
        /// The cap.
        cap: usize,
    },
    /// No such session.
    SessionNotFound(AgentSessionId),
    /// The backend failed.
    Backend(String),
}

/// Rows a retention sweep deleted.
#[derive(Debug, Clone, Copy, PartialEq, Eq)]
pub struct RetentionSweepReport {
    /// Sessions deleted.
    pub sessions_deleted: u64,
    /// Turns deleted.
    pub turns_deleted: u64,
    /// Artifacts deleted.
    pub artifacts_deleted: u64,
}

impl Default for RetentionSweepReport {
    fn default() -> (r: RetentionSweepReport)
        ensures
            r.sessions_deleted == 0,
            r.turns_deleted == 0,
            r.artifacts_deleted == 0,
    {
        RetentionSweepReport { sessions_deleted: 0, turns_deleted: 0, artifacts_deleted: 0 }
    }
}

impl RetentionSweepReport {
    /// The counts of two sweeps added together. The sums must fit in `u64`.
    pub fn merge(self, other: RetentionSweepReport) -> (r: RetentionSweepReport)
        requires
            self.sessions_deleted + other.sessions_deleted <= u64::MAX,
            self.turns_deleted + other.turns_deleted <= u64::MAX,
            self.artifacts_deleted + other.artifacts_deleted <= u64::MAX,
        ensures
            r.sessions_deleted == self.sessions_deleted + other.sessions_deleted,
            r.turns_deleted == self.turns_deleted + other.turns_deleted,
            r.artifacts_deleted == self.artifacts_deleted + other.artifacts_deleted,
    {
        RetentionSweepReport {
            sessions_deleted: self.sessions_deleted + other.sessions_deleted,
            turns_deleted: self.turns_deleted + other.turns_deleted,
            artifacts_deleted: self.artifacts_deleted + other.artifacts_deleted,
        }
    }
}

} // verus!
