//! Flow-level contracts: run and revision ids, run options and metrics,
//! errors, and the values a run records.

use vstd::prelude::*;
use vstd::string::*;

use crate::auth::Principal;
use crate::hex::{format_uuid, uuid_hyphenated};
use crate::decimal::{decimal, format_u64};
use crate::ids::{FlowId, NodeId};
use crate::json::JsonValue;
use crate::node::{node_error_text, NodeError, SlotRef};
use crate::slot::{SlotMap, SlotValue};

verus! {

/// The version field of a UUID held as its 128-bit big-endian value.
pub open spec fn uuid_version(v: u128) -> u128 {
    (v >> 76u128) & 0xfu128
}

/// `true` when a UUID's variant bits are those of RFC 4122 (`10`).
pub open spec fn uuid_variant_is_rfc4122(v: u128) -> bool {
    (v >> 62u128) & 0x3u128 == 0x2u128
}

/// `uuid::Uuid::new_v4`: a fresh random UUID. Its bits depend on chance;
/// what holds of every outcome, and all that is claimed, is that the
/// version field is 4 and the variant is RFC 4122 (the crate masks and sets
/// exactly those bits).
#[verifier::external_body]
fn random_uuid() -> (r: u128)
    ensures
        uuid_version(r) == 4,
        uuid_variant_is_rfc4122(r),
{
    uuid::Uuid::new_v4().as_u128()
}

/// Identifier of a single flow run (a UUID held as its 128-bit value).
#[derive(Debug, Clone, Copy, PartialEq, Eq, Hash)]
pub struct RunId(pub u128);

impl RunId {
    /// Generate a fresh random run id: a version-4 UUID.
    pub fn new() -> (r: RunId)
        ensures
            uuid_version(r.0) == 4,
            uuid_variant_is_rfc4122(r.0),
    {
        RunId(random_uuid())
    }

    /// The hyphenated lowercase text of the id.
    pub fn to_text(&self) -> (r: String)
        ensures
            r@ == uuid_hyphenated(self.0),
    {
        format_uuid(self.0)
    }
}

/// Identifier of one immutable revision of a flow.
#[derive(Debug, Clone, Copy, PartialEq, Eq, Hash)]
pub struct FlowRevisionId(pub u128);

impl FlowRevisionId {
    /// Generate a fresh random revision id: a version-4 UUID.
    pub fn new() -> (r: FlowRevisionId)
        ensures
            uuid_version(r.0) == 4,
            uuid_variant_is_rfc4122(r.0),
    {
        FlowRevisionId(random_uuid())
    }

    /// The hyphenated lowercase text of the id.
    pub fn to_text(&self) -> (r: String)
        ensures
            r@ == uuid_hyphenated(self.0),
    {
        format_uuid(self.0)
    }
}

/// Namespace of the name-based session ids an `ai-agent` node derives.
/// Frozen: changing it orphans every persisted reusable session.
pub const SESSION_NS: u128 = 0x6f39a1b2554c4ea99de74f2180121073u128;

/// The name-based (version 5, SHA-1) UUID of `name` in `namespace`, each
/// UUID held as its 128-bit big-endian value.
pub uninterp spec fn uuid_v5(namespace: u128, name: Seq<u8>) -> u128;

/// `uuid::Uuid::new_v5`: the name-based UUID of `name` in `namespace`. The
/// contract names the result ([`uuid_v5`]) and claims that it depends on the
/// two arguments alone, with the version field 5 and the RFC 4122 variant
/// (the crate sets exactly those bits over the digest); the SHA-1
/// computation itself is not restated.
#[verifier::external_body]
fn name_based_uuid(namespace: u128, name: &[u8]) -> (r: u128)
    ensures
        r == uuid_v5(namespace, name@),
        uuid_version(r) == 5,
        uuid_variant_is_rfc4122(r),
{
    uuid::Uuid::new_v5(&uuid::Uuid::from_u128(namespace), name).as_u128()
}

/// Session-continuity policy of an `ai-agent` node invocation.
#[derive(Debug, Clone, Copy, PartialEq, Eq)]
pub enum SessionMode {
    /// A fresh session per invocation (the default).
    FreshPerInvocation,
    /// One session per node and run.
    ReuseAcrossRun,
    /// One session per node, flow and principal, across runs.
    ReuseAcrossFlow,
}

impl Default for SessionMode {
    fn default() -> (m: SessionMode)
        ensures
            m == SessionMode::FreshPerInvocation,
    {
        SessionMode::FreshPerInvocation
    }
}

/// Identifier of one persisted conversation session (a UUID held as its
/// 128-bit value).
#[derive(Debug, Clone, Copy, PartialEq, Eq, Hash)]
pub struct SessionId(pub u128);

/// The key a reusable session id is derived from: `node|run` per run,
/// `node|flow|subject` per flow.
pub open spec fn session_key(
    mode: SessionMode,
    node: Seq<char>,
    run: u128,
    flow: Seq<char>,
    subject: Seq<char>,
) -> Seq<char> {
    match mode {
        SessionMode::ReuseAcrossFlow => node + seq!['|'] + flow + seq!['|'] + subject,
        _ => node + seq!['|'] + uuid_hyphenated(run),
    }
}

/// A per-run session is keyed on the node and the run alone: the flow and
/// the principal do not change it.
pub proof fn lemma_run_session_key(
    node: Seq<char>,
    run: u128,
    flow_a: Seq<char>,
    subject_a: Seq<char>,
    flow_b: Seq<char>,
    subject_b: Seq<char>,
)
    ensures
        session_key(SessionMode::ReuseAcrossRun, node, run, flow_a, subject_a) == session_key(
            SessionMode::ReuseAcrossRun,
            node,
            run,
            flow_b,
            subject_b,
        ),
{
}

/// A per-flow session is keyed on the node, the flow and the principal's
/// subject alone: the run does not change it.
pub proof fn lemma_flow_session_key(node: Seq<char>, flow: Seq<char>, subject: Seq<char>, run_a: u128, run_b: u128)
    ensures
        session_key(SessionMode::ReuseAcrossFlow, node, run_a, flow, subject) == session_key(
            SessionMode::ReuseAcrossFlow,
            node,
            run_b,
            flow,
            subject,
        ),
{
}

/// `r` is a session id an `ai-agent` invocation may use: a random version-4
/// id in fresh mode, otherwise the version-5 name-based UUID of
/// [`session_key`] (as UTF-8) in [`SESSION_NS`]; the RFC 4122 variant either
/// way.
pub open spec fn is_agent_session_id(
    mode: SessionMode,
    node: Seq<char>,
    run: u128,
    flow: Seq<char>,
    subject: Seq<char>,
    r: SessionId,
) -> bool {
    &&& uuid_variant_is_rfc4122(r.0)
    &&& mode == SessionMode::FreshPerInvocation ==> uuid_version(r.0) == 4
    &&& mode != SessionMode::FreshPerInvocation ==> uuid_version(r.0) == 5 && r.0 == uuid_v5(
        SESSION_NS,
        vstd::utf8::encode_utf8(session_key(mode, node, run, flow, subject)),
    )
}

impl SessionId {
    /// A fresh random session id: a version-4 UUID.
    pub fn new() -> (r: SessionId)
        ensures
            uuid_version(r.0) == 4,
            uuid_variant_is_rfc4122(r.0),
    {
        SessionId(random_uuid())
    }

    /// The session id an `ai-agent` node invocation uses: a fresh random
    /// version-4 id for [`SessionMode::FreshPerInvocation`], otherwise the
    /// name-based (version 5) UUID of [`session_key`] (as UTF-8) in
    /// [`SESSION_NS`].
    pub fn for_ai_agent_node(
        mode: SessionMode,
        node_id: &NodeId,
        run_id: RunId,
        flow_id: FlowId,
        principal: &Principal,
    ) -> (r: SessionId)
        ensures
            is_agent_session_id(mode, node_id@, run_id.0, flow_id@, principal.subject@, r),
    {
        match mode {
            SessionMode::FreshPerInvocation => SessionId::new(),
            SessionMode::ReuseAcrossRun => {
                let mut key = node_id.as_str().to_owned();
                crate::text::push_char(&mut key, '|');
                let run = format_uuid(run_id.0);
                key.append(run.as_str());
                assert(key@ =~= session_key(mode, node_id@, run_id.0, flow_id@, principal.subject@));
                let k: &str = key.as_str();
                SessionId(name_based_uuid(SESSION_NS, k.as_bytes()))
            },
            SessionMode::ReuseAcrossFlow => {
                let mut key = node_id.as_str().to_owned();
                crate::text::push_char(&mut key, '|');
                key.append(flow_id.as_str());
                crate::text::push_char(&mut key, '|');
                key.append(principal.subject.as_str());
                assert(key@ =~= session_key(mode, node_id@, run_id.0, flow_id@, principal.subject@));
                let k: &str = key.as_str();
                SessionId(name_based_uuid(SESSION_NS, k.as_bytes()))
            },
        }
    }

    /// The hyphenated lowercase text of the id.
    pub fn to_text(&self) -> (r: String)
        ensures
            r@ == uuid_hyphenated(self.0),
    {
        format_uuid(self.0)
    }
}

/// Why a flow operation failed.
#[derive(Debug)]
pub enum FlowError {
    /// The propagation hop budget ran out.
    CycleBudgetExhausted {
        /// Hops taken.
        hops: u64,
    },
    /// A node failed and aborted the run.
    NodeAborted {
        /// The node.
        node: NodeId,
        /// Its error, rendered.
        error: String,
    },
    /// Something looked up was missing.
    NotFound {
        /// What was looked up (e.g. `flow`).
        kind: &'static str,
        /// Its id.
        id: String,
    },
    /// The flow backend failed.
    Backend(String),
}

/// The text a flow error renders as.
pub open spec fn flow_error_text(e: FlowError) -> Seq<char> {
    match e {
        FlowError::CycleBudgetExhausted { hops } => "cycle budget exhausted after "@ + decimal(hops as nat)
            + " propagation hops"@,
        FlowError::NodeAborted { node, error } => "node "@ + node@ + " failed: "@ + error@,
        FlowError::NotFound { kind, id } => kind@ + " not found: "@ + id@,
        FlowError::Backend(t) => "flow backend failure: "@ + t@,
    }
}

impl FlowError {
    /// Human-readable message.
    pub fn message(&self) -> (m: String)
        ensures
            m@ == flow_error_text(*self),
    {
        match self {
            FlowError::CycleBudgetExhausted { hops } => String::from_str("cycle budget exhausted after ").concat(
                format_u64(*hops).as_str(),
            ).concat(" propagation hops"),
            FlowError::NodeAborted { node, error } => String::from_str("node ").concat(node.as_str()).concat(
                " failed: ",
            ).concat(error.as_str()),
            FlowError::NotFound { kind, id } => String::from_str(kind).concat(" not found: ").concat(id.as_str()),
            FlowError::Backend(t) => String::from_str("flow backend failure: ").concat(t.as_str()),
        }
    }
}

/// Health of the engine as a whole.
#[derive(Debug, Clone, Copy, PartialEq, Eq)]
pub enum EngineHealth {
    /// Every subsystem is up.
    Healthy,
    /// Some subsystem is impaired.
    Degraded,
}

impl EngineHealth {
    /// `healthy` or `degraded`.
    pub fn as_str(&self) -> (r: &'static str)
        ensures
            *self == EngineHealth::Healthy ==> r@ == "healthy"@,
            *self == EngineHealth::Degraded ==> r@ == "degraded"@,
    {
        match self {
            EngineHealth::Healthy => "healthy",
            EngineHealth::Degraded => "degraded",
        }
    }
}

/// Why an engine operation failed.
#[derive(Debug)]
pub enum EngineError {
    /// The backend is unavailable.
    BackendUnavailable,
    /// A flow operation failed.
    Flow(FlowError),
}

impl EngineError {
    /// Human-readable message: a flow error renders as itself.
    pub fn message(&self) -> (m: String)
        ensures
            self is BackendUnavailable ==> m@ == "engine backend unavailable"@,
            self matches EngineError::Flow(f) ==> m@ == flow_error_text(*f),
    {
        match self {
            EngineError::BackendUnavailable => String::from_str("engine backend unavailable"),
            EngineError::Flow(f) => f.message(),
        }
    }
}

impl From<FlowError> for EngineError {
    fn from(e: FlowError) -> (r: EngineError) {
        EngineError::Flow(e)
    }
}

impl vstd::std_specs::convert::FromSpecImpl<FlowError> for EngineError {
    open spec fn obeys_from_spec() -> bool {
        true
    }

    open spec fn from_spec(e: FlowError) -> EngineError {
        EngineError::Flow(e)
    }
}

/// Counters a run reports about its event stream.
#[derive(Debug, Clone, Copy, PartialEq, Eq)]
pub struct RunMetrics {
    /// Times a subscriber lagged behind.
    pub subscriber_lagged_count: u64,
    /// Events dropped while degraded.
    pub degraded_dropped_count: u64,
}

impl RunMetrics {
    /// All counters at zero.
    pub fn zero() -> (m: RunMetrics)
        ensures
            m.subscriber_lagged_count == 0,
            m.degraded_dropped_count == 0,
    {
        RunMetrics { subscriber_lagged_count: 0, degraded_dropped_count: 0 }
    }
}

impl Default for RunMetrics {
    fn default() -> (m: RunMetrics)
        ensures
            m.subscriber_lagged_count == 0,
            m.degraded_dropped_count == 0,
    {
        RunMetrics::zero()
    }
}

/// How many checkpoints of a run are kept.
#[derive(Debug, Clone, Copy, PartialEq, Eq)]
pub enum CheckpointRetention {
    /// Keep the latest `n`.
    Bounded(usize),
    /// Keep all.
    Unbounded,
}

impl Default for CheckpointRetention {
    fn default() -> (r: CheckpointRetention)
        ensures
            r == CheckpointRetention::Bounded(100),
    {
        CheckpointRetention::Bounded(100)
    }
}

/// Options of one run.
#[derive(Debug, Clone, PartialEq, Eq)]
pub struct RunOpts {
    /// Hop budget of propagation.
    pub max_propagation_hops: u64,
    /// Re-deliveries of a completed run short-circuit to its result.
    pub idempotent_short_circuit: bool,
    /// Checkpoints kept.
    pub checkpoint_retention: CheckpointRetention,
    /// Capacity of the event broadcast.
    pub event_broadcast_capacity: usize,
    /// Capacity of the queue used while degraded.
    pub degraded_queue_capacity: usize,
}

impl Default for RunOpts {
    fn default() -> (o: RunOpts)
        ensures
            o.max_propagation_hops == 1000,
            o.idempotent_short_circuit,
            o.checkpoint_retention == CheckpointRetention::Bounded(100),
            o.event_broadcast_capacity == 1024,
            o.degraded_queue_capacity == 1024,
    {
        RunOpts {
            max_propagation_hops: 1000,
            idempotent_short_circuit: true,
            checkpoint_retention: CheckpointRetention::default(),
            event_broadcast_capacity: 1024,
            degraded_queue_capacity: 1024,
        }
    }
}

/// Lifecycle state of a run.
#[derive(Debug, Clone, Copy, PartialEq, Eq)]
pub enum RunState {
    /// Running.
    Running,
    /// Paused.
    Paused,
    /// Completed.
    Completed,
    /// Failed.
    Failed,
    /// Cancelled.
    Cancelled,
}

impl RunState {
    /// The state's snake-case name.
    pub fn as_str(&self) -> (r: &'static str)
        ensures
            *self == RunState::Running ==> r@ == "running"@,
            *self == RunState::Paused ==> r@ == "paused"@,
            *self == RunState::Completed ==> r@ == "completed"@,
            *self == RunState::Failed ==> r@ == "failed"@,
            *self == RunState::Cancelled ==> r@ == "cancelled"@,
    {
        match self {
            RunState::Running => "running",
            RunState::Paused => "paused",
            RunState::Completed => "completed",
            RunState::Failed => "failed",
            RunState::Cancelled => "cancelled",
        }
    }
}

/// How a run ended.
#[derive(Debug)]
pub enum RunOutcome {
    /// With this output.
    Completed {
        /// Output slots.
        output: SlotMap,
    },
    /// With this error.
    Failed {
        /// The error, rendered.
        error: String,
    },
    /// Cancelled.
    Cancelled,
}

/// One immutable revision of a flow definition.
#[derive(Debug)]
pub struct FlowRevision {
    /// The flow.
    pub flow_id: FlowId,
    /// The revision.
    pub revision_id: FlowRevisionId,
    /// The definition body.
    pub body: JsonValue,
    /// Audit tag of where the revision came from (`api` by default).
    pub source: String,
}

impl FlowRevision {
    /// A revision from the API.
    pub fn new(flow_id: FlowId, revision_id: FlowRevisionId, body: JsonValue) -> (r: FlowRevision)
        ensures
            r.flow_id@ == flow_id@,
            r.revision_id == revision_id,
            r.body == body,
            r.source@ == "api"@,
    {
        FlowRevision { flow_id, revision_id, body, source: String::from_str("api") }
    }

    /// The same revision with another source tag.
    pub fn with_source(self, source: String) -> (r: FlowRevision)
        ensures
            r.flow_id@ == self.flow_id@,
            r.revision_id == self.revision_id,
            r.body == self.body,
            r.source == source,
    {
        FlowRevision { source, ..self }
    }
}

/// A persisted checkpoint of a run.
#[derive(Debug)]
pub struct RunCheckpoint {
    /// The run.
    pub run_id: RunId,
    /// Sequence number.
    pub seq: u64,
    /// Run state at the checkpoint.
    pub state: RunState,
    /// Slot writes since the previous checkpoint.
    pub writes: Vec<(SlotRef, SlotValue)>,
}

impl RunCheckpoint {
    /// Build a checkpoint.
    pub fn new(run_id: RunId, seq: u64, state: RunState, writes: Vec<(SlotRef, SlotValue)>) -> (c: RunCheckpoint)
        ensures
            c.run_id == run_id,
            c.seq == seq,
            c.state == state,
            c.writes == writes,
    {
        RunCheckpoint { run_id, seq, state, writes }
    }
}

/// The key re-deliveries of one service event are recognised by.
#[derive(Debug, Clone, PartialEq, Eq)]
pub struct DedupKey {
    /// The service the event was delivered to.
    pub service_name: String,
    /// The event's dedup key.
    pub key: String,
}

impl DedupKey {
    /// Build a dedup key.
    pub fn new(service_name: String, key: String) -> (k: DedupKey)
        ensures
            k.service_name == service_name,
            k.key == key,
    {
        DedupKey { service_name, key }
    }
}

/// One persisted conversation session.
#[derive(Debug)]
pub struct SessionRecord {
    /// The session.
    pub session_id: SessionId,
    /// Its owner.
    pub principal: Principal,
    /// Its body (the conversation, opaque to the store).
    pub body: JsonValue,
}

impl SessionRecord {
    /// Build a record.
    pub fn new(session_id: SessionId, principal: Principal, body: JsonValue) -> (r: SessionRecord)
        ensures
            r.session_id == session_id,
            r.principal == principal,
            r.body == body,
    {
        SessionRecord { session_id, principal, body }
    }
}

/// An event a run emits.
#[derive(Debug)]
pub enum FlowEvent {
    /// A run started.
    RunStarted {
        /// The run.
        run: RunId,
        /// Its flow.
        flow: FlowId,
    },
    /// A node started.
    NodeStarted {
        /// The run.
        run: RunId,
        /// The node.
        node: NodeId,
    },
    /// A node wrote a slot.
    NodeEmitted {
        /// The run.
        run: RunId,
        /// The node.
        node: NodeId,
        /// The slot.
        slot: String,
        /// The value.
        value: SlotValue,
    },
    /// A node failed.
    NodeFailed {
        /// The run.
        run: RunId,
        /// The node.
        node: NodeId,
        /// Its error, rendered.
        error: String,
    },
    /// A run completed.
    RunCompleted {
        /// The run.
        run: RunId,
        /// Its output.
        output: SlotMap,
    },
    /// A run failed.
    RunFailed {
        /// The run.
        run: RunId,
        /// Its error, rendered.
        error: String,
    },
    /// A run was cancelled.
    RunCancelled {
        /// The run.
        run: RunId,
    },
    /// Writing a checkpoint failed.
    CheckpointFailed {
        /// The run.
        run: RunId,
        /// The error, rendered.
        error: String,
        /// Attempt number.
        attempt: u32,
    },
    /// A re-delivery short-circuited to an earlier run.
    DedupShortCircuit {
        /// The earlier run.
        prior_run_id: RunId,
    },
}

impl FlowEvent {
    /// The event of a node failing with `err`.
    pub fn node_failed(run: RunId, node: NodeId, err: &NodeError) -> (e: FlowEvent)
        ensures
            e matches FlowEvent::NodeFailed { run: r, node: n, error } && r == run && n@ == node@ && error@
                == node_error_text(*err),
    {
        FlowEvent::NodeFailed { run, node, error: err.message() }
    }

    /// The event of a run failing with `err`.
    pub fn run_failed(run: RunId, err: &FlowError) -> (e: FlowEvent)
        ensures
            e matches FlowEvent::RunFailed { run: r, error } && r == run && error@ == flow_error_text(*err),
    {
        FlowEvent::RunFailed { run, error: err.message() }
    }
}

} // verus!
