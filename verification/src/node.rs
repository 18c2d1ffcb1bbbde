//! Node-level contracts: the per-invocation context, the error surface a
//! node body returns, slot references and catalog descriptors.

use vstd::prelude::*;
use vstd::string::*;

use crate::flow::RunId;
use crate::ids::{FlowId, NodeId};
use crate::nodes::branch::{branch_error_text, BranchError};
use crate::nodes::http_out::{http_out_error_text, HttpOutError};
use crate::nodes::log::{log_error_text, LogError};
use crate::nodes::merge::{merge_error_text, MergeError};
use crate::nodes::sleep::{sleep_error_text, SleepError};
use crate::nodes::tool_call::{tool_call_error_text, ToolCallError};
use crate::nodes::transform::{transform_error_text, TransformError};
use crate::nodes::trigger_explicit::{trigger_explicit_error_text, TriggerExplicitError};
use crate::nodes::trigger_schedule::{trigger_schedule_error_text, TriggerScheduleError};

verus! {

/// Per-invocation context handed to a node body.
///
/// `cancelled` is the run's cancellation state when the body looks at it;
/// bodies that wait on outside work learn of a later cancel from their host.
pub struct NodeCtx {
    /// The run this invocation belongs to.
    pub run: RunId,
    /// The node being invoked.
    pub node: NodeId,
    /// The flow that owns the node, when the engine knows it.
    pub flow: Option<FlowId>,
    /// Whether the run has been cancelled.
    pub cancelled: bool,
}

impl NodeCtx {
    /// Build a context for one invocation of `node` in `run`.
    pub fn new(run: RunId, node: NodeId, cancelled: bool) -> (c: NodeCtx)
        ensures
            c.run == run,
            c.node == node,
            c.flow is None,
            c.cancelled == cancelled,
    {
        NodeCtx { run, node, flow: None, cancelled }
    }

    /// Attach the owning flow.
    pub fn with_flow(self, flow: FlowId) -> (c: NodeCtx)
        ensures
            c.run == self.run,
            c.node == self.node,
            c.flow == Some(flow),
            c.cancelled == self.cancelled,
    {
        NodeCtx { flow: Some(flow), ..self }
    }
}

/// A slot on a node: where every write lands.
#[derive(Debug)]
pub struct SlotRef {
    /// The node owning the slot.
    pub node: NodeId,
    /// The slot's name.
    pub slot: String,
}

impl View for SlotRef {
    type V = (Seq<char>, Seq<char>);

    open spec fn view(&self) -> (Seq<char>, Seq<char>) {
        (self.node@, self.slot@)
    }
}

impl Clone for SlotRef {
    fn clone(&self) -> (r: Self)
        ensures
            r@ == self@,
    {
        SlotRef { node: self.node.clone(), slot: self.slot.clone() }
    }
}

impl SlotRef {
    /// Build a slot reference.
    pub fn new(node: NodeId, slot: String) -> (r: SlotRef)
        ensures
            r.node@ == node@,
            r.slot == slot,
    {
        SlotRef { node, slot }
    }
}

/// Lifecycle transition the engine notifies a node of.
#[derive(Debug, Clone, Copy, PartialEq, Eq)]
pub enum LifecycleEvent {
    /// Node was just registered with the engine.
    Created,
    /// Node moved into the running set.
    Activated,
    /// Node was paused.
    Paused,
    /// Node was stopped.
    Stopped,
    /// Node was removed from the registry.
    Removed,
}

/// What a redeploy changed about a node.
#[derive(Debug, Clone, Copy, PartialEq, Eq)]
pub enum EditKind {
    /// Only settings changed.
    Settings,
    /// Only topology changed.
    Topology,
    /// Both changed.
    Both,
}

/// A typed failure of one built-in node kind.
#[derive(Debug)]
pub enum KindError {
    /// `branch` failure.
    Branch(BranchError),
    /// `merge` failure.
    Merge(MergeError),
    /// `sleep` failure.
    Sleep(SleepError),
    /// `log` failure.
    Log(LogError),
    /// `trigger.schedule` failure.
    TriggerSchedule(TriggerScheduleError),
    /// `http-out` failure.
    HttpOut(HttpOutError),
    /// `transform` failure.
    Transform(TransformError),
    /// `tool-call` failure.
    ToolCall(ToolCallError),
    /// `trigger.explicit` failure.
    TriggerExplicit(TriggerExplicitError),
}

/// Error surface a node body returns.
#[derive(Debug)]
pub enum NodeError {
    /// Input did not match the declared input slots.
    InvalidInput(String),
    /// An integration, tool or model call failed.
    Backend(String),
    /// The run was cancelled mid-invocation.
    Cancelled,
    /// A domain rule rejected the invocation; `code` is stable and
    /// machine-readable.
    Domain { code: &'static str, message: String },
    /// A typed error of a built-in node kind.
    Other(KindError),
}

/// The text a kind error renders as: the kind's own message.
pub open spec fn kind_error_text(e: KindError) -> Seq<char> {
    match e {
        KindError::Branch(x) => branch_error_text(x),
        KindError::Merge(x) => merge_error_text(x),
        KindError::Sleep(x) => sleep_error_text(x),
        KindError::Log(x) => log_error_text(x),
        KindError::TriggerSchedule(x) => trigger_schedule_error_text(x),
        KindError::HttpOut(x) => http_out_error_text(x),
        KindError::Transform(x) => transform_error_text(x),
        KindError::ToolCall(x) => tool_call_error_text(x),
        KindError::TriggerExplicit(x) => trigger_explicit_error_text(x),
    }
}

impl KindError {
    /// Human-readable message.
    pub fn message(&self) -> (m: String)
        ensures
            m@ == kind_error_text(*self),
    {
        match self {
            KindError::Branch(x) => x.message(),
            KindError::Merge(x) => x.message(),
            KindError::Sleep(x) => x.message(),
            KindError::Log(x) => x.message(),
            KindError::TriggerSchedule(x) => x.message(),
            KindError::HttpOut(x) => x.message(),
            KindError::Transform(x) => x.message(),
            KindError::ToolCall(x) => x.message(),
            KindError::TriggerExplicit(x) => x.message(),
        }
    }
}

/// The text a node error renders as.
pub open spec fn node_error_text(e: NodeError) -> Seq<char> {
    match e {
        NodeError::InvalidInput(s) => "invalid input: "@ + s@,
        NodeError::Backend(s) => "backend failure: "@ + s@,
        NodeError::Cancelled => "cancelled"@,
        NodeError::Domain { code, message } => code@ + ": "@ + message@,
        NodeError::Other(k) => kind_error_text(k),
    }
}

impl NodeError {
    /// Human-readable message.
    pub fn message(&self) -> (m: String)
        ensures
            m@ == node_error_text(*self),
    {
        match self {
            NodeError::InvalidInput(s) => String::from_str("invalid input: ").concat(s.as_str()),
            NodeError::Backend(s) => String::from_str("backend failure: ").concat(s.as_str()),
            NodeError::Cancelled => String::from_str("cancelled"),
            NodeError::Domain { code, message } => String::from_str(code).concat(": ").concat(message.as_str()),
            NodeError::Other(k) => k.message(),
        }
    }
}

/// Catalog entry of a node kind: its id and the i18n keys of its label,
/// summary and help text.
#[derive(Debug, Clone, Copy)]
pub struct NodeDescriptor {
    /// Reverse-DNS kind id.
    pub kind: &'static str,
    /// Catalog key of the label.
    pub label_key: &'static str,
    /// Catalog key of the one-line summary.
    pub summary_key: &'static str,
    /// Catalog key of the help text.
    pub help_key: &'static str,
}

/// `starter.flow.node.<slug>.<part>`: where the i18n catalog keeps a
/// built-in kind's texts.
pub open spec fn catalog_key(slug: Seq<char>, part: Seq<char>) -> Seq<char> {
    "starter.flow.node."@ + slug + seq!['.'] + part
}

/// The descriptor of kind `kind` whose catalog keys live under `slug`.
pub open spec fn describes(d: NodeDescriptor, kind: Seq<char>, slug: Seq<char>) -> bool {
    &&& d.kind@ == kind
    &&& d.label_key@ == catalog_key(slug, "label"@)
    &&& d.summary_key@ == catalog_key(slug, "summary"@)
    &&& d.help_key@ == catalog_key(slug, "help"@)
}

impl NodeDescriptor {
    /// Build a descriptor.
    pub fn new(
        kind: &'static str,
        label_key: &'static str,
        summary_key: &'static str,
        help_key: &'static str,
    ) -> (d: NodeDescriptor)
        ensures
            d.kind@ == kind@,
            d.label_key@ == label_key@,
            d.summary_key@ == summary_key@,
            d.help_key@ == help_key@,
    {
        NodeDescriptor { kind, label_key, summary_key, help_key }
    }
}

} // verus!
