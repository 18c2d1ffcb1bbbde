//! `tool-call` — invokes one registered tool with the JSON payload on
//! `input` and emits its result on `output`.
//!
//! The library decides which tool the input names (or which error it
//! earns) and what the tool's result becomes; running the tool is the
//! host's work.

use vstd::prelude::*;
use vstd::string::*;

use crate::ids::{is_reverse_dns, KindId};
use crate::json::JsonValue;
use crate::node::{KindError, NodeError};
use crate::nodes::tool_registry::{tool_lookup, StaticToolRegistry};
use crate::slot::{lookup, SlotMap, SlotValue};

verus! {

/// Reverse-DNS kind id.
pub const KIND_ID: &'static str = "starter.flow.tool-call";

/// Input slot naming the tool's kind id.
pub const TOOL_ID_SLOT: &'static str = "tool_id";

/// Input slot carrying the tool's JSON payload.
pub const TOOL_INPUT_SLOT: &'static str = "input";

/// Output slot carrying the tool's JSON result.
pub const TOOL_OUTPUT_SLOT: &'static str = "output";

/// Typed errors surfaced by `tool-call`.
#[derive(Debug)]
pub enum ToolCallError {
    /// No string `tool_id` entry.
    MissingToolId,
    /// `tool_id` not a valid reverse-DNS id; carries it.
    InvalidToolId(String),
    /// No JSON `input` entry.
    MissingInput,
    /// No tool registered under the id.
    UnregisteredTool(KindId),
    /// The tool returned an error.
    ToolFailed {
        /// The tool.
        tool_id: KindId,
        /// Its error, rendered.
        message: String,
    },
}

/// The text a tool-call error renders as.
pub open spec fn tool_call_error_text(e: ToolCallError) -> Seq<char> {
    match e {
        ToolCallError::MissingToolId => "tool-call input missing `tool_id` slot (must be SlotValue::String naming the tool's KindId)"@,
        ToolCallError::InvalidToolId(t) => "tool-call `tool_id` is not a valid reverse-DNS KindId: "@ + t@,
        ToolCallError::MissingInput => "tool-call input missing `input` slot (must be SlotValue::Json carrying the tool's input payload)"@,
        ToolCallError::UnregisteredTool(k) => "tool-call tool not registered: "@ + k@,
        ToolCallError::ToolFailed { tool_id, message } => "tool `"@ + tool_id@ + "` failed: "@ + message@,
    }
}

impl ToolCallError {
    /// Human-readable message.
    pub fn message(&self) -> (m: String)
        ensures
            m@ == tool_call_error_text(*self),
    {
        match self {
            ToolCallError::MissingToolId => String::from_str(
                "tool-call input missing `tool_id` slot (must be SlotValue::String naming the tool's KindId)",
            ),
            ToolCallError::InvalidToolId(t) => String::from_str(
                "tool-call `tool_id` is not a valid reverse-DNS KindId: ",
            ).concat(t.as_str()),
            ToolCallError::MissingInput => String::from_str(
                "tool-call input missing `input` slot (must be SlotValue::Json carrying the tool's input payload)",
            ),
            ToolCallError::UnregisteredTool(k) => String::from_str("tool-call tool not registered: ").concat(
                k.as_str(),
            ),
            ToolCallError::ToolFailed { tool_id, message } => String::from_str("tool `").concat(
                tool_id.as_str(),
            ).concat("` failed: ").concat(message.as_str()),
        }
    }

    /// The node error this surfaces as.
    pub fn into_node_error(self) -> (n: NodeError)
        ensures
            n == NodeError::Other(KindError::ToolCall(self)),
    {
        NodeError::Other(KindError::ToolCall(self))
    }
}

/// The call one invocation makes.
pub struct ToolCallPlan {
    /// The tool.
    pub tool_id: KindId,
    /// Its input payload.
    pub payload: JsonValue,
}

/// `tool-call` node-kind body. The host runs the tools.
pub struct ToolCall {
    kind: KindId,
}

impl ToolCall {
    /// Construct a `tool-call` body.
    pub fn new() -> (t: ToolCall)
        ensures
            t.kind_id()@ == KIND_ID@,
    {
        proof {
            reveal_strlit("starter.flow.tool-call");
            assert(KIND_ID@[7] == '.');
        }
        ToolCall { kind: KindId::from_valid(KIND_ID) }
    }

    /// The kind id this body implements.
    pub closed spec fn kind_id(&self) -> KindId {
        self.kind
    }

    /// Decide the call the input asks for. Errors come in this order: the
    /// `tool_id` (missing, then invalid), the `input`, the catalog.
    pub fn prepare(&self, registry: &StaticToolRegistry, input: SlotMap) -> (r: Result<ToolCallPlan, NodeError>)
        ensures
            !(lookup(input@, TOOL_ID_SLOT@) matches Some(SlotValue::String(_))) ==> r == Err::<
                ToolCallPlan,
                NodeError,
            >(NodeError::Other(KindError::ToolCall(ToolCallError::MissingToolId))),
            lookup(input@, TOOL_ID_SLOT@) matches Some(SlotValue::String(t)) ==> ({
                &&& !is_reverse_dns(t@) ==> (r matches Err(
                    NodeError::Other(KindError::ToolCall(ToolCallError::InvalidToolId(u))),
                ) && u@ == t@)
                &&& is_reverse_dns(t@) && !(lookup(input@, TOOL_INPUT_SLOT@) matches Some(SlotValue::Json(_)))
                    ==> r == Err::<ToolCallPlan, NodeError>(
                    NodeError::Other(KindError::ToolCall(ToolCallError::MissingInput)),
                )
                &&& lookup(input@, TOOL_INPUT_SLOT@) matches Some(SlotValue::Json(j)) ==> (is_reverse_dns(t@) ==> ({
                    &&& tool_lookup(registry@, t@) is None ==> (r matches Err(
                        NodeError::Other(KindError::ToolCall(ToolCallError::UnregisteredTool(k))),
                    ) && k@ == t@)
                    &&& tool_lookup(registry@, t@) is Some ==> (r matches Ok(p) && p.tool_id@ == t@ && p.payload
                        == j)
                }))
            }),
    {
        proof {
            reveal_strlit("tool_id");
            reveal_strlit("input");
            assert(TOOL_ID_SLOT@[0] != TOOL_INPUT_SLOT@[0]);
        }
        let mut input = input;
        let raw = match input.remove(TOOL_ID_SLOT) {
            Some(SlotValue::String(s)) => s,
            _ => return Err(ToolCallError::MissingToolId.into_node_error()),
        };
        let tool_id = match KindId::new(raw.clone()) {
            Ok(k) => k,
            Err(_) => return Err(ToolCallError::InvalidToolId(raw).into_node_error()),
        };
        let payload = match input.remove(TOOL_INPUT_SLOT) {
            Some(SlotValue::Json(v)) => v,
            _ => return Err(ToolCallError::MissingInput.into_node_error()),
        };
        match registry.lookup(&tool_id) {
            Some(_) => Ok(ToolCallPlan { tool_id, payload }),
            None => Err(ToolCallError::UnregisteredTool(tool_id).into_node_error()),
        }
    }

    /// Conclude the call: a cancel that won the race is `Cancelled`; a
    /// result becomes the `output` slot; a tool error becomes `ToolFailed`.
    pub fn finish(tool_id: KindId, cancelled: bool, result: Result<JsonValue, String>) -> (r: Result<
        SlotMap,
        NodeError,
    >)
        ensures
            cancelled ==> r matches Err(NodeError::Cancelled),
            result matches Ok(v) ==> (!cancelled ==> (r matches Ok(out) && out@ == seq![
                (TOOL_OUTPUT_SLOT@, SlotValue::Json(v)),
            ])),
            result matches Err(m) ==> (!cancelled ==> (r matches Err(
                NodeError::Other(KindError::ToolCall(ToolCallError::ToolFailed { tool_id: k, message })),
            ) && k@ == tool_id@ && message == m)),
    {
        if cancelled {
            return Err(NodeError::Cancelled);
        }
        match result {
            Ok(v) => Ok(SlotMap::singleton(String::from_str(TOOL_OUTPUT_SLOT), SlotValue::Json(v))),
            Err(message) => Err(ToolCallError::ToolFailed { tool_id, message }.into_node_error()),
        }
    }
}

} // verus!
