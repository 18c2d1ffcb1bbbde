//! Built-in node kinds.

pub mod ai_agent;
pub mod branch;
pub mod counter;
pub mod gate;
pub mod http_out;
pub mod merge;
pub mod log;
pub mod node_registry;
pub mod sleep;
pub mod subflow;
pub mod tool_call;
pub mod tool_registry;
pub mod transform;
pub mod trigger_event;
pub mod trigger_explicit;
pub mod trigger_schedule;
