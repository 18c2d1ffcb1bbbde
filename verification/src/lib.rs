//! Verified core of the starter-flow node engine: identifiers, slot values,
//! the built-in node kinds' decisions, and the flow-level contracts.

pub mod agent_session;
pub mod auth;
pub mod decimal;
pub mod definition;
pub mod event_dto;
pub mod flow;
pub mod flow_registry;
pub mod graph;
pub mod hex;
pub mod ids;
pub mod idset;
pub mod json;
pub mod node;
pub mod nodes;
pub mod scheduler;
pub mod service_surface;
pub mod settings;
pub mod skill;
pub mod slot;
pub mod state;
pub mod surfaces;
pub mod text;
pub mod tool_surface;
pub mod watch;
