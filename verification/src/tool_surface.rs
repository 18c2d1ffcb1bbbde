//! A flow wrapped as a tool: the builder that assembles the wrapper, and the
//! decisions one invocation makes around the engine — which node failure is
//! reported, how the terminal slots are read back, and how the way a run
//! ended becomes the caller's result.
//!
//! The engine, the propagator topology and the two adapters are opaque here:
//! they are the type parameters `E`, `T`, `S` and `O`.

use vstd::prelude::*;
use vstd::string::*;

use crate::flow::{FlowEvent, FlowRevisionId};
use crate::ids::{FlowId, KindId};
use crate::json::JsonValue;
use crate::node::SlotRef;
use crate::nodes::tool_registry::ToolDefinition;
use crate::slot::{lookup, SlotMap, SlotValue};
use crate::surfaces::FlowAsToolBuildError;

verus! {

/// Assembles a [`FlowAsTool`]. Every field is required; `build` names the
/// first one missing.
pub struct FlowAsToolBuilder<T, E, S, O> {
    /// The flow the tool wraps.
    pub flow_id: Option<FlowId>,
    /// The pinned revision.
    pub revision: Option<FlowRevisionId>,
    /// The propagator topology the flow runs on.
    pub topology: Option<T>,
    /// The slots read back at the end of a run (must not be empty).
    pub terminal_slots: Vec<SlotRef>,
    /// The engine handle.
    pub engine: Option<E>,
    /// The reverse-DNS tool id.
    pub tool_id: Option<KindId>,
    /// The tool's name.
    pub name: Option<String>,
    /// One-sentence description.
    pub description: Option<String>,
    /// Input JSON schema.
    pub input_schema: Option<JsonValue>,
    /// Output JSON schema.
    pub output_schema: Option<JsonValue>,
    /// Maps the call's input to seed slot writes.
    pub seed_adapter: Option<S>,
    /// Maps the terminal slots to the call's result.
    pub output_adapter: Option<O>,
}

/// The first field, in declaration order, that a builder still lacks.
pub open spec fn tool_builder_gap<T, E, S, O>(b: FlowAsToolBuilder<T, E, S, O>) -> Option<Seq<char>> {
    if b.flow_id is None {
        Some("flow_id"@)
    } else if b.revision is None {
        Some("revision"@)
    } else if b.topology is None {
        Some("topology"@)
    } else if b.terminal_slots@.len() == 0 {
        Some("terminal_slots"@)
    } else if b.engine is None {
        Some("engine"@)
    } else if b.tool_id is None {
        Some("tool_id"@)
    } else if b.name is None {
        Some("name"@)
    } else if b.description is None {
        Some("description"@)
    } else if b.input_schema is None {
        Some("input_schema"@)
    } else if b.output_schema is None {
        Some("output_schema"@)
    } else if b.seed_adapter is None {
        Some("seed_adapter"@)
    } else if b.output_adapter is None {
        Some("output_adapter"@)
    } else {
        None
    }
}

impl<T, E, S, O> FlowAsToolBuilder<T, E, S, O> {
    /// A builder with nothing set.
    pub fn new() -> (b: Self)
        ensures
            b.flow_id is None && b.revision is None && b.topology is None && b.terminal_slots@.len() == 0
                && b.engine is None && b.tool_id is None && b.name is None && b.description is None
                && b.input_schema is None && b.output_schema is None && b.seed_adapter is None
                && b.output_adapter is None,
    {
        FlowAsToolBuilder {
            flow_id: None,
            revision: None,
            topology: None,
            terminal_slots: Vec::new(),
            engine: None,
            tool_id: None,
            name: None,
            description: None,
            input_schema: None,
            output_schema: None,
            seed_adapter: None,
            output_adapter: None,
        }
    }

    /// Set the flow.
    pub fn flow_id(self, id: FlowId) -> (b: Self)
        ensures
            b == (FlowAsToolBuilder { flow_id: Some(id), ..self }),
    {
        FlowAsToolBuilder { flow_id: Some(id), ..self }
    }

    /// Set the revision.
    pub fn revision(self, rev: FlowRevisionId) -> (b: Self)
        ensures
            b == (FlowAsToolBuilder { revision: Some(rev), ..self }),
    {
        FlowAsToolBuilder { revision: Some(rev), ..self }
    }

    /// Set the topology.
    pub fn topology(self, topology: T) -> (b: Self)
        ensures
            b == (FlowAsToolBuilder { topology: Some(topology), ..self }),
    {
        FlowAsToolBuilder { topology: Some(topology), ..self }
    }

    /// Set the terminal slots.
    pub fn terminal_slots(self, slots: Vec<SlotRef>) -> (b: Self)
        ensures
            b == (FlowAsToolBuilder { terminal_slots: slots, ..self }),
    {
        FlowAsToolBuilder { terminal_slots: slots, ..self }
    }

    /// Set the engine.
    pub fn engine(self, engine: E) -> (b: Self)
        ensures
            b == (FlowAsToolBuilder { engine: Some(engine), ..self }),
    {
        FlowAsToolBuilder { engine: Some(engine), ..self }
    }

    /// Set the tool id.
    pub fn tool_id(self, id: KindId) -> (b: Self)
        ensures
            b == (FlowAsToolBuilder { tool_id: Some(id), ..self }),
    {
        FlowAsToolBuilder { tool_id: Some(id), ..self }
    }

    /// Set the name.
    pub fn name(self, name: String) -> (b: Self)
        ensures
            b == (FlowAsToolBuilder { name: Some(name), ..self }),
    {
        FlowAsToolBuilder { name: Some(name), ..self }
    }

    /// Set the description.
    pub fn description(self, desc: String) -> (b: Self)
        ensures
            b == (FlowAsToolBuilder { description: Some(desc), ..self }),
    {
        FlowAsToolBuilder { description: Some(desc), ..self }
    }

    /// Set the input schema.
    pub fn input_schema(self, schema: JsonValue) -> (b: Self)
        ensures
            b == (FlowAsToolBuilder { input_schema: Some(schema), ..self }),
    {
        FlowAsToolBuilder { input_schema: Some(schema), ..self }
    }

    /// Set the output schema.
    pub fn output_schema(self, schema: JsonValue) -> (b: Self)
        ensures
            b == (FlowAsToolBuilder { output_schema: Some(schema), ..self }),
    {
        FlowAsToolBuilder { output_schema: Some(schema), ..self }
    }

    /// Set the seed adapter.
    pub fn seed_adapter(self, adapter: S) -> (b: Self)
        ensures
            b == (FlowAsToolBuilder { seed_adapter: Some(adapter), ..self }),
    {
        FlowAsToolBuilder { seed_adapter: Some(adapter), ..self }
    }

    /// Set the output adapter.
    pub fn output_adapter(self, adapter: O) -> (b: Self)
        ensures
            b == (FlowAsToolBuilder { output_adapter: Some(adapter), ..self }),
    {
        FlowAsToolBuilder { output_adapter: Some(adapter), ..self }
    }

    /// The wrapper, or the first missing field.
    pub fn build(self) -> (r: Result<FlowAsTool<T, E, S, O>, FlowAsToolBuildError>)
        ensures
            r is Ok <==> tool_builder_gap(self) is None,
            r matches Err(FlowAsToolBuildError::MissingField(f)) ==> tool_builder_gap(self) == Some(f@),
            r matches Ok(t) ==> t.built_from(self),
    {
        let flow_id = match self.flow_id {
            Some(v) => v,
            None => return Err(FlowAsToolBuildError::MissingField("flow_id")),
        };
        let revision = match self.revision {
            Some(v) => v,
            None => return Err(FlowAsToolBuildError::MissingField("revision")),
        };
        let topology = match self.topology {
            Some(v) => v,
            None => return Err(FlowAsToolBuildError::MissingField("topology")),
        };
        if self.terminal_slots.len() == 0 {
            return Err(FlowAsToolBuildError::MissingField("terminal_slots"));
        }
        let engine = match self.engine {
            Some(v) => v,
            None => return Err(FlowAsToolBuildError::MissingField("engine")),
        };
        let tool_id = match self.tool_id {
            Some(v) => v,
            None => return Err(FlowAsToolBuildError::MissingField("tool_id")),
        };
        let name = match self.name {
            Some(v) => v,
            None => return Err(FlowAsToolBuildError::MissingField("name")),
        };
        let description = match self.description {
            Some(v) => v,
            None => return Err(FlowAsToolBuildError::MissingField("description")),
        };
        let input_schema = match self.input_schema {
            Some(v) => v,
            None => return Err(FlowAsToolBuildError::MissingField("input_schema")),
        };
        let output_schema = match self.output_schema {
            Some(v) => v,
            None => return Err(FlowAsToolBuildError::MissingField("output_schema")),
        };
        let seed_adapter = match self.seed_adapter {
            Some(v) => v,
            None => return Err(FlowAsToolBuildError::MissingField("seed_adapter")),
        };
        let output_adapter = match self.output_adapter {
            Some(v) => v,
            None => return Err(FlowAsToolBuildError::MissingField("output_adapter")),
        };
        Ok(
            FlowAsTool {
                flow_id,
                revision,
                topology,
                terminal_slots: self.terminal_slots,
                engine,
                tool_id,
                name,
                description,
                input_schema,
                output_schema,
                seed_adapter,
                output_adapter,
            },
        )
    }
}

/// A flow wrapped as a tool. Built only by [`FlowAsToolBuilder::build`], so
/// it always has at least one terminal slot.
pub struct FlowAsTool<T, E, S, O> {
    flow_id: FlowId,
    revision: FlowRevisionId,
    topology: T,
    terminal_slots: Vec<SlotRef>,
    engine: E,
    tool_id: KindId,
    name: String,
    description: String,
    input_schema: JsonValue,
    output_schema: JsonValue,
    seed_adapter: S,
    output_adapter: O,
}

impl<T, E, S, O> FlowAsTool<T, E, S, O> {
    #[verifier::type_invariant]
    closed spec fn well_formed(self) -> bool {
        self.terminal_slots@.len() > 0
    }

    /// `true` when every part of the wrapper is what `b` held.
    pub open spec fn built_from(self, b: FlowAsToolBuilder<T, E, S, O>) -> bool {
        &&& b.flow_id == Some(self.spec_flow_id())
        &&& b.revision == Some(self.spec_revision())
        &&& b.topology == Some(self.spec_topology())
        &&& b.terminal_slots@ == self.spec_terminal_slots()
        &&& b.engine == Some(self.spec_engine())
        &&& b.tool_id == Some(self.spec_tool_id())
        &&& b.name == Some(self.spec_name())
        &&& b.description == Some(self.spec_description())
        &&& b.input_schema == Some(self.spec_input_schema())
        &&& b.output_schema == Some(self.spec_output_schema())
        &&& b.seed_adapter == Some(self.spec_seed_adapter())
        &&& b.output_adapter == Some(self.spec_output_adapter())
    }

    /// The wrapped flow.
    pub closed spec fn spec_flow_id(self) -> FlowId {
        self.flow_id
    }

    /// The pinned revision.
    pub closed spec fn spec_revision(self) -> FlowRevisionId {
        self.revision
    }

    /// The topology.
    pub closed spec fn spec_topology(self) -> T {
        self.topology
    }

    /// The terminal slots.
    pub closed spec fn spec_terminal_slots(self) -> Seq<SlotRef> {
        self.terminal_slots@
    }

    /// The engine.
    pub closed spec fn spec_engine(self) -> E {
        self.engine
    }

    /// The tool id.
    pub closed spec fn spec_tool_id(self) -> KindId {
        self.tool_id
    }

    /// The name.
    pub closed spec fn spec_name(self) -> String {
        self.name
    }

    /// The description.
    pub closed spec fn spec_description(self) -> String {
        self.description
    }

    /// The input schema.
    pub closed spec fn spec_input_schema(self) -> JsonValue {
        self.input_schema
    }

    /// The output schema.
    pub closed spec fn spec_output_schema(self) -> JsonValue {
        self.output_schema
    }

    /// The seed adapter.
    pub closed spec fn spec_seed_adapter(self) -> S {
        self.seed_adapter
    }

    /// The output adapter.
    pub closed spec fn spec_output_adapter(self) -> O {
        self.output_adapter
    }

    /// A builder with nothing set.
    pub fn builder() -> (b: FlowAsToolBuilder<T, E, S, O>)
        ensures
            tool_builder_gap(b) == Some("flow_id"@),
            b.terminal_slots@.len() == 0,
    {
        FlowAsToolBuilder::new()
    }

    /// The wrapped flow.
    pub fn flow_id(&self) -> (r: &FlowId)
        ensures
            *r == self.spec_flow_id(),
    {
        &self.flow_id
    }

    /// The pinned revision.
    pub fn revision(&self) -> (r: FlowRevisionId)
        ensures
            r == self.spec_revision(),
    {
        self.revision
    }

    /// The reverse-DNS tool id.
    pub fn tool_id(&self) -> (r: &KindId)
        ensures
            *r == self.spec_tool_id(),
    {
        &self.tool_id
    }

    /// The output schema.
    pub fn output_schema(&self) -> (r: &JsonValue)
        ensures
            *r == self.spec_output_schema(),
    {
        &self.output_schema
    }

    /// The topology the run is driven on.
    pub fn topology(&self) -> (r: &T)
        ensures
            *r == self.spec_topology(),
    {
        &self.topology
    }

    /// The engine handle.
    pub fn engine(&self) -> (r: &E)
        ensures
            *r == self.spec_engine(),
    {
        &self.engine
    }

    /// The terminal slots, never empty.
    pub fn terminal_slots(&self) -> (r: &Vec<SlotRef>)
        ensures
            r@ == self.spec_terminal_slots(),
            r@.len() > 0,
    {
        proof {
            use_type_invariant(self);
        }
        &self.terminal_slots
    }

    /// The seed adapter.
    pub fn seed_adapter(&self) -> (r: &S)
        ensures
            *r == self.spec_seed_adapter(),
    {
        &self.seed_adapter
    }

    /// The output adapter.
    pub fn output_adapter(&self) -> (r: &O)
        ensures
            *r == self.spec_output_adapter(),
    {
        &self.output_adapter
    }

    /// What the tool advertises: its name, description and input schema.
    pub fn definition(&self) -> (d: ToolDefinition)
        ensures
            d.name == self.spec_name(),
            d.description == self.spec_description(),
            d.input_schema@ == self.spec_input_schema()@,
    {
        ToolDefinition {
            name: self.name.clone(),
            description: self.description.clone(),
            input_schema: self.input_schema.clone(),
        }
    }
}

/// How a run driven for one tool call ended.
#[derive(Debug)]
pub enum RunEnd {
    /// Reached quiescence.
    Completed,
    /// Failed at the propagator level, with the error rendered.
    Failed(String),
    /// Cancelled.
    Cancelled,
    /// Stopped in a status that is not terminal, rendered.
    Other(String),
}

/// Why a tool call produced no output.
#[derive(Debug)]
pub enum ToolRunError {
    /// The engine refused to start the run, with its reason.
    StartRefused(String),
    /// The task driving the run ended abnormally, with its reason.
    Aborted(String),
    /// A node failed while the run otherwise completed.
    NodeFailed {
        /// The failing node.
        node: String,
        /// Its error, rendered.
        error: String,
    },
    /// The run failed.
    RunFailed(String),
    /// The run was cancelled.
    Cancelled,
    /// The run stopped in a non-terminal status.
    NonTerminal(String),
    /// The call ran past its deadline.
    TimedOut,
}

/// The message of a tool-call failure.
pub open spec fn tool_run_error_text(e: ToolRunError) -> Seq<char> {
    match e {
        ToolRunError::StartRefused(d) => "flow start refused: "@ + d@,
        ToolRunError::Aborted(d) => d@,
        ToolRunError::NodeFailed { node, error } => "flow run failed: node "@ + node@ + " returned "@
            + error@,
        ToolRunError::RunFailed(e) => "flow run failed: "@ + e@,
        ToolRunError::Cancelled => "flow run cancelled"@,
        ToolRunError::NonTerminal(s) => "flow run terminated in non-terminal status: "@ + s@,
        ToolRunError::TimedOut => "flow invocation timed out"@,
    }
}

impl ToolRunError {
    /// Human-readable message.
    pub fn message(&self) -> (m: String)
        ensures
            m@ == tool_run_error_text(*self),
    {
        match self {
            ToolRunError::StartRefused(d) => String::from_str("flow start refused: ").concat(d.as_str()),
            ToolRunError::Aborted(d) => d.clone(),
            ToolRunError::NodeFailed { node, error } => {
                let m = String::from_str("flow run failed: node ").concat(node.as_str());
                m.concat(" returned ").concat(error.as_str())
            },
            ToolRunError::RunFailed(e) => String::from_str("flow run failed: ").concat(e.as_str()),
            ToolRunError::Cancelled => String::from_str("flow run cancelled"),
            ToolRunError::NonTerminal(s) => String::from_str(
                "flow run terminated in non-terminal status: ",
            ).concat(s.as_str()),
            ToolRunError::TimedOut => String::from_str("flow invocation timed out"),
        }
    }
}

/// The node failure an event reports, as (node, error) text.
pub open spec fn failure_of(ev: FlowEvent) -> Option<(Seq<char>, Seq<char>)> {
    match ev {
        FlowEvent::NodeFailed { node, error, .. } => Some((node@, error@)),
        _ => None,
    }
}

/// The first node failure among `events`, in order.
pub open spec fn first_failure(events: Seq<FlowEvent>) -> Option<(Seq<char>, Seq<char>)>
    decreases events.len(),
{
    if events.len() == 0 {
        None
    } else {
        match first_failure(events.drop_last()) {
            Some(f) => Some(f),
            None => failure_of(events.last()),
        }
    }
}

/// Once some events hold a node failure, no later event changes which one
/// is reported.
pub proof fn lemma_first_failure_stays(a: Seq<FlowEvent>, b: Seq<FlowEvent>)
    requires
        first_failure(a) is Some,
    ensures
        first_failure(a + b) == first_failure(a),
    decreases b.len(),
{
    if b.len() > 0 {
        lemma_first_failure_stays(a, b.drop_last());
        assert((a + b).drop_last() =~= a + b.drop_last());
    } else {
        assert(a + b =~= a);
    }
}

/// Keeps the first node failure a run's event stream reports.
pub struct FailureLatch {
    first: Option<(String, String)>,
}

impl FailureLatch {
    /// The failure kept so far, as (node, error) text.
    pub closed spec fn latched(self) -> Option<(Seq<char>, Seq<char>)> {
        match self.first {
            Some(f) => Some((f.0@, f.1@)),
            None => None,
        }
    }

    /// A latch that has seen nothing.
    pub fn new() -> (l: FailureLatch)
        ensures
            l.latched() is None,
    {
        FailureLatch { first: None }
    }

    /// Observe one event: a node failure is kept unless one already is.
    pub fn observe(&mut self, ev: &FlowEvent)
        ensures
            final(self).latched() == match old(self).latched() {
                Some(f) => Some(f),
                None => failure_of(*ev),
            },
    {
        if self.first.is_none() {
            match ev {
                FlowEvent::NodeFailed { node, error, .. } => {
                    self.first = Some((node.as_str().to_owned(), error.clone()));
                },
                _ => {},
            }
        }
    }

    /// The failure kept, as (node, error).
    pub fn take(self) -> (r: Option<(String, String)>)
        ensures
            match r {
                Some(f) => self.latched() == Some((f.0@, f.1@)),
                None => self.latched() is None,
            },
    {
        self.first
    }
}

/// The output-map key a terminal slot is read back under: `node.slot`.
pub open spec fn terminal_key(s: SlotRef) -> Seq<char> {
    s.node@ + "."@ + s.slot@
}

/// The key of `s` in a run's output map.
pub fn terminal_output_key(s: &SlotRef) -> (k: String)
    ensures
        k@ == terminal_key(*s),
{
    let k = s.node.as_str().to_owned().concat(".");
    k.concat(s.slot.as_str())
}

/// What the read-back of `slots[..n]` holds under `k`: the last slot among
/// them keyed `k` whose read succeeded.
pub open spec fn read_back(slots: Seq<SlotRef>, reads: Seq<Option<SlotValue>>, n: int, k: Seq<char>) -> Option<
    SlotValue,
>
    decreases n,
{
    if n <= 0 {
        None
    } else if terminal_key(slots[n - 1]) == k && reads[n - 1] is Some {
        reads[n - 1]
    } else {
        read_back(slots, reads, n - 1, k)
    }
}

/// The output map of a completed run: each terminal slot whose read
/// succeeded, under its `node.slot` key (a later slot with the same key
/// wins). `reads[i]` is the read of `slots[i]`.
pub fn collect_terminal_output(slots: &Vec<SlotRef>, reads: Vec<Option<SlotValue>>) -> (m: SlotMap)
    requires
        reads@.len() == slots@.len(),
    ensures
        forall|k: Seq<char>| lookup(m@, k) == read_back(slots@, reads@, slots@.len() as int, k),
{
    let ghost all = reads@;
    let mut rest = reads;
    let mut m = SlotMap::new();
    let mut i: usize = 0;
    while i < slots.len()
        invariant
            0 <= i <= slots@.len(),
            all.len() == slots@.len(),
            rest@ == all.skip(i as int),
            forall|k: Seq<char>| lookup(m@, k) == read_back(slots@, all, i as int, k),
        decreases slots@.len() - i,
    {
        let read = rest.remove(0);
        assert(read == all[i as int]);
        match read {
            Some(v) => {
                let key = terminal_output_key(&slots[i]);
                let _ = m.insert(key, v);
            },
            None => {},
        }
        assert(rest@ =~= all.skip(i + 1));
        i = i + 1;
    }
    m
}

/// The result of one tool call once its run ended: a completed run with no
/// node failure yields its output map; a completed run with one reports the
/// first; any other end is an error of its own.
pub fn tool_run_result(end: RunEnd, first_failure: Option<(String, String)>, output: SlotMap) -> (r: Result<
    SlotMap,
    ToolRunError,
>)
    ensures
        match end {
            RunEnd::Completed => match first_failure {
                Some(f) => r == Err::<SlotMap, ToolRunError>(ToolRunError::NodeFailed { node: f.0, error: f.1 }),
                None => r == Ok::<SlotMap, ToolRunError>(output),
            },
            RunEnd::Failed(e) => r == Err::<SlotMap, ToolRunError>(ToolRunError::RunFailed(e)),
            RunEnd::Cancelled => r == Err::<SlotMap, ToolRunError>(ToolRunError::Cancelled),
            RunEnd::Other(s) => r == Err::<SlotMap, ToolRunError>(ToolRunError::NonTerminal(s)),
        },
{
    match end {
        RunEnd::Completed => match first_failure {
            Some((node, error)) => Err(ToolRunError::NodeFailed { node, error }),
            None => Ok(output),
        },
        RunEnd::Failed(e) => Err(ToolRunError::RunFailed(e)),
        RunEnd::Cancelled => Err(ToolRunError::Cancelled),
        RunEnd::Other(s) => Err(ToolRunError::NonTerminal(s)),
    }
}

} // verus!
