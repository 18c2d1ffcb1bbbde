//! The registry of flows exposed as tools: one entry per `(flow, revision)`,
//! validated at registration so a later lookup never finds a half-made
//! entry.
//!
//! The parsed flow body, its resolved topology and any custom adapters are
//! opaque here (the type parameters `B`, `T`, `F` and `G`); what registration
//! reads of a body — its flow id and the ids of its nodes — is a
//! [`FlowOutline`].

use vstd::prelude::*;
use vstd::string::*;

use crate::flow::FlowRevisionId;
use crate::hex::uuid_hyphenated;
use crate::ids::{FlowId, KindId, NodeId};
use crate::json::{JsonValue, JsonView};
use crate::node::SlotRef;
use crate::slot::{lookup, SlotMap, SlotValue};
use crate::surfaces::FlowAsToolBuildError;
use crate::text::{debug_quoted, str_debug, text_eq};
use crate::tool_surface::{terminal_key, terminal_output_key, FlowAsTool, FlowAsToolBuilder, ToolRunError};
use crate::watch::{extension_of, format_of, path_extension, FlowFormat};
use crate::text::lower_text;

verus! {

/// What registration reads of a parsed flow body.
#[derive(Debug)]
pub struct FlowOutline {
    /// The body's flow id.
    pub flow_id: FlowId,
    /// The ids of the nodes the body declares.
    pub node_ids: Vec<NodeId>,
}

/// Why the topology of a body could not be resolved.
#[derive(Debug)]
pub enum TopologyError {
    /// The body (or the registration around it) is missing something.
    BodyShape {
        /// What is missing.
        detail: String,
    },
    /// The resolver refused the body, with its reason rendered.
    Resolver(String),
}

/// The text a topology error is reported with.
pub open spec fn topology_error_text(e: TopologyError) -> Seq<char> {
    match e {
        TopologyError::BodyShape { detail } => detail@,
        TopologyError::Resolver(s) => s@,
    }
}

/// Errors of registration and lookup.
#[derive(Debug)]
pub enum FlowRegistryError {
    /// The pair was registered before; revisions are immutable.
    DuplicateRevision {
        /// The flow.
        flow: FlowId,
        /// The revision.
        revision: FlowRevisionId,
    },
    /// Nothing is registered under the pair.
    NotFound {
        /// The flow asked for.
        flow: FlowId,
        /// The revision asked for.
        revision: FlowRevisionId,
    },
    /// A flow file could not be read as a body.
    YamlShape {
        /// Source path.
        path: String,
        /// What went wrong.
        detail: String,
    },
    /// The registration or its topology was refused.
    Resolve {
        /// The flow.
        flow: FlowId,
        /// The revision.
        revision: FlowRevisionId,
        /// Why.
        error: TopologyError,
    },
    /// A terminal slot names a node the body does not declare.
    UnknownTerminalNode {
        /// The offending slot.
        slot: SlotRef,
        /// Its node id.
        node: String,
    },
}

/// How `{:?}` renders a slot reference.
pub open spec fn slot_ref_debug(s: SlotRef) -> Seq<char> {
    "SlotRef { node: NodeId("@ + str_debug(s.node@) + "), slot: "@ + str_debug(s.slot@) + " }"@
}

/// The message of a registry error.
pub open spec fn flow_registry_error_text(e: FlowRegistryError) -> Seq<char> {
    match e {
        FlowRegistryError::DuplicateRevision { flow, revision } => "flow "@ + flow@ + " revision "@
            + uuid_hyphenated(revision.0) + " is already registered"@,
        FlowRegistryError::NotFound { flow, revision } => "no flow registered under "@ + flow@
            + " revision "@ + uuid_hyphenated(revision.0),
        FlowRegistryError::YamlShape { path, detail } => "flow YAML invalid at "@ + path@ + ": "@
            + detail@,
        FlowRegistryError::Resolve { flow, revision, error } => "topology resolve failed for "@
            + flow@ + " revision "@ + uuid_hyphenated(revision.0) + ": "@ + topology_error_text(error),
        FlowRegistryError::UnknownTerminalNode { slot, node } => "terminal slot "@ + slot_ref_debug(
            slot,
        ) + " references node `"@ + node@ + "` not declared in flow body"@,
    }
}

impl FlowRegistryError {
    /// Human-readable message.
    pub fn message(&self) -> (m: String)
        ensures
            m@ == flow_registry_error_text(*self),
    {
        match self {
            FlowRegistryError::DuplicateRevision { flow, revision } => {
                let m = String::from_str("flow ").concat(flow.as_str()).concat(" revision ");
                let m = m.concat(revision.to_text().as_str()).concat(" is already registered");
                assert(m@ =~= flow_registry_error_text(*self));
                m
            },
            FlowRegistryError::NotFound { flow, revision } => {
                let m = String::from_str("no flow registered under ").concat(flow.as_str());
                let m = m.concat(" revision ").concat(revision.to_text().as_str());
                assert(m@ =~= flow_registry_error_text(*self));
                m
            },
            FlowRegistryError::YamlShape { path, detail } => {
                let m = String::from_str("flow YAML invalid at ").concat(path.as_str());
                let m = m.concat(": ").concat(detail.as_str());
                assert(m@ =~= flow_registry_error_text(*self));
                m
            },
            FlowRegistryError::Resolve { flow, revision, error } => {
                let m = String::from_str("topology resolve failed for ").concat(flow.as_str());
                let m = m.concat(" revision ").concat(revision.to_text().as_str()).concat(": ");
                let m = match error {
                    TopologyError::BodyShape { detail } => m.concat(detail.as_str()),
                    TopologyError::Resolver(s) => m.concat(s.as_str()),
                };
                assert(m@ =~= flow_registry_error_text(*self));
                m
            },
            FlowRegistryError::UnknownTerminalNode { slot, node } => {
                let d = String::from_str("SlotRef { node: NodeId(").concat(
                    debug_quoted(slot.node.as_str()).as_str(),
                );
                let d = d.concat("), slot: ").concat(debug_quoted(slot.slot.as_str()).as_str()).concat(" }");
                let m = String::from_str("terminal slot ").concat(d.as_str());
                let m = m.concat(" references node `").concat(node.as_str());
                let m = m.concat("` not declared in flow body");
                assert(m@ =~= flow_registry_error_text(*self));
                m
            },
        }
    }
}

/// How a registered flow seeds a run from a tool call's JSON input.
#[derive(Debug)]
pub enum SeedAdapter<F> {
    /// The whole input goes, as JSON, into this slot.
    IntoSlot(SlotRef),
    /// The caller's own adapter.
    Custom(F),
}

/// How a registered flow turns a run's output map into the call's result.
#[derive(Debug)]
pub enum OutputAdapter<G> {
    /// The value under this output-map key, as JSON.
    FromSlot(String),
    /// The caller's own adapter.
    Custom(G),
}

impl<F: Clone> Clone for SeedAdapter<F> {
    fn clone(&self) -> (r: Self)
        ensures
            self matches SeedAdapter::IntoSlot(s) ==> (r matches SeedAdapter::IntoSlot(t) && t@ == s@),
            self matches SeedAdapter::Custom(f) ==> (r matches SeedAdapter::Custom(g) && cloned::<F>(*f, g)),
    {
        match self {
            SeedAdapter::IntoSlot(s) => SeedAdapter::IntoSlot(s.clone()),
            SeedAdapter::Custom(f) => SeedAdapter::Custom(f.clone()),
        }
    }
}

impl<G: Clone> Clone for OutputAdapter<G> {
    fn clone(&self) -> (r: Self)
        ensures
            self matches OutputAdapter::FromSlot(k) ==> (r matches OutputAdapter::FromSlot(j) && j == k),
            self matches OutputAdapter::Custom(f) ==> (r matches OutputAdapter::Custom(g) && cloned::<G>(*f, g)),
    {
        match self {
            OutputAdapter::FromSlot(k) => OutputAdapter::FromSlot(k.clone()),
            OutputAdapter::Custom(f) => OutputAdapter::Custom(f.clone()),
        }
    }
}

/// The seed writes of the default adapter: the whole input, as JSON, into
/// `slot`.
pub fn default_seeds(slot: &SlotRef, input: &JsonValue) -> (v: Vec<(SlotRef, SlotValue)>)
    ensures
        v@.len() == 1,
        v@[0].0@ == slot@,
        v@[0].1 matches SlotValue::Json(j) && j@ == input@,
{
    let mut v: Vec<(SlotRef, SlotValue)> = Vec::new();
    v.push((slot.clone(), SlotValue::Json(input.clone())));
    v
}

/// The result the default output adapter gives for `key`: its JSON value,
/// `null` when the key is absent or null, and nothing (`None`) when it holds
/// another kind of value, which the caller renders as text.
pub fn default_output(out: &SlotMap, key: &str) -> (r: Option<JsonValue>)
    ensures
        match lookup(out@, key@) {
            Some(SlotValue::Json(v)) => r matches Some(j) && j@ == v@,
            Some(SlotValue::Null) => r == Some(JsonValue::Null),
            None => r == Some(JsonValue::Null),
            Some(_) => r is None,
        },
{
    match out.get(key) {
        Some(SlotValue::Json(v)) => Some(v.clone()),
        Some(SlotValue::Null) => Some(JsonValue::Null),
        None => Some(JsonValue::Null),
        Some(_) => None,
    }
}

/// The seed writes `adapter` makes of a tool call's `input`: the default
/// adapter writes the whole input, as JSON, into its slot; a custom one is
/// called.
pub fn apply_seed_adapter<F: Fn(&JsonValue) -> Vec<(SlotRef, SlotValue)>>(
    adapter: &SeedAdapter<F>,
    input: &JsonValue,
) -> (v: Vec<(SlotRef, SlotValue)>)
    requires
        adapter matches SeedAdapter::Custom(f) ==> call_requires(*f, (input,)),
    ensures
        adapter matches SeedAdapter::IntoSlot(s) ==> (v@.len() == 1 && v@[0].0@ == s@ && (v@[0].1 matches SlotValue::Json(
            j,
        ) && j@ == input@)),
        adapter matches SeedAdapter::Custom(f) ==> call_ensures(*f, (input,), v),
{
    match adapter {
        SeedAdapter::IntoSlot(slot) => default_seeds(slot, input),
        SeedAdapter::Custom(f) => f(input),
    }
}

/// The result `adapter` makes of a completed run's output map: the default
/// adapter reads its key (see [`default_output`]; `None` when the key holds
/// a value that is neither JSON nor null, which the caller renders as
/// text); a custom one is called.
pub fn apply_output_adapter<G: Fn(&SlotMap) -> JsonValue>(adapter: &OutputAdapter<G>, out: &SlotMap) -> (r: Option<
    JsonValue,
>)
    requires
        adapter matches OutputAdapter::Custom(f) ==> call_requires(*f, (out,)),
    ensures
        adapter matches OutputAdapter::FromSlot(k) ==> match lookup(out@, k@) {
            Some(SlotValue::Json(v)) => r matches Some(j) && j@ == v@,
            Some(SlotValue::Null) => r == Some(JsonValue::Null),
            None => r == Some(JsonValue::Null),
            Some(_) => r is None,
        },
        adapter matches OutputAdapter::Custom(f) ==> (r matches Some(j) && call_ensures(*f, (out,), j)),
{
    match adapter {
        OutputAdapter::FromSlot(key) => default_output(out, key.as_str()),
        OutputAdapter::Custom(f) => Some(f(out)),
    }
}

/// `true` when some slot of `s` is the slot `x`.
pub open spec fn holds_slot(s: Seq<SlotRef>, x: (Seq<char>, Seq<char>)) -> bool {
    exists|i: int| 0 <= i < s.len() && (#[trigger] s[i])@ == x
}

/// `true` when some slot of `slots` is `x`.
fn has_slot(slots: &Vec<SlotRef>, x: &SlotRef) -> (b: bool)
    ensures
        b == holds_slot(slots@, x@),
{
    let mut i: usize = 0;
    while i < slots.len()
        invariant
            0 <= i <= slots@.len(),
            forall|j: int| 0 <= j < i ==> (#[trigger] slots@[j])@ != x@,
        decreases slots@.len() - i,
    {
        if text_eq(slots[i].node.as_str(), x.node.as_str()) && text_eq(slots[i].slot.as_str(), x.slot.as_str()) {
            assert(slots@[i as int]@ == x@);
            return true;
        }
        i = i + 1;
    }
    false
}

/// Everything one registration brings: the body and its outline, the
/// revision, the terminal slots, the schemas, the tool metadata and the
/// adapters. Checked by [`FlowRegistry::register`].
#[derive(Debug)]
pub struct FlowRegistration<B, F, G> {
    /// The parsed body.
    pub body: B,
    /// What registration reads of the body.
    pub outline: FlowOutline,
    /// The pinned revision.
    pub revision: FlowRevisionId,
    /// Slots read back at the end of a run (must not be empty).
    pub terminal_slots: Vec<SlotRef>,
    /// Input JSON schema.
    pub input_schema: JsonValue,
    /// Output JSON schema.
    pub output_schema: JsonValue,
    /// Reverse-DNS tool id.
    pub tool_id: KindId,
    /// Tool name.
    pub name: String,
    /// One-sentence description.
    pub description: String,
    /// Seed adapter (required).
    pub seed_adapter: Option<SeedAdapter<F>>,
    /// Output adapter (required).
    pub output_adapter: Option<OutputAdapter<G>>,
}

/// The empty JSON object, `{}`.
pub open spec fn empty_object() -> JsonView {
    JsonView::Object(Seq::empty())
}

impl<B, F, G> FlowRegistration<B, F, G> {
    /// A registration with empty (`{}`) schemas, no terminal slots and no
    /// adapters yet.
    pub fn new(
        body: B,
        outline: FlowOutline,
        revision: FlowRevisionId,
        tool_id: KindId,
        name: String,
        description: String,
    ) -> (r: Self)
        ensures
            r.body == body,
            r.outline == outline,
            r.revision == revision,
            r.terminal_slots@.len() == 0,
            r.input_schema@ == empty_object(),
            r.output_schema@ == empty_object(),
            r.tool_id == tool_id,
            r.name == name,
            r.description == description,
            r.seed_adapter is None,
            r.output_adapter is None,
    {
        let r = FlowRegistration {
            body,
            outline,
            revision,
            terminal_slots: Vec::new(),
            input_schema: JsonValue::Object(Vec::new()),
            output_schema: JsonValue::Object(Vec::new()),
            tool_id,
            name,
            description,
            seed_adapter: None,
            output_adapter: None,
        };
        assert(r.input_schema@ == empty_object()) by {
            if let JsonView::Object(m) = r.input_schema@ {
                assert(m =~= Seq::empty());
            }
        }
        assert(r.output_schema@ == empty_object()) by {
            if let JsonView::Object(m) = r.output_schema@ {
                assert(m =~= Seq::empty());
            }
        }
        r
    }

    /// Set the terminal slots.
    pub fn terminal_slots(self, slots: Vec<SlotRef>) -> (r: Self)
        ensures
            r == (FlowRegistration { terminal_slots: slots, ..self }),
    {
        FlowRegistration { terminal_slots: slots, ..self }
    }

    /// Set the input schema.
    pub fn input_schema(self, schema: JsonValue) -> (r: Self)
        ensures
            r == (FlowRegistration { input_schema: schema, ..self }),
    {
        FlowRegistration { input_schema: schema, ..self }
    }

    /// Set the output schema.
    pub fn output_schema(self, schema: JsonValue) -> (r: Self)
        ensures
            r == (FlowRegistration { output_schema: schema, ..self }),
    {
        FlowRegistration { output_schema: schema, ..self }
    }

    /// Wire the caller's own adapter pair (replacing any set before).
    pub fn with_adapters(self, seed: F, output: G) -> (r: Self)
        ensures
            r == (FlowRegistration {
                seed_adapter: Some(SeedAdapter::Custom(seed)),
                output_adapter: Some(OutputAdapter::Custom(output)),
                ..self
            }),
    {
        FlowRegistration {
            seed_adapter: Some(SeedAdapter::Custom(seed)),
            output_adapter: Some(OutputAdapter::Custom(output)),
            ..self
        }
    }

    /// Wire the default adapter pair: the input goes whole into `seed_slot`,
    /// the result is read back from `output_slot`, which joins the terminal
    /// slots unless it already is one.
    pub fn with_default_adapters(self, seed_slot: SlotRef, output_slot: SlotRef) -> (r: Self)
        ensures
            r.body == self.body,
            r.outline == self.outline,
            r.revision == self.revision,
            r.input_schema == self.input_schema,
            r.output_schema == self.output_schema,
            r.tool_id == self.tool_id,
            r.name == self.name,
            r.description == self.description,
            r.seed_adapter == Some(SeedAdapter::<F>::IntoSlot(seed_slot)),
            r.output_adapter matches Some(OutputAdapter::FromSlot(k)) && k@ == terminal_key(output_slot),
            holds_slot(self.terminal_slots@, output_slot@) ==> r.terminal_slots == self.terminal_slots,
            !holds_slot(self.terminal_slots@, output_slot@) ==> r.terminal_slots@
                == self.terminal_slots@.push(output_slot),
    {
        let key = terminal_output_key(&output_slot);
        let mut slots = self.terminal_slots;
        if !has_slot(&slots, &output_slot) {
            slots.push(output_slot);
        }
        FlowRegistration {
            terminal_slots: slots,
            seed_adapter: Some(SeedAdapter::IntoSlot(seed_slot)),
            output_adapter: Some(OutputAdapter::FromSlot(key)),
            ..self
        }
    }
}

/// One registered flow.
#[derive(Debug)]
pub struct RegisteredFlow<B, T, F, G> {
    /// The flow id.
    pub flow_id: FlowId,
    /// The pinned revision.
    pub revision: FlowRevisionId,
    /// The parsed body.
    pub body: B,
    /// The topology resolved at registration.
    pub topology: T,
    /// Slots read back at run end; never empty.
    pub terminal_slots: Vec<SlotRef>,
    /// Input JSON schema.
    pub input_schema: JsonValue,
    /// Output JSON schema.
    pub output_schema: JsonValue,
    /// Reverse-DNS tool id.
    pub tool_id: KindId,
    /// Tool name.
    pub name: String,
    /// Description.
    pub description: String,
    /// Seed adapter.
    pub seed_adapter: SeedAdapter<F>,
    /// Output adapter.
    pub output_adapter: OutputAdapter<G>,
}

/// The key an entry is registered under.
pub open spec fn reg_key<B, T, F, G>(e: RegisteredFlow<B, T, F, G>) -> (Seq<char>, u128) {
    (e.flow_id@, e.revision.0)
}

/// No key is registered twice.
pub open spec fn keys_unique<B, T, F, G>(s: Seq<RegisteredFlow<B, T, F, G>>) -> bool {
    forall|i: int, j: int| 0 <= i < j < s.len() ==> reg_key(#[trigger] s[i]) != reg_key(#[trigger] s[j])
}

/// Position of the entry registered under `k`, or `-1`.
pub open spec fn key_pos<B, T, F, G>(s: Seq<RegisteredFlow<B, T, F, G>>, k: (Seq<char>, u128)) -> int
    decreases s.len(),
{
    if s.len() == 0 {
        -1
    } else if reg_key(s.last()) == k {
        s.len() - 1
    } else {
        key_pos(s.drop_last(), k)
    }
}

/// The entry registered under `k`, if any.
pub open spec fn find_flow<B, T, F, G>(s: Seq<RegisteredFlow<B, T, F, G>>, k: (Seq<char>, u128)) -> Option<
    RegisteredFlow<B, T, F, G>,
> {
    if key_pos(s, k) >= 0 {
        Some(s[key_pos(s, k)])
    } else {
        None
    }
}

/// `key_pos` finds exactly the entry registered under `k`.
pub proof fn lemma_key_pos<B, T, F, G>(s: Seq<RegisteredFlow<B, T, F, G>>, k: (Seq<char>, u128))
    requires
        keys_unique(s),
    ensures
        -1 <= key_pos(s, k) < s.len(),
        key_pos(s, k) >= 0 ==> reg_key(s[key_pos(s, k)]) == k,
        key_pos(s, k) == -1 <==> (forall|i: int| 0 <= i < s.len() ==> reg_key(#[trigger] s[i]) != k),
        forall|i: int| 0 <= i < s.len() && reg_key(#[trigger] s[i]) == k ==> i == key_pos(s, k),
    decreases s.len(),
{
    if s.len() > 0 {
        let t = s.drop_last();
        assert(keys_unique(t));
        lemma_key_pos(t, k);
        if reg_key(s.last()) != k {
            assert forall|i: int| 0 <= i < s.len() && reg_key(#[trigger] s[i]) == k implies i == key_pos(s, k) by {
                assert(t[i] == s[i]);
            }
            if key_pos(t, k) == -1 {
                assert forall|i: int| 0 <= i < s.len() implies reg_key(#[trigger] s[i]) != k by {
                    if i < s.len() - 1 {
                        assert(t[i] == s[i]);
                    }
                }
            }
        }
    }
}

/// The registry of flows exposed as tools, one entry per `(flow, revision)`.
#[derive(Debug)]
pub struct FlowRegistry<B, T, F, G> {
    entries: Vec<RegisteredFlow<B, T, F, G>>,
}

/// The detail of a registration without terminal slots.
pub open spec fn missing_terminals_text() -> Seq<char> {
    "FlowRegistration is missing terminal_slots (call `.terminal_slots(...)` or `.with_default_adapters(...)`)"@
}

/// The detail of a registration without a seed adapter.
pub open spec fn missing_seed_text() -> Seq<char> {
    "FlowRegistration is missing a seed_adapter (call `.with_adapters(...)` or `.with_default_adapters(...)`)"@
}

/// The detail of a registration without an output adapter.
pub open spec fn missing_output_text() -> Seq<char> {
    "FlowRegistration is missing an output_adapter (call `.with_adapters(...)` or `.with_default_adapters(...)`)"@
}

/// `true` when a node of `ids` is named `n`.
pub open spec fn declares(ids: Seq<NodeId>, n: Seq<char>) -> bool {
    exists|i: int| 0 <= i < ids.len() && (#[trigger] ids[i])@ == n
}

/// The first terminal slot whose node `ids` does not declare.
pub open spec fn first_unknown(slots: Seq<SlotRef>, ids: Seq<NodeId>) -> Option<int>
    decreases slots.len(),
{
    if slots.len() == 0 {
        None
    } else {
        match first_unknown(slots.drop_last(), ids) {
            Some(i) => Some(i),
            None => if declares(ids, slots.last().node@) {
                None
            } else {
                Some(slots.len() - 1)
            },
        }
    }
}

/// `first_unknown` lies within the slots.
proof fn lemma_first_unknown_bounds(slots: Seq<SlotRef>, ids: Seq<NodeId>)
    ensures
        first_unknown(slots, ids) matches Some(i) ==> 0 <= i < slots.len(),
    decreases slots.len(),
{
    if slots.len() > 0 {
        lemma_first_unknown_bounds(slots.drop_last(), ids);
    }
}

/// `Ok` when every terminal slot names a declared node; otherwise the first
/// that does not, as `UnknownTerminalNode`.
pub fn check_terminal_slots(ids: &Vec<NodeId>, terminals: &Vec<SlotRef>) -> (r: Result<(), FlowRegistryError>)
    ensures
        match first_unknown(terminals@, ids@) {
            Some(i) => r matches Err(FlowRegistryError::UnknownTerminalNode { slot, node }) && slot@
                == terminals@[i]@ && node@ == terminals@[i].node@,
            None => r is Ok,
        },
{
    let mut i: usize = 0;
    while i < terminals.len()
        invariant
            0 <= i <= terminals@.len(),
            first_unknown(terminals@.take(i as int), ids@) is None,
        decreases terminals@.len() - i,
    {
        let node = terminals[i].node.as_str();
        let mut found = false;
        let mut j: usize = 0;
        while j < ids.len()
            invariant
                0 <= j <= ids@.len(),
                node@ == terminals@[i as int].node@,
                found ==> declares(ids@, node@),
                !found ==> forall|q: int| 0 <= q < j ==> (#[trigger] ids@[q])@ != node@,
            decreases ids@.len() - j,
        {
            if text_eq(ids[j].as_str(), node) {
                found = true;
            }
            j = j + 1;
        }
        assert(terminals@.take(i + 1).drop_last() =~= terminals@.take(i as int));
        if !found {
            assert(first_unknown(terminals@.take(i + 1), ids@) == Some(i as int));
            proof {
                lemma_prefix_first_unknown(terminals@, ids@, i as int + 1);
            }
            return Err(
                FlowRegistryError::UnknownTerminalNode {
                    slot: terminals[i].clone(),
                    node: node.to_owned(),
                },
            );
        }
        i = i + 1;
    }
    assert(terminals@.take(terminals@.len() as int) =~= terminals@);
    Ok(())
}

/// A failure found in a prefix is the failure of the whole.
proof fn lemma_prefix_first_unknown(slots: Seq<SlotRef>, ids: Seq<NodeId>, n: int)
    requires
        0 <= n <= slots.len(),
        first_unknown(slots.take(n), ids) is Some,
    ensures
        first_unknown(slots, ids) == first_unknown(slots.take(n), ids),
    decreases slots.len() - n,
{
    if n < slots.len() {
        assert(slots.take(n + 1).drop_last() =~= slots.take(n));
        lemma_prefix_first_unknown(slots, ids, n + 1);
    } else {
        assert(slots.take(n) =~= slots);
    }
}

/// The entry a valid registration becomes, with its resolved topology.
pub open spec fn registered_from<B, T, F, G>(spec: FlowRegistration<B, F, G>, topology: T) -> RegisteredFlow<
    B,
    T,
    F,
    G,
> {
    RegisteredFlow {
        flow_id: spec.outline.flow_id,
        revision: spec.revision,
        body: spec.body,
        topology,
        terminal_slots: spec.terminal_slots,
        input_schema: spec.input_schema,
        output_schema: spec.output_schema,
        tool_id: spec.tool_id,
        name: spec.name,
        description: spec.description,
        seed_adapter: spec.seed_adapter->0,
        output_adapter: spec.output_adapter->0,
    }
}

/// `true` when a registration passes every check that does not depend on
/// the registry's contents.
pub open spec fn registration_complete<B, F, G>(spec: FlowRegistration<B, F, G>) -> bool {
    &&& spec.terminal_slots@.len() > 0
    &&& spec.seed_adapter is Some
    &&& spec.output_adapter is Some
    &&& first_unknown(spec.terminal_slots@, spec.outline.node_ids@) is None
}

impl<B, T, F, G> FlowRegistry<B, T, F, G> {
    #[verifier::type_invariant]
    closed spec fn well_formed(self) -> bool {
        &&& keys_unique(self.entries@)
        &&& forall|i: int| 0 <= i < self.entries@.len() ==> (#[trigger] self.entries@[i]).terminal_slots@.len() > 0
    }

    /// The registered entries, in registration order.
    pub closed spec fn flows(self) -> Seq<RegisteredFlow<B, T, F, G>> {
        self.entries@
    }

    /// An empty registry.
    pub fn new() -> (r: Self)
        ensures
            r.flows().len() == 0,
    {
        FlowRegistry { entries: Vec::new() }
    }

    /// Number of registered flows.
    pub fn len(&self) -> (n: usize)
        ensures
            n == self.flows().len(),
    {
        self.entries.len()
    }

    /// `true` when nothing is registered.
    pub fn is_empty(&self) -> (b: bool)
        ensures
            b == (self.flows().len() == 0),
    {
        self.entries.len() == 0
    }

    fn position(&self, flow_id: &FlowId, revision: &FlowRevisionId) -> (r: Option<usize>)
        ensures
            match r {
                Some(i) => i == key_pos(self.flows(), (flow_id@, revision.0)) && i < self.flows().len(),
                None => key_pos(self.flows(), (flow_id@, revision.0)) == -1,
            },
    {
        proof {
            use_type_invariant(self);
            lemma_key_pos(self.flows(), (flow_id@, revision.0));
        }
        let ghost k = (flow_id@, revision.0);
        let mut i: usize = 0;
        while i < self.entries.len()
            invariant
                0 <= i <= self.entries@.len(),
                k == (flow_id@, revision.0),
                keys_unique(self.entries@),
                forall|j: int| 0 <= j < i ==> reg_key(#[trigger] self.entries@[j]) != k,
                -1 <= key_pos(self.entries@, k) < self.entries@.len(),
                key_pos(self.entries@, k) == -1 <==> (forall|j: int|
                    0 <= j < self.entries@.len() ==> reg_key(#[trigger] self.entries@[j]) != k),
                forall|j: int|
                    0 <= j < self.entries@.len() && reg_key(#[trigger] self.entries@[j]) == k ==> j == key_pos(
                        self.entries@,
                        k,
                    ),
            decreases self.entries@.len() - i,
        {
            let e = &self.entries[i];
            if e.revision.0 == revision.0 && text_eq(e.flow_id.as_str(), flow_id.as_str()) {
                assert(reg_key(self.entries@[i as int]) == k);
                return Some(i);
            }
            i = i + 1;
        }
        None
    }

    /// The entry registered under `(flow_id, revision)`, if any.
    pub fn lookup(&self, flow_id: &FlowId, revision: &FlowRevisionId) -> (r: Option<&RegisteredFlow<B, T, F, G>>)
        ensures
            match r {
                Some(e) => find_flow(self.flows(), (flow_id@, revision.0)) == Some(*e),
                None => find_flow(self.flows(), (flow_id@, revision.0)) is None,
            },
    {
        match self.position(flow_id, revision) {
            Some(i) => Some(&self.entries[i]),
            None => None,
        }
    }

    /// The entry registered under `(flow_id, revision)`, or `NotFound`.
    pub fn resolve(&self, flow_id: &FlowId, revision: &FlowRevisionId) -> (r: Result<
        &RegisteredFlow<B, T, F, G>,
        FlowRegistryError,
    >)
        ensures
            match r {
                Ok(e) => find_flow(self.flows(), (flow_id@, revision.0)) == Some(*e),
                Err(e) => find_flow(self.flows(), (flow_id@, revision.0)) is None && (e matches FlowRegistryError::NotFound {
                    flow,
                    revision: rev,
                } && flow@ == flow_id@ && rev == *revision),
            },
    {
        match self.lookup(flow_id, revision) {
            Some(e) => Ok(e),
            None => Err(FlowRegistryError::NotFound { flow: flow_id.clone(), revision: *revision }),
        }
    }

    /// Register `spec` with the topology its body resolved to. The checks,
    /// in order: terminal slots given, seed adapter given, output adapter
    /// given, every terminal slot on a declared node, topology resolved, and
    /// `(flow, revision)` not registered before. A refused registration
    /// leaves the registry as it was.
    pub fn register(&mut self, spec: FlowRegistration<B, F, G>, topology: Result<T, TopologyError>) -> (r: Result<
        (),
        FlowRegistryError,
    >)
        ensures
            r is Err ==> final(self).flows() == old(self).flows(),
            spec.terminal_slots@.len() == 0 ==> (r matches Err(
                FlowRegistryError::Resolve { flow, revision, error: TopologyError::BodyShape { detail } },
            ) && flow@ == spec.outline.flow_id@ && revision == spec.revision && detail@ == missing_terminals_text()),
            spec.terminal_slots@.len() > 0 && spec.seed_adapter is None ==> (r matches Err(
                FlowRegistryError::Resolve { flow, revision, error: TopologyError::BodyShape { detail } },
            ) && flow@ == spec.outline.flow_id@ && revision == spec.revision && detail@ == missing_seed_text()),
            spec.terminal_slots@.len() > 0 && spec.seed_adapter is Some && spec.output_adapter is None ==> (r matches Err(
                FlowRegistryError::Resolve { flow, revision, error: TopologyError::BodyShape { detail } },
            ) && flow@ == spec.outline.flow_id@ && revision == spec.revision && detail@ == missing_output_text()),
            spec.terminal_slots@.len() > 0 && spec.seed_adapter is Some && spec.output_adapter is Some ==> (
            first_unknown(spec.terminal_slots@, spec.outline.node_ids@) matches Some(i) ==> (r matches Err(
                FlowRegistryError::UnknownTerminalNode { slot, node },
            ) && slot@ == spec.terminal_slots@[i]@ && node@ == spec.terminal_slots@[i].node@)),
            registration_complete(spec) && topology is Err ==> (r matches Err(
                FlowRegistryError::Resolve { flow, revision, error },
            ) && flow@ == spec.outline.flow_id@ && revision == spec.revision && Err::<T, TopologyError>(error)
                == topology),
            registration_complete(spec) && topology is Ok && key_pos(old(self).flows(), (spec.outline.flow_id@, spec.revision.0)) >= 0 ==> (r matches Err(
                FlowRegistryError::DuplicateRevision { flow, revision },
            ) && flow@ == spec.outline.flow_id@ && revision == spec.revision),
            r is Ok <==> (registration_complete(spec) && topology is Ok && key_pos(
                old(self).flows(),
                (spec.outline.flow_id@, spec.revision.0),
            ) == -1),
            r is Ok ==> final(self).flows() == old(self).flows().push(registered_from(spec, topology->Ok_0)),
    {
        proof {
            use_type_invariant(&*self);
        }
        if spec.terminal_slots.len() == 0 {
            return Err(
                FlowRegistryError::Resolve {
                    flow: spec.outline.flow_id,
                    revision: spec.revision,
                    error: TopologyError::BodyShape {
                        detail: String::from_str(
                            "FlowRegistration is missing terminal_slots (call `.terminal_slots(...)` or `.with_default_adapters(...)`)",
                        ),
                    },
                },
            );
        }
        let ghost expected_entry = spec;
        let (seed_adapter, output_adapter) = match (spec.seed_adapter, spec.output_adapter) {
            (Some(seed), Some(output)) => (seed, output),
            (None, _) => {
                return Err(
                    FlowRegistryError::Resolve {
                        flow: spec.outline.flow_id,
                        revision: spec.revision,
                        error: TopologyError::BodyShape {
                            detail: String::from_str(
                                "FlowRegistration is missing a seed_adapter (call `.with_adapters(...)` or `.with_default_adapters(...)`)",
                            ),
                        },
                    },
                );
            },
            (Some(_), None) => {
                return Err(
                    FlowRegistryError::Resolve {
                        flow: spec.outline.flow_id,
                        revision: spec.revision,
                        error: TopologyError::BodyShape {
                            detail: String::from_str(
                                "FlowRegistration is missing an output_adapter (call `.with_adapters(...)` or `.with_default_adapters(...)`)",
                            ),
                        },
                    },
                );
            },
        };
        match check_terminal_slots(&spec.outline.node_ids, &spec.terminal_slots) {
            Err(e) => {
                return Err(e);
            },
            Ok(()) => {},
        }
        let topology = match topology {
            Ok(t) => t,
            Err(error) => {
                return Err(
                    FlowRegistryError::Resolve { flow: spec.outline.flow_id, revision: spec.revision, error },
                );
            },
        };
        match self.position(&spec.outline.flow_id, &spec.revision) {
            Some(_) => {
                return Err(
                    FlowRegistryError::DuplicateRevision { flow: spec.outline.flow_id, revision: spec.revision },
                );
            },
            None => {},
        }
        proof {
            lemma_key_pos(self.flows(), (spec.outline.flow_id@, spec.revision.0));
        }
        let ghost expected = registered_from(expected_entry, topology);
        let entry = RegisteredFlow {
            flow_id: spec.outline.flow_id,
            revision: spec.revision,
            body: spec.body,
            topology,
            terminal_slots: spec.terminal_slots,
            input_schema: spec.input_schema,
            output_schema: spec.output_schema,
            tool_id: spec.tool_id,
            name: spec.name,
            description: spec.description,
            seed_adapter,
            output_adapter,
        };
        assert(entry == expected);
        let mut entries: Vec<RegisteredFlow<B, T, F, G>> = Vec::new();
        std::mem::swap(&mut entries, &mut self.entries);
        entries.push(entry);
        self.entries = entries;
        Ok(())
    }
}

/// Register each `(registration, topology)` in turn, stopping at the first
/// refusal. `Ok(n)`: all `n` were registered. `Err((k, e))`: the first `k`
/// were registered and the next was refused with `e`, as [`FlowRegistry::register`]
/// refuses it.
pub fn register_all<B, T, F, G>(
    registry: &mut FlowRegistry<B, T, F, G>,
    specs: Vec<(FlowRegistration<B, F, G>, Result<T, TopologyError>)>,
) -> (r: Result<usize, (usize, FlowRegistryError)>)
    ensures
        r matches Ok(n) ==> n == specs@.len(),
        r matches Err((k, _)) ==> k < specs@.len(),
        ({
            let count = match r {
                Ok(n) => n as int,
                Err((k, _)) => k as int,
            };
            &&& final(registry).flows().len() == old(registry).flows().len() + count
            &&& final(registry).flows().subrange(0, old(registry).flows().len() as int) == old(registry).flows()
            &&& forall|i: int|
                0 <= i < count ==> final(registry).flows()[old(registry).flows().len() + i] == registered_from(
                    #[trigger] specs@[i].0,
                    specs@[i].1->Ok_0,
                )
        }),
{
    let ghost all = specs@;
    let ghost before = registry.flows();
    let total: usize = specs.len();
    assert(all.len() == total);
    let mut rest = specs;
    let mut n: usize = 0;
    while rest.len() > 0
        invariant
            n + rest@.len() == all.len(),
            all == specs@,
            before == old(registry).flows(),
            all.len() <= usize::MAX,
            rest@ == all.skip(n as int),
            registry.flows().len() == before.len() + n,
            registry.flows().subrange(0, before.len() as int) == before,
            forall|i: int|
                0 <= i < n ==> registry.flows()[before.len() + i] == registered_from(
                    #[trigger] all[i].0,
                    all[i].1->Ok_0,
                ),
        decreases rest@.len(),
    {
        let (spec, topology) = rest.remove(0);
        assert((spec, topology) == all[n as int]);
        let ghost mid = registry.flows();
        match registry.register(spec, topology) {
            Ok(()) => {
                assert(registry.flows().subrange(0, before.len() as int) =~= before) by {
                    assert(registry.flows() == mid.push(registered_from(all[n as int].0, all[n as int].1->Ok_0)));
                    assert forall|j: int| 0 <= j < before.len() implies registry.flows()[j] == before[j] by {
                        assert(mid.subrange(0, before.len() as int)[j] == before[j]);
                    }
                }
                assert forall|i: int| 0 <= i < n + 1 implies registry.flows()[before.len() + i] == registered_from(
                    #[trigger] all[i].0,
                    all[i].1->Ok_0,
                ) by {
                    if i < n {
                        assert(registry.flows()[before.len() + i] == mid[before.len() + i]);
                    }
                }
            },
            Err(e) => {
                assert(registry.flows() == mid);
                return Err((n, e));
            },
        }
        assert(rest@ =~= all.skip(n + 1));
        n = n + 1;
    }
    Ok(n)
}

/// What a successful registration leaves behind: the new entry is what a
/// lookup of its `(flow, revision)` finds (so registering that pair again is
/// refused as a duplicate), every other pair finds what it found before, and
/// no key occurs twice.
pub proof fn lemma_register_then_lookup<B, T, F, G>(
    flows: Seq<RegisteredFlow<B, T, F, G>>,
    spec: FlowRegistration<B, F, G>,
    topology: T,
    other: (Seq<char>, u128),
)
    requires
        keys_unique(flows),
        key_pos(flows, (spec.outline.flow_id@, spec.revision.0)) == -1,
    ensures
        find_flow(flows.push(registered_from(spec, topology)), (spec.outline.flow_id@, spec.revision.0)) == Some(
            registered_from(spec, topology),
        ),
        key_pos(flows.push(registered_from(spec, topology)), (spec.outline.flow_id@, spec.revision.0)) >= 0,
        other != (spec.outline.flow_id@, spec.revision.0) ==> find_flow(
            flows.push(registered_from(spec, topology)),
            other,
        ) == find_flow(flows, other),
        keys_unique(flows.push(registered_from(spec, topology))),
{
    let e = registered_from(spec, topology);
    let s = flows.push(e);
    assert(s.drop_last() =~= flows);
    lemma_key_pos(flows, (spec.outline.flow_id@, spec.revision.0));
    lemma_key_pos(flows, other);
    if other != (spec.outline.flow_id@, spec.revision.0) {
        assert(key_pos(s, other) == key_pos(flows, other));
        if key_pos(flows, other) >= 0 {
            assert(s[key_pos(flows, other)] == flows[key_pos(flows, other)]);
        }
    }
    assert forall|i: int, j: int| 0 <= i < j < s.len() implies reg_key(#[trigger] s[i]) != reg_key(#[trigger] s[j]) by {
        if j == s.len() - 1 {
            assert(s[i] == flows[i]);
        } else {
            assert(s[i] == flows[i] && s[j] == flows[j]);
        }
    }
}

/// Why [`FlowAsTool::from_registry`] failed.
#[derive(Debug)]
pub enum FromRegistryError {
    /// Nothing is registered under the pair.
    NotRegistered(FlowRegistryError),
    /// The builder refused the registered parts.
    Build(FlowAsToolBuildError),
}

/// A copy of a slot list.
fn copy_slots(slots: &Vec<SlotRef>) -> (r: Vec<SlotRef>)
    ensures
        r@.len() == slots@.len(),
        forall|i: int| 0 <= i < slots@.len() ==> (#[trigger] r@[i])@ == slots@[i]@,
{
    let mut r: Vec<SlotRef> = Vec::new();
    let mut i: usize = 0;
    while i < slots.len()
        invariant
            0 <= i <= slots@.len(),
            r@.len() == i,
            forall|j: int| 0 <= j < i ==> (#[trigger] r@[j])@ == slots@[j]@,
        decreases slots@.len() - i,
    {
        r.push(slots[i].clone());
        i = i + 1;
    }
    r
}

impl<T: Clone, E, F: Clone, G: Clone> FlowAsTool<T, E, SeedAdapter<F>, OutputAdapter<G>> {
    /// Wrap the flow registered under `(flow_id, revision)` as a tool driven
    /// on `engine`. The registered parts are copied; the build cannot fail,
    /// since registration checked them.
    pub fn from_registry<B>(
        registry: &FlowRegistry<B, T, F, G>,
        flow_id: &FlowId,
        revision: &FlowRevisionId,
        engine: E,
    ) -> (r: Result<Self, FromRegistryError>)
        ensures
            match find_flow(registry.flows(), (flow_id@, revision.0)) {
                None => r matches Err(FromRegistryError::NotRegistered(FlowRegistryError::NotFound { flow, revision: rev }))
                    && flow@ == flow_id@ && rev == *revision,
                Some(e) => r matches Ok(t) && {
                    &&& t.spec_flow_id()@ == flow_id@
                    &&& t.spec_revision() == *revision
                    &&& t.spec_engine() == engine
                    &&& t.spec_terminal_slots().len() == e.terminal_slots@.len()
                    &&& forall|i: int| 0 <= i < e.terminal_slots@.len() ==> (#[trigger] t.spec_terminal_slots()[i])@
                        == e.terminal_slots@[i]@
                    &&& t.spec_tool_id()@ == e.tool_id@
                    &&& t.spec_name() == e.name
                    &&& t.spec_description() == e.description
                    &&& t.spec_input_schema()@ == e.input_schema@
                    &&& t.spec_output_schema()@ == e.output_schema@
                    &&& cloned::<T>(e.topology, t.spec_topology())
                    &&& (e.seed_adapter matches SeedAdapter::IntoSlot(s) ==> (t.spec_seed_adapter() matches SeedAdapter::IntoSlot(u) && u@ == s@))
                    &&& (e.seed_adapter matches SeedAdapter::Custom(f) ==> (t.spec_seed_adapter() matches SeedAdapter::Custom(g) && cloned::<F>(f, g)))
                    &&& (e.output_adapter matches OutputAdapter::FromSlot(k) ==> (t.spec_output_adapter() matches OutputAdapter::FromSlot(j) && j == k))
                    &&& (e.output_adapter matches OutputAdapter::Custom(f) ==> (t.spec_output_adapter() matches OutputAdapter::Custom(g) && cloned::<G>(f, g)))
                },
            },
    {
        let e = match registry.resolve(flow_id, revision) {
            Ok(e) => e,
            Err(err) => {
                return Err(FromRegistryError::NotRegistered(err));
            },
        };
        proof {
            use_type_invariant(registry);
            lemma_key_pos(registry.flows(), (flow_id@, revision.0));
        }
        let b = FlowAsToolBuilder::new().flow_id(flow_id.clone()).revision(*revision).topology(
            e.topology.clone(),
        ).terminal_slots(copy_slots(&e.terminal_slots)).engine(engine).tool_id(e.tool_id.clone()).name(
            e.name.clone(),
        ).description(e.description.clone()).input_schema(e.input_schema.clone()).output_schema(
            e.output_schema.clone(),
        ).seed_adapter(e.seed_adapter.clone()).output_adapter(e.output_adapter.clone());
        match b.build() {
            Ok(t) => Ok(t),
            Err(err) => Err(FromRegistryError::Build(err)),
        }
    }
}

impl<T, E, F: Fn(&JsonValue) -> Vec<(SlotRef, SlotValue)>, G: Fn(&SlotMap) -> JsonValue> FlowAsTool<
    T,
    E,
    SeedAdapter<F>,
    OutputAdapter<G>,
> {
    /// The seed writes this tool's seed adapter makes of a call's `input`.
    pub fn seeds_for(&self, input: &JsonValue) -> (v: Vec<(SlotRef, SlotValue)>)
        requires
            self.spec_seed_adapter() matches SeedAdapter::Custom(f) ==> call_requires(f, (input,)),
        ensures
            self.spec_seed_adapter() matches SeedAdapter::IntoSlot(s) ==> (v@.len() == 1 && v@[0].0@ == s@ && (
            v@[0].1 matches SlotValue::Json(j) && j@ == input@)),
            self.spec_seed_adapter() matches SeedAdapter::Custom(f) ==> call_ensures(f, (input,), v),
    {
        apply_seed_adapter(self.seed_adapter(), input)
    }

    /// The call's result once its run ended: a run error is the call's
    /// error; a completed run's output map goes through this tool's output
    /// adapter (see [`apply_output_adapter`]).
    pub fn call_result(&self, run: Result<SlotMap, ToolRunError>) -> (r: Result<Option<JsonValue>, ToolRunError>)
        requires
            run matches Ok(m) ==> (self.spec_output_adapter() matches OutputAdapter::Custom(f) ==> call_requires(
                f,
                (&m,),
            )),
        ensures
            run matches Err(e) ==> r == Err::<Option<JsonValue>, ToolRunError>(e),
            run matches Ok(m) ==> (r matches Ok(o) && (self.spec_output_adapter() matches OutputAdapter::FromSlot(k)
                ==> match lookup(m@, k@) {
                Some(SlotValue::Json(v)) => o matches Some(j) && j@ == v@,
                Some(SlotValue::Null) => o == Some(JsonValue::Null),
                None => o == Some(JsonValue::Null),
                Some(_) => o is None,
            }) && (self.spec_output_adapter() matches OutputAdapter::Custom(f) ==> (o matches Some(j)
                && call_ensures(f, (&m,), j)))),
    {
        match run {
            Ok(m) => Ok(apply_output_adapter(self.output_adapter(), &m)),
            Err(e) => Err(e),
        }
    }
}

/// The format a flow file is read in, by its path's extension (`.yaml`,
/// `.yml` or `.json`, any case); any other is a `YamlShape` error.
pub fn body_format(path: &str) -> (r: Result<FlowFormat, FlowRegistryError>)
    ensures
        format_of(path_extension(path@)) matches Some(f) ==> r matches Ok(g) && g == f,
        format_of(path_extension(path@)) is None ==> (r matches Err(FlowRegistryError::YamlShape { path: p, detail })
            && p@ == path@ && detail@ == "unsupported extension; expected .yaml / .yml / .json"@),
{
    match crate::watch::flow_format(path) {
        Ok(f) => Ok(f),
        Err(_) => Err(
            FlowRegistryError::YamlShape {
                path: path.to_owned(),
                detail: String::from_str("unsupported extension; expected .yaml / .yml / .json"),
            },
        ),
    }
}

} // verus!
