//! `ai-agent` — the LLM-loop node kind.
//!
//! The library holds the agent's decisions: which configuration the input
//! selects (or which typed domain error it earns), which tools the model may
//! see, what each turn of the loop does with the runner's reply, and how a
//! tool call is routed and reported back to the model. Calling the model and
//! the tools is the host's work; it hands each reply to the state machine
//! here and performs the action the machine returns.

use vstd::prelude::*;
use vstd::string::*;

use crate::auth::{Principal, Role};
use crate::flow::{is_agent_session_id, SessionId, SessionMode};
use crate::hex::{bytes_hex, push_byte_hex};
use crate::ids::{is_reverse_dns, FlowId, IdError, KindId};
use crate::idset::{holds_id, ids_ascend, insert_id, intersect_ids, sorted_ids};
use crate::json::{json_text, JsonValue};
use crate::node::{describes, NodeCtx, NodeDescriptor, NodeError};
use crate::skill::SkillSelection;
use crate::slot::{lookup, SlotMap, SlotValue};
use crate::nodes::tool_registry::{tool_lookup, StaticToolRegistry};
use crate::text::{lex_lt, text_eq};

verus! {

/// Reverse-DNS kind id.
pub const KIND_ID: &'static str = "starter.flow.ai-agent";

/// Catalog entry of this kind.
pub fn descriptor() -> (d: NodeDescriptor)
    ensures
        describes(d, KIND_ID@, "ai-agent"@),
        crate::ids::is_reverse_dns(d.kind@),
{
    proof {
        reveal_strlit("starter.flow.ai-agent");
        reveal_strlit("ai-agent");
        reveal_strlit("starter.flow.node.");
        reveal_strlit("label");
        reveal_strlit("summary");
        reveal_strlit("help");
        reveal_strlit("starter.flow.node.ai-agent.label");
        reveal_strlit("starter.flow.node.ai-agent.summary");
        reveal_strlit("starter.flow.node.ai-agent.help");
        assert(KIND_ID@[7] == '.');
    }
    let d = NodeDescriptor::new(
        KIND_ID,
        "starter.flow.node.ai-agent.label",
        "starter.flow.node.ai-agent.summary",
        "starter.flow.node.ai-agent.help",
    );
    assert(d.label_key@ =~= crate::node::catalog_key("ai-agent"@, "label"@));
    assert(d.summary_key@ =~= crate::node::catalog_key("ai-agent"@, "summary"@));
    assert(d.help_key@ =~= crate::node::catalog_key("ai-agent"@, "help"@));
    d
}

/// Config slot carrying the reverse-DNS provider id.
pub const PROVIDER_ID_SLOT: &'static str = "provider_id";

/// Optional config slot carrying the system prompt.
pub const SYSTEM_PROMPT_SLOT: &'static str = "system_prompt";

/// Optional config slot carrying a node-local tool allowlist.
pub const ALLOWED_TOOLS_SLOT: &'static str = "allowed_tools";

/// Optional config slot naming the session mode.
pub const SESSION_MODE_SLOT: &'static str = "session_mode";

/// Optional config slot carrying a skill-selection hint.
pub const SKILL_HINT_SLOT: &'static str = "skill_hint";

/// Optional config slot selecting the runner transport (`rest` or `cli`).
pub const INPUT_KIND_SLOT: &'static str = "input_kind";

/// Input slot carrying the user message.
pub const INPUT_SLOT: &'static str = "input";

/// Output slot carrying the model's final text.
pub const OUTPUT_SLOT: &'static str = "output";

/// Output slot carrying the number of turns taken.
pub const TURN_COUNT_SLOT: &'static str = "turn_count";

/// Upper bound on the loop's turns.
pub const MAX_TURNS: u32 = 64u32;

/// Subject of the principal the node acts as.
pub const SYSTEM_ADMIN_SUBJECT: &'static str = "system/Admin";

/// Placeholder flow id reusable sessions are keyed on while the invocation
/// context does not carry the owning flow.
pub const UNKNOWN_FLOW_ID: &'static str = "starter.flow.ai-agent.unknown-flow";

/// Which runner transport the body drives.
#[derive(Debug, Clone, Copy, PartialEq, Eq)]
pub enum AgentInputKind {
    /// The in-body turn loop with host tool dispatch (the default).
    Rest,
    /// One call to a CLI-shape runner that owns its own tool loop.
    Cli,
}

impl Default for AgentInputKind {
    fn default() -> (k: AgentInputKind)
        ensures
            k == AgentInputKind::Rest,
    {
        AgentInputKind::Rest
    }
}

/// The transport a (case-sensitive) name selects.
pub open spec fn input_kind_named(s: Seq<char>) -> Option<AgentInputKind> {
    if s == "rest"@ {
        Some(AgentInputKind::Rest)
    } else if s == "cli"@ {
        Some(AgentInputKind::Cli)
    } else {
        None
    }
}

impl AgentInputKind {
    /// Parse a transport name.
    pub fn parse(raw: &str) -> (r: Option<AgentInputKind>)
        ensures
            r == input_kind_named(raw@),
    {
        if text_eq(raw, "rest") {
            Some(AgentInputKind::Rest)
        } else if text_eq(raw, "cli") {
            Some(AgentInputKind::Cli)
        } else {
            None
        }
    }
}

/// Publish-time settings of an `ai-agent` node.
#[derive(Debug)]
pub struct AiAgentSettings {
    /// Reverse-DNS provider id.
    pub provider_id: String,
    /// System prompt.
    pub system_prompt: Option<String>,
    /// Node-local tool allowlist.
    pub allowed_tools: Vec<String>,
    /// Session mode name.
    pub session_mode: Option<String>,
    /// Runner transport name.
    pub input_kind: Option<String>,
}

/// The text a slot value carries: a string, or a JSON string.
pub open spec fn slot_text(v: Option<SlotValue>) -> Option<Seq<char>> {
    match v {
        Some(SlotValue::String(s)) => Some(s@),
        Some(SlotValue::Json(JsonValue::String(s))) => Some(s@),
        _ => None,
    }
}

/// An optional text as a view.
pub open spec fn opt_text(o: Option<String>) -> Option<Seq<char>> {
    match o {
        Some(s) => Some(s@),
        None => None,
    }
}

/// Read a slot as text (a string, or a JSON string).
pub fn read_string(input: &SlotMap, slot: &str) -> (r: Option<String>)
    ensures
        opt_text(r) == slot_text(lookup(input@, slot@)),
{
    match input.get(slot) {
        Some(SlotValue::String(s)) => Some(s.clone()),
        Some(SlotValue::Json(JsonValue::String(s))) => Some(s.clone()),
        _ => None,
    }
}

/// The text an id error renders as.
pub open spec fn id_error_text(s: Seq<char>) -> Seq<char> {
    if s.len() == 0 {
        "id may not be empty"@
    } else {
        "not a valid reverse-DNS id: "@ + s
    }
}

/// The first entry of an allowlist that is not a valid tool id, rendered as
/// the message it earns.
pub open spec fn first_bad_tool(arr: Seq<JsonValue>) -> Option<Seq<char>>
    decreases arr.len(),
{
    if arr.len() == 0 {
        None
    } else {
        match arr[0] {
            JsonValue::String(s) => if is_reverse_dns(s@) {
                first_bad_tool(arr.drop_first())
            } else {
                Some("invalid tool id `"@ + s@ + "`: "@ + id_error_text(s@))
            },
            _ => Some("allowed_tools entries must be strings"@),
        }
    }
}

/// What is wrong with the `allowed_tools` slot, if anything.
pub open spec fn tools_error(v: Option<SlotValue>) -> Option<Seq<char>> {
    match v {
        None => None,
        Some(SlotValue::Json(JsonValue::Null)) => None,
        Some(SlotValue::Json(JsonValue::Array(arr))) => first_bad_tool(arr@),
        Some(_) => Some("allowed_tools must be a JSON array of strings"@),
    }
}

/// Some entry of the allowlist is the string `x`.
pub open spec fn lists_tool(arr: Seq<JsonValue>, x: Seq<char>) -> bool {
    exists|i: int| 0 <= i < arr.len() && (#[trigger] arr[i]) is String && json_text(arr[i]) == x
}

/// The session mode a name selects (absent and empty select the default).
pub open spec fn session_mode_named(t: Option<Seq<char>>) -> Option<SessionMode> {
    match t {
        None => Some(SessionMode::FreshPerInvocation),
        Some(s) => if s.len() == 0 || s == "fresh_per_invocation"@ {
            Some(SessionMode::FreshPerInvocation)
        } else if s == "reuse_across_run"@ {
            Some(SessionMode::ReuseAcrossRun)
        } else if s == "reuse_across_flow"@ {
            Some(SessionMode::ReuseAcrossFlow)
        } else {
            None
        },
    }
}

/// The transport a name selects (absent and empty select the default).
pub open spec fn input_kind_chosen(t: Option<Seq<char>>, default: Option<AgentInputKind>) -> Option<
    AgentInputKind,
> {
    match t {
        Some(s) => if s.len() == 0 {
            Some(
                match default {
                    Some(k) => k,
                    None => AgentInputKind::Rest,
                },
            )
        } else {
            input_kind_named(s)
        },
        None => Some(
            match default {
                Some(k) => k,
                None => AgentInputKind::Rest,
            },
        ),
    }
}

/// The first configuration error of an input, as `(code, message)`: the
/// provider id, then the allowlist, the session mode and the transport.
pub open spec fn config_error(
    input: Seq<(Seq<char>, SlotValue)>,
    default_provider: Option<Seq<char>>,
    default_kind: Option<AgentInputKind>,
) -> Option<(Seq<char>, Seq<char>)> {
    let provider = slot_text(lookup(input, PROVIDER_ID_SLOT@));
    let mode = slot_text(lookup(input, SESSION_MODE_SLOT@));
    let kind = slot_text(lookup(input, INPUT_KIND_SLOT@));
    if provider is Some && !is_reverse_dns(provider.unwrap()) {
        Some(
            (
                "provider_id_invalid"@,
                "invalid reverse-DNS provider id: "@ + id_error_text(provider.unwrap()),
            ),
        )
    } else if provider is None && default_provider is None {
        Some(
            (
                "provider_id_required"@,
                "provider_id config slot is required (and no default set on AiAgent)"@,
            ),
        )
    } else if tools_error(lookup(input, ALLOWED_TOOLS_SLOT@)) is Some {
        Some(("allowed_tools_invalid"@, tools_error(lookup(input, ALLOWED_TOOLS_SLOT@)).unwrap()))
    } else if session_mode_named(mode) is None {
        Some(("session_mode_invalid"@, "unknown session_mode `"@ + mode.unwrap() + "`"@))
    } else if input_kind_chosen(kind, default_kind) is None {
        Some(
            (
                "input_kind_invalid"@,
                "unknown input_kind `"@ + kind.unwrap() + "`; expected `rest` or `cli`"@,
            ),
        )
    } else {
        None
    }
}

/// The configuration one invocation runs with.
pub struct AgentConfig {
    /// Provider whose runner drives the loop.
    pub provider_id: KindId,
    /// System prompt.
    pub system_prompt: Option<String>,
    /// Node-local tool allowlist, ascending and without repeats; `None`
    /// when the node declares none.
    pub allowed_tools: Option<Vec<KindId>>,
    /// Session mode.
    pub session_mode: SessionMode,
    /// Non-empty skill-selection hint.
    pub skill_hint: Option<String>,
    /// The user message (empty when absent).
    pub user_input: String,
    /// Runner transport.
    pub input_kind: AgentInputKind,
}

/// The default provider as a view.
pub open spec fn opt_id(o: Option<&KindId>) -> Option<Seq<char>> {
    match o {
        Some(k) => Some(k@),
        None => None,
    }
}

/// Read the allowlist entries into an ascending id set.
fn tools_from(arr: &Vec<JsonValue>) -> (r: Result<Vec<KindId>, String>)
    ensures
        first_bad_tool(arr@) matches Some(m) ==> (r matches Err(e) && e@ == m),
        first_bad_tool(arr@) is None ==> (r matches Ok(v) && ids_ascend(v@) && forall|x: Seq<char>|
            holds_id(v@, x) <==> lists_tool(arr@, x)),
{
    let mut set: Vec<KindId> = Vec::new();
    let mut i: usize = 0;
    assert(arr@.skip(0) =~= arr@);
    while i < arr.len()
        invariant
            0 <= i <= arr@.len(),
            ids_ascend(set@),
            first_bad_tool(arr@) == first_bad_tool(arr@.skip(i as int)),
            forall|x: Seq<char>| holds_id(set@, x) <==> lists_tool(arr@.take(i as int), x),
        decreases arr@.len() - i,
    {
        assert(arr@.skip(i as int).drop_first() =~= arr@.skip(i + 1));
        assert(arr@.skip(i as int)[0] == arr@[i as int]);
        match &arr[i] {
            JsonValue::String(s) => {
                match KindId::new(s.clone()) {
                    Ok(id) => {
                        let ghost before = set@;
                        insert_id(&mut set, id);
                        proof {
                            assert forall|x: Seq<char>| holds_id(set@, x) <==> lists_tool(
                                arr@.take(i + 1),
                                x,
                            ) by {
                                if lists_tool(arr@.take(i as int), x) {
                                    let j = choose|j: int|
                                        0 <= j < i && (#[trigger] arr@.take(i as int)[j]) is String
                                            && json_text(arr@.take(i as int)[j]) == x;
                                    assert(arr@.take(i + 1)[j] == arr@.take(i as int)[j]);
                                }
                                if x == s@ {
                                    assert(arr@.take(i + 1)[i as int] == arr@[i as int]);
                                }
                                if lists_tool(arr@.take(i + 1), x) {
                                    let j = choose|j: int|
                                        0 <= j < i + 1 && (#[trigger] arr@.take(i + 1)[j]) is String
                                            && json_text(arr@.take(i + 1)[j]) == x;
                                    if j < i {
                                        assert(arr@.take(i + 1)[j] == arr@.take(i as int)[j]);
                                    }
                                }
                            }
                        }
                    },
                    Err(e) => {
                        let m = String::from_str("invalid tool id `");
                        let m = m.concat(s.as_str());
                        let m = m.concat("`: ");
                        let t = e.message();
                        let m = m.concat(t.as_str());
                        return Err(m);
                    },
                }
            },
            _ => {
                return Err(String::from_str("allowed_tools entries must be strings"));
            },
        }
        i = i + 1;
    }
    assert(arr@.take(arr@.len() as int) =~= arr@);
    Ok(set)
}

/// The session-mode and transport names: each of `fresh_per_invocation`,
/// `reuse_across_run` and `reuse_across_flow` selects the mode of that name,
/// and `rest` and `cli` the transport of that name.
pub proof fn lemma_mode_names()
    ensures
        session_mode_named(Some("fresh_per_invocation"@)) == Some(SessionMode::FreshPerInvocation),
        session_mode_named(Some("reuse_across_run"@)) == Some(SessionMode::ReuseAcrossRun),
        session_mode_named(Some("reuse_across_flow"@)) == Some(SessionMode::ReuseAcrossFlow),
        input_kind_named("rest"@) == Some(AgentInputKind::Rest),
        input_kind_named("cli"@) == Some(AgentInputKind::Cli),
{
    reveal_strlit("fresh_per_invocation");
    reveal_strlit("reuse_across_run");
    reveal_strlit("reuse_across_flow");
    reveal_strlit("rest");
    reveal_strlit("cli");
    assert("reuse_across_run"@[0] != "fresh_per_invocation"@[0]);
    assert("reuse_across_flow"@[0] != "fresh_per_invocation"@[0]);
    assert("reuse_across_flow"@[13] != "reuse_across_run"@[13]);
    assert("cli"@[0] != "rest"@[0]);
}

/// What a configuration says of its session mode and transport, in terms of
/// the input: an absent or empty `session_mode` and the name
/// `fresh_per_invocation` keep no conversation, the two reuse names select
/// their own modes; the names `rest` and `cli` select their transports.
pub proof fn lemma_configured_modes(
    input: Seq<(Seq<char>, SlotValue)>,
    default_provider: Option<Seq<char>>,
    default_kind: Option<AgentInputKind>,
    c: AgentConfig,
)
    requires
        configured(input, default_provider, default_kind, c),
    ensures
        lookup(input, SESSION_MODE_SLOT@) is None ==> c.session_mode == SessionMode::FreshPerInvocation,
        lookup(input, SESSION_MODE_SLOT@) matches Some(SlotValue::String(t)) ==> ((t@.len() == 0 ==> c.session_mode
            == SessionMode::FreshPerInvocation) && (t@ == "fresh_per_invocation"@ ==> c.session_mode
            == SessionMode::FreshPerInvocation) && (t@ == "reuse_across_run"@ ==> c.session_mode
            == SessionMode::ReuseAcrossRun) && (t@ == "reuse_across_flow"@ ==> c.session_mode
            == SessionMode::ReuseAcrossFlow)),
        lookup(input, INPUT_KIND_SLOT@) matches Some(SlotValue::String(t)) ==> ((t@ == "rest"@ ==> c.input_kind
            == AgentInputKind::Rest) && (t@ == "cli"@ ==> c.input_kind == AgentInputKind::Cli)),
{
    lemma_mode_names();
    reveal_strlit("rest");
    reveal_strlit("cli");
}

/// `c` is the configuration `input` selects, with the node's defaults.
pub open spec fn configured(
    input: Seq<(Seq<char>, SlotValue)>,
    default_provider: Option<Seq<char>>,
    default_kind: Option<AgentInputKind>,
    c: AgentConfig,
) -> bool {
    &&& c.provider_id@ == match slot_text(lookup(input, PROVIDER_ID_SLOT@)) {
        Some(p) => p,
        None => default_provider.unwrap(),
    }
    &&& opt_text(c.system_prompt) == slot_text(lookup(input, SYSTEM_PROMPT_SLOT@))
    &&& match lookup(input, ALLOWED_TOOLS_SLOT@) {
        Some(SlotValue::Json(JsonValue::Array(arr))) => if arr@.len() > 0 {
            c.allowed_tools matches Some(v) && ids_ascend(v@) && forall|x: Seq<char>|
                holds_id(v@, x) <==> lists_tool(arr@, x)
        } else {
            c.allowed_tools is None
        },
        _ => c.allowed_tools is None,
    }
    &&& Some(c.session_mode) == session_mode_named(
        slot_text(lookup(input, SESSION_MODE_SLOT@)),
    )
    &&& opt_text(c.skill_hint) == match slot_text(lookup(input, SKILL_HINT_SLOT@)) {
        Some(t) => if t.len() > 0 {
            Some(t)
        } else {
            None
        },
        None => None,
    }
    &&& c.user_input@ == match slot_text(lookup(input, INPUT_SLOT@)) {
        Some(t) => t,
        None => Seq::empty(),
    }
    &&& Some(c.input_kind) == input_kind_chosen(
        slot_text(lookup(input, INPUT_KIND_SLOT@)),
        default_kind,
    )
}

impl AgentConfig {
    /// Read the configuration an invocation's input selects. The slot wins
    /// over the node's default provider and transport.
    pub fn from_input(
        input: &SlotMap,
        default_provider_id: Option<&KindId>,
        default_input_kind: Option<AgentInputKind>,
    ) -> (r: Result<AgentConfig, NodeError>)
        ensures
            config_error(input@, opt_id(default_provider_id), default_input_kind) matches Some(e) ==> (r matches Err(
                NodeError::Domain { code, message },
            ) && code@ == e.0 && message@ == e.1),
            config_error(input@, opt_id(default_provider_id), default_input_kind) is None ==> (r matches Ok(c)
                && configured(input@, opt_id(default_provider_id), default_input_kind, c)),
            r matches Ok(c) ==> (lookup(input@, SESSION_MODE_SLOT@) is None ==> c.session_mode
                == SessionMode::FreshPerInvocation),
            r matches Ok(c) ==> (lookup(input@, SESSION_MODE_SLOT@) matches Some(SlotValue::String(t)) ==> ((t@
                == "fresh_per_invocation"@ ==> c.session_mode == SessionMode::FreshPerInvocation) && (t@
                == "reuse_across_run"@ ==> c.session_mode == SessionMode::ReuseAcrossRun) && (t@
                == "reuse_across_flow"@ ==> c.session_mode == SessionMode::ReuseAcrossFlow))),
    {
        proof {
            lemma_mode_names();
            reveal_strlit("provider_id_invalid");
            reveal_strlit("provider_id_required");
        }
        let provider_id = match read_string(input, PROVIDER_ID_SLOT) {
            Some(s) => match KindId::new(s) {
                Ok(k) => k,
                Err(e) => {
                    let m = String::from_str("invalid reverse-DNS provider id: ");
                    let t = e.message();
                    let m = m.concat(t.as_str());
                    return Err(NodeError::Domain { code: "provider_id_invalid", message: m });
                },
            },
            None => match default_provider_id {
                Some(k) => k.clone(),
                None => {
                    return Err(
                        NodeError::Domain {
                            code: "provider_id_required",
                            message: String::from_str(
                                "provider_id config slot is required (and no default set on AiAgent)",
                            ),
                        },
                    );
                },
            },
        };
        let system_prompt = read_string(input, SYSTEM_PROMPT_SLOT);
        let allowed_tools: Option<Vec<KindId>> = match input.get(ALLOWED_TOOLS_SLOT) {
            None => None,
            Some(SlotValue::Json(JsonValue::Null)) => None,
            Some(SlotValue::Json(JsonValue::Array(arr))) => {
                if arr.len() == 0 {
                    None
                } else {
                    match tools_from(arr) {
                        Ok(v) => Some(v),
                        Err(m) => {
                            return Err(NodeError::Domain { code: "allowed_tools_invalid", message: m });
                        },
                    }
                }
            },
            Some(_) => {
                return Err(
                    NodeError::Domain {
                        code: "allowed_tools_invalid",
                        message: String::from_str("allowed_tools must be a JSON array of strings"),
                    },
                );
            },
        };
        let mode_text = read_string(input, SESSION_MODE_SLOT);
        let session_mode = match &mode_text {
            None => SessionMode::FreshPerInvocation,
            Some(s) => {
                let t = s.as_str();
                if t.unicode_len() == 0 || text_eq(t, "fresh_per_invocation") {
                    SessionMode::FreshPerInvocation
                } else if text_eq(t, "reuse_across_run") {
                    SessionMode::ReuseAcrossRun
                } else if text_eq(t, "reuse_across_flow") {
                    SessionMode::ReuseAcrossFlow
                } else {
                    let m = String::from_str("unknown session_mode `");
                    let m = m.concat(t);
                    let m = m.concat("`");
                    return Err(NodeError::Domain { code: "session_mode_invalid", message: m });
                }
            },
        };
        let skill_hint = match read_string(input, SKILL_HINT_SLOT) {
            Some(s) => if s.as_str().unicode_len() == 0 {
                None
            } else {
                Some(s)
            },
            None => None,
        };
        let user_input = match read_string(input, INPUT_SLOT) {
            Some(s) => s,
            None => String::new(),
        };
        let kind_text = read_string(input, INPUT_KIND_SLOT);
        let input_kind = match &kind_text {
            None => match default_input_kind {
                Some(k) => k,
                None => AgentInputKind::Rest,
            },
            Some(s) => {
                let t = s.as_str();
                if t.unicode_len() == 0 {
                    match default_input_kind {
                        Some(k) => k,
                        None => AgentInputKind::Rest,
                    }
                } else {
                    match AgentInputKind::parse(t) {
                        Some(k) => k,
                        None => {
                            let m = String::from_str("unknown input_kind `");
                            let m = m.concat(t);
                            let m = m.concat("`; expected `rest` or `cli`");
                            return Err(NodeError::Domain { code: "input_kind_invalid", message: m });
                        },
                    }
                }
            },
        };
        Ok(
            AgentConfig {
                provider_id,
                system_prompt,
                allowed_tools,
                session_mode,
                skill_hint,
                user_input,
                input_kind,
            },
        )
    }

    /// The flow id reusable sessions are keyed on while the invocation
    /// context does not carry the owning flow: a fixed placeholder.
    pub fn flow_id_fallback(&self) -> (f: FlowId)
        ensures
            f@ == UNKNOWN_FLOW_ID@,
    {
        proof {
            reveal_strlit("starter.flow.ai-agent.unknown-flow");
            assert(UNKNOWN_FLOW_ID@[7] == '.');
        }
        match FlowId::new(String::from_str(UNKNOWN_FLOW_ID)) {
            Ok(f) => f,
            Err(_) => vstd::pervasive::unreached(),
        }
    }
}

/// A tool the model may call in one invocation: its id and the definition
/// the catalog holds for it.
pub struct ToolBinding<'a> {
    /// Tool id.
    pub id: KindId,
    /// Name the model calls it by.
    pub name: String,
    /// Description shown to the model.
    pub description: String,
    /// Input schema, borrowed from the catalog.
    pub input_schema: &'a JsonValue,
}

/// The ids of some bindings.
pub open spec fn binding_ids<'a>(v: Seq<ToolBinding<'a>>) -> Seq<KindId> {
    v.map_values(|b: ToolBinding<'a>| b.id)
}

/// The skill's tool allowlist, when a skill is selected.
pub open spec fn skill_tools(skill: SkillSelection) -> Option<Seq<KindId>> {
    match skill {
        SkillSelection::Selected { allowed_tools, .. } => Some(allowed_tools@),
        _ => None,
    }
}

/// A node allowlist as a sequence.
pub open spec fn node_tools(n: Option<Vec<KindId>>) -> Option<Seq<KindId>> {
    match n {
        Some(v) => Some(v@),
        None => None,
    }
}

/// `x` passes every allowlist layer that is present.
pub open spec fn layers_allow(skill: Option<Seq<KindId>>, node: Option<Seq<KindId>>, x: Seq<char>) -> bool {
    &&& (skill is Some ==> holds_id(skill.unwrap(), x))
    &&& (node is Some ==> holds_id(node.unwrap(), x))
}

/// `x` passes the layers and the catalog resolves it.
pub open spec fn tool_visible(
    reg: Seq<(Seq<char>, crate::nodes::tool_registry::ToolDefinition)>,
    skill: Option<Seq<KindId>>,
    node: Option<Seq<KindId>>,
    x: Seq<char>,
) -> bool {
    layers_allow(skill, node, x) && tool_lookup(reg, x) is Some
}

/// `r` is the list of tools the model may see, or the failure, for the
/// catalog `reg`, the selected `skill` and the node's allowlist.
pub open spec fn visible_tools_result<'a>(
    reg: Seq<(Seq<char>, crate::nodes::tool_registry::ToolDefinition)>,
    skill: SkillSelection,
    node_allowed: Option<Vec<KindId>>,
    r: Result<Vec<ToolBinding<'a>>, NodeError>,
) -> bool {
    &&& (skill_tools(skill) is None && node_allowed is None ==> (r matches Ok(v) && v@.len() == 0))
    &&& ((skill_tools(skill) is Some || node_allowed is Some) && !(exists|x: Seq<char>|
        layers_allow(skill_tools(skill), node_tools(node_allowed), x)) ==> (r matches Err(
        NodeError::Domain { code, message },
    ) && code@ == "no_tools_visible"@ && message@ == "tools intersection is empty (host \u{2229} skill \u{2229} node)"@))
    &&& ((skill_tools(skill) is Some || node_allowed is Some) && (exists|x: Seq<char>|
        layers_allow(skill_tools(skill), node_tools(node_allowed), x)) && !(exists|x: Seq<char>|
        tool_visible(reg, skill_tools(skill), node_tools(node_allowed), x)) ==> (r matches Err(
        NodeError::Domain { code, message },
    ) && code@ == "no_tools_visible"@ && message@
        == "tools intersection produced no entries the host registry could resolve"@))
    &&& ((skill_tools(skill) is Some || node_allowed is Some) && (exists|x: Seq<char>|
        tool_visible(reg, skill_tools(skill), node_tools(node_allowed), x)) ==> (r matches Ok(v) && {
        &&& ids_ascend(binding_ids(v@))
        &&& forall|x: Seq<char>|
            holds_id(binding_ids(v@), x) <==> tool_visible(
                reg,
                skill_tools(skill),
                node_tools(node_allowed),
                x,
            )
        &&& forall|i: int|
            0 <= i < v@.len() ==> (tool_lookup(reg, (#[trigger] v@[i]).id@) matches Some(d) && v@[i].name@
                == d.name@ && v@[i].description@ == d.description@ && *v@[i].input_schema == d.input_schema)
    }))
}

/// The tools the model may see: the catalog's entries among the ids every
/// present allowlist layer (the skill's, the node's) admits, ascending by
/// id. With no layer present the list is empty and any tool call is resolved
/// against the catalog when it comes. An empty intersection of the layers,
/// or one the catalog resolves none of, is a `no_tools_visible` domain error.
pub fn compute_visible_tools<'a>(
    registry: &'a StaticToolRegistry,
    skill: &SkillSelection,
    node_allowed: &Option<Vec<KindId>>,
) -> (r: Result<Vec<ToolBinding<'a>>, NodeError>)
    ensures
        visible_tools_result(registry@, *skill, *node_allowed, r),
{
    let ghost sk = skill_tools(*skill);
    let ghost nd = node_tools(*node_allowed);
    let skill_set: Option<Vec<KindId>> = match skill {
        SkillSelection::Selected { allowed_tools, .. } => Some(sorted_ids(allowed_tools)),
        _ => None,
    };
    let set: Vec<KindId> = match (&skill_set, node_allowed) {
        (Some(a), Some(b)) => intersect_ids(a, b),
        (Some(a), None) => sorted_ids(a),
        (None, Some(b)) => sorted_ids(b),
        (None, None) => {
            return Ok(Vec::new());
        },
    };
    assert(forall|x: Seq<char>| holds_id(set@, x) <==> layers_allow(sk, nd, x));
    if set.len() == 0 {
        proof {
            assert forall|x: Seq<char>| !layers_allow(sk, nd, x) by {
                if layers_allow(sk, nd, x) {
                    assert(holds_id(set@, x));
                }
            }
        }
        return Err(
            NodeError::Domain {
                code: "no_tools_visible",
                message: String::from_str("tools intersection is empty (host \u{2229} skill \u{2229} node)"),
            },
        );
    }
    let mut out: Vec<ToolBinding<'a>> = Vec::new();
    let mut i: usize = 0;
    while i < set.len()
        invariant
            0 <= i <= set@.len(),
            ids_ascend(set@),
            ids_ascend(binding_ids(out@)),
            forall|j: int| 0 <= j < out@.len() ==> holds_id(set@.take(i as int), (#[trigger] out@[j]).id@),
            forall|x: Seq<char>|
                holds_id(binding_ids(out@), x) <==> (holds_id(set@.take(i as int), x) && tool_lookup(
                    registry@,
                    x,
                ) is Some),
            forall|j: int|
                0 <= j < out@.len() ==> (tool_lookup(registry@, (#[trigger] out@[j]).id@) matches Some(d)
                    && out@[j].name@ == d.name@ && out@[j].description@ == d.description@
                    && *out@[j].input_schema == d.input_schema),
        decreases set@.len() - i,
    {
        let ghost before = out@;
        match registry.lookup(&set[i]) {
            Some(d) => {
                out.push(
                    ToolBinding {
                        id: set[i].clone(),
                        name: d.name.clone(),
                        description: d.description.clone(),
                        input_schema: &d.input_schema,
                    },
                );
                proof {
                    assert(binding_ids(out@) =~= binding_ids(before).push(out@[out@.len() - 1].id));
                    assert forall|p: int, q: int|
                        0 <= p < q < binding_ids(out@).len() implies lex_lt(
                        #[trigger] binding_ids(out@)[p]@,
                        #[trigger] binding_ids(out@)[q]@,
                    ) by {
                        if q == out@.len() - 1 {
                            assert(out@[p] == before[p]);
                            let t = choose|t: int|
                                0 <= t < i && (#[trigger] set@.take(i as int)[t])@ == before[p].id@;
                            assert(set@.take(i as int)[t] == set@[t]);
                        } else {
                            assert(out@[p] == before[p] && out@[q] == before[q]);
                        }
                    }
                }
            },
            None => {},
        }
        proof {
            assert forall|j: int| 0 <= j < out@.len() implies holds_id(set@.take(i + 1), (#[trigger] out@[j]).id@) by {
                if j < before.len() {
                    assert(out@[j] == before[j]);
                    let t = choose|t: int| 0 <= t < i && (#[trigger] set@.take(i as int)[t])@ == before[j].id@;
                    assert(set@.take(i + 1)[t] == set@.take(i as int)[t]);
                } else {
                    assert(set@.take(i + 1)[i as int] == set@[i as int]);
                }
            }
            assert forall|x: Seq<char>| holds_id(binding_ids(out@), x) <==> (holds_id(set@.take(i + 1), x)
                && tool_lookup(registry@, x) is Some) by {
                if holds_id(set@.take(i as int), x) {
                    let j = choose|j: int| 0 <= j < i && (#[trigger] set@.take(i as int)[j])@ == x;
                    assert(set@.take(i + 1)[j] == set@.take(i as int)[j]);
                }
                if holds_id(set@.take(i + 1), x) {
                    let j = choose|j: int| 0 <= j < i + 1 && (#[trigger] set@.take(i + 1)[j])@ == x;
                    if j < i {
                        assert(set@.take(i + 1)[j] == set@.take(i as int)[j]);
                    } else {
                        assert(x == set@[i as int]@);
                    }
                }
                if holds_id(binding_ids(out@), x) {
                    let j = choose|j: int| 0 <= j < binding_ids(out@).len() && (#[trigger] binding_ids(out@)[j])@ == x;
                    if j < before.len() {
                        assert(out@[j] == before[j]);
                        assert(binding_ids(before)[j] == before[j].id);
                    }
                }
                if holds_id(binding_ids(before), x) {
                    let j = choose|j: int| 0 <= j < binding_ids(before).len() && (#[trigger] binding_ids(before)[j])@ == x;
                    assert(out@[j] == before[j]);
                    assert(binding_ids(out@)[j] == out@[j].id);
                }
                if x == set@[i as int]@ && tool_lookup(registry@, x) is Some {
                    assert(binding_ids(out@)[out@.len() - 1]@ == x);
                }
                if holds_id(set@.take(i as int), x) && x == set@[i as int]@ {
                    let j = choose|j: int| 0 <= j < i && (#[trigger] set@.take(i as int)[j])@ == x;
                    assert(set@.take(i as int)[j] == set@[j]);
                    crate::text::lemma_lex_irreflexive(x);
                }
            }
            assert forall|j: int| 0 <= j < out@.len() implies (tool_lookup(registry@, (#[trigger] out@[j]).id@) matches Some(d)
                && out@[j].name@ == d.name@ && out@[j].description@ == d.description@
                && *out@[j].input_schema == d.input_schema) by {
                if j < before.len() {
                    assert(out@[j] == before[j]);
                }
            }
        }
        i = i + 1;
    }
    assert(set@.take(set@.len() as int) =~= set@);
    if out.len() == 0 {
        proof {
            assert(set@[0]@ == set@[0]@);
            assert(holds_id(set@, set@[0]@));
            assert(layers_allow(sk, nd, set@[0]@));
            assert forall|x: Seq<char>| !tool_visible(registry@, sk, nd, x) by {
                if tool_visible(registry@, sk, nd, x) {
                    assert(holds_id(set@, x));
                    assert(holds_id(binding_ids(out@), x));
                    let j = choose|j: int| 0 <= j < binding_ids(out@).len() && (#[trigger] binding_ids(out@)[j])@ == x;
                }
            }
        }
        return Err(
            NodeError::Domain {
                code: "no_tools_visible",
                message: String::from_str(
                    "tools intersection produced no entries the host registry could resolve",
                ),
            },
        );
    }
    proof {
        let x0 = out@[0].id@;
        assert(holds_id(binding_ids(out@), x0)) by {
            assert(binding_ids(out@)[0] == out@[0].id);
        }
        assert(tool_visible(registry@, sk, nd, x0));
    }
    Ok(out)
}

/// One message of the conversation history.
#[derive(Debug)]
pub struct HistoryMessage {
    /// `user` or `assistant`.
    pub role: String,
    /// Message text.
    pub content: String,
}

/// A history message as two texts.
pub open spec fn msg_view(m: HistoryMessage) -> (Seq<char>, Seq<char>) {
    (m.role@, m.content@)
}

/// A history as texts.
pub open spec fn history_view(h: Seq<HistoryMessage>) -> Seq<(Seq<char>, Seq<char>)> {
    h.map_values(|m: HistoryMessage| msg_view(m))
}

/// A tool call the model emitted.
#[derive(Debug)]
pub struct ToolUse {
    /// Call id the model assigned.
    pub id: String,
    /// Tool name the model used.
    pub name: String,
    /// Call input.
    pub input: JsonValue,
}

/// What one runner call came back with.
pub enum RunnerCall {
    /// The run was cancelled while the runner worked.
    Cancelled,
    /// The runner failed; carries its rendered error.
    Failed(String),
    /// The runner replied.
    Replied {
        /// Assistant text (possibly empty).
        text: String,
        /// Tool calls the model asked for.
        tool_uses: Vec<ToolUse>,
        /// An error the upstream model reported, rendered.
        error: Option<String>,
    },
}

/// How an invocation's loop ended.
pub struct LoopOutcome {
    /// Final assistant text, or why the loop failed.
    pub result: Result<String, NodeError>,
    /// Turns taken.
    pub turn_count: u32,
    /// Tool calls dispatched.
    pub tool_call_count: u32,
    /// The conversation to persist, when the transport keeps one.
    pub history_snapshot: Option<Vec<HistoryMessage>>,
}

/// The turn loop between runner calls: the turns taken, the tool calls
/// dispatched, and the conversation so far.
pub struct AgentLoop {
    turn: u32,
    tool_call_count: u32,
    history: Vec<HistoryMessage>,
}

/// What a loop does next after a turn began.
pub enum TurnStart {
    /// Call the runner with [`AgentLoop::history`].
    CallRunner(AgentLoop),
    /// The loop is over.
    Done(LoopOutcome),
}

/// What a loop does next after the runner's reply.
pub enum TurnEnd {
    /// Dispatch these tool calls, in order, recording each reply with
    /// [`AgentLoop::record_tool_reply`]; then begin the next turn.
    Dispatch(AgentLoop, Vec<ToolUse>),
    /// The loop is over.
    Done(LoopOutcome),
}

/// `"user"`.
pub open spec fn user_role() -> Seq<char> {
    seq!['u', 's', 'e', 'r']
}

/// `"assistant"`.
pub open spec fn assistant_role() -> Seq<char> {
    seq!['a', 's', 's', 'i', 's', 't', 'a', 'n', 't']
}

fn user_message(content: String) -> (m: HistoryMessage)
    ensures
        msg_view(m) == (user_role(), content@),
{
    proof {
        reveal_strlit("user");
    }
    let m = HistoryMessage { role: String::from_str("user"), content };
    assert(m.role@ =~= user_role());
    m
}

fn assistant_message(content: String) -> (m: HistoryMessage)
    ensures
        msg_view(m) == (assistant_role(), content@),
{
    proof {
        reveal_strlit("assistant");
    }
    let m = HistoryMessage { role: String::from_str("assistant"), content };
    assert(m.role@ =~= assistant_role());
    m
}

impl AgentLoop {
    #[verifier::type_invariant]
    closed spec fn well_formed(self) -> bool {
        self.turn <= MAX_TURNS
    }

    /// Turns begun so far.
    pub closed spec fn turns(self) -> u32 {
        self.turn
    }

    /// Tool calls dispatched so far.
    pub closed spec fn tool_calls(self) -> u32 {
        self.tool_call_count
    }

    /// The conversation so far.
    pub closed spec fn messages(self) -> Seq<(Seq<char>, Seq<char>)> {
        history_view(self.history@)
    }

    /// Start a loop: the prior conversation followed by the user message.
    pub fn start(prior: Vec<HistoryMessage>, user_msg: String) -> (l: AgentLoop)
        ensures
            l.turns() == 0,
            l.tool_calls() == 0,
            l.messages() == history_view(prior@).push((user_role(), user_msg@)),
    {
        let ghost p = prior@;
        let mut history = prior;
        history.push(user_message(user_msg));
        let l = AgentLoop { turn: 0, tool_call_count: 0, history };
        assert(l.messages() =~= history_view(p).push((user_role(), user_msg@)));
        l
    }

    /// The conversation the runner is called with.
    pub fn history(&self) -> (h: &Vec<HistoryMessage>)
        ensures
            history_view(h@) == self.messages(),
    {
        &self.history
    }

    fn into_outcome(self, result: Result<String, NodeError>, turn_count: u32) -> (o: LoopOutcome)
        ensures
            o.result == result,
            o.turn_count == turn_count,
            o.tool_call_count == self.tool_calls(),
            o.history_snapshot matches Some(h) && history_view(h@) == self.messages(),
    {
        LoopOutcome {
            result,
            turn_count,
            tool_call_count: self.tool_call_count,
            history_snapshot: Some(self.history),
        }
    }

    /// Begin a turn: a cancelled run ends the loop; past [`MAX_TURNS`] turns
    /// the loop ends with `turn_budget_exhausted`; otherwise the turn count
    /// grows by one and the runner is to be called.
    pub fn begin_turn(self, cancelled: bool) -> (r: TurnStart)
        ensures
            cancelled ==> (r matches TurnStart::Done(o) && o.result matches Err(NodeError::Cancelled)
                && o.turn_count == self.turns()),
            !cancelled && self.turns() == MAX_TURNS ==> (r matches TurnStart::Done(o) && o.result matches Err(
                NodeError::Domain { code, message },
            ) && code@ == "turn_budget_exhausted"@ && message@ == "ai-agent loop exceeded MAX_TURNS=64"@
                && o.turn_count == MAX_TURNS),
            !cancelled && self.turns() < MAX_TURNS ==> (r matches TurnStart::CallRunner(l) && l.turns()
                == self.turns() + 1 && l.tool_calls() == self.tool_calls() && l.messages() == self.messages()),
            r matches TurnStart::Done(o) ==> (o.history_snapshot matches Some(h) && history_view(h@)
                == self.messages() && o.tool_call_count == self.tool_calls()),
            r matches TurnStart::Done(o) ==> o.turn_count <= MAX_TURNS,
            r matches TurnStart::CallRunner(l) ==> 1 <= l.turns() <= MAX_TURNS,
    {
        proof {
            use_type_invariant(&self);
        }
        if cancelled {
            let t = self.turn;
            return TurnStart::Done(self.into_outcome(Err(NodeError::Cancelled), t));
        }
        if self.turn == MAX_TURNS {
            return TurnStart::Done(
                self.into_outcome(
                    Err(
                        NodeError::Domain {
                            code: "turn_budget_exhausted",
                            message: String::from_str("ai-agent loop exceeded MAX_TURNS=64"),
                        },
                    ),
                    MAX_TURNS,
                ),
            );
        }
        TurnStart::CallRunner(
            AgentLoop {
                turn: self.turn + 1,
                tool_call_count: self.tool_call_count,
                history: self.history,
            },
        )
    }

    /// Conclude a turn with the runner's reply. A cancel or a runner failure
    /// ends the loop; so does an error the model reported. Otherwise the
    /// assistant text (when non-empty) joins the conversation, and the loop
    /// ends with that text unless the model asked for tools.
    pub fn finish_turn(self, call: RunnerCall) -> (r: TurnEnd)
        ensures
            call is Cancelled ==> (r matches TurnEnd::Done(o) && o.result matches Err(NodeError::Cancelled)),
            call matches RunnerCall::Failed(e) ==> (r matches TurnEnd::Done(o) && o.result matches Err(
                NodeError::Backend(m),
            ) && m@ == "ai_runner.run: "@ + e@),
            call matches RunnerCall::Replied { error: Some(e), .. } ==> (r matches TurnEnd::Done(o)
                && o.result matches Err(NodeError::Backend(m)) && m@ == "ai_runner upstream error: "@ + e@),
            r matches TurnEnd::Done(o) ==> (o.turn_count == self.turns() && o.tool_call_count
                == self.tool_calls() && o.history_snapshot is Some && o.turn_count <= MAX_TURNS),
            (call is Cancelled || call is Failed || call matches RunnerCall::Replied { error: Some(_), .. })
                ==> (r matches TurnEnd::Done(o) && o.history_snapshot matches Some(h) && history_view(h@)
                == self.messages()),
            call matches RunnerCall::Replied { text, tool_uses, error: None } ==> ({
                let msgs = if text@.len() > 0 {
                    self.messages().push((assistant_role(), text@))
                } else {
                    self.messages()
                };
                &&& tool_uses@.len() == 0 ==> (r matches TurnEnd::Done(
                    LoopOutcome { result: Ok(t), history_snapshot: Some(h), .. },
                ) && t@ == text@ && history_view(h@) == msgs)
                &&& tool_uses@.len() > 0 ==> (r matches TurnEnd::Dispatch(l, tus) && tus@ == tool_uses@
                    && l.turns() == self.turns() && l.tool_calls() == self.tool_calls() && l.messages()
                    == msgs)
            }),
    {
        proof {
            use_type_invariant(&self);
        }
        let t = self.turn;
        match call {
            RunnerCall::Cancelled => TurnEnd::Done(self.into_outcome(Err(NodeError::Cancelled), t)),
            RunnerCall::Failed(e) => {
                let m = String::from_str("ai_runner.run: ");
                let m = m.concat(e.as_str());
                TurnEnd::Done(self.into_outcome(Err(NodeError::Backend(m)), t))
            },
            RunnerCall::Replied { text, tool_uses, error } => {
                match error {
                    Some(e) => {
                        let m = String::from_str("ai_runner upstream error: ");
                        let m = m.concat(e.as_str());
                        return TurnEnd::Done(self.into_outcome(Err(NodeError::Backend(m)), t));
                    },
                    None => {},
                }
                let ghost before = self.messages();
                let mut history = self.history;
                let n = text.as_str().unicode_len();
                let final_text = if n > 0 {
                    let copy = text.clone();
                    history.push(assistant_message(copy));
                    assert(history_view(history@) =~= before.push((assistant_role(), text@)));
                    text
                } else {
                    text
                };
                let l = AgentLoop { turn: t, tool_call_count: self.tool_call_count, history };
                if tool_uses.len() == 0 {
                    TurnEnd::Done(l.into_outcome(Ok(final_text), t))
                } else {
                    TurnEnd::Dispatch(l, tool_uses)
                }
            },
        }
    }

    /// Record the reply to one dispatched tool call: the call is counted
    /// (saturating) and the reply joins the conversation as a user message.
    pub fn record_tool_reply(self, reply: String) -> (l: AgentLoop)
        ensures
            l.turns() == self.turns(),
            l.tool_calls() == (if self.tool_calls() == u32::MAX { u32::MAX } else { (self.tool_calls() + 1) as u32 }),
            l.messages() == self.messages().push((user_role(), reply@)),
    {
        proof {
            use_type_invariant(&self);
        }
        let ghost before = self.messages();
        let mut history = self.history;
        history.push(user_message(reply));
        let l = AgentLoop {
            turn: self.turn,
            tool_call_count: self.tool_call_count.saturating_add(1),
            history,
        };
        assert(l.messages() =~= before.push((user_role(), reply@)));
        l
    }
}

/// The CLI transport before its single runner call: a cancelled run ends
/// at once, with no turn taken.
pub fn cli_start(cancelled: bool) -> (r: Option<LoopOutcome>)
    ensures
        cancelled ==> (r matches Some(o) && o.result matches Err(NodeError::Cancelled) && o.turn_count == 0
            && o.tool_call_count == 0 && o.history_snapshot is None),
        !cancelled ==> r is None,
{
    if cancelled {
        Some(LoopOutcome { result: Err(NodeError::Cancelled), turn_count: 0, tool_call_count: 0, history_snapshot: None })
    } else {
        None
    }
}

/// The CLI transport after its single runner call: one turn, no tool calls
/// counted (the CLI runs its own tool loop), no conversation to persist.
pub fn cli_finish(call: RunnerCall) -> (o: LoopOutcome)
    ensures
        o.turn_count == 1,
        o.tool_call_count == 0,
        o.history_snapshot is None,
        call is Cancelled ==> o.result matches Err(NodeError::Cancelled),
        call matches RunnerCall::Failed(e) ==> (o.result matches Err(NodeError::Backend(m)) && m@
            == "ai_runner.run: "@ + e@),
        call matches RunnerCall::Replied { error: Some(e), .. } ==> (o.result matches Err(NodeError::Backend(m))
            && m@ == "ai_runner upstream error: "@ + e@),
        call matches RunnerCall::Replied { text, error: None, .. } ==> (o.result matches Ok(t) && t@ == text@),
{
    let result = match call {
        RunnerCall::Cancelled => Err(NodeError::Cancelled),
        RunnerCall::Failed(e) => {
            let m = String::from_str("ai_runner.run: ");
            Err(NodeError::Backend(m.concat(e.as_str())))
        },
        RunnerCall::Replied { text, tool_uses, error } => match error {
            Some(e) => {
                let m = String::from_str("ai_runner upstream error: ");
                Err(NodeError::Backend(m.concat(e.as_str())))
            },
            None => Ok(text),
        },
    };
    LoopOutcome { result, turn_count: 1, tool_call_count: 0, history_snapshot: None }
}

/// A session store is read before the loop only for a reusable session on
/// the REST transport.
pub fn loads_history(mode: SessionMode, kind: AgentInputKind) -> (b: bool)
    ensures
        b == (mode != SessionMode::FreshPerInvocation && kind == AgentInputKind::Rest),
{
    match (mode, kind) {
        (SessionMode::FreshPerInvocation, _) => false,
        (_, AgentInputKind::Rest) => true,
        (_, AgentInputKind::Cli) => false,
    }
}

/// A session store is written after the loop for a reusable session that
/// left a conversation to keep.
pub fn persists_history(mode: SessionMode, outcome: &LoopOutcome) -> (b: bool)
    ensures
        b == (mode != SessionMode::FreshPerInvocation && outcome.history_snapshot is Some),
{
    match mode {
        SessionMode::FreshPerInvocation => false,
        _ => outcome.history_snapshot.is_some(),
    }
}

/// `r` is the node output of an invocation whose loop ended with `outcome`.
pub open spec fn agent_output_result(outcome: LoopOutcome, r: Result<SlotMap, NodeError>) -> bool {
    &&& (outcome.result is Err ==> (r matches Err(e) && outcome.result == Err::<String, NodeError>(e)))
    &&& (outcome.result matches Ok(t) ==> (r matches Ok(out) && out@.len() == 2 && lookup(out@, OUTPUT_SLOT@)
        == Some(SlotValue::String(t))))
    &&& (outcome.result is Ok ==> (r matches Ok(out) && lookup(out@, TURN_COUNT_SLOT@) == Some(
        SlotValue::Int(outcome.turn_count as i64),
    )))
}

/// The node's output once the loop ended: the final text and the turns
/// taken, or the loop's error.
pub fn agent_output(outcome: LoopOutcome) -> (r: Result<SlotMap, NodeError>)
    ensures
        agent_output_result(outcome, r),
{
    proof {
        reveal_strlit("output");
        reveal_strlit("turn_count");
        assert(OUTPUT_SLOT@[0] != TURN_COUNT_SLOT@[0]);
    }
    let turns = outcome.turn_count;
    match outcome.result {
        Err(e) => Err(e),
        Ok(text) => {
            let mut out = SlotMap::new();
            out.insert(String::from_str(OUTPUT_SLOT), SlotValue::String(text));
            out.insert(String::from_str(TURN_COUNT_SLOT), SlotValue::Int(turns as i64));
            Ok(out)
        },
    }
}

/// The id a tool call resolves to: the first visible tool advertising the
/// name, else the name itself when it is a valid id.
pub open spec fn resolves_to<'a>(visible: Seq<ToolBinding<'a>>, name: Seq<char>) -> Option<Seq<char>>
    decreases visible.len(),
{
    if visible.len() == 0 {
        if is_reverse_dns(name) {
            Some(name)
        } else {
            None
        }
    } else if visible[0].name@ == name {
        Some(visible[0].id@)
    } else {
        resolves_to(visible.drop_first(), name)
    }
}

/// Resolve the tool a model's call names.
pub fn resolve_tool<'a>(visible: &Vec<ToolBinding<'a>>, name: &str) -> (r: Option<KindId>)
    ensures
        match resolves_to(visible@, name@) {
            Some(k) => r matches Some(id) && id@ == k,
            None => r is None,
        },
{
    let mut i: usize = 0;
    assert(visible@.skip(0) =~= visible@);
    while i < visible.len()
        invariant
            0 <= i <= visible@.len(),
            resolves_to(visible@, name@) == resolves_to(visible@.skip(i as int), name@),
        decreases visible@.len() - i,
    {
        assert(visible@.skip(i as int).drop_first() =~= visible@.skip(i + 1));
        assert(visible@.skip(i as int)[0] == visible@[i as int]);
        if text_eq(visible[i].name.as_str(), name) {
            return Some(visible[i].id.clone());
        }
        i = i + 1;
    }
    match KindId::new(name.to_owned()) {
        Ok(k) => Some(k),
        Err(_) => None,
    }
}

/// `tool `<name>` (id=<id>)`, the head of every tool reply.
pub open spec fn tool_head(name: Seq<char>, id: Seq<char>) -> Seq<char> {
    "tool `"@ + name + "` (id="@ + id + ")"@
}

fn push_tool_head(tu: &ToolUse) -> (s: String)
    ensures
        s@ == tool_head(tu.name@, tu.id@),
{
    let s = String::from_str("tool `");
    let s = s.concat(tu.name.as_str());
    let s = s.concat("` (id=");
    let s = s.concat(tu.id.as_str());
    s.concat(")")
}

/// What to do with one tool call.
pub enum ToolDispatch {
    /// Answer the model with this text without calling anything.
    Reply(String),
    /// Call the tool registered under this id.
    Invoke(KindId),
}

/// Route one tool call: refuse a name that resolves to no id or to an id the
/// catalog lacks, abort when the run is cancelled, else call the tool.
pub fn dispatch_tool_use<'a>(
    registry: &StaticToolRegistry,
    visible: &Vec<ToolBinding<'a>>,
    tu: &ToolUse,
    cancelled: bool,
) -> (r: ToolDispatch)
    ensures
        resolves_to(visible@, tu.name@) is None ==> (r matches ToolDispatch::Reply(m) && m@ == tool_head(
            tu.name@,
            tu.id@,
        ) + " refused: not a valid reverse-DNS id and no visible tool advertises it"@),
        resolves_to(visible@, tu.name@) matches Some(k) ==> ({
            &&& tool_lookup(registry@, k) is None ==> (r matches ToolDispatch::Reply(m) && m@ == tool_head(
                tu.name@,
                tu.id@,
            ) + " refused: not registered in the host ToolRegistry"@)
            &&& tool_lookup(registry@, k) is Some && cancelled ==> (r matches ToolDispatch::Reply(m) && m@
                == tool_head(tu.name@, tu.id@) + " aborted: cancelled"@)
            &&& tool_lookup(registry@, k) is Some && !cancelled ==> (r matches ToolDispatch::Invoke(id) && id@
                == k)
        }),
{
    let head = push_tool_head(tu);
    let id = match resolve_tool(visible, tu.name.as_str()) {
        Some(id) => id,
        None => {
            return ToolDispatch::Reply(
                head.concat(" refused: not a valid reverse-DNS id and no visible tool advertises it"),
            );
        },
    };
    match registry.lookup(&id) {
        None => ToolDispatch::Reply(head.concat(" refused: not registered in the host ToolRegistry")),
        Some(_) => if cancelled {
            ToolDispatch::Reply(head.concat(" aborted: cancelled"))
        } else {
            ToolDispatch::Invoke(id)
        },
    }
}

/// The reply a completed tool call earns: what it returned (its JSON text)
/// or how it failed (its error text).
pub fn tool_reply(tu: &ToolUse, outcome: Result<String, String>) -> (m: String)
    ensures
        outcome matches Ok(v) ==> m@ == tool_head(tu.name@, tu.id@) + " returned: "@ + v@,
        outcome matches Err(e) ==> m@ == tool_head(tu.name@, tu.id@) + " errored: "@ + e@,
{
    let head = push_tool_head(tu);
    match outcome {
        Ok(v) => head.concat(" returned: ").concat(v.as_str()),
        Err(e) => head.concat(" errored: ").concat(e.as_str()),
    }
}

/// The principal the node acts as until the invocation context carries
/// one: the system administrator.
pub fn system_admin_principal() -> (p: Principal)
    ensures
        p.subject@ == SYSTEM_ADMIN_SUBJECT@,
        p.role == Role::Admin,
        p.scopes@.len() == 0,
        p.extra is Null,
{
    Principal {
        subject: String::from_str(SYSTEM_ADMIN_SUBJECT),
        role: Role::Admin,
        scopes: Vec::new(),
        extra: JsonValue::Null,
    }
}

/// The hex of the first (up to) eight UTF-8 bytes of the principal's
/// subject: a short tag that tells principals apart without naming them.
pub fn principal_id_hash(principal: &Principal) -> (tag: String)
    ensures
        tag@ == bytes_hex(
            vstd::utf8::encode_utf8(principal.subject@).take(
                if vstd::utf8::encode_utf8(principal.subject@).len() < 8 {
                    vstd::utf8::encode_utf8(principal.subject@).len() as int
                } else {
                    8
                },
            ),
        ),
{
    let bytes: &[u8] = principal.subject.as_str().as_bytes();
    let n: usize = if bytes.len() < 8 {
        bytes.len()
    } else {
        8
    };
    let mut tag = String::new();
    let mut i: usize = 0;
    while i < n
        invariant
            n <= bytes@.len(),
            0 <= i <= n,
            tag@ == bytes_hex(bytes@.take(i as int)),
        decreases n - i,
    {
        push_byte_hex(&mut tag, bytes[i]);
        assert(bytes@.take(i + 1).drop_last() =~= bytes@.take(i as int));
        i = i + 1;
    }
    tag
}

/// Why a mounted skill resource could not be read back unchanged.
#[derive(Debug)]
pub enum ResourceMountError {
    /// The bytes on disk hash differently from the selection-time hash.
    HashMismatch {
        /// Resource URI.
        uri: String,
        /// Hash recorded at selection.
        expected: String,
        /// Hash found at mount.
        actual: String,
    },
    /// The URI scheme is not `file://`.
    UnsupportedScheme {
        /// Resource URI.
        uri: String,
    },
    /// Reading the file failed.
    Io {
        /// Path that was read.
        path: String,
        /// The I/O error, rendered.
        source: String,
    },
    /// Any other failure, rendered.
    Other(String),
}

/// `e` is the node error a resource-mount failure `err` of skill
/// `skill_id` surfaces as.
pub open spec fn is_mount_error(skill_id: Seq<char>, err: ResourceMountError, e: NodeError) -> bool {
    &&& (err matches ResourceMountError::HashMismatch { uri, expected, actual } ==> (e matches NodeError::Domain {
        code,
        message,
    } && code@ == "skill_resource_hash_mismatch"@ && message@ == "skill `"@ + skill_id + "` resource `"@
        + uri@ + "` hash drifted between selection and mount: expected "@ + expected@ + ", got "@
        + actual@))
    &&& (err matches ResourceMountError::UnsupportedScheme { uri } ==> (e matches NodeError::Domain {
        code,
        message,
    } && code@ == "skill_resource_unsupported_scheme"@ && message@ == "skill `"@ + skill_id
        + "` resource `"@ + uri@ + "` uses an unsupported URI scheme (v1 supports file:// only)"@))
    &&& (err matches ResourceMountError::Io { path, source } ==> (e matches NodeError::Domain { code, message }
        && code@ == "skill_resource_io"@ && message@ == "skill `"@ + skill_id + "` resource `"@ + path@
        + "` failed to read at mount: "@ + source@))
    &&& (err matches ResourceMountError::Other(t) ==> (e matches NodeError::Backend(m) && m@ == "skill `"@
        + skill_id + "` resource mount: "@ + t@))
}

/// The node error a resource-mount failure of skill `skill_id` surfaces as.
pub fn map_resource_mount_error(skill_id: &str, err: ResourceMountError) -> (e: NodeError)
    ensures
        is_mount_error(skill_id@, err, e),
{
    let head = String::from_str("skill `").concat(skill_id);
    match err {
        ResourceMountError::HashMismatch { uri, expected, actual } => {
            let m = head.concat("` resource `").concat(uri.as_str());
            let m = m.concat("` hash drifted between selection and mount: expected ");
            let m = m.concat(expected.as_str()).concat(", got ").concat(actual.as_str());
            NodeError::Domain { code: "skill_resource_hash_mismatch", message: m }
        },
        ResourceMountError::UnsupportedScheme { uri } => {
            let m = head.concat("` resource `").concat(uri.as_str());
            let m = m.concat("` uses an unsupported URI scheme (v1 supports file:// only)");
            NodeError::Domain { code: "skill_resource_unsupported_scheme", message: m }
        },
        ResourceMountError::Io { path, source } => {
            let m = head.concat("` resource `").concat(path.as_str());
            let m = m.concat("` failed to read at mount: ").concat(source.as_str());
            NodeError::Domain { code: "skill_resource_io", message: m }
        },
        ResourceMountError::Other(t) => {
            NodeError::Backend(head.concat("` resource mount: ").concat(t.as_str()))
        },
    }
}

/// Records whether an invocation ever saw its run's cancellation.
pub struct CancelAdapter {
    observed: bool,
}

impl CancelAdapter {
    /// A fresh adapter: nothing observed yet.
    pub fn new() -> (c: CancelAdapter)
        ensures
            !c.seen(),
    {
        CancelAdapter { observed: false }
    }

    /// Whether the cancellation was observed.
    pub closed spec fn seen(&self) -> bool {
        self.observed
    }

    /// Poll the run's cancellation state (`inner`), remembering a cancel.
    pub fn is_cancelled(&mut self, inner: bool) -> (c: bool)
        ensures
            c == inner,
            final(self).seen() == (old(self).seen() || inner),
    {
        if inner {
            self.observed = true;
        }
        inner
    }

    /// Note that the run's cancel fired while the body waited on it.
    pub fn note_fired(&mut self)
        ensures
            final(self).seen(),
    {
        self.observed = true;
    }

    /// Whether the cancellation was observed.
    pub fn observed(&self) -> (b: bool)
        ensures
            b == self.seen(),
    {
        self.observed
    }
}

/// `ai-agent` node-kind body: its kind id and the defaults an invocation
/// falls back on when its input names no provider or transport. The host
/// holds the tool catalog, the runners and the session store.
pub struct AiAgent {
    kind: KindId,
    default_provider_id: Option<KindId>,
    default_input_kind: Option<AgentInputKind>,
}

impl AiAgent {
    /// Construct an `ai-agent` body with no defaults.
    pub fn new() -> (a: AiAgent)
        ensures
            a.kind_id()@ == KIND_ID@,
            a.provider_default() is None,
            a.input_kind_default() is None,
    {
        proof {
            reveal_strlit("starter.flow.ai-agent");
            assert(KIND_ID@[7] == '.');
        }
        AiAgent { kind: KindId::from_valid(KIND_ID), default_provider_id: None, default_input_kind: None }
    }

    /// The kind id this body implements.
    pub closed spec fn kind_id(&self) -> KindId {
        self.kind
    }

    /// The default provider, as a view.
    pub closed spec fn provider_default(&self) -> Option<Seq<char>> {
        match self.default_provider_id {
            Some(k) => Some(k@),
            None => None,
        }
    }

    /// The default transport.
    pub closed spec fn input_kind_default(&self) -> Option<AgentInputKind> {
        self.default_input_kind
    }

    /// Set the provider used when the input names none.
    pub fn with_provider_id(self, provider_id: KindId) -> (a: AiAgent)
        ensures
            a.kind_id() == self.kind_id(),
            a.provider_default() == Some(provider_id@),
            a.input_kind_default() == self.input_kind_default(),
    {
        AiAgent { default_provider_id: Some(provider_id), ..self }
    }

    /// Set the transport used when the input names none.
    pub fn with_input_kind(self, kind: AgentInputKind) -> (a: AiAgent)
        ensures
            a.kind_id() == self.kind_id(),
            a.provider_default() == self.provider_default(),
            a.input_kind_default() == Some(kind),
    {
        AiAgent { default_input_kind: Some(kind), ..self }
    }

    /// Read the configuration an invocation's input selects, with this
    /// body's defaults.
    pub fn configure(&self, input: &SlotMap) -> (r: Result<AgentConfig, NodeError>)
        ensures
            config_error(input@, self.provider_default(), self.input_kind_default()) matches Some(e) ==> (r matches Err(
                NodeError::Domain { code, message },
            ) && code@ == e.0 && message@ == e.1),
            config_error(input@, self.provider_default(), self.input_kind_default()) is None ==> (r matches Ok(c)
                && configured(input@, self.provider_default(), self.input_kind_default(), c)),
            r matches Ok(c) ==> (lookup(input@, SESSION_MODE_SLOT@) is None ==> c.session_mode
                == SessionMode::FreshPerInvocation),
            r matches Ok(c) ==> (lookup(input@, SESSION_MODE_SLOT@) matches Some(SlotValue::String(t)) ==> ((t@
                == "fresh_per_invocation"@ ==> c.session_mode == SessionMode::FreshPerInvocation) && (t@
                == "reuse_across_run"@ ==> c.session_mode == SessionMode::ReuseAcrossRun) && (t@
                == "reuse_across_flow"@ ==> c.session_mode == SessionMode::ReuseAcrossFlow))),
    {
        AgentConfig::from_input(input, self.default_provider_id.as_ref(), self.default_input_kind)
    }
}


/// An `ai-agent` invocation prepared up to its session store and runner:
/// its configuration, the tools the model may see, the session it runs in
/// and the principal it runs as.
pub struct PreparedInvocation<'a> {
    /// The configuration the input selected.
    pub config: AgentConfig,
    /// The tools the model may see.
    pub visible: Vec<ToolBinding<'a>>,
    /// The session the conversation belongs to.
    pub session_id: SessionId,
    /// The principal the invocation runs as.
    pub principal: Principal,
}

/// An `ai-agent` invocation ready for its turn loop: what was prepared and
/// the conversation it continues.
pub struct ReadyInvocation<'a> {
    /// The configuration the input selected.
    pub config: AgentConfig,
    /// The tools the model may see.
    pub visible: Vec<ToolBinding<'a>>,
    /// The session the conversation belongs to.
    pub session_id: SessionId,
    /// The principal the invocation runs as.
    pub principal: Principal,
    /// The conversation kept for the session (empty when none is loaded).
    pub prior: Vec<HistoryMessage>,
}

/// Whether an invocation reads its session's conversation before the loop.
pub open spec fn reads_history(c: AgentConfig) -> bool {
    c.session_mode != SessionMode::FreshPerInvocation && c.input_kind == AgentInputKind::Rest
}

/// Whether an invocation keeps its conversation after the loop.
pub open spec fn keeps_history(mode: SessionMode, outcome: LoopOutcome) -> bool {
    mode != SessionMode::FreshPerInvocation && outcome.history_snapshot is Some
}

impl AiAgent {
    /// Begin an invocation: read the configuration, take the host's check of
    /// the selected skill's mounted resources (`mount`, the first failure;
    /// ignored when no skill is selected), compute the visible tools and
    /// derive the session id. Errors come in that order.
    pub fn prepare<'a>(
        &self,
        ctx: &NodeCtx,
        input: &SlotMap,
        tools: &'a StaticToolRegistry,
        skill: &SkillSelection,
        mount: Result<(), ResourceMountError>,
    ) -> (r: Result<PreparedInvocation<'a>, NodeError>)
        ensures
            config_error(input@, self.provider_default(), self.input_kind_default()) matches Some(e) ==> (r matches Err(
                NodeError::Domain { code, message },
            ) && code@ == e.0 && message@ == e.1),
            config_error(input@, self.provider_default(), self.input_kind_default()) is None ==> match (*skill, mount) {
                (SkillSelection::Selected { skill_id, .. }, Err(m)) => r matches Err(x) && is_mount_error(
                    skill_id@,
                    m,
                    x,
                ),
                _ => {
                    &&& r matches Ok(p) ==> {
                        &&& configured(input@, self.provider_default(), self.input_kind_default(), p.config)
                        &&& visible_tools_result(tools@, *skill, p.config.allowed_tools, Ok(p.visible))
                        &&& is_agent_session_id(
                            p.config.session_mode,
                            ctx.node@,
                            ctx.run.0,
                            UNKNOWN_FLOW_ID@,
                            SYSTEM_ADMIN_SUBJECT@,
                            p.session_id,
                        )
                        &&& p.principal.subject@ == SYSTEM_ADMIN_SUBJECT@
                        &&& p.principal.role == Role::Admin
                        &&& p.principal.scopes@.len() == 0
                        &&& p.principal.extra is Null
                    }
                    &&& r matches Err(x) ==> exists|c: AgentConfig|
                        configured(input@, self.provider_default(), self.input_kind_default(), c)
                            && visible_tools_result(tools@, *skill, c.allowed_tools, Err(x))
                },
            },
    {
        let config = match self.configure(input) {
            Ok(c) => c,
            Err(e) => {
                return Err(e);
            },
        };
        match mount {
            Err(m) => match skill {
                SkillSelection::Selected { skill_id, .. } => {
                    return Err(map_resource_mount_error(skill_id.as_str(), m));
                },
                _ => {},
            },
            Ok(()) => {},
        }
        let visible = match compute_visible_tools(tools, skill, &config.allowed_tools) {
            Ok(v) => v,
            Err(e) => {
                proof {
                    assert(configured(input@, self.provider_default(), self.input_kind_default(), config));
                }
                return Err(e);
            },
        };
        let principal = system_admin_principal();
        let flow = config.flow_id_fallback();
        let session_id = SessionId::for_ai_agent_node(config.session_mode, &ctx.node, ctx.run, flow, &principal);
        Ok(PreparedInvocation { config, visible, session_id, principal })
    }
}

impl<'a> PreparedInvocation<'a> {
    /// Continue once the host read the session store (`stored`: `Ok(None)`
    /// when nothing is kept or no store is attached; read only when
    /// [`reads_history`] holds, else ignored) and looked the configured
    /// provider up among its runners. A failed read comes first, then an
    /// unregistered provider.
    pub fn start(self, stored: Result<Option<Vec<HistoryMessage>>, String>, provider_registered: bool) -> (r: Result<
        ReadyInvocation<'a>,
        NodeError,
    >)
        ensures
            reads_history(self.config) ==> (stored matches Err(e) ==> (r matches Err(NodeError::Backend(m)) && m@
                == "session_store.get: "@ + e@)),
            !(reads_history(self.config) && stored is Err) && !provider_registered ==> (r matches Err(
                NodeError::Domain { code, message },
            ) && code@ == "provider_not_registered"@ && message@ == "no AiRunner registered for "@
                + self.config.provider_id@),
            !(reads_history(self.config) && stored is Err) && provider_registered ==> (r matches Ok(ready) && {
                &&& ready.config == self.config
                &&& ready.visible == self.visible
                &&& ready.session_id == self.session_id
                &&& ready.principal == self.principal
                &&& (reads_history(self.config) ==> (stored matches Ok(Some(h)) ==> ready.prior == h))
                &&& (!reads_history(self.config) || stored is Ok && stored->Ok_0 is None) ==> ready.prior@.len()
                    == 0
            }),
    {
        let reads = loads_history(self.config.session_mode, self.config.input_kind);
        let prior = if reads {
            match stored {
                Err(e) => {
                    let m = String::from_str("session_store.get: ");
                    return Err(NodeError::Backend(m.concat(e.as_str())));
                },
                Ok(Some(h)) => h,
                Ok(None) => Vec::new(),
            }
        } else {
            Vec::new()
        };
        if !provider_registered {
            let m = String::from_str("no AiRunner registered for ");
            let m = m.concat(self.config.provider_id.as_str());
            return Err(NodeError::Domain { code: "provider_not_registered", message: m });
        }
        Ok(
            ReadyInvocation {
                config: self.config,
                visible: self.visible,
                session_id: self.session_id,
                principal: self.principal,
                prior,
            },
        )
    }
}

/// End an invocation once its loop ended with `outcome` and the host wrote
/// the conversation back (`put`: read only when [`keeps_history`] holds;
/// `Ok(())` when no store is attached). A failed write wins over the loop's
/// own result; otherwise the result is [`agent_output`]'s.
pub fn conclude_invocation(mode: SessionMode, outcome: LoopOutcome, put: Result<(), String>) -> (r: Result<
    SlotMap,
    NodeError,
>)
    ensures
        keeps_history(mode, outcome) ==> (put matches Err(e) ==> (r matches Err(NodeError::Backend(m)) && m@
            == "session_store.put: "@ + e@)),
        !(keeps_history(mode, outcome) && put is Err) ==> agent_output_result(outcome, r),
{
    if persists_history(mode, &outcome) {
        match put {
            Err(e) => {
                let m = String::from_str("session_store.put: ");
                return Err(NodeError::Backend(m.concat(e.as_str())));
            },
            Ok(()) => {},
        }
    }
    agent_output(outcome)
}

} // verus!
