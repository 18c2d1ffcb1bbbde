use starter_flow_core::flow::{RunId, SessionMode};
use starter_flow_core::ids::{FlowId, KindId, NodeId};
use starter_flow_core::json::{JsonNumber, JsonValue};
use starter_flow_core::node::{KindError, NodeCtx, NodeError};
use starter_flow_core::nodes::ai_agent::{
    self, compute_visible_tools, dispatch_tool_use, principal_id_hash, system_admin_principal,
    tool_reply, AgentConfig, AgentInputKind, AgentLoop, AiAgent, CancelAdapter, RunnerCall,
    ToolDispatch, ToolUse, TurnEnd, TurnStart, MAX_TURNS,
};
use starter_flow_core::nodes::counter::{self, Counter, CounterSettings};
use starter_flow_core::nodes::http_out::{
    self, join_response_headers, parse_method, response_is_json, response_output, HttpMethod,
    HttpOut, HttpOutError,
};
use starter_flow_core::nodes::node_registry::{builtin_descriptors, StaticNodeKindRegistry};
use starter_flow_core::nodes::tool_call::{self, ToolCall, ToolCallError};
use starter_flow_core::nodes::tool_registry::{StaticToolRegistry, ToolDefinition};
use starter_flow_core::nodes::transform::{self, PanicPayload, Transform, TransformError};
use starter_flow_core::nodes::trigger_explicit::{
    self, Received, StaticTriggerChannelRegistry, TriggerExplicit, TriggerExplicitError,
};
use starter_flow_core::nodes::{branch, log, merge, sleep, trigger_schedule};
use starter_flow_core::skill::{SkillId, SkillSelection};
use starter_flow_core::slot::{SlotMap, SlotValue};
use starter_flow_core::state::NodeStateValue;

fn nid(s: &str) -> NodeId {
    NodeId::new(s.to_string()).unwrap()
}

fn kid(s: &str) -> KindId {
    KindId::new(s.to_string()).unwrap()
}

fn ctx() -> NodeCtx {
    NodeCtx::new(RunId(1), nid("flow.test.node"), false)
}

fn input_with(pairs: Vec<(&str, SlotValue)>) -> SlotMap {
    let mut m = SlotMap::new();
    for (k, v) in pairs {
        m.insert(k.to_string(), v);
    }
    m
}

fn json_str(s: &str) -> JsonValue {
    JsonValue::String(s.to_string())
}

// ---- node registry -------------------------------------------------------

#[test]
fn descriptors_are_valid_kind_ids() {
    for d in builtin_descriptors() {
        KindId::new(d.kind.to_string())
            .unwrap_or_else(|e| panic!("descriptor.kind {:?} not a valid KindId: {}", d.kind, e.message()));
    }
}

#[test]
fn descriptor_keys_follow_namespace_convention() {
    for d in builtin_descriptors() {
        let prefix = "starter.flow.node.";
        assert!(
            d.label_key.starts_with(prefix),
            "label_key {:?} should live under {prefix}*",
            d.label_key
        );
        assert!(d.summary_key.starts_with(prefix));
        assert!(d.help_key.starts_with(prefix));
    }
}

#[test]
fn registry_lookup_round_trips() {
    let reg = StaticNodeKindRegistry::with_builtins();
    for d in builtin_descriptors() {
        let kind = KindId::new(d.kind.to_string()).unwrap();
        let found = reg.lookup(&kind).expect("descriptor registered");
        assert_eq!(found.kind, d.kind);
    }
}

#[test]
fn all_kinds_unique() {
    let mut seen = std::collections::HashSet::new();
    for d in builtin_descriptors() {
        assert!(seen.insert(d.kind), "duplicate kind id: {}", d.kind);
    }
}

#[test]
fn kind_registers_in_static_registry() {
    let reg = StaticNodeKindRegistry::with_builtins();
    let kind = KindId::new(trigger_schedule::KIND_ID.to_string()).expect("KIND_ID is a valid reverse-DNS id");
    let descriptor = reg
        .lookup(&kind)
        .expect("trigger.schedule descriptor must be registered with builtins");
    assert_eq!(descriptor.kind, trigger_schedule::KIND_ID);
    assert_eq!(descriptor.kind, trigger_schedule::descriptor().kind);
}

#[test]
fn registering_a_kind_again_replaces_it_at_its_place() {
    let mut reg = StaticNodeKindRegistry::new();
    reg.register(branch::descriptor());
    reg.register(log::descriptor());
    let mut replacement = branch::descriptor();
    replacement.label_key = "starter.flow.node.branch.alt-label";
    reg.register(replacement);
    let all = reg.all();
    assert_eq!(all.len(), 2);
    assert_eq!(all[0].label_key, "starter.flow.node.branch.alt-label");
    assert_eq!(all[1].kind, log::KIND_ID);
    assert_eq!(
        reg.lookup(&kid(branch::KIND_ID)).unwrap().label_key,
        "starter.flow.node.branch.alt-label"
    );
    assert!(reg.lookup(&kid(merge::KIND_ID)).is_none());
    assert_eq!(builtin_descriptors().len(), 11);
}

// ---- branch / merge / log / sleep / trigger.schedule -----------------------

#[test]
fn bool_true_takes_true_branch() {
    let b = branch::Branch::new();
    let out = b
        .invoke(&ctx(), input_with(vec![("condition", SlotValue::Bool(true)), ("value", SlotValue::Int(7))]))
        .unwrap();
    assert_eq!(out.get("true_out"), Some(&SlotValue::Int(7)));
    assert!(out.get("false_out").is_none());
}

#[test]
fn zero_int_is_falsy() {
    let b = branch::Branch::new();
    let out = b
        .invoke(&ctx(), input_with(vec![("condition", SlotValue::Int(0)), ("value", SlotValue::Null)]))
        .unwrap();
    assert!(out.get("false_out").is_some());
}

#[test]
fn missing_condition_is_error() {
    let b = branch::Branch::new();
    let err = b.invoke(&ctx(), input_with(vec![("value", SlotValue::Null)])).unwrap_err();
    assert_eq!(err.message(), "branch input missing `condition` slot");
}

#[test]
fn first_strategy_rejects_multiple_inputs() {
    let m = merge::Merge::new();
    let err = m
        .invoke(
            &ctx(),
            input_with(vec![
                ("strategy", SlotValue::String("first".into())),
                ("a", SlotValue::Int(1)),
                ("b", SlotValue::Int(2)),
            ]),
        )
        .unwrap_err();
    assert_eq!(err.message(), "merge strategy `first` requires exactly one input, got 2");
}

#[test]
fn invalid_level_returns_typed_error() {
    let l = log::Log::new();
    let err = l
        .invoke(&ctx(), input_with(vec![("value", SlotValue::Int(1)), ("level", SlotValue::String("loud".into()))]))
        .err()
        .unwrap();
    assert_eq!(err.message(), "log `level` must be one of trace|debug|info|warn|error; got `loud`");
}

#[test]
fn negative_duration_is_error() {
    let s = sleep::Sleep::new();
    let err = s.prepare(input_with(vec![("duration_ms", SlotValue::Int(-5))])).err().unwrap();
    assert_eq!(err.message(), "sleep `duration_ms` out of range: -5 (must be 0..=3600000)");
}

#[test]
fn cron_expr_passes_through_to_schedule_slot() {
    let t = trigger_schedule::TriggerSchedule::new();
    let out = t
        .invoke(&ctx(), input_with(vec![("cron_expr", SlotValue::String("0 0 * * 0".into()))]))
        .unwrap();
    assert_eq!(out.get("schedule"), Some(&SlotValue::String("0 0 * * 0".into())));
}

// ---- http-out ---------------------------------------------------------------

#[test]
fn missing_url_is_error() {
    let err = HttpOut::new().prepare(SlotMap::new()).err().unwrap();
    let msg = err.message();
    assert!(msg.contains(http_out::URL_SLOT), "{msg}");
}

#[test]
fn unsupported_method_is_error() {
    let input = input_with(vec![
        ("url", SlotValue::String("http://127.0.0.1:1/nope".into())),
        ("method", SlotValue::String("bogus".into())),
    ]);
    let err = HttpOut::new().prepare(input).err().unwrap();
    let msg = err.message();
    assert!(msg.contains("unsupported method"), "{msg}");
    assert!(matches!(err, NodeError::Other(KindError::HttpOut(HttpOutError::InvalidMethod(ref m))) if m == "BOGUS"));
}

#[test]
fn invalid_headers_shape_is_error() {
    let input = input_with(vec![
        ("url", SlotValue::String("http://127.0.0.1:1/nope".into())),
        (
            "headers",
            SlotValue::Json(JsonValue::Object(vec![("x".to_string(), JsonValue::Number(JsonNumber::PosInt(1)))])),
        ),
    ]);
    let err = HttpOut::new().prepare(input).err().unwrap();
    let msg = err.message();
    assert!(msg.contains(http_out::HEADERS_SLOT), "{msg}");
}

#[test]
fn negative_timeout_is_error() {
    let input = input_with(vec![
        ("url", SlotValue::String("http://127.0.0.1:1/nope".into())),
        ("timeout_ms", SlotValue::Int(-1)),
    ]);
    let err = HttpOut::new().prepare(input).err().unwrap();
    let msg = err.message();
    assert!(msg.contains("out of range"), "{msg}");
}

#[test]
fn post_sends_json_body_with_content_type() {
    let input = input_with(vec![
        ("url", SlotValue::String("http://example.test/echo".into())),
        ("method", SlotValue::String("post".into())),
        ("body", SlotValue::Json(JsonValue::Object(vec![("hello".to_string(), json_str("world"))]))),
    ]);
    let plan = HttpOut::new().prepare(input).ok().unwrap();
    assert_eq!(plan.method, HttpMethod::Post);
    assert_eq!(plan.method.as_str(), "POST");
    assert_eq!(plan.timeout_ms, http_out::DEFAULT_TIMEOUT_MS);
    assert_eq!(plan.added_content_type, Some("application/json"));
    assert_eq!(plan.url, "http://example.test/echo");
}

#[test]
fn caller_content_type_suppresses_the_default_and_bytes_default_to_octet_stream() {
    let input = input_with(vec![
        ("url", SlotValue::String("http://example.test/".into())),
        ("headers", SlotValue::Json(JsonValue::Object(vec![("Content-Type".to_string(), json_str("text/csv"))]))),
        ("body", SlotValue::Bytes(vec![1, 2])),
        ("timeout_ms", SlotValue::Int(600_000)),
    ]);
    let plan = HttpOut::new().prepare(input).ok().unwrap();
    assert_eq!(plan.added_content_type, None);
    assert_eq!(plan.headers, vec![("Content-Type".to_string(), "text/csv".to_string())]);
    assert_eq!(plan.timeout_ms, 600_000);
    let input = input_with(vec![("url", SlotValue::String("http://example.test/".into())), ("body", SlotValue::Bytes(vec![1]))]);
    let plan = HttpOut::new().prepare(input).ok().unwrap();
    assert_eq!(plan.added_content_type, Some("application/octet-stream"));
    assert_eq!(parse_method("Patch").ok(), Some(HttpMethod::Patch));
}

#[test]
fn response_headers_join_repeats_and_detect_json() {
    let headers = vec![
        ("set-cookie".to_string(), "a=1".to_string()),
        ("content-type".to_string(), "Application/JSON; charset=utf-8".to_string()),
        ("set-cookie".to_string(), "b=2".to_string()),
    ];
    assert!(response_is_json(&headers));
    let joined = join_response_headers(headers.clone());
    assert_eq!(
        joined,
        JsonValue::Object(vec![
            ("content-type".to_string(), json_str("Application/JSON; charset=utf-8")),
            ("set-cookie".to_string(), json_str("a=1, b=2")),
        ])
    );
    let out = response_output(201, headers, SlotValue::String("hello".into()));
    assert_eq!(out.get("status"), Some(&SlotValue::Int(201)));
    assert_eq!(out.get("response_body"), Some(&SlotValue::String("hello".into())));
    assert!(!response_is_json(&vec![("content-type".to_string(), "text/plain".to_string())]));
}

// ---- counter ------------------------------------------------------------------

#[test]
fn counter_counts_from_initial_then_from_persisted_state() {
    let c = Counter::new();
    let first = c.advance(None).ok().unwrap();
    assert_eq!(first.next, 1);
    assert_eq!(first.bytes, b"1".to_vec());
    let stored = NodeStateValue::new(first.bytes, 1).unwrap();
    let second = c.advance(Some(stored)).ok().unwrap();
    assert_eq!(second.next, 2);
    let c = Counter::with_settings(CounterSettings { step: 5, initial: i64::MAX - 1, reset_on_redeploy: true });
    assert_eq!(c.advance(None).ok().unwrap().next, i64::MAX);
    assert!(c.resets_on_redeploy(starter_flow_core::node::EditKind::Settings));
}

#[test]
fn counter_rejects_undecodable_state() {
    let c = Counter::new();
    let bad = NodeStateValue::new(b"12x".to_vec(), 1).unwrap();
    match c.advance(Some(bad)) {
        Err(NodeError::Backend(m)) => {
            assert_eq!(m, "counter: state value not i64 (`12x`): invalid digit found in string")
        }
        _ => panic!("expected backend error"),
    }
    let bad = NodeStateValue::new(vec![0xff, 0xfe], 1).unwrap();
    match c.advance(Some(bad)) {
        Err(NodeError::Backend(m)) => assert!(m.starts_with("counter: state value not utf-8: "), "{m}"),
        _ => panic!("expected backend error"),
    }
}

#[test]
fn counter_needs_the_owning_flow_and_stops_when_cancelled() {
    let c = Counter::new();
    match c.prepare(&ctx()) {
        Err(NodeError::Domain { code, .. }) => assert_eq!(code, "counter_requires_flow_ctx"),
        _ => panic!("expected domain error"),
    }
    let with_flow = ctx().with_flow(FlowId::new("acme.flows.demo".to_string()).unwrap());
    let key = c.prepare(&with_flow).ok().unwrap();
    assert_eq!(key.key, counter::STATE_KEY);
    let cancelled = NodeCtx::new(RunId(1), nid("flow.test.node"), true);
    assert!(matches!(c.prepare(&cancelled), Err(NodeError::Cancelled)));
    let out = Counter::output(3);
    assert_eq!(out.get(counter::OUT_SLOT), Some(&SlotValue::Int(3)));
}

// ---- transform / tool-call / trigger.explicit -------------------------------

#[test]
fn missing_fn_id_returns_typed_error() {
    let t = Transform::new();
    let err = t.select(input_with(vec![("a", SlotValue::Int(1))])).err().unwrap();
    assert!(matches!(err, NodeError::Other(KindError::Transform(TransformError::MissingFnId))));
}

#[test]
fn panicking_transform_surfaces_as_node_error_not_crash() {
    let t = Transform::new();
    let (fn_id, rest) = t
        .select(input_with(vec![("fn_id", SlotValue::String("boom".into())), ("a", SlotValue::Int(1))]))
        .ok()
        .unwrap();
    assert_eq!(fn_id, "boom");
    assert_eq!(rest.len(), 1);
    let err = Transform::panicked(fn_id, PanicPayload::Text("kaboom".to_string()));
    assert_eq!(err.message(), "transform function `boom` panicked: kaboom");
    assert_eq!(transform::slot_map_kind(&rest), "{a=int}");
}

#[test]
fn unregistered_tool_and_failed_tool_are_typed() {
    let reg = StaticToolRegistry::new();
    let tc = ToolCall::new();
    let err = tc
        .prepare(
            &reg,
            input_with(vec![("tool_id", SlotValue::String("starter.test.missing".into())), ("input", SlotValue::Json(JsonValue::Null))]),
        )
        .err()
        .unwrap();
    assert_eq!(err.message(), "tool-call tool not registered: starter.test.missing");
    let err = ToolCall::finish(kid("starter.test.echo"), false, Err("nope".to_string())).err().unwrap();
    assert!(matches!(err, NodeError::Other(KindError::ToolCall(ToolCallError::ToolFailed { .. }))));
    let out = ToolCall::finish(kid("starter.test.echo"), false, Ok(JsonValue::Bool(true))).unwrap();
    assert_eq!(out.get(tool_call::TOOL_OUTPUT_SLOT), Some(&SlotValue::Json(JsonValue::Bool(true))));
}

#[test]
fn trigger_explicit_waits_on_bound_channels_only() {
    let mut channels = StaticTriggerChannelRegistry::new();
    channels.bind(kid("com.acme.ch"));
    let t = TriggerExplicit::new();
    let ch = t
        .select_channel(&channels, input_with(vec![("channel_id", SlotValue::String("com.acme.ch".into()))]))
        .ok()
        .unwrap();
    assert_eq!(ch.as_str(), "com.acme.ch");
    let err = t
        .select_channel(&channels, input_with(vec![("channel_id", SlotValue::String("com.acme.other".into()))]))
        .err()
        .unwrap();
    assert_eq!(err.message(), "trigger.explicit channel not registered: com.acme.other");
    let out = TriggerExplicit::finish(ch, Received::Payload(JsonValue::Bool(true))).unwrap();
    assert_eq!(out.get(trigger_explicit::PAYLOAD_SLOT), Some(&SlotValue::Json(JsonValue::Bool(true))));
    let closed = TriggerExplicit::finish(kid("com.acme.ch"), Received::Closed).err().unwrap();
    assert!(matches!(closed, NodeError::Other(KindError::TriggerExplicit(TriggerExplicitError::ChannelClosed(_)))));
}

// ---- ai-agent -------------------------------------------------------------------

fn echo_registry() -> StaticToolRegistry {
    let mut reg = StaticToolRegistry::new();
    reg.register(
        kid("starter.test.echo"),
        ToolDefinition { name: "echo".to_string(), description: "echoes".to_string(), input_schema: JsonValue::Null },
    );
    reg
}

#[test]
fn missing_provider_id_surfaces_typed_domain_error() {
    let agent = AiAgent::new();
    match agent.configure(&SlotMap::new()) {
        Err(NodeError::Domain { code, .. }) => assert_eq!(code, "provider_id_required"),
        _ => panic!("expected provider_id_required"),
    }
}

#[test]
fn invalid_session_mode_surfaces_typed_domain_error() {
    let agent = AiAgent::new();
    let input = input_with(vec![
        ("provider_id", SlotValue::String("p.test".to_string())),
        ("session_mode", SlotValue::String("not_a_real_mode".to_string())),
    ]);
    match agent.configure(&input) {
        Err(NodeError::Domain { code, message }) => {
            assert_eq!(code, "session_mode_invalid");
            assert_eq!(message, "unknown session_mode `not_a_real_mode`");
        }
        _ => panic!("expected session_mode_invalid"),
    }
}

#[test]
fn config_reads_every_slot_and_defaults() {
    let agent = AiAgent::new().with_provider_id(kid("p.default")).with_input_kind(AgentInputKind::Cli);
    let input = input_with(vec![
        ("allowed_tools", SlotValue::Json(JsonValue::Array(vec![json_str("b.tool"), json_str("a.tool"), json_str("b.tool")]))),
        ("session_mode", SlotValue::Json(json_str("reuse_across_flow"))),
        ("skill_hint", SlotValue::String(String::new())),
        ("input", SlotValue::String("hi".into())),
    ]);
    let cfg = agent.configure(&input).ok().unwrap();
    assert_eq!(cfg.provider_id.as_str(), "p.default");
    assert_eq!(cfg.session_mode, SessionMode::ReuseAcrossFlow);
    assert_eq!(cfg.input_kind, AgentInputKind::Cli);
    assert!(cfg.skill_hint.is_none());
    assert_eq!(cfg.user_input, "hi");
    let tools: Vec<&str> = cfg.allowed_tools.as_ref().unwrap().iter().map(|k| k.as_str()).collect();
    assert_eq!(tools, vec!["a.tool", "b.tool"]);
    let bad = input_with(vec![
        ("provider_id", SlotValue::String("p.test".into())),
        ("allowed_tools", SlotValue::Json(JsonValue::Array(vec![JsonValue::Bool(true)]))),
    ]);
    match AgentConfig::from_input(&bad, None, None) {
        Err(NodeError::Domain { code, message }) => {
            assert_eq!(code, "allowed_tools_invalid");
            assert_eq!(message, "allowed_tools entries must be strings");
        }
        _ => panic!("expected allowed_tools_invalid"),
    }
    assert_eq!(AgentInputKind::parse("rest"), Some(AgentInputKind::Rest));
    assert_eq!(AgentInputKind::parse("REST"), None);
}

#[test]
fn empty_tools_intersection_surfaces_no_tools_visible() {
    let reg = StaticToolRegistry::new();
    let node_allowed = Some(vec![kid("starter.test.missing")]);
    match compute_visible_tools(&reg, &SkillSelection::NotSelected, &node_allowed) {
        Err(NodeError::Domain { code, .. }) => assert_eq!(code, "no_tools_visible"),
        _ => panic!("expected no_tools_visible"),
    }
    let skill = SkillSelection::Selected {
        skill_id: SkillId::new("com.acme.skill".to_string()).unwrap(),
        allowed_tools: vec![kid("starter.test.other")],
        resources: Vec::new(),
        content_hash: String::new(),
    };
    match compute_visible_tools(&reg, &skill, &Some(vec![kid("starter.test.echo")])) {
        Err(NodeError::Domain { message, .. }) => {
            assert_eq!(message, "tools intersection is empty (host \u{2229} skill \u{2229} node)")
        }
        _ => panic!("expected an empty intersection"),
    }
    let reg = echo_registry();
    let visible = compute_visible_tools(&reg, &SkillSelection::NotSelected, &node_allowed);
    assert!(visible.is_err());
    let visible = compute_visible_tools(&reg, &SkillSelection::NotSelected, &None).ok().unwrap();
    assert!(visible.is_empty());
}

#[test]
fn one_tool_use_then_text_drives_exactly_two_turns_and_dispatches() {
    let reg = echo_registry();
    let visible = compute_visible_tools(&reg, &SkillSelection::NotSelected, &Some(vec![kid("starter.test.echo")]))
        .ok()
        .unwrap();
    assert_eq!(visible.len(), 1);
    assert_eq!(visible[0].name, "echo");
    let l = AgentLoop::start(Vec::new(), "hi".to_string());
    let l = match l.begin_turn(false) {
        TurnStart::CallRunner(l) => l,
        TurnStart::Done(_) => panic!("loop ended early"),
    };
    let first_len = l.history().len();
    let tu = ToolUse { id: "tool_use_1".to_string(), name: "starter.test.echo".to_string(), input: JsonValue::Null };
    let reply = RunnerCall::Replied { text: String::new(), tool_uses: vec![tu], error: None };
    let (mut l, tus) = match l.finish_turn(reply) {
        TurnEnd::Dispatch(l, tus) => (l, tus),
        TurnEnd::Done(_) => panic!("expected a dispatch"),
    };
    for tu in &tus {
        let text = match dispatch_tool_use(&reg, &visible, tu, false) {
            ToolDispatch::Invoke(id) => {
                assert_eq!(id.as_str(), "starter.test.echo");
                tool_reply(tu, Ok("{\"hello\":\"world\"}".to_string()))
            }
            ToolDispatch::Reply(m) => m,
        };
        assert_eq!(text, "tool `starter.test.echo` (id=tool_use_1) returned: {\"hello\":\"world\"}");
        l = l.record_tool_reply(text);
    }
    let l = match l.begin_turn(false) {
        TurnStart::CallRunner(l) => l,
        TurnStart::Done(_) => panic!("loop ended early"),
    };
    assert!(l.history().len() > first_len);
    let out = match l.finish_turn(RunnerCall::Replied { text: "final answer".into(), tool_uses: Vec::new(), error: None }) {
        TurnEnd::Done(o) => o,
        TurnEnd::Dispatch(..) => panic!("expected the end"),
    };
    assert_eq!(out.turn_count, 2);
    assert_eq!(out.tool_call_count, 1);
    let slots = ai_agent::agent_output(out).ok().unwrap();
    assert_eq!(slots.get(ai_agent::OUTPUT_SLOT), Some(&SlotValue::String("final answer".into())));
    assert_eq!(slots.get(ai_agent::TURN_COUNT_SLOT), Some(&SlotValue::Int(2)));
}

#[test]
fn terminal_text_only_turn_yields_one_turn_and_writes_output_slot() {
    let l = AgentLoop::start(Vec::new(), "q".to_string());
    let l = match l.begin_turn(false) {
        TurnStart::CallRunner(l) => l,
        TurnStart::Done(_) => panic!(),
    };
    let o = match l.finish_turn(RunnerCall::Replied { text: "the answer".into(), tool_uses: Vec::new(), error: None }) {
        TurnEnd::Done(o) => o,
        _ => panic!(),
    };
    assert_eq!(o.turn_count, 1);
    assert_eq!(o.history_snapshot.as_ref().unwrap().len(), 2);
    assert!(matches!(o.result, Ok(ref t) if t == "the answer"));
}

#[test]
fn loop_stops_at_the_turn_budget_and_on_cancel() {
    let mut l = AgentLoop::start(Vec::new(), "go".to_string());
    for _ in 0..MAX_TURNS {
        l = match l.begin_turn(false) {
            TurnStart::CallRunner(l) => l,
            TurnStart::Done(_) => panic!("budget hit early"),
        };
        let tu = ToolUse { id: "t".into(), name: "x.y".into(), input: JsonValue::Null };
        l = match l.finish_turn(RunnerCall::Replied { text: String::new(), tool_uses: vec![tu], error: None }) {
            TurnEnd::Dispatch(l, _) => l.record_tool_reply("r".into()),
            TurnEnd::Done(_) => panic!(),
        };
    }
    match l.begin_turn(false) {
        TurnStart::Done(o) => {
            assert_eq!(o.turn_count, MAX_TURNS);
            assert!(matches!(o.result, Err(NodeError::Domain { code: "turn_budget_exhausted", .. })));
        }
        TurnStart::CallRunner(_) => panic!("budget not enforced"),
    }
    let l = AgentLoop::start(Vec::new(), "go".to_string());
    match l.begin_turn(true) {
        TurnStart::Done(o) => assert!(matches!(o.result, Err(NodeError::Cancelled))),
        _ => panic!(),
    }
    let mut adapter = CancelAdapter::new();
    assert!(!adapter.observed());
    assert!(!adapter.is_cancelled(false));
    assert!(adapter.is_cancelled(true));
    assert!(adapter.observed());
}

#[test]
fn input_kind_cli_drives_cli_runner_once_and_returns_text() {
    assert!(ai_agent::cli_start(false).is_none());
    let o = ai_agent::cli_finish(RunnerCall::Replied { text: "runner says hi".into(), tool_uses: Vec::new(), error: None });
    assert_eq!(o.turn_count, 1);
    assert_eq!(o.tool_call_count, 0);
    assert!(o.history_snapshot.is_none());
    assert!(matches!(o.result, Ok(ref t) if t == "runner says hi"));
    let failed = ai_agent::cli_finish(RunnerCall::Failed("wrong input kind".into()));
    assert!(matches!(failed.result, Err(NodeError::Backend(ref m)) if m == "ai_runner.run: wrong input kind"));
}

#[test]
fn principal_hash_is_the_hex_of_the_first_eight_subject_bytes() {
    let p = system_admin_principal();
    assert_eq!(p.subject, "system/Admin");
    assert_eq!(principal_id_hash(&p), "73797374656d2f41");
    let mut short = system_admin_principal();
    short.subject = "ab".to_string();
    assert_eq!(principal_id_hash(&short), "6162");
}

#[test]
fn unresolvable_tool_names_are_refused_in_the_reply() {
    let reg = echo_registry();
    let visible = Vec::new();
    let tu = ToolUse { id: "1".into(), name: "Not An Id".into(), input: JsonValue::Null };
    match dispatch_tool_use(&reg, &visible, &tu, false) {
        ToolDispatch::Reply(m) => assert_eq!(
            m,
            "tool `Not An Id` (id=1) refused: not a valid reverse-DNS id and no visible tool advertises it"
        ),
        _ => panic!(),
    }
    let tu = ToolUse { id: "2".into(), name: "starter.test.echo".into(), input: JsonValue::Null };
    match dispatch_tool_use(&reg, &visible, &tu, true) {
        ToolDispatch::Reply(m) => assert_eq!(m, "tool `starter.test.echo` (id=2) aborted: cancelled"),
        _ => panic!(),
    }
}
