use starter_flow_core::agent_session::{
    roundtrip_text, AgentSessionId, ArtifactWrite, RetentionSweepReport, TurnInput, TurnRole,
    ARTIFACT_VALUE_CAP_BYTES, TURN_CONTENT_CAP_BYTES,
};
use starter_flow_core::auth::{Principal, Role};
use starter_flow_core::definition::{ApplyPolicy, DefinitionSource};
use starter_flow_core::event_dto::{slot_value_to_json, NodeSlotValue};
use starter_flow_core::flow::{
    CheckpointRetention, EngineError, EngineHealth, FlowError, FlowEvent, FlowRevision,
    FlowRevisionId, RunId, RunMetrics, RunOpts, SessionId, SessionMode,
};
use starter_flow_core::ids::{validate_reverse_dns, FlowId, IdError, KindId, NodeId};
use starter_flow_core::json::{JsonNumber, JsonValue};
use starter_flow_core::skill::SkillId;
use starter_flow_core::slot::SlotValue;
use starter_flow_core::state::{
    NodeStateError, NodeStateKey, NodeStateStore, NodeStateValue, NoopNodeStateStore,
    MAX_KEY_BYTES, MAX_VALUE_BYTES, NOOP_NODE_STATE_STORE,
};
use starter_flow_core::surfaces::{event_dedup_key, truncate_message, MESSAGE_CAP_BYTES};

fn key() -> NodeStateKey {
    NodeStateKey::new(
        FlowId::new("acme.flows.demo".to_string()).unwrap(),
        NodeId::new("acme.nodes.counter".to_string()).unwrap(),
        "count".to_string(),
    )
    .unwrap()
}

#[test]
fn reverse_dns_accepts_valid() {
    NodeId::new("com.acme.weather".to_string()).unwrap();
    KindId::new("starter.flow.tool-call".to_string()).unwrap();
    KindId::new("sys.gate".to_string()).unwrap();
    NodeId::new("a.b1_c-d.e".to_string()).unwrap();
}

#[test]
fn reverse_dns_rejects_invalid() {
    assert!(NodeId::new("".to_string()).is_err());
    assert!(NodeId::new("nodot".to_string()).is_err());
    assert!(NodeId::new(".leading".to_string()).is_err());
    assert!(NodeId::new("trailing.".to_string()).is_err());
    assert!(NodeId::new("Upper.case".to_string()).is_err());
    assert!(NodeId::new("starts.1digit".to_string()).is_err());
    assert!(NodeId::new("two..dots".to_string()).is_err());
    assert!(NodeId::new("bad char.x".to_string()).is_err());
}

#[test]
fn id_errors_render_and_every_id_kind_shares_the_grammar() {
    match validate_reverse_dns("") {
        Err(e @ IdError::Empty) => assert_eq!(e.message(), "id may not be empty"),
        other => panic!("expected Empty, got {other:?}"),
    }
    match NodeId::new("no-dot".to_string()) {
        Err(e) => assert_eq!(e.message(), "not a valid reverse-DNS id: no-dot"),
        Ok(_) => panic!("accepted"),
    }
    for s in ["a.b", "x.y-z_1", "Bad.id", "a..b", "a.", "1a.b"] {
        let n = NodeId::new(s.to_string()).is_ok();
        assert_eq!(n, KindId::new(s.to_string()).is_ok());
        assert_eq!(n, FlowId::new(s.to_string()).is_ok());
    }
}

#[test]
fn run_opts_defaults_match_scope() {
    let o = RunOpts::default();
    assert_eq!(o.max_propagation_hops, 1_000);
    assert!(o.idempotent_short_circuit);
    assert_eq!(o.event_broadcast_capacity, 1_024);
    assert_eq!(o.degraded_queue_capacity, 1_024);
    assert_eq!(o.checkpoint_retention, CheckpointRetention::Bounded(100));
}

#[test]
fn run_metrics_zero() {
    let m = RunMetrics::zero();
    assert_eq!(m.subscriber_lagged_count, 0);
    assert_eq!(m.degraded_dropped_count, 0);
}

#[test]
fn engine_health_display() {
    assert_eq!(EngineHealth::Healthy.as_str(), "healthy");
    assert_eq!(EngineHealth::Degraded.as_str(), "degraded");
}

#[test]
fn flow_error_notfound_message() {
    let e = FlowError::NotFound {
        kind: "flow",
        id: "com.acme.greet".to_string(),
    };
    assert_eq!(e.message(), "flow not found: com.acme.greet");
}

#[test]
fn flow_error_messages_cover_every_variant() {
    assert_eq!(
        FlowError::CycleBudgetExhausted { hops: 1000 }.message(),
        "cycle budget exhausted after 1000 propagation hops"
    );
    let node = NodeId::new("a.b".to_string()).unwrap();
    assert_eq!(
        FlowError::NodeAborted { node, error: "boom".to_string() }.message(),
        "node a.b failed: boom"
    );
    assert_eq!(FlowError::Backend("db".to_string()).message(), "flow backend failure: db");
    assert_eq!(EngineError::BackendUnavailable.message(), "engine backend unavailable");
}

#[test]
fn engine_error_from_flow_error() {
    let e: EngineError = FlowError::Backend("oops".into()).into();
    assert!(matches!(e, EngineError::Flow(FlowError::Backend(_))));
}

#[test]
fn checkpoint_retention_default_is_bounded_100() {
    let r = CheckpointRetention::default();
    assert!(matches!(r, CheckpointRetention::Bounded(100)));
}

#[test]
fn flow_revision_defaults_its_source_to_api() {
    let flow = FlowId::new("com.acme.greet".to_string()).unwrap();
    let rev = FlowRevision::new(flow, FlowRevisionId(7), JsonValue::Null);
    assert_eq!(rev.source, "api");
    let rev = rev.with_source("cli".to_string());
    assert_eq!(rev.source, "cli");
    assert_eq!(rev.revision_id, FlowRevisionId(7));
}

#[test]
fn run_ids_render_hyphenated() {
    let id = RunId(0x0123_4567_89ab_cdef_0011_2233_4455_6677);
    assert_eq!(id.to_text(), "01234567-89ab-cdef-0011-223344556677");
    assert_ne!(RunId::new(), RunId::new());
}

#[test]
fn key_too_large_rejected() {
    let big = "x".repeat(MAX_KEY_BYTES + 1);
    let err = NodeStateKey::new(
        FlowId::new("acme.flows.demo".to_string()).unwrap(),
        NodeId::new("acme.nodes.counter".to_string()).unwrap(),
        big,
    )
    .unwrap_err();
    assert!(matches!(err, NodeStateError::KeyTooLarge { .. }));
}

#[test]
fn key_cap_counts_utf8_bytes() {
    let at_cap = "é".repeat(MAX_KEY_BYTES / 2);
    assert!(NodeStateKey::new(
        FlowId::new("acme.flows.demo".to_string()).unwrap(),
        NodeId::new("acme.nodes.counter".to_string()).unwrap(),
        at_cap,
    )
    .is_ok());
    let over = "é".repeat(MAX_KEY_BYTES / 2 + 1);
    match NodeStateKey::new(
        FlowId::new("acme.flows.demo".to_string()).unwrap(),
        NodeId::new("acme.nodes.counter".to_string()).unwrap(),
        over,
    ) {
        Err(e @ NodeStateError::KeyTooLarge { len: 258, max: 256 }) => {
            assert_eq!(e.message(), "node-state key too large: 258 > 256 bytes")
        }
        other => panic!("unexpected {other:?}"),
    }
}

#[test]
fn value_too_large_rejected() {
    let big = vec![0u8; MAX_VALUE_BYTES + 1];
    let err = NodeStateValue::new(big, 1).unwrap_err();
    assert!(matches!(err, NodeStateError::ValueTooLarge { .. }));
    let ok = NodeStateValue::new(vec![1u8; MAX_VALUE_BYTES], 3).unwrap();
    assert_eq!(ok.version, 3);
}

#[test]
fn noop_store_constructs() {
    let _k = key();
    let _r: &dyn NodeStateStore = &NOOP_NODE_STATE_STORE;
}

#[test]
fn noop_store_reads_nothing_and_refuses_writes() {
    let k = key();
    let store = NoopNodeStateStore;
    assert!(matches!(store.get(&k), Ok(None)));
    match store.put(&k, vec![1]) {
        Err(e @ NodeStateError::Backend(_)) => assert_eq!(
            e.message(),
            "node-state backend error: NoopNodeStateStore::put called \u{2014} wire a real NodeStateStore into NodeCtx"
        ),
        other => panic!("unexpected {other:?}"),
    }
    assert!(store.cas(&k, 0, vec![1]).is_err());
    assert!(store.delete(&k).is_err());
    let cas = NodeStateError::CasMismatch { expected: 2, actual: Some(3) };
    assert_eq!(cas.message(), "node-state CAS mismatch: expected version 2, found Some(3)");
}

#[test]
fn audit_tag_shape_matches_hot_reload_doc() {
    assert_eq!(DefinitionSource::Api.audit_tag(), "api");
    assert_eq!(DefinitionSource::Cli.audit_tag(), "cli");
    assert_eq!(
        DefinitionSource::File {
            path: "/flows/a.yaml".to_string()
        }
        .audit_tag(),
        "file:/flows/a.yaml"
    );
    assert_eq!(
        DefinitionSource::Extension {
            id: "com.acme.weather".to_owned()
        }
        .audit_tag(),
        "extension:com.acme.weather"
    );
}

#[test]
fn apply_policy_default_is_drain() {
    assert_eq!(ApplyPolicy::default(), ApplyPolicy::Drain);
    assert_eq!(ApplyPolicy::LiveMigrate.as_str(), "live-migrate");
}

#[test]
fn caps_are_documented_and_non_zero() {
    const _: () = assert!(TURN_CONTENT_CAP_BYTES > 0);
    const _: () = assert!(ARTIFACT_VALUE_CAP_BYTES > 0);
    const _: () = assert!(TURN_CONTENT_CAP_BYTES >= ARTIFACT_VALUE_CAP_BYTES);
}

#[test]
fn turn_input_constructor_defaults_tokens_to_none() {
    let content = JsonValue::Object(vec![("text".to_string(), JsonValue::String("hi".to_string()))]);
    let t = TurnInput::new(TurnRole::User, content);
    assert!(t.tokens_in.is_none());
    assert!(t.tokens_out.is_none());
}

#[test]
fn artifact_write_with_parent_attaches_lineage() {
    let w = ArtifactWrite::new("tree".to_string(), JsonValue::Object(Vec::new())).with_parent(3);
    assert_eq!(w.parent_version, Some(3));
}

#[test]
fn session_id_roundtrips_through_string() {
    let id = AgentSessionId::new();
    let s = id.to_text();
    let parsed = AgentSessionId::parse(&s).expect("uuid parses");
    assert_eq!(id, parsed);
    assert_eq!(roundtrip_text(id).unwrap(), id);
    assert!(AgentSessionId::parse("not-a-uuid").is_err());
}

#[test]
fn retention_reports_merge_by_adding_counts() {
    let a = RetentionSweepReport { sessions_deleted: 1, turns_deleted: 2, artifacts_deleted: 3 };
    let b = RetentionSweepReport { sessions_deleted: 10, turns_deleted: 20, artifacts_deleted: 30 };
    let m = a.merge(b);
    assert_eq!(m, RetentionSweepReport { sessions_deleted: 11, turns_deleted: 22, artifacts_deleted: 33 });
    assert_eq!(a.merge(RetentionSweepReport::default()), a);
}

#[test]
fn slot_value_to_json_covers_every_known_variant() {
    assert_eq!(slot_value_to_json(SlotValue::Null), JsonValue::Null);
    assert_eq!(slot_value_to_json(SlotValue::Bool(true)), JsonValue::Bool(true));
    assert_eq!(
        slot_value_to_json(SlotValue::Int(-7)),
        JsonValue::Number(JsonNumber::NegInt(-7))
    );
    assert_eq!(
        slot_value_to_json(SlotValue::Float(1.5f64.to_bits())),
        JsonValue::Number(JsonNumber::Float(1.5f64.to_bits()))
    );
    assert_eq!(
        slot_value_to_json(SlotValue::Float(f64::NAN.to_bits())),
        JsonValue::Null,
        "non-finite floats project to null since JSON cannot represent them"
    );
    assert_eq!(
        slot_value_to_json(SlotValue::String("pong".into())),
        JsonValue::String("pong".to_string())
    );
    assert_eq!(
        slot_value_to_json(SlotValue::Bytes(vec![0xde, 0xad, 0xbe, 0xef])),
        JsonValue::String("0xdeadbeef".to_string())
    );
    let nested = || {
        JsonValue::Object(vec![(
            "a".to_string(),
            JsonValue::Array(vec![
                JsonValue::Number(JsonNumber::PosInt(1)),
                JsonValue::Number(JsonNumber::PosInt(2)),
            ]),
        )])
    };
    assert_eq!(slot_value_to_json(SlotValue::Json(nested())), nested());
}

#[test]
fn from_event_extracts_node_emitted_and_ignores_others() {
    let run = RunId::new();
    let node = NodeId::new("dev.starter.agent".to_string()).expect("valid node id");
    let emitted = FlowEvent::NodeEmitted {
        run,
        node: node.clone(),
        slot: "out".into(),
        value: SlotValue::String("pong".into()),
    };
    let dto = NodeSlotValue::from_event(emitted).expect("expected Some");
    assert_eq!(dto.run, run);
    assert_eq!(dto.node, node);
    assert_eq!(dto.slot, "out");
    assert_eq!(dto.value, JsonValue::String("pong".to_string()));

    let started = FlowEvent::RunStarted {
        run,
        flow: FlowId::new("dev.starter.flow".to_string()).expect("valid flow id"),
    };
    assert!(NodeSlotValue::from_event(started).is_none());
}

#[test]
fn reusable_session_ids_are_deterministic_name_based_uuids() {
    let node = NodeId::new("flow.test.ai".to_string()).unwrap();
    let flow = FlowId::new("com.acme.flow".to_string()).unwrap();
    let principal = Principal {
        subject: "system/Admin".to_string(),
        role: Role::Admin,
        scopes: Vec::new(),
        extra: JsonValue::Null,
    };
    let run = RunId(0x11112222333344445555666677778888);
    let a = SessionId::for_ai_agent_node(SessionMode::ReuseAcrossRun, &node, run, flow.clone(), &principal);
    let ns = uuid::Uuid::from_u128(0x6f39a1b2554c4ea99de74f2180121073);
    let expected = uuid::Uuid::new_v5(&ns, b"flow.test.ai|11112222-3333-4444-5555-666677778888");
    assert_eq!(a.0, expected.as_u128());
    let b = SessionId::for_ai_agent_node(SessionMode::ReuseAcrossFlow, &node, run, flow.clone(), &principal);
    let expected = uuid::Uuid::new_v5(&ns, b"flow.test.ai|com.acme.flow|system/Admin");
    assert_eq!(b.0, expected.as_u128());
    let other_run = SessionId::for_ai_agent_node(SessionMode::ReuseAcrossFlow, &node, RunId(1), flow.clone(), &principal);
    assert_eq!(b, other_run);
    let f1 = SessionId::for_ai_agent_node(SessionMode::FreshPerInvocation, &node, run, flow.clone(), &principal);
    let f2 = SessionId::for_ai_agent_node(SessionMode::FreshPerInvocation, &node, run, flow, &principal);
    assert_ne!(f1, f2);
}

#[test]
fn failure_messages_are_cut_on_a_char_boundary() {
    let short = "fine";
    assert_eq!(truncate_message(short), "fine");
    let long = "a".repeat(MESSAGE_CAP_BYTES + 10);
    assert_eq!(truncate_message(&long).len(), MESSAGE_CAP_BYTES);
    let mut wide = "a".repeat(MESSAGE_CAP_BYTES - 1);
    wide.push('é');
    wide.push_str("tail");
    let cut = truncate_message(&wide);
    assert_eq!(cut.len(), MESSAGE_CAP_BYTES - 1);
    assert!(wide.starts_with(&cut));
}

#[test]
fn event_dedup_key_prefers_the_sink_key_and_falls_back_to_blake3() {
    let svc = KindId::new("com.acme.svc".to_string()).unwrap();
    let k = event_dedup_key(&svc, "order.created", Some("abc123".to_string()), None);
    assert_eq!(k.service_name, "com.acme.svc");
    assert_eq!(k.key, "abc123");
    let payload = b"{\"id\":1}".to_vec();
    let k = event_dedup_key(&svc, "order.created", None, Some(payload.clone()));
    let mut h = blake3::Hasher::new();
    h.update(b"com.acme.svc");
    h.update(b"\0");
    h.update(b"order.created");
    h.update(b"\0");
    h.update(&payload);
    assert_eq!(k.key, h.finalize().to_hex().to_string());
    assert_eq!(k.key.len(), 64);
}

#[test]
fn fresh_ids_carry_their_uuid_version_and_variant() {
    use_ids_version_check();
}

fn use_ids_version_check() {
    let version = |v: u128| (v >> 76) & 0xf;
    let variant = |v: u128| (v >> 62) & 0x3;
    let run = starter_flow_core::flow::RunId::new().0;
    let rev = starter_flow_core::flow::FlowRevisionId::new().0;
    let ses = starter_flow_core::flow::SessionId::new().0;
    let agent = starter_flow_core::agent_session::AgentSessionId::new().0;
    for v in [run, rev, ses] {
        assert_eq!(version(v), 4);
        assert_eq!(variant(v), 2);
    }
    assert_eq!(version(agent), 7);
    assert_eq!(variant(agent), 2);
    assert_eq!(uuid::Uuid::from_u128(run).get_version_num(), 4);
    assert_eq!(uuid::Uuid::from_u128(agent).get_version_num(), 7);
}

#[test]
fn agent_node_session_ids_carry_their_uuid_version() {
    let node = NodeId::new("flow.test.ai".to_string()).unwrap();
    let principal = Principal {
        subject: "system/Admin".to_string(),
        role: Role::Admin,
        scopes: Vec::new(),
        extra: JsonValue::Null,
    };
    let flow = FlowId::new("com.acme.flow".to_string()).unwrap();
    let run = RunId(5);
    let fresh = SessionId::for_ai_agent_node(SessionMode::FreshPerInvocation, &node, run, flow.clone(), &principal);
    assert_eq!(uuid::Uuid::from_u128(fresh.0).get_version_num(), 4);
    assert_eq!(uuid::Uuid::from_u128(fresh.0).get_variant(), uuid::Variant::RFC4122);
    for mode in [SessionMode::ReuseAcrossRun, SessionMode::ReuseAcrossFlow] {
        let reused = SessionId::for_ai_agent_node(mode, &node, run, flow.clone(), &principal);
        assert_eq!(uuid::Uuid::from_u128(reused.0).get_version_num(), 5);
        assert_eq!(uuid::Uuid::from_u128(reused.0).get_variant(), uuid::Variant::RFC4122);
    }
}

#[test]
fn flow_id_text_converts_both_ways() {
    let s = "acme.flows.demo";
    let f = FlowId::new(s.to_string()).unwrap();
    assert_eq!(f.as_str(), s);
    assert_eq!(String::from(f.clone()), s);
    assert_eq!(FlowId::try_from(s.to_string()).unwrap(), f);
    let text: String = f.into();
    assert_eq!(text, s);
    assert!(matches!(FlowId::try_from(String::new()), Err(IdError::Empty)));
    match FlowId::try_from("Not.Valid".to_string()) {
        Err(IdError::NotReverseDns(t)) => assert_eq!(t, "Not.Valid"),
        _ => panic!("an upper-case id is refused"),
    }
}

#[test]
fn node_and_kind_id_text_converts_both_ways() {
    let n = NodeId::try_from("acme.nodes.counter".to_string()).unwrap();
    assert_eq!(String::from(n.clone()), "acme.nodes.counter");
    assert_eq!(n, NodeId::new("acme.nodes.counter".to_string()).unwrap());
    assert!(matches!(NodeId::try_from("nodot".to_string()), Err(IdError::NotReverseDns(_))));
    let k = KindId::try_from("acme.kinds.log".to_string()).unwrap();
    assert_eq!(String::from(k), "acme.kinds.log");
    assert!(matches!(KindId::try_from(String::new()), Err(IdError::Empty)));
}

#[test]
fn skill_id_text_converts_both_ways() {
    let k = SkillId::try_from("com.acme.skill".to_string()).unwrap();
    assert_eq!(String::from(k.clone()), "com.acme.skill");
    assert_eq!(k, SkillId::new("com.acme.skill".to_string()).unwrap());
    assert!(matches!(SkillId::try_from("a..b".to_string()), Err(IdError::NotReverseDns(_))));
}
