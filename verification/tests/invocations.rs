use std::cell::RefCell;
use std::collections::BTreeMap;

use starter_flow_core::flow::{RunId, SessionId, SessionMode};
use starter_flow_core::ids::{FlowId, KindId, NodeId};
use starter_flow_core::json::JsonValue;
use starter_flow_core::node::{EditKind, NodeCtx, NodeError};
use starter_flow_core::nodes::ai_agent::{
    conclude_invocation, AgentInputKind, AiAgent, HistoryMessage, LoopOutcome, ResourceMountError,
};
use starter_flow_core::nodes::counter::{Counter, CounterSettings};
use starter_flow_core::nodes::http_out::json_response_body;
use starter_flow_core::nodes::tool_registry::{StaticToolRegistry, ToolDefinition};
use starter_flow_core::skill::{SkillId, SkillSelection};
use starter_flow_core::slot::{SlotMap, SlotValue};
use starter_flow_core::state::{NodeStateError, NodeStateKey, NodeStateStore, NodeStateValue};

fn nid(s: &str) -> NodeId {
    NodeId::new(s.to_string()).unwrap()
}

fn kid(s: &str) -> KindId {
    KindId::new(s.to_string()).unwrap()
}

fn input_with(pairs: Vec<(&str, SlotValue)>) -> SlotMap {
    let mut m = SlotMap::new();
    for (k, v) in pairs {
        m.insert(k.to_string(), v);
    }
    m
}

fn agent_ctx() -> NodeCtx {
    NodeCtx::new(RunId(0x11112222333344445555666677778888), nid("flow.test.ai"), false)
}

fn echo_registry() -> StaticToolRegistry {
    let mut reg = StaticToolRegistry::new();
    reg.register(
        kid("starter.test.echo"),
        ToolDefinition { name: "echo".to_string(), description: "echoes".to_string(), input_schema: JsonValue::Null },
    );
    reg
}

fn selected_skill() -> SkillSelection {
    SkillSelection::Selected {
        skill_id: SkillId::new("com.acme.skill".to_string()).unwrap(),
        allowed_tools: vec![kid("starter.test.echo")],
        resources: Vec::new(),
        content_hash: String::new(),
    }
}

fn msg(role: &str, content: &str) -> HistoryMessage {
    HistoryMessage { role: role.to_string(), content: content.to_string() }
}

// ---- ai-agent invocation ---------------------------------------------------

#[test]
fn a_configuration_error_comes_before_the_mount_check() {
    let reg = echo_registry();
    let mount = Err(ResourceMountError::Other("disk gone".to_string()));
    match AiAgent::new().prepare(&agent_ctx(), &SlotMap::new(), &reg, &selected_skill(), mount) {
        Err(NodeError::Domain { code, .. }) => assert_eq!(code, "provider_id_required"),
        _ => panic!("expected provider_id_required"),
    }
}

#[test]
fn a_failed_mount_check_comes_before_the_tools() {
    let reg = StaticToolRegistry::new();
    let input = input_with(vec![("provider_id", SlotValue::String("p.test".to_string()))]);
    let mount = Err(ResourceMountError::UnsupportedScheme { uri: "http://x".to_string() });
    match AiAgent::new().prepare(&agent_ctx(), &input, &reg, &selected_skill(), mount) {
        Err(NodeError::Domain { code, message }) => {
            assert_eq!(code, "skill_resource_unsupported_scheme");
            assert_eq!(
                message,
                "skill `com.acme.skill` resource `http://x` uses an unsupported URI scheme (v1 supports file:// only)"
            );
        }
        _ => panic!("expected the mount error"),
    }
}

#[test]
fn a_mount_result_is_ignored_without_a_selected_skill() {
    let reg = echo_registry();
    let input = input_with(vec![("provider_id", SlotValue::String("p.test".to_string()))]);
    let mount = Err(ResourceMountError::Other("unused".to_string()));
    let prepared = match AiAgent::new().prepare(&agent_ctx(), &input, &reg, &SkillSelection::NotSelected, mount) {
        Ok(p) => p,
        Err(_) => panic!("no skill, no mount check"),
    };
    assert!(prepared.visible.is_empty());
    assert_eq!(prepared.principal.subject, "system/Admin");
}

#[test]
fn invisible_tools_fail_after_the_mount_check() {
    let reg = StaticToolRegistry::new();
    let input = input_with(vec![("provider_id", SlotValue::String("p.test".to_string()))]);
    match AiAgent::new().prepare(&agent_ctx(), &input, &reg, &selected_skill(), Ok(())) {
        Err(NodeError::Domain { code, .. }) => assert_eq!(code, "no_tools_visible"),
        _ => panic!("expected no_tools_visible"),
    }
}

#[test]
fn a_reused_session_is_keyed_on_the_node_and_run() {
    let reg = echo_registry();
    let input = input_with(vec![
        ("provider_id", SlotValue::String("p.test".to_string())),
        ("session_mode", SlotValue::String("reuse_across_run".to_string())),
    ]);
    let prepared = match AiAgent::new().prepare(&agent_ctx(), &input, &reg, &selected_skill(), Ok(())) {
        Ok(p) => p,
        Err(_) => panic!("a valid invocation prepares"),
    };
    assert_eq!(prepared.visible.len(), 1);
    let ns = uuid::Uuid::from_u128(0x6f39a1b2554c4ea99de74f2180121073);
    let expected = uuid::Uuid::new_v5(&ns, b"flow.test.ai|11112222-3333-4444-5555-666677778888");
    assert_eq!(prepared.session_id, SessionId(expected.as_u128()));
}

fn prepared_reusable() -> starter_flow_core::nodes::ai_agent::PreparedInvocation<'static> {
    let reg: &'static StaticToolRegistry = Box::leak(Box::new(echo_registry()));
    let input = input_with(vec![
        ("provider_id", SlotValue::String("p.test".to_string())),
        ("session_mode", SlotValue::String("reuse_across_flow".to_string())),
        ("input", SlotValue::String("hi".to_string())),
    ]);
    match AiAgent::new().prepare(&agent_ctx(), &input, reg, &SkillSelection::NotSelected, Ok(())) {
        Ok(p) => p,
        Err(_) => panic!("a valid invocation prepares"),
    }
}

#[test]
fn a_failed_session_read_comes_before_the_provider_lookup() {
    match prepared_reusable().start(Err("db down".to_string()), false) {
        Err(NodeError::Backend(m)) => assert_eq!(m, "session_store.get: db down"),
        _ => panic!("expected the store error"),
    }
}

#[test]
fn an_unregistered_provider_is_a_domain_error() {
    match prepared_reusable().start(Ok(None), false) {
        Err(NodeError::Domain { code, message }) => {
            assert_eq!(code, "provider_not_registered");
            assert_eq!(message, "no AiRunner registered for p.test");
        }
        _ => panic!("expected provider_not_registered"),
    }
}

#[test]
fn a_kept_conversation_is_continued() {
    let ready = match prepared_reusable().start(Ok(Some(vec![msg("user", "earlier")])), true) {
        Ok(r) => r,
        Err(_) => panic!("a registered provider starts"),
    };
    assert_eq!(ready.prior.len(), 1);
    assert_eq!(ready.prior[0].content, "earlier");
    assert_eq!(ready.config.user_input, "hi");
    assert_eq!(ready.config.input_kind, AgentInputKind::Rest);
}

#[test]
fn a_fresh_session_reads_nothing() {
    let reg = echo_registry();
    let input = input_with(vec![("provider_id", SlotValue::String("p.test".to_string()))]);
    let prepared = match AiAgent::new().prepare(&agent_ctx(), &input, &reg, &SkillSelection::NotSelected, Ok(())) {
        Ok(p) => p,
        Err(_) => panic!("a valid invocation prepares"),
    };
    match prepared.start(Err("never read".to_string()), true) {
        Ok(ready) => assert!(ready.prior.is_empty()),
        Err(_) => panic!("a fresh session ignores the store"),
    }
}

fn finished(text: &str) -> LoopOutcome {
    LoopOutcome {
        result: Ok(text.to_string()),
        turn_count: 2,
        tool_call_count: 0,
        history_snapshot: Some(vec![msg("user", "hi"), msg("assistant", text)]),
    }
}

#[test]
fn a_failed_session_write_wins_over_the_loop_result() {
    match conclude_invocation(SessionMode::ReuseAcrossRun, finished("done"), Err("disk full".to_string())) {
        Err(NodeError::Backend(m)) => assert_eq!(m, "session_store.put: disk full"),
        _ => panic!("expected the write error"),
    }
}

#[test]
fn a_concluded_invocation_emits_the_text_and_turns() {
    let out = match conclude_invocation(SessionMode::FreshPerInvocation, finished("done"), Err("unused".to_string())) {
        Ok(out) => out,
        Err(_) => panic!("a fresh session writes nothing"),
    };
    assert_eq!(out.get("output"), Some(&SlotValue::String("done".to_string())));
    assert_eq!(out.get("turn_count"), Some(&SlotValue::Int(2)));
}

// ---- counter against a store -----------------------------------------------

#[derive(Default)]
struct MemoryStore {
    rows: RefCell<BTreeMap<String, (Vec<u8>, u64)>>,
    fail_put: bool,
}

fn row_name(key: &NodeStateKey) -> String {
    format!("{}|{}|{}", key.flow_id.as_str(), key.node_id.as_str(), key.key)
}

impl NodeStateStore for MemoryStore {
    fn get(&self, key: &NodeStateKey) -> Result<Option<NodeStateValue>, NodeStateError> {
        match self.rows.borrow().get(&row_name(key)) {
            Some((bytes, version)) => Ok(Some(NodeStateValue::new(bytes.clone(), *version)?)),
            None => Ok(None),
        }
    }

    fn put(&self, key: &NodeStateKey, bytes: Vec<u8>) -> Result<u64, NodeStateError> {
        if self.fail_put {
            return Err(NodeStateError::Backend("read-only".to_string()));
        }
        let mut rows = self.rows.borrow_mut();
        let version = rows.get(&row_name(key)).map(|r| r.1 + 1).unwrap_or(1);
        rows.insert(row_name(key), (bytes, version));
        Ok(version)
    }

    fn cas(&self, key: &NodeStateKey, expected: u64, bytes: Vec<u8>) -> Result<u64, NodeStateError> {
        let actual = self.rows.borrow().get(&row_name(key)).map(|r| r.1);
        if actual.unwrap_or(0) != expected {
            return Err(NodeStateError::CasMismatch { expected, actual });
        }
        self.put(key, bytes)
    }

    fn delete(&self, key: &NodeStateKey) -> Result<(), NodeStateError> {
        self.rows.borrow_mut().remove(&row_name(key));
        Ok(())
    }
}

fn counter_ctx() -> NodeCtx {
    NodeCtx::new(RunId(9), nid("flow.test.counter"), false).with_flow(FlowId::new("flow.test.flow".to_string()).unwrap())
}

fn count_of(r: Result<SlotMap, NodeError>) -> i64 {
    match r {
        Ok(out) => match out.get("out") {
            Some(SlotValue::Int(n)) => *n,
            _ => panic!("counter emits an int"),
        },
        Err(e) => panic!("counter failed: {e:?}"),
    }
}

#[test]
fn counter_invocations_continue_from_what_they_wrote() {
    let store = MemoryStore::default();
    let c = Counter::new();
    assert_eq!(count_of(c.invoke(&counter_ctx(), &store)), 1);
    assert_eq!(count_of(c.invoke(&counter_ctx(), &store)), 2);
    assert_eq!(count_of(c.invoke(&counter_ctx(), &store)), 3);
}

#[test]
fn counter_redeploy_keeps_or_clears_the_count() {
    let store = MemoryStore::default();
    let keep = Counter::new();
    assert_eq!(count_of(keep.invoke(&counter_ctx(), &store)), 1);
    assert!(keep.on_redeploy(&counter_ctx(), EditKind::Settings, &store).is_ok());
    assert_eq!(count_of(keep.invoke(&counter_ctx(), &store)), 2);
    let reset = Counter::with_settings(CounterSettings { step: 1, initial: 10, reset_on_redeploy: true });
    assert!(reset.on_redeploy(&counter_ctx(), EditKind::Topology, &store).is_ok());
    assert_eq!(count_of(reset.invoke(&counter_ctx(), &store)), 11);
}

#[test]
fn counter_surfaces_a_failed_write() {
    let store = MemoryStore { fail_put: true, ..MemoryStore::default() };
    match Counter::new().invoke(&counter_ctx(), &store) {
        Err(NodeError::Backend(m)) => assert_eq!(m, "counter: state put failed: node-state backend error: read-only"),
        _ => panic!("expected the put failure"),
    }
}

#[test]
fn a_cancelled_counter_touches_no_state() {
    let store = MemoryStore::default();
    let ctx = NodeCtx::new(RunId(9), nid("flow.test.counter"), true);
    assert!(matches!(Counter::new().invoke(&ctx, &store), Err(NodeError::Cancelled)));
    assert!(store.rows.borrow().is_empty());
}

// ---- http-out response body ------------------------------------------------

#[test]
fn a_json_response_body_is_the_parsed_document_or_its_text() {
    assert_eq!(json_response_body(b"true", Some(JsonValue::Bool(true))), SlotValue::Json(JsonValue::Bool(true)));
    assert_eq!(json_response_body(b"{oops", None), SlotValue::String("{oops".to_string()));
    assert_eq!(json_response_body(&[b'a', 0xff, b'b'], None), SlotValue::String("a\u{fffd}b".to_string()));
}
