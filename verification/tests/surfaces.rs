use starter_flow_core::auth::{Principal, Role};
use starter_flow_core::flow::{FlowEvent, FlowRevisionId, RunId};
use starter_flow_core::flow_registry::{
    apply_output_adapter, apply_seed_adapter, body_format, check_terminal_slots, default_output, default_seeds, register_all, FlowOutline,
    FlowRegistration, FlowRegistry, FlowRegistryError, FromRegistryError, OutputAdapter, SeedAdapter,
    TopologyError,
};
use starter_flow_core::ids::{FlowId, KindId, NodeId};
use starter_flow_core::json::{copy_json, JsonNumber, JsonValue};
use starter_flow_core::node::SlotRef;
use starter_flow_core::scheduler::{dispatch_timeout_message, format_millis_debug, FlowAsService as Scheduler};
use starter_flow_core::service_surface::{dedup_decision, delivery_outcome, seed_decision, Delivery, FlowAsService};
use starter_flow_core::slot::{SlotMap, SlotValue};
use starter_flow_core::surfaces::{FlowAsServiceBuildError, FlowAsToolBuildError};
use starter_flow_core::tool_surface::{
    collect_terminal_output, terminal_output_key, tool_run_result, FailureLatch, FlowAsTool, RunEnd,
    ToolRunError,
};
use starter_flow_core::watch::{FlowFormat, PublishedPaths};

type Tool = FlowAsTool<&'static str, &'static str, u8, u8>;
type Service = FlowAsService<&'static str, &'static str, u8, u8, u8>;
type Registry = FlowRegistry<&'static str, &'static str, u8, u8>;
type Registration = FlowRegistration<&'static str, u8, u8>;

fn nid(s: &str) -> NodeId {
    NodeId::new(s.to_string()).unwrap()
}

fn fid(s: &str) -> FlowId {
    FlowId::new(s.to_string()).unwrap()
}

fn kid(s: &str) -> KindId {
    KindId::new(s.to_string()).unwrap()
}

fn slot(node: &str, name: &str) -> SlotRef {
    SlotRef::new(nid(node), name.to_string())
}

fn obj(pairs: Vec<(&str, JsonValue)>) -> JsonValue {
    JsonValue::Object(pairs.into_iter().map(|(k, v)| (k.to_string(), v)).collect())
}

fn jstr(s: &str) -> JsonValue {
    JsonValue::String(s.to_string())
}

fn admin() -> Principal {
    Principal {
        subject: "system/Admin".to_string(),
        role: Role::Admin,
        scopes: Vec::new(),
        extra: JsonValue::Null,
    }
}

fn full_tool_builder() -> starter_flow_core::tool_surface::FlowAsToolBuilder<&'static str, &'static str, u8, u8> {
    Tool::builder()
        .flow_id(fid("test.tool.flow"))
        .revision(FlowRevisionId(7))
        .topology("topology")
        .terminal_slots(vec![slot("test.inc", "out")])
        .engine("engine")
        .tool_id(kid("test.tool.id"))
        .name("incrementer".to_string())
        .description("increments".to_string())
        .input_schema(obj(vec![("type", jstr("object"))]))
        .output_schema(obj(vec![("type", jstr("integer"))]))
        .seed_adapter(1)
        .output_adapter(2)
}

fn tool_missing(b: starter_flow_core::tool_surface::FlowAsToolBuilder<&'static str, &'static str, u8, u8>) -> &'static str {
    match b.build() {
        Ok(_) => panic!("builder must fail"),
        Err(FlowAsToolBuildError::MissingField(f)) => f,
    }
}

#[test]
fn stage7_flow_as_tool_builder_rejects_missing_required_fields() {
    let err = match Tool::builder().build() {
        Ok(_) => panic!("empty builder must fail"),
        Err(e) => e,
    };
    assert!(matches!(err, FlowAsToolBuildError::MissingField(_)));
}

#[test]
fn stage8_flow_as_service_builder_rejects_missing_required_fields() {
    let err = match Service::builder().build() {
        Ok(_) => panic!("empty builder must fail"),
        Err(e) => e,
    };
    assert!(matches!(err, FlowAsServiceBuildError::MissingField(_)));
}

#[test]
fn tool_builder_names_the_first_missing_field_in_order() {
    assert_eq!(tool_missing(Tool::builder()), "flow_id");
    let mut b = full_tool_builder();
    b.flow_id = None;
    b.engine = None;
    assert_eq!(tool_missing(b), "flow_id");
    let mut b = full_tool_builder();
    b.terminal_slots = Vec::new();
    b.engine = None;
    assert_eq!(tool_missing(b), "terminal_slots");
    let mut b = full_tool_builder();
    b.output_adapter = None;
    assert_eq!(tool_missing(b), "output_adapter");
    let mut b = full_tool_builder();
    b.input_schema = None;
    b.seed_adapter = None;
    assert_eq!(tool_missing(b), "input_schema");
    let msg = FlowAsToolBuildError::MissingField("engine").message();
    assert_eq!(msg, "FlowAsTool builder missing field: engine");
}

#[test]
fn built_tool_reports_what_the_builder_held() {
    let tool = match full_tool_builder().build() {
        Ok(t) => t,
        Err(_) => panic!("complete builder must build"),
    };
    assert_eq!(tool.flow_id().as_str(), "test.tool.flow");
    assert_eq!(tool.tool_id().as_str(), "test.tool.id");
    assert_eq!(tool.revision(), FlowRevisionId(7));
    assert_eq!(*tool.topology(), "topology");
    assert_eq!(*tool.engine(), "engine");
    assert_eq!(tool.terminal_slots().len(), 1);
    assert_eq!(*tool.output_schema(), obj(vec![("type", jstr("integer"))]));
    let def = tool.definition();
    assert_eq!(def.name, "incrementer");
    assert_eq!(def.description, "increments");
    assert_eq!(def.input_schema, obj(vec![("type", jstr("object"))]));
}

#[test]
fn service_builder_names_the_first_missing_field_and_builds_when_complete() {
    let b = Service::builder()
        .flow_id(fid("test.service.flow"))
        .revision(FlowRevisionId(3))
        .topology("topology")
        .terminal_slots(vec![slot("test.inc", "out")])
        .engine("engine")
        .service_id(kid("test.service.id"))
        .name("svc".to_string())
        .description("does things".to_string())
        .event_sink(1)
        .event_subscriber(2);
    let b2 = Service::builder().flow_id(fid("test.service.flow"));
    match b2.build() {
        Err(FlowAsServiceBuildError::MissingField(f)) => assert_eq!(f, "revision"),
        Ok(_) => panic!("must fail"),
    }
    let b = b.seed_adapter(3);
    let partial = Service::builder()
        .flow_id(fid("test.service.flow"))
        .revision(FlowRevisionId(3))
        .topology("topology")
        .terminal_slots(vec![slot("test.inc", "out")])
        .engine("engine")
        .service_id(kid("test.service.id"))
        .name("svc".to_string())
        .description("does things".to_string())
        .event_sink(1)
        .event_subscriber(2)
        .seed_adapter(3);
    match partial.build() {
        Err(e) => {
            assert!(matches!(e, FlowAsServiceBuildError::MissingField("principal")));
            assert_eq!(e.message(), "FlowAsService builder missing field: principal");
        }
        Ok(_) => panic!("must fail"),
    }
    let svc = match b.principal(admin()).build() {
        Ok(s) => s,
        Err(_) => panic!("complete builder must build"),
    };
    assert_eq!(svc.flow_id().as_str(), "test.service.flow");
    assert_eq!(svc.service_id().as_str(), "test.service.id");
    assert_eq!(svc.display_name(), "svc");
    assert_eq!(svc.description(), "does things");
    assert_eq!(svc.name(), "starter.flow-as-service");
    assert_eq!(svc.principal().subject, "system/Admin");
    assert_eq!(*svc.seed_adapter(), 3);
}

#[test]
fn failure_latch_keeps_the_first_node_failure() {
    let mut latch = FailureLatch::new();
    latch.observe(&FlowEvent::NodeStarted { run: RunId(1), node: nid("test.a") });
    latch.observe(&FlowEvent::NodeFailed { run: RunId(1), node: nid("test.a"), error: "boom".to_string() });
    latch.observe(&FlowEvent::NodeFailed { run: RunId(1), node: nid("test.b"), error: "later".to_string() });
    assert_eq!(latch.take(), Some(("test.a".to_string(), "boom".to_string())));
    assert_eq!(FailureLatch::new().take(), None);
}

#[test]
fn terminal_output_is_keyed_node_dot_slot_and_skips_failed_reads() {
    assert_eq!(terminal_output_key(&slot("test.inc", "out")), "test.inc.out");
    let slots = vec![slot("test.a", "x"), slot("test.b", "y"), slot("test.a", "x")];
    let reads = vec![Some(SlotValue::Int(1)), None, Some(SlotValue::Int(3))];
    let out = collect_terminal_output(&slots, reads);
    assert_eq!(out.len(), 1);
    assert_eq!(out.get("test.a.x"), Some(&SlotValue::Int(3)));
    assert_eq!(out.get("test.b.y"), None);
}

#[test]
fn run_end_maps_to_tool_result() {
    let out = SlotMap::singleton("test.inc.out".to_string(), SlotValue::Int(8));
    match tool_run_result(RunEnd::Completed, None, out) {
        Ok(m) => assert_eq!(m.get("test.inc.out"), Some(&SlotValue::Int(8))),
        Err(_) => panic!("completed run must succeed"),
    }
    let failed = tool_run_result(
        RunEnd::Completed,
        Some(("test.inc".to_string(), "boom".to_string())),
        SlotMap::new(),
    );
    match failed {
        Err(e) => assert_eq!(e.message(), "flow run failed: node test.inc returned boom"),
        Ok(_) => panic!("node failure must surface"),
    }
    match tool_run_result(RunEnd::Failed("propagator".to_string()), None, SlotMap::new()) {
        Err(e) => assert_eq!(e.message(), "flow run failed: propagator"),
        Ok(_) => panic!(),
    }
    match tool_run_result(RunEnd::Cancelled, None, SlotMap::new()) {
        Err(e) => assert_eq!(e.message(), "flow run cancelled"),
        Ok(_) => panic!(),
    }
    match tool_run_result(RunEnd::Other("Running".to_string()), None, SlotMap::new()) {
        Err(e) => assert_eq!(e.message(), "flow run terminated in non-terminal status: Running"),
        Ok(_) => panic!(),
    }
    assert_eq!(ToolRunError::TimedOut.message(), "flow invocation timed out");
    assert_eq!(
        ToolRunError::StartRefused("engine degraded".to_string()).message(),
        "flow start refused: engine degraded"
    );
}

#[test]
fn delivery_short_circuits_on_a_known_dedup_key() {
    match dedup_decision(Some(Ok(Some(RunId(9))))) {
        Some(FlowEvent::DedupShortCircuit { prior_run_id }) => assert_eq!(prior_run_id, RunId(9)),
        _ => panic!("must short-circuit"),
    }
    assert!(dedup_decision(Some(Ok(None))).is_none());
    assert!(dedup_decision(Some(Err("db down".to_string()))).is_none());
    assert!(dedup_decision(None).is_none());
    assert!(matches!(seed_decision(0), Delivery::Skip));
    assert!(matches!(seed_decision(2), Delivery::Start));
    assert_eq!(delivery_outcome(&Delivery::Start, true), Some(()));
    assert_eq!(delivery_outcome(&Delivery::Start, false), None);
    assert_eq!(delivery_outcome(&Delivery::Skip, true), None);
}

fn outline(flow: &str) -> FlowOutline {
    FlowOutline { flow_id: fid(flow), node_ids: vec![nid("test.inc")] }
}

fn registration(flow: &str, revision: FlowRevisionId) -> Registration {
    FlowRegistration::new(
        "body",
        outline(flow),
        revision,
        kid("test.flow-registry.tool"),
        "incrementer".to_string(),
        "increments the integer at `in`".to_string(),
    )
    .input_schema(obj(vec![("type", jstr("object"))]))
    .output_schema(obj(vec![("type", jstr("integer"))]))
    .with_default_adapters(slot("test.inc", "in"), slot("test.inc", "out"))
}

#[test]
fn register_resolve_returns_topology_and_terminals() {
    let mut registry = Registry::new();
    let flow_id = fid("test.flow-registry.resolve");
    let revision = FlowRevisionId(11);
    registry
        .register(registration("test.flow-registry.resolve", revision), Ok("topology"))
        .expect("register succeeds");
    let resolved = match registry.resolve(&flow_id, &revision) {
        Ok(r) => r,
        Err(_) => panic!("resolve hits"),
    };
    assert_eq!(resolved.topology, "topology");
    assert_eq!(resolved.terminal_slots.len(), 1);
    assert_eq!(resolved.terminal_slots[0].node.as_str(), "test.inc");
    assert_eq!(resolved.terminal_slots[0].slot, "out");
    assert_eq!(resolved.name, "incrementer");
    assert_eq!(resolved.tool_id.as_str(), "test.flow-registry.tool");
    assert!(matches!(&resolved.output_adapter, OutputAdapter::FromSlot(k) if k == "test.inc.out"));
    assert!(matches!(&resolved.seed_adapter, SeedAdapter::IntoSlot(s) if s.slot == "in"));
    assert_eq!(registry.len(), 1);
    assert!(!registry.is_empty());
}

#[test]
fn resolve_unknown_pair_returns_not_found() {
    let registry = Registry::new();
    let err = match registry.resolve(&fid("test.flow-registry.missing"), &FlowRevisionId(1)) {
        Ok(_) => panic!("missing pair must error"),
        Err(e) => e,
    };
    assert!(matches!(err, FlowRegistryError::NotFound { .. }));
    assert_eq!(
        err.message(),
        "no flow registered under test.flow-registry.missing revision 00000000-0000-0000-0000-000000000001"
    );
}

#[test]
fn duplicate_revision_is_refused() {
    let mut registry = Registry::new();
    let revision = FlowRevisionId(5);
    registry.register(registration("test.flow-registry.dup", revision), Ok("t")).expect("first register succeeds");
    let err = registry
        .register(registration("test.flow-registry.dup", revision), Ok("t"))
        .expect_err("second register must fail");
    assert!(matches!(err, FlowRegistryError::DuplicateRevision { .. }));
    assert_eq!(
        err.message(),
        "flow test.flow-registry.dup revision 00000000-0000-0000-0000-000000000005 is already registered"
    );
    assert_eq!(registry.len(), 1);
    registry
        .register(registration("test.flow-registry.dup", FlowRevisionId(6)), Ok("t"))
        .expect("another revision registers");
    assert_eq!(registry.len(), 2);
}

#[test]
fn unknown_terminal_node_is_caught_at_register_time() {
    let mut registry = Registry::new();
    let spec = FlowRegistration::new(
        "body",
        outline("test.flow-registry.bad-terminal"),
        FlowRevisionId(2),
        kid("test.flow-registry.bad"),
        "bad".to_string(),
        "bad".to_string(),
    )
    .terminal_slots(vec![slot("test.not-declared", "out")])
    .with_adapters(1u8, 2u8);
    let err = registry.register(spec, Ok("t")).expect_err("bad terminal node must fail");
    assert!(matches!(err, FlowRegistryError::UnknownTerminalNode { .. }));
    assert_eq!(
        err.message(),
        "terminal slot SlotRef { node: NodeId(\"test.not-declared\"), slot: \"out\" } references node `test.not-declared` not declared in flow body"
    );
    assert!(registry.is_empty());
}

#[test]
fn registration_missing_parts_is_refused_in_order() {
    let mut registry = Registry::new();
    let bare = FlowRegistration::<&'static str, u8, u8>::new(
        "body",
        outline("test.flow-registry.bare"),
        FlowRevisionId(1),
        kid("test.flow-registry.tool"),
        "n".to_string(),
        "d".to_string(),
    );
    let err = registry.register(bare, Ok("t")).expect_err("no terminals");
    assert_eq!(
        err.message(),
        "topology resolve failed for test.flow-registry.bare revision 00000000-0000-0000-0000-000000000001: FlowRegistration is missing terminal_slots (call `.terminal_slots(...)` or `.with_default_adapters(...)`)"
    );
    let mut no_seed = FlowRegistration::<&'static str, u8, u8>::new(
        "body",
        outline("test.flow-registry.bare"),
        FlowRevisionId(1),
        kid("test.flow-registry.tool"),
        "n".to_string(),
        "d".to_string(),
    )
    .terminal_slots(vec![slot("test.inc", "out")]);
    no_seed.output_adapter = Some(OutputAdapter::Custom(2));
    match registry.register(no_seed, Ok("t")) {
        Err(FlowRegistryError::Resolve { error: TopologyError::BodyShape { detail }, .. }) => assert_eq!(
            detail,
            "FlowRegistration is missing a seed_adapter (call `.with_adapters(...)` or `.with_default_adapters(...)`)"
        ),
        _ => panic!("missing seed adapter must fail"),
    }
    let spec = registration("test.flow-registry.bare", FlowRevisionId(1));
    match registry.register(spec, Err(TopologyError::Resolver("unknown kind".to_string()))) {
        Err(FlowRegistryError::Resolve { error: TopologyError::Resolver(s), .. }) => assert_eq!(s, "unknown kind"),
        _ => panic!("resolver failure must surface"),
    }
    assert!(registry.is_empty());
}

#[test]
fn default_adapters_add_the_output_slot_once() {
    let r = registration("test.flow-registry.once", FlowRevisionId(1));
    assert_eq!(r.terminal_slots.len(), 1);
    let r2 = FlowRegistration::<&'static str, u8, u8>::new(
        "body",
        outline("test.flow-registry.once"),
        FlowRevisionId(1),
        kid("test.flow-registry.tool"),
        "n".to_string(),
        "d".to_string(),
    )
    .terminal_slots(vec![slot("test.inc", "out")])
    .with_default_adapters(slot("test.inc", "in"), slot("test.inc", "out"));
    assert_eq!(r2.terminal_slots.len(), 1);
    assert_eq!(r2.input_schema, JsonValue::Object(Vec::new()));
    let seeds = default_seeds(&slot("test.inc", "in"), &JsonValue::Number(JsonNumber::PosInt(7)));
    assert_eq!(seeds.len(), 1);
    assert_eq!(seeds[0].1, SlotValue::Json(JsonValue::Number(JsonNumber::PosInt(7))));
    let mut out = SlotMap::new();
    out.insert("test.inc.out".to_string(), SlotValue::Json(JsonValue::Number(JsonNumber::PosInt(8))));
    out.insert("test.inc.raw".to_string(), SlotValue::Bytes(vec![1, 2]));
    out.insert("test.inc.none".to_string(), SlotValue::Null);
    assert_eq!(default_output(&out, "test.inc.out"), Some(JsonValue::Number(JsonNumber::PosInt(8))));
    assert_eq!(default_output(&out, "test.inc.none"), Some(JsonValue::Null));
    assert_eq!(default_output(&out, "test.inc.missing"), Some(JsonValue::Null));
    assert_eq!(default_output(&out, "test.inc.raw"), None);
}

#[test]
fn from_registry_builds_tool_that_runs_end_to_end() {
    let mut registry = Registry::new();
    let flow_id = fid("test.flow-registry.run");
    let revision = FlowRevisionId(21);
    registry.register(registration("test.flow-registry.run", revision), Ok("topology")).expect("register");
    let tool = match FlowAsTool::from_registry(&registry, &flow_id, &revision, "engine") {
        Ok(t) => t,
        Err(_) => panic!("from_registry"),
    };
    let def = tool.definition();
    assert_eq!(def.name, "incrementer");
    assert_eq!(def.input_schema, obj(vec![("type", jstr("object"))]));
    assert_eq!(*tool.output_schema(), obj(vec![("type", jstr("integer"))]));
    assert_eq!(*tool.topology(), "topology");
    assert_eq!(*tool.engine(), "engine");
    match FlowAsTool::<&'static str, &'static str, SeedAdapter<u8>, OutputAdapter<u8>>::from_registry(
        &registry,
        &flow_id,
        &FlowRevisionId(22),
        "engine",
    ) {
        Err(FromRegistryError::NotRegistered(FlowRegistryError::NotFound { .. })) => {}
        _ => panic!("unregistered pair must fail"),
    }
}

#[test]
fn register_all_stops_at_the_first_refusal() {
    let mut registry = Registry::new();
    let specs = vec![
        (registration("test.flow-registry.a", FlowRevisionId(1)), Ok("t")),
        (registration("test.flow-registry.b", FlowRevisionId(1)), Ok("t")),
        (registration("test.flow-registry.a", FlowRevisionId(1)), Ok("t")),
        (registration("test.flow-registry.c", FlowRevisionId(1)), Ok("t")),
    ];
    match register_all(&mut registry, specs) {
        Err((k, FlowRegistryError::DuplicateRevision { .. })) => assert_eq!(k, 2),
        _ => panic!("third registration must be refused"),
    }
    assert_eq!(registry.len(), 2);
}

#[test]
fn check_terminal_slots_reports_the_first_undeclared_node() {
    let ids = vec![nid("test.a"), nid("test.b")];
    assert!(check_terminal_slots(&ids, &vec![slot("test.a", "x"), slot("test.b", "y")]).is_ok());
    match check_terminal_slots(&ids, &vec![slot("test.a", "x"), slot("test.c", "y"), slot("test.d", "z")]) {
        Err(FlowRegistryError::UnknownTerminalNode { node, .. }) => assert_eq!(node, "test.c"),
        _ => panic!("test.c is not declared"),
    }
}

#[test]
fn register_yaml_rejects_unsupported_extension() {
    assert!(matches!(body_format("flows/a.yaml"), Ok(FlowFormat::Yaml)));
    assert!(matches!(body_format("flows/a.YML"), Ok(FlowFormat::Yaml)));
    assert!(matches!(body_format("flows/a.json"), Ok(FlowFormat::Json)));
    match body_format("flows/a.toml") {
        Err(e) => {
            assert!(matches!(e, FlowRegistryError::YamlShape { .. }));
            assert_eq!(e.message(), "flow YAML invalid at flows/a.toml: unsupported extension; expected .yaml / .yml / .json");
        }
        Ok(_) => panic!("toml is not a flow file"),
    }
}

#[test]
fn removal_finds_the_flow_the_file_was_published_as() {
    let mut paths = PublishedPaths::from_boot(vec![
        ("flows/a.yaml".to_string(), fid("test.watch.a")),
        ("flows/b.yaml".to_string(), fid("test.watch.b")),
    ]);
    paths.record("flows/a.yaml".to_string(), fid("test.watch.a2"));
    assert_eq!(paths.take("flows/a.yaml").map(|f| f.as_str().to_string()), Some("test.watch.a2".to_string()));
    assert!(paths.take("flows/a.yaml").is_none());
    assert_eq!(paths.take("flows/b.yaml").map(|f| f.as_str().to_string()), Some("test.watch.b".to_string()));
    assert!(PublishedPaths::new().take("flows/x.yaml").is_none());
}

#[test]
fn json_copy_is_deep() {
    let v = obj(vec![
        ("a", JsonValue::Array(vec![JsonValue::Bool(true), jstr("x")])),
        ("b", obj(vec![("c", JsonValue::Null)])),
    ]);
    let c = copy_json(&v);
    assert_eq!(c, v);
    assert_eq!(v.clone(), v);
}

#[test]
fn scheduler_defaults_and_concurrency_floor() {
    let s = Scheduler::new("pool", "registry", "runner", "clock");
    assert_eq!(s.tick_interval_ms(), 60_000);
    assert_eq!(s.max_concurrent_dispatch(), 16);
    assert_eq!(s.dispatch_timeout_ms(), 30_000);
    let s = s.with_max_concurrent_dispatch(0).with_tick_interval(5_000).with_dispatch_timeout(1_500);
    assert_eq!(s.max_concurrent_dispatch(), 1);
    assert_eq!(s.tick_interval_ms(), 5_000);
    assert_eq!(s.dispatch_timeout_ms(), 1_500);
    let s = s.with_clock(7u8);
    assert_eq!(*s.clock(), 7u8);
    assert_eq!(*s.pool(), "pool");
    assert_eq!(s.with_max_concurrent_dispatch(32).max_concurrent_dispatch(), 32);
}

#[test]
fn dispatch_timeout_message_writes_the_budget_as_debug_does() {
    for ms in [0u64, 1, 250, 999, 1000, 1001, 1010, 1500, 30_000, 61_234, 3_600_000] {
        let expected = format!("{:?}", std::time::Duration::from_millis(ms));
        assert_eq!(format_millis_debug(ms), expected, "{ms} ms");
    }
    assert_eq!(dispatch_timeout_message(30_000), "flow dispatch exceeded 30s budget");
}

type SeedFn = fn(&JsonValue) -> Vec<(SlotRef, SlotValue)>;
type OutputFn = fn(&SlotMap) -> JsonValue;
type AdaptedTool = FlowAsTool<&'static str, &'static str, SeedAdapter<SeedFn>, OutputAdapter<OutputFn>>;

fn wrap_in_object(input: &JsonValue) -> Vec<(SlotRef, SlotValue)> {
    vec![(slot("test.in", "wrapped"), SlotValue::Json(JsonValue::Array(vec![copy_json(input)])))]
}

fn count_entries(out: &SlotMap) -> JsonValue {
    JsonValue::Number(JsonNumber::PosInt(out.len() as u64))
}

fn adapted_tool(seed: SeedAdapter<SeedFn>, output: OutputAdapter<OutputFn>) -> AdaptedTool {
    let b = AdaptedTool::builder()
        .flow_id(fid("test.tool.flow"))
        .revision(FlowRevisionId(7))
        .topology("topology")
        .terminal_slots(vec![slot("test.inc", "out")])
        .engine("engine")
        .tool_id(kid("test.tool.id"))
        .name("adapted".to_string())
        .description("adapted".to_string())
        .input_schema(JsonValue::Null)
        .output_schema(JsonValue::Null)
        .seed_adapter(seed)
        .output_adapter(output);
    match b.build() {
        Ok(t) => t,
        Err(_) => panic!("every field was given"),
    }
}

#[test]
fn default_seed_adapter_writes_the_whole_input_into_its_slot() {
    let adapter: SeedAdapter<SeedFn> = SeedAdapter::IntoSlot(slot("test.in", "payload"));
    let seeds = apply_seed_adapter(&adapter, &jstr("hello"));
    assert_eq!(seeds.len(), 1);
    assert_eq!(seeds[0].0.node.as_str(), "test.in");
    assert_eq!(seeds[0].0.slot, "payload");
    assert_eq!(seeds[0].1, SlotValue::Json(jstr("hello")));
}

#[test]
fn custom_seed_adapter_is_called_on_the_input() {
    let adapter: SeedAdapter<SeedFn> = SeedAdapter::Custom(wrap_in_object);
    let seeds = apply_seed_adapter(&adapter, &jstr("hello"));
    assert_eq!(seeds.len(), 1);
    assert_eq!(seeds[0].0.slot, "wrapped");
    assert_eq!(seeds[0].1, SlotValue::Json(JsonValue::Array(vec![jstr("hello")])));
}

#[test]
fn default_output_adapter_reads_its_key() {
    let adapter: OutputAdapter<OutputFn> = OutputAdapter::FromSlot("result".to_string());
    let mut out = SlotMap::new();
    out.insert("result".to_string(), SlotValue::Json(JsonValue::Bool(true)));
    assert_eq!(apply_output_adapter(&adapter, &out), Some(JsonValue::Bool(true)));
    assert_eq!(apply_output_adapter(&adapter, &SlotMap::new()), Some(JsonValue::Null));
    let mut null_out = SlotMap::new();
    null_out.insert("result".to_string(), SlotValue::Null);
    assert_eq!(apply_output_adapter(&adapter, &null_out), Some(JsonValue::Null));
    let mut text_out = SlotMap::new();
    text_out.insert("result".to_string(), SlotValue::String("plain".to_string()));
    assert_eq!(apply_output_adapter(&adapter, &text_out), None);
}

#[test]
fn custom_output_adapter_is_called_on_the_output_map() {
    let adapter: OutputAdapter<OutputFn> = OutputAdapter::Custom(count_entries);
    let mut out = SlotMap::new();
    out.insert("a".to_string(), SlotValue::Int(1));
    out.insert("b".to_string(), SlotValue::Int(2));
    assert_eq!(apply_output_adapter(&adapter, &out), Some(JsonValue::Number(JsonNumber::PosInt(2))));
}

#[test]
fn tool_seeds_and_result_go_through_its_adapters() {
    let tool = adapted_tool(SeedAdapter::Custom(wrap_in_object), OutputAdapter::Custom(count_entries));
    let seeds = tool.seeds_for(&JsonValue::Bool(false));
    assert_eq!(seeds[0].1, SlotValue::Json(JsonValue::Array(vec![JsonValue::Bool(false)])));
    let mut out = SlotMap::new();
    out.insert("x".to_string(), SlotValue::Null);
    match tool.call_result(Ok(out)) {
        Ok(r) => assert_eq!(r, Some(JsonValue::Number(JsonNumber::PosInt(1)))),
        Err(_) => panic!("a completed run is no error"),
    }
    match tool.call_result(Err(ToolRunError::StartRefused("busy".to_string()))) {
        Err(ToolRunError::StartRefused(reason)) => assert_eq!(reason, "busy"),
        _ => panic!("a run error is the call's error"),
    }
}

#[test]
fn tool_with_default_adapters_seeds_its_slot_and_reads_its_key() {
    let tool = adapted_tool(
        SeedAdapter::IntoSlot(slot("test.in", "payload")),
        OutputAdapter::FromSlot("answer".to_string()),
    );
    let seeds = tool.seeds_for(&jstr("q"));
    assert_eq!(seeds.len(), 1);
    assert_eq!(seeds[0].0.slot, "payload");
    let mut out = SlotMap::new();
    out.insert("answer".to_string(), SlotValue::Json(jstr("a")));
    match tool.call_result(Ok(out)) {
        Ok(r) => assert_eq!(r, Some(jstr("a"))),
        Err(_) => panic!("a completed run is no error"),
    }
}
