use starter_flow_core::definition::DefinitionSource;
use starter_flow_core::ids::FlowId;
use starter_flow_core::json::JsonValue;
use starter_flow_core::watch::{
    flow_format, flow_from_body, publish_failure, remove_action, upsert_action, FileAction, FileEvent,
    FlowFormat, PendingEvents, WatchConfig, WatchError, DEFAULT_DEBOUNCE_MS,
};

fn flow_body(flow_id: Option<&str>) -> JsonValue {
    let mut members = Vec::new();
    if let Some(id) = flow_id {
        members.push(("flow_id".to_string(), JsonValue::String(id.to_string())));
    }
    members.push(("links".to_string(), JsonValue::Array(Vec::new())));
    members.push(("nodes".to_string(), JsonValue::Array(Vec::new())));
    JsonValue::Object(members)
}

#[test]
fn parses_json_file() {
    assert!(matches!(flow_format("dir/a.json"), Ok(FlowFormat::Json)));
    let parsed = flow_from_body("dir/a.json".to_string(), flow_body(Some("examples.watch.a"))).unwrap();
    assert_eq!(parsed.flow_id.as_str(), "examples.watch.a");
}

#[test]
fn parses_yaml_file() {
    assert!(matches!(flow_format("dir/a.yaml"), Ok(FlowFormat::Yaml)));
    assert!(matches!(flow_format("dir/a.YML"), Ok(FlowFormat::Yaml)));
    let parsed = flow_from_body("dir/a.yaml".to_string(), flow_body(Some("examples.watch.a"))).unwrap();
    assert_eq!(parsed.flow_id.as_str(), "examples.watch.a");
}

#[test]
fn missing_flow_id_errors() {
    let err = flow_from_body("dir/a.json".to_string(), flow_body(None)).unwrap_err();
    assert!(matches!(err, WatchError::MissingFlowId { .. }));
    let not_object = flow_from_body("dir/a.json".to_string(), JsonValue::Array(Vec::new())).unwrap_err();
    assert!(matches!(not_object, WatchError::MissingFlowId { .. }));
}

#[test]
fn unsupported_extension_errors() {
    let err = flow_format("dir/a.toml").unwrap_err();
    assert!(matches!(err, WatchError::UnsupportedExtension { ref path } if path == "dir/a.toml"));
    assert!(matches!(flow_format("dir/noext"), Err(WatchError::UnsupportedExtension { .. })));
}

#[test]
fn parse_flow_file_preserves_body() {
    let parsed = flow_from_body("dir/a.json".to_string(), flow_body(Some("examples.watch.a"))).unwrap();
    assert_eq!(parsed.body, flow_body(Some("examples.watch.a")));
    assert_eq!(parsed.path, "dir/a.json");
}

#[test]
fn invalid_flow_id_names_the_value() {
    match flow_from_body("dir/a.json".to_string(), flow_body(Some("Not Valid"))) {
        Err(WatchError::InvalidFlowId { value, error, .. }) => {
            assert_eq!(value, "Not Valid");
            assert_eq!(error, "not a valid reverse-DNS id: Not Valid");
        }
        _ => panic!("an invalid id must be refused"),
    }
}

#[test]
fn file_events_become_manager_actions() {
    assert!(matches!(
        upsert_action(Err(WatchError::UnsupportedExtension { path: "a.toml".to_string() })),
        FileAction::Ignore
    ));
    assert!(matches!(
        upsert_action(Err(WatchError::MissingFlowId { path: "a.json".to_string() })),
        FileAction::Fail(WatchError::MissingFlowId { .. })
    ));
    let parsed = flow_from_body("dir/a.json".to_string(), flow_body(Some("examples.watch.a"))).unwrap();
    match upsert_action(Ok(parsed)) {
        FileAction::Publish(p, DefinitionSource::File { path }) => {
            assert_eq!(p.flow_id.as_str(), "examples.watch.a");
            assert_eq!(path, "dir/a.json");
        }
        _ => panic!("a parsed flow is published"),
    }
    assert!(matches!(remove_action("dir/a.json".to_string(), None), FileAction::Ignore));
    let flow = FlowId::new("examples.watch.a".to_string()).unwrap();
    match remove_action("dir/a.json".to_string(), Some(flow)) {
        FileAction::Delete(f, DefinitionSource::File { path }) => {
            assert_eq!(f.as_str(), "examples.watch.a");
            assert_eq!(path, "dir/a.json");
        }
        _ => panic!("a published file's removal deletes its flow"),
    }
    assert!(matches!(
        publish_failure("dir/a.json".to_string(), "store down".to_string()),
        WatchError::Io { ref path, ref error } if path == "dir/a.json" && error == "store down"
    ));
}

#[test]
fn pending_events_keep_the_latest_per_path() {
    let mut pending = PendingEvents::new();
    pending.insert(FileEvent::Upsert("a.yaml".to_string()));
    pending.insert(FileEvent::Upsert("b.yaml".to_string()));
    pending.insert(FileEvent::Remove("a.yaml".to_string()));
    let drained = pending.drain();
    assert_eq!(
        drained,
        vec![FileEvent::Remove("a.yaml".to_string()), FileEvent::Upsert("b.yaml".to_string())]
    );
    assert!(pending.drain().is_empty());
    let config = WatchConfig::new("flows".to_string());
    assert_eq!(config.debounce_ms, DEFAULT_DEBOUNCE_MS);
    assert_eq!(DEFAULT_DEBOUNCE_MS, 200);
}
