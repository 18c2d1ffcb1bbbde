use starter_flow_core::settings::{
    default_validate, failure_of_debug, jsonschema_rule, settings_verdict, SchemaFailure, SchemaReport,
    SettingsError, EMPTY_SCHEMA,
};

fn json(text: &str) -> serde_json::Value {
    serde_json::from_str(text).unwrap()
}

fn schema(text: &str) -> schemars::schema::RootSchema {
    serde_json::from_str(text).unwrap()
}

/// The schema derived for `{ provider_id: String, #[serde(default)] cost_cap: f64 }`
/// with unknown fields denied.
fn demo_schema() -> schemars::schema::RootSchema {
    schema(
        r#"{
            "$schema": "http://json-schema.org/draft-07/schema#",
            "title": "Demo",
            "type": "object",
            "required": ["provider_id"],
            "properties": {
                "cost_cap": {"default": 0.0, "type": "number", "format": "double"},
                "provider_id": {"type": "string"}
            },
            "additionalProperties": false
        }"#,
    )
}

#[test]
fn empty_schema_accepts_any_body() {
    let body = json(r#"{ "anything": [1, 2, 3] }"#);
    assert!(default_validate(&schema(EMPTY_SCHEMA), &body).is_ok());
}

#[test]
fn happy_path_validates() {
    let body = json(r#"{ "provider_id": "acme/model" }"#);
    assert!(default_validate(&demo_schema(), &body).is_ok());
}

#[test]
fn wrong_type_reports_pointer_and_rule() {
    let body = json(r#"{ "provider_id": "acme/model", "cost_cap": "banana" }"#);
    match default_validate(&demo_schema(), &body) {
        Err(SettingsError::SchemaViolation { pointer, rule, .. }) => {
            assert_eq!(pointer, "/cost_cap", "JSON Pointer at the offending field");
            assert_eq!(rule, "type", "rule is the schema keyword");
        }
        other => panic!("expected SchemaViolation, got {other:?}"),
    }
}

#[test]
fn missing_required_field_rejected() {
    match default_validate(&demo_schema(), &json("{}")) {
        Err(SettingsError::SchemaViolation { rule, .. }) => assert_eq!(rule, "required"),
        other => panic!("expected SchemaViolation, got {other:?}"),
    }
}

#[test]
fn unknown_field_rejected_under_deny_unknown_fields() {
    let body = json(r#"{ "provider_id": "acme/model", "typo_field": 42 }"#);
    match default_validate(&demo_schema(), &body) {
        Err(SettingsError::SchemaViolation { rule, .. }) => assert_eq!(rule, "additionalProperties"),
        other => panic!("expected SchemaViolation, got {other:?}"),
    }
}

#[test]
fn schema_that_does_not_compile_is_a_root_violation() {
    let bad = schema(r#"{ "multipleOf": 0 }"#);
    match default_validate(&bad, &json("{}")) {
        Err(SettingsError::SchemaViolation { pointer, rule, detail }) => {
            assert_eq!(pointer, "");
            assert_eq!(rule, "schema");
            assert!(detail.starts_with("could not compile node-kind schema: "));
        }
        other => panic!("expected SchemaViolation, got {other:?}"),
    }
}

#[test]
fn failure_kinds_map_to_stable_keywords() {
    assert_eq!(failure_of_debug("Required { property: String(\"x\") }"), SchemaFailure::Required);
    assert_eq!(failure_of_debug("OneOfNotValid"), SchemaFailure::OneOfNotValid);
    assert_eq!(failure_of_debug("JSONParse { error: .. }"), SchemaFailure::JsonParse);
    assert_eq!(failure_of_debug("Brand new"), SchemaFailure::Other);
    assert_eq!(jsonschema_rule(SchemaFailure::OneOfMultipleValid), "oneOf");
    assert_eq!(jsonschema_rule(SchemaFailure::FileNotFound), "resolver");
    assert_eq!(jsonschema_rule(SchemaFailure::Constant), "const");
    assert_eq!(jsonschema_rule(SchemaFailure::UnevaluatedProperties), "unknown");
    match settings_verdict(SchemaReport::Violation(
        "/a".to_string(),
        "Maximum { limit: Number(3) }".to_string(),
        "5 is greater than the maximum of 3".to_string(),
    )) {
        Err(e) => assert_eq!(
            e.message(),
            "settings schema violation at `/a` (rule `maximum`): 5 is greater than the maximum of 3"
        ),
        Ok(()) => panic!("a violation must be refused"),
    }
    assert!(settings_verdict(SchemaReport::Valid).is_ok());
    let domain = SettingsError::Domain { code: "auth_token_required", detail: "bearer needs a token".to_string() };
    assert_eq!(domain.message(), "settings domain rule violation [auth_token_required]: bearer needs a token");
    let bad: Result<u8, serde_json::Error> = serde_json::from_str("nope");
    let de: SettingsError = bad.unwrap_err().into();
    assert!(de.message().starts_with("settings deserialisation failed: "));
}
